//! Times as text: `ss.mmm`, `mm:ss.mmm` or `hh:mm:ss.mmm`.
//!
//! A time is split at its colons into at most three fields, and each field
//! is given its unit. Reading a field as a number is left to the caller,
//! who reports a field that is no number with `invalid_field_error`.

use vstd::prelude::*;
use vstd::std_specs::iter::IteratorSpec;
use vstd::string::{StrSliceExecFns, StringExecFns};

verus! {

/// The character that separates the fields of a time.
pub const FIELD_SEPARATOR: char = ':';

/// The largest number of fields that a time has.
pub const MAX_FIELDS: usize = 3;

/// The text between the separators of `s`, from left to right. A text
/// without a separator is one piece; each separator starts another.
pub open spec fn split_fields(s: Seq<char>) -> Seq<Seq<char>>
    decreases s.len(),
{
    if s.len() == 0 {
        seq![Seq::<char>::empty()]
    } else {
        let before = split_fields(s.drop_last());
        if s.last() == FIELD_SEPARATOR {
            before.push(Seq::<char>::empty())
        } else {
            before.drop_last().push(before.last().push(s.last()))
        }
    }
}

/// The pieces put together again, with a separator between each two.
pub open spec fn join_fields(pieces: Seq<Seq<char>>) -> Seq<char>
    decreases pieces.len(),
{
    if pieces.len() == 0 {
        Seq::<char>::empty()
    } else if pieces.len() == 1 {
        pieces[0]
    } else {
        join_fields(pieces.drop_last()) + seq![FIELD_SEPARATOR] + pieces.last()
    }
}

/// The unit of a field of a time.
#[derive(Debug, Clone, Copy, PartialEq, Eq, Structural)]
pub enum TimeUnit {
    Hours,
    Minutes,
    Seconds,
}

impl TimeUnit {
    /// The unit of the field at `index` in a time of `count` fields: the
    /// last field holds seconds, the one before it minutes, the one before
    /// that hours.
    pub open spec fn of_field(count: nat, index: nat) -> TimeUnit {
        if index + 1 == count {
            TimeUnit::Seconds
        } else if index + 2 == count {
            TimeUnit::Minutes
        } else {
            TimeUnit::Hours
        }
    }

    /// The number of seconds in one of the unit.
    pub open spec fn seconds_per_unit(self) -> nat {
        match self {
            TimeUnit::Hours => 3600,
            TimeUnit::Minutes => 60,
            TimeUnit::Seconds => 1,
        }
    }

    /// The number of seconds in one of the unit: what a field of this unit
    /// is multiplied by when a time is added up.
    pub fn seconds(&self) -> (factor: u32)
        ensures
            factor == self.seconds_per_unit(),
    {
        match self {
            TimeUnit::Hours => 3600,
            TimeUnit::Minutes => 60,
            TimeUnit::Seconds => 1,
        }
    }
}

/// One field of a time: its unit and its text.
#[derive(Debug, PartialEq, Eq)]
pub struct TimeField {
    pub unit: TimeUnit,
    pub text: String,
}

/// Why a text is no time.
#[derive(Debug, PartialEq, Eq)]
pub enum TimeParseError {
    /// The text has more than three fields.
    Format { time: String },
    /// The text is a single field, and that is no number.
    SecondsFormat { time: String },
    /// One of several fields is no number.
    Field { unit: TimeUnit, text: String },
}

impl TimeParseError {
    /// The text of the error. It names what could not be read.
    pub open spec fn message_text(self) -> Seq<char> {
        match self {
            TimeParseError::Format { time } => "Invalid time format: "@ + time@
                + ". Expected formats: ss.mmm, mm:ss.mmm, or hh:mm:ss.mmm"@,
            TimeParseError::SecondsFormat { time } => "Invalid seconds format: "@ + time@,
            TimeParseError::Field { unit: TimeUnit::Hours, text } => "Invalid hours: "@ + text@,
            TimeParseError::Field { unit: TimeUnit::Minutes, text } => "Invalid minutes: "@
                + text@,
            TimeParseError::Field { unit: TimeUnit::Seconds, text } => "Invalid seconds: "@
                + text@,
        }
    }

    /// The text of the error, for display.
    pub fn message(&self) -> (text: String)
        ensures
            text@ == self.message_text(),
    {
        match self {
            TimeParseError::Format { time } => {
                let mut message = String::from_str("Invalid time format: ");
                message.append(time.as_str());
                message.append(". Expected formats: ss.mmm, mm:ss.mmm, or hh:mm:ss.mmm");
                message
            },
            TimeParseError::SecondsFormat { time } => {
                let mut message = String::from_str("Invalid seconds format: ");
                message.append(time.as_str());
                message
            },
            TimeParseError::Field { unit, text } => {
                let mut message = match unit {
                    TimeUnit::Hours => String::from_str("Invalid hours: "),
                    TimeUnit::Minutes => String::from_str("Invalid minutes: "),
                    TimeUnit::Seconds => String::from_str("Invalid seconds: "),
                };
                message.append(text.as_str());
                message
            },
        }
    }
}

/// Whether `fields` are the fields of the time `s`: its pieces in order,
/// each with the unit of its position.
pub open spec fn fields_of(fields: Seq<TimeField>, s: Seq<char>) -> bool {
    &&& fields.len() == split_fields(s).len()
    &&& forall|i: int|
        0 <= i < fields.len() ==> {
            &&& (#[trigger] fields[i]).text@ == split_fields(s)[i]
            &&& fields[i].unit == TimeUnit::of_field(fields.len(), i as nat)
        }
}

/// Splits a time at its separators into its fields and gives each its
/// unit. A text with more than three fields is no time.
pub fn split_time_fields(time_str: &str) -> (result: Result<Vec<TimeField>, TimeParseError>)
    ensures
        match result {
            Ok(fields) => {
                &&& split_fields(time_str@).len() <= MAX_FIELDS
                &&& fields_of(fields@, time_str@)
            },
            Err(TimeParseError::Format { time }) => {
                &&& split_fields(time_str@).len() > MAX_FIELDS
                &&& time@ == time_str@
            },
            Err(_) => false,
        },
{
    let length: usize = time_str.unicode_len();
    let mut texts: Vec<String> = Vec::new();
    let mut start: usize = 0;
    let mut i: usize = 0;
    let mut chars = time_str.chars();
    proof {
        assert(time_str@.take(0) =~= Seq::<char>::empty());
        assert(time_str@.skip(0) =~= time_str@);
    }
    loop
        invariant
            length == time_str@.len(),
            start <= i <= length,
            chars.remaining() == time_str@.skip(i as int),
            texts@.len() < MAX_FIELDS,
            split_fields(time_str@.take(i as int)).len() == texts@.len() + 1,
            forall|j: int|
                0 <= j < texts@.len() ==> (#[trigger] texts@[j])@
                    == split_fields(time_str@.take(i as int))[j],
            split_fields(time_str@.take(i as int)).last()
                == time_str@.subrange(start as int, i as int),
        ensures
            i == length,
        decreases length - i,
    {
        let c = match chars.next() {
            Some(c) => c,
            None => break,
        };
        proof {
            assert(time_str@.skip(i as int)[0] == time_str@[i as int]);
            assert(time_str@.skip(i as int).drop_first() =~= time_str@.skip(i + 1));
            assert(time_str@.take(i + 1).drop_last() =~= time_str@.take(i as int));
        }
        if c == FIELD_SEPARATOR {
            if texts.len() + 1 == MAX_FIELDS {
                proof {
                    lemma_split_fields_grows(time_str@, i + 1);
                }
                return Err(TimeParseError::Format { time: String::from_str(time_str) });
            }
            texts.push(String::from_str(time_str.substring_char(start, i)));
            start = i + 1;
            proof {
                assert(time_str@.subrange(start as int, i + 1) =~= Seq::<char>::empty());
            }
        } else {
            proof {
                assert(time_str@.subrange(start as int, i + 1)
                    =~= time_str@.subrange(start as int, i as int).push(c));
            }
        }
        i += 1;
    }
    proof {
        assert(time_str@.take(length as int) =~= time_str@);
    }
    texts.push(String::from_str(time_str.substring_char(start, length)));
    let seconds = texts.pop();
    let minutes = texts.pop();
    let hours = texts.pop();
    let mut fields: Vec<TimeField> = Vec::new();
    if let Some(text) = hours {
        fields.push(TimeField { unit: TimeUnit::Hours, text });
    }
    if let Some(text) = minutes {
        fields.push(TimeField { unit: TimeUnit::Minutes, text });
    }
    if let Some(text) = seconds {
        fields.push(TimeField { unit: TimeUnit::Seconds, text });
    }
    Ok(fields)
}

/// The error for a field that is no number. In a time of a single field the
/// error speaks of the whole time; otherwise it names the unit of the field.
pub fn invalid_field_error(field: &TimeField, field_count: usize) -> (error: TimeParseError)
    ensures
        match error {
            TimeParseError::SecondsFormat { time } => field_count == 1 && time@ == field.text@,
            TimeParseError::Field { unit, text } => {
                &&& field_count != 1
                &&& unit == field.unit
                &&& text@ == field.text@
            },
            TimeParseError::Format { .. } => false,
        },
{
    if field_count == 1 {
        TimeParseError::SecondsFormat { time: field.text.clone() }
    } else {
        TimeParseError::Field { unit: field.unit, text: field.text.clone() }
    }
}

/// A longer text has no fewer pieces than its beginning.
pub proof fn lemma_split_fields_grows(s: Seq<char>, n: int)
    requires
        0 <= n <= s.len(),
    ensures
        split_fields(s.take(n)).len() <= split_fields(s).len(),
        split_fields(s).len() >= 1,
    decreases s.len() - n,
{
    if n == s.len() {
        assert(s.take(n) =~= s);
        lemma_split_fields_nonempty(s);
    } else {
        assert(s.take(n + 1).drop_last() =~= s.take(n));
        lemma_split_fields_nonempty(s.take(n));
        lemma_split_fields_grows(s, n + 1);
    }
}

/// Every text has at least one piece.
pub proof fn lemma_split_fields_nonempty(s: Seq<char>)
    ensures
        split_fields(s).len() >= 1,
    decreases s.len(),
{
    if s.len() > 0 {
        lemma_split_fields_nonempty(s.drop_last());
    }
}

/// Whether no piece holds a separator.
pub open spec fn separator_free(pieces: Seq<Seq<char>>) -> bool {
    forall|i: int, j: int|
        0 <= i < pieces.len() && 0 <= j < pieces[i].len()
            ==> #[trigger] pieces[i][j] != FIELD_SEPARATOR
}

/// Splitting loses nothing: the pieces of a text, joined, are the text.
pub proof fn lemma_split_then_join(s: Seq<char>)
    ensures
        join_fields(split_fields(s)) == s,
    decreases s.len(),
{
    if s.len() == 0 {
        assert(join_fields(split_fields(s)) =~= s);
    } else {
        let before = split_fields(s.drop_last());
        lemma_split_fields_nonempty(s.drop_last());
        lemma_split_then_join(s.drop_last());
        let pieces = split_fields(s);
        if s.last() == FIELD_SEPARATOR {
            assert(pieces.drop_last() =~= before);
            assert(join_fields(pieces) =~= s.drop_last().push(s.last()));
        } else if before.len() == 1 {
            assert(join_fields(pieces) =~= s.drop_last().push(s.last()));
        } else {
            assert(pieces.drop_last() =~= before.drop_last());
            assert(join_fields(pieces) =~= join_fields(before).push(s.last()));
        }
        assert(s.drop_last().push(s.last()) =~= s);
    }
}

/// No piece of a text holds a separator.
pub proof fn lemma_split_fields_separator_free(s: Seq<char>)
    ensures
        separator_free(split_fields(s)),
    decreases s.len(),
{
    if s.len() > 0 {
        lemma_split_fields_nonempty(s.drop_last());
        lemma_split_fields_separator_free(s.drop_last());
    }
}

/// A text that ends in separator-free characters: they lengthen its last piece.
proof fn lemma_split_fields_append(s: Seq<char>, t: Seq<char>)
    requires
        forall|j: int| 0 <= j < t.len() ==> t[j] != FIELD_SEPARATOR,
    ensures
        split_fields(s + t) == split_fields(s).drop_last().push(split_fields(s).last() + t),
    decreases t.len(),
{
    lemma_split_fields_nonempty(s);
    if t.len() == 0 {
        assert(s + t =~= s);
        assert(split_fields(s).last() + t =~= split_fields(s).last());
        assert(split_fields(s).drop_last().push(split_fields(s).last()) =~= split_fields(s));
    } else {
        lemma_split_fields_append(s, t.drop_last());
        assert((s + t).drop_last() =~= s + t.drop_last());
        let before = split_fields(s + t.drop_last());
        assert(before.last().push(t.last()) =~= split_fields(s).last() + t);
        assert(before.drop_last() =~= split_fields(s).drop_last());
    }
}

/// Splitting finds what was joined: the pieces of a text are the only
/// separator-free pieces that join to it.
pub proof fn lemma_join_then_split(pieces: Seq<Seq<char>>)
    requires
        pieces.len() >= 1,
        separator_free(pieces),
    ensures
        split_fields(join_fields(pieces)) == pieces,
    decreases pieces.len(),
{
    let last = pieces.last();
    assert forall|j: int| 0 <= j < last.len() implies last[j] != FIELD_SEPARATOR by {
        assert(pieces[pieces.len() - 1][j] != FIELD_SEPARATOR);
    }
    if pieces.len() == 1 {
        let nothing = Seq::<char>::empty();
        lemma_split_fields_append(nothing, last);
        assert(nothing + last =~= last);
        assert(split_fields(nothing).drop_last().push(split_fields(nothing).last() + last)
            =~= pieces);
    } else {
        let front = pieces.drop_last();
        assert forall|i: int, j: int|
            0 <= i < front.len() && 0 <= j < front[i].len() implies #[trigger] front[i][j]
            != FIELD_SEPARATOR by {
            assert(pieces[i][j] != FIELD_SEPARATOR);
        }
        lemma_join_then_split(front);
        let head = join_fields(front).push(FIELD_SEPARATOR);
        assert(head.drop_last() =~= join_fields(front));
        assert(split_fields(head) == front.push(Seq::<char>::empty()));
        lemma_split_fields_append(head, last);
        assert(join_fields(pieces) =~= head + last);
        assert(front.push(Seq::<char>::empty()).drop_last().push(Seq::<char>::empty() + last)
            =~= pieces);
    }
}

} // verus!
