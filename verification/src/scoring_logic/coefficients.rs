//! The coefficient table: for each gender, the coefficients of each event,
//! found under the event's canonical name.
//!
//! The table is generic in the coefficients themselves. It finds them; what
//! they hold and how a result score is computed from them is the caller's.

use vstd::prelude::*;
use vstd::string::StringExecFns;

use crate::models::Gender;

verus! {

/// The coefficients of one gender, by the canonical name of the event.
pub struct GenderCoefficients<C> {
    /// The names with their coefficients. No name occurs twice.
    events: Vec<(String, C)>,
}

impl<C> View for GenderCoefficients<C> {
    type V = Map<Seq<char>, C>;

    closed spec fn view(&self) -> Map<Seq<char>, C> {
        Map::new(
            |name: Seq<char>| exists|i: int| self.holds_at(name, i),
            |name: Seq<char>| self.events@[choose|i: int| self.holds_at(name, i)].1,
        )
    }
}

impl<C> GenderCoefficients<C> {
    #[verifier::type_invariant]
    spec fn well_formed(self) -> bool {
        forall|i: int, j: int|
            0 <= i < j < self.events@.len() ==> self.events@[i].0@ != self.events@[j].0@
    }

    /// Whether the entry at position `i` is the one of the event `name`.
    spec fn holds_at(self, name: Seq<char>, i: int) -> bool {
        0 <= i < self.events@.len() && self.events@[i].0@ == name
    }

    /// No coefficients at all.
    pub fn new() -> (coefficients: GenderCoefficients<C>)
        ensures
            coefficients@ == Map::<Seq<char>, C>::empty(),
    {
        let coefficients = GenderCoefficients { events: Vec::new() };
        assert(coefficients@ =~= Map::<Seq<char>, C>::empty());
        coefficients
    }

    /// The position of the entry of the event, if it has one.
    fn position(&self, event_name: &str) -> (found: Option<usize>)
        ensures
            match found {
                Some(i) => self.holds_at(event_name@, i as int),
                None => forall|i: int| !self.holds_at(event_name@, i),
            },
    {
        let wanted = String::from_str(event_name);
        let mut i: usize = 0;
        while i < self.events.len()
            invariant
                i <= self.events@.len(),
                wanted@ == event_name@,
                forall|j: int| 0 <= j < i ==> self.events@[j].0@ != event_name@,
            decreases self.events.len() - i,
        {
            if self.events[i].0 == wanted {
                return Some(i);
            }
            i += 1;
        }
        None
    }

    /// Sets the coefficients of the event, in place of those it had before.
    pub fn insert(&mut self, event_name: String, coefficients: C)
        ensures
            final(self)@ == old(self)@.insert(event_name@, coefficients),
    {
        proof {
            use_type_invariant(&*self);
        }
        let ghost name = event_name@;
        let position = self.position(event_name.as_str());
        let mut events: Vec<(String, C)> = Vec::new();
        core::mem::swap(&mut self.events, &mut events);
        match position {
            Some(i) => {
                events[i] = (event_name, coefficients);
            },
            None => {
                events.push((event_name, coefficients));
            },
        }
        proof {
            let before = old(self).events@;
            assert forall|i: int, j: int| 0 <= i < j < events@.len() implies events@[i].0@
                != events@[j].0@ by {
                if j < before.len() {
                    assert(events@[i].0@ == before[i].0@ && events@[j].0@ == before[j].0@);
                } else {
                    assert(!old(self).holds_at(name, i));
                }
            }
        }
        self.events = events;
        proof {
            let at: int = match position {
                Some(i) => i as int,
                None => old(self).events@.len() as int,
            };
            assert(self.holds_at(name, at));
            assert forall|n: Seq<char>, k: int| n != name implies (self.holds_at(n, k)
                <==> old(self).holds_at(n, k)) by {}
            let after = old(self)@.insert(name, coefficients);
            assert forall|n: Seq<char>| #[trigger]
                self@.contains_key(n) <==> after.contains_key(n) by {
                if n != name && old(self)@.contains_key(n) {
                    let k = choose|k: int| old(self).holds_at(n, k);
                    assert(self.holds_at(n, k));
                }
            }
            assert forall|n: Seq<char>| #[trigger] self@.contains_key(n) implies self@[n]
                == after[n] by {
                let k = choose|k: int| self.holds_at(n, k);
                if n != name {
                    let k0 = choose|k: int| old(self).holds_at(n, k);
                    assert(old(self).holds_at(n, k));
                    assert(k0 == k);
                } else {
                    assert(k == at);
                }
            }
            assert(self@ =~= after);
        }
    }

    /// The coefficients of the event, if the table has them.
    pub fn get(&self, event_name: &str) -> (found: Option<&C>)
        ensures
            match found {
                Some(coefficients) => {
                    &&& self@.contains_key(event_name@)
                    &&& *coefficients == self@[event_name@]
                },
                None => !self@.contains_key(event_name@),
            },
    {
        proof {
            use_type_invariant(self);
        }
        match self.position(event_name) {
            Some(i) => {
                proof {
                    let k = choose|k: int| self.holds_at(event_name@, k);
                    assert(k == i);
                }
                Some(&self.events[i].1)
            },
            None => None,
        }
    }
}

/// The coefficients of both genders.
pub struct CoefficientsTable<C> {
    pub men: GenderCoefficients<C>,
    pub women: GenderCoefficients<C>,
}

/// Why no coefficients were found.
#[derive(Debug, PartialEq, Eq)]
pub enum CoefficientsError {
    /// No table is in place yet.
    NotLoaded,
    /// The table holds no coefficients for the event and gender.
    NotFound { gender: Gender, event_name: String },
}

impl CoefficientsError {
    /// The text of the error. It names the gender and the event that were
    /// looked for.
    pub open spec fn message_text(self) -> Seq<char> {
        match self {
            CoefficientsError::NotLoaded => {
                "Coefficients not loaded. Call load_coefficients() first."@
            },
            CoefficientsError::NotFound { gender, event_name } => {
                "Coefficients not found for gender \""@ + gender.canonical_string()
                    + "\" and event: "@ + event_name@
            },
        }
    }

    /// The text of the error, for display.
    pub fn message(&self) -> (text: String)
        ensures
            text@ == self.message_text(),
    {
        match self {
            CoefficientsError::NotLoaded => String::from_str(
                "Coefficients not loaded. Call load_coefficients() first.",
            ),
            CoefficientsError::NotFound { gender, event_name } => {
                let mut text = String::from_str("Coefficients not found for gender \"");
                text.append(gender.to_string().as_str());
                text.append("\" and event: ");
                text.append(event_name.as_str());
                text
            },
        }
    }
}

impl<C> CoefficientsTable<C> {
    /// The coefficients of one gender, by the canonical name of the event.
    pub open spec fn events(self, gender: Gender) -> Map<Seq<char>, C> {
        match gender {
            Gender::Men => self.men@,
            Gender::Women => self.women@,
        }
    }

    /// What a lookup of the event and gender comes to.
    pub open spec fn lookup(self, gender: Gender, event_name: Seq<char>) -> Option<C> {
        if self.events(gender).contains_key(event_name) {
            Some(self.events(gender)[event_name])
        } else {
            None
        }
    }

    /// A table without coefficients.
    pub fn new() -> (table: CoefficientsTable<C>)
        ensures
            forall|gender: Gender| #[trigger] table.events(gender) == Map::<Seq<char>, C>::empty(),
    {
        CoefficientsTable { men: GenderCoefficients::new(), women: GenderCoefficients::new() }
    }

    /// Sets the coefficients of the event for the gender, in place of those
    /// it had before. The other gender stays as it is.
    pub fn insert(&mut self, gender: Gender, event_name: String, coefficients: C)
        ensures
            final(self).events(gender) == old(self).events(gender).insert(
                event_name@,
                coefficients,
            ),
            forall|other: Gender|
                other != gender ==> #[trigger] final(self).events(other) == old(self).events(other),
    {
        match gender {
            Gender::Men => self.men.insert(event_name, coefficients),
            Gender::Women => self.women.insert(event_name, coefficients),
        }
    }

    /// The coefficients of the event for the gender, if the table has them.
    pub fn get_coefficients(&self, gender: Gender, event_name: &str) -> (found: Option<&C>)
        ensures
            match found {
                Some(coefficients) => self.lookup(gender, event_name@) == Some(*coefficients),
                None => self.lookup(gender, event_name@) is None,
            },
    {
        match gender {
            Gender::Men => self.men.get(event_name),
            Gender::Women => self.women.get(event_name),
        }
    }

    /// The coefficients of the event for the gender, or the error that names
    /// both where the table has none.
    pub fn find_coefficients(&self, gender: Gender, event_name: &str) -> (found: Result<
        &C,
        CoefficientsError,
    >)
        ensures
            match found {
                Ok(coefficients) => self.lookup(gender, event_name@) == Some(*coefficients),
                Err(CoefficientsError::NotFound { gender: g, event_name: n }) => {
                    &&& self.lookup(gender, event_name@) is None
                    &&& g == gender
                    &&& n@ == event_name@
                },
                Err(CoefficientsError::NotLoaded) => false,
            },
    {
        match self.get_coefficients(gender, event_name) {
            Some(coefficients) => Ok(coefficients),
            None => Err(
                CoefficientsError::NotFound { gender, event_name: String::from_str(event_name) },
            ),
        }
    }
}

/// Why a table could not be put in place.
#[derive(Debug, Clone, Copy, PartialEq, Eq, Structural)]
pub enum LoadError {
    /// A table is in place already; it stays.
    AlreadyLoaded,
}

impl LoadError {
    /// The text of the error.
    pub open spec fn message_text(self) -> Seq<char> {
        "Coefficients already loaded."@
    }

    /// The text of the error, for display.
    pub fn message(&self) -> (text: String)
        ensures
            text@ == self.message_text(),
    {
        String::from_str("Coefficients already loaded.")
    }
}

/// Puts the table in place, once: while the slot is empty it takes the table;
/// a slot that holds one keeps it, and the call fails.
pub fn load_coefficients<C>(
    slot: &mut Option<CoefficientsTable<C>>,
    table: CoefficientsTable<C>,
) -> (result: Result<(), LoadError>)
    ensures
        *old(slot) is None ==> result is Ok && *final(slot) == Some(table),
        *old(slot) is Some ==> result == Err::<(), LoadError>(LoadError::AlreadyLoaded)
            && *final(slot) == *old(slot),
{
    if slot.is_some() {
        return Err(LoadError::AlreadyLoaded);
    }
    *slot = Some(table);
    Ok(())
}

/// The coefficients of the event for the gender from the table in the slot,
/// if a table is in place and has them.
pub fn get_coefficients<'a, C>(
    slot: &'a Option<CoefficientsTable<C>>,
    gender: Gender,
    event_name: &str,
) -> (found: Option<&'a C>)
    ensures
        match found {
            Some(coefficients) => {
                &&& *slot matches Some(table)
                &&& table.lookup(gender, event_name@) == Some(*coefficients)
            },
            None => *slot matches Some(table) ==> table.lookup(gender, event_name@) is None,
        },
{
    match slot {
        Some(table) => table.get_coefficients(gender, event_name),
        None => None,
    }
}

/// The coefficients from which the result score of the event and gender is
/// computed, from the table in the slot. It fails where no table is in
/// place, and where the table has no coefficients for the two.
pub fn resolve_coefficients<'a, C>(
    slot: &'a Option<CoefficientsTable<C>>,
    gender: Gender,
    event_name: &str,
) -> (found: Result<&'a C, CoefficientsError>)
    ensures
        match found {
            Ok(coefficients) => {
                &&& *slot matches Some(table)
                &&& table.lookup(gender, event_name@) == Some(*coefficients)
            },
            Err(CoefficientsError::NotLoaded) => *slot is None,
            Err(CoefficientsError::NotFound { gender: g, event_name: n }) => {
                &&& *slot matches Some(table)
                &&& table.lookup(gender, event_name@) is None
                &&& g == gender
                &&& n@ == event_name@
            },
        },
{
    match slot {
        Some(table) => table.find_coefficients(gender, event_name),
        None => Err(CoefficientsError::NotLoaded),
    }
}

} // verus!
