use world_athletics_points_calulator::models::Gender;
use world_athletics_points_calulator::scoring_logic::coefficients::{
    get_coefficients, load_coefficients, resolve_coefficients, CoefficientsError,
    CoefficientsTable, GenderCoefficients, LoadError,
};

/// The three coefficients of an event.
#[derive(Debug, Clone, PartialEq)]
struct Coefficients {
    conversion_factor: f64,
    result_shift: f64,
    point_shift: f64,
}

const COEFFICIENTS_TEST_JSON_DATA: &str = r#"{
        "men": {
            "100m": [24.642211664166098, -837.7135408530303, 7119.3125116789015],
            "LJ": [1.931092872960562, 186.73134733641928, -479.70640445759636],
            "5000m": [0.002777997945427213,  -8.000608112196687,5760.418712362531]
        },
        "women": {
            "100m": [9.927426450685289, -436.6751262119069, 4802.020943877404],
            "HJ": [39.557908744493034, 831.3655724464043, -601.5063267494843],
            "LJ": [1.958114032649064, 193.69548254413166,-233.98988652729167]
        }
    }"#;

const CONSTANTS_TEST_JSON_DATA: &str = r#"{
        "men": {
            "100m": [24.642211664166098, -837.7135408530303, 7119.3125116789015],
            "LJ": [1.931092872960562, 186.73134733641928, -479.70640445759636]
        },
        "women": {
            "100m": [9.927426450685289, -436.6751262119069, 4802.020943877404],
            "HJ": [39.557908744493034, 831.3655724464043, -601.5063267494843]
        }
    }"#;

/// Reads a coefficient table from its text.
fn table_from_json(json_data: &str) -> CoefficientsTable<Coefficients> {
    let data: serde_json::Value =
        serde_json::from_str(json_data).expect("Failed to parse test JSON data");
    let mut table = CoefficientsTable::new();
    for gender in [Gender::Men, Gender::Women] {
        let events = data.get(gender.to_string().as_str()).unwrap().as_object().unwrap();
        for (event_name, values) in events {
            let values = values.as_array().unwrap();
            assert_eq!(values.len(), 3);
            let coefficients = Coefficients {
                conversion_factor: values[0].as_f64().unwrap(),
                result_shift: values[1].as_f64().unwrap(),
                point_shift: values[2].as_f64().unwrap(),
            };
            table.insert(gender, event_name.clone(), coefficients);
        }
    }
    table
}

fn assert_close(a: f64, b: f64) {
    assert!((a - b).abs() < 1.0e-6, "{} is not close to {}", a, b);
}

#[test]
fn coefficients_test_json_parsing_direct() {
    let table = table_from_json(COEFFICIENTS_TEST_JSON_DATA);

    // Test men's 100m
    let men_100m_coefficients = table.men.get("100m").expect("Men's 100m coefficients not found");
    assert_close(men_100m_coefficients.conversion_factor, 24.642211664166098);
    assert_close(men_100m_coefficients.result_shift, -837.7135408530303);
    assert_close(men_100m_coefficients.point_shift, 7119.3125116789015);

    // Test women's HJ
    let women_hj_coefficients = table.women.get("HJ").expect("Women's HJ coefficients not found");
    assert_close(women_hj_coefficients.conversion_factor, 39.557908744493034);
    assert_close(women_hj_coefficients.result_shift, 831.3655724464043);
    assert_close(women_hj_coefficients.point_shift, -601.5063267494843);

    // Test a non-existent event
    assert!(table.men.get("NonExistentEvent").is_none());
}

#[test]
fn coefficients_test_get_coefficients_function_integration() {
    let table = table_from_json(COEFFICIENTS_TEST_JSON_DATA);

    // Test retrieving men's LJ
    let men_lj_coefficients =
        table.get_coefficients(Gender::Men, "LJ").expect("Failed to get men's LJ coefficients");
    assert_close(men_lj_coefficients.conversion_factor, 1.931092872960562);
    assert_close(men_lj_coefficients.result_shift, 186.73134733641928);
    assert_close(men_lj_coefficients.point_shift, -479.7064044575963);

    // Test retrieving women's 100m
    let women_100m_coefficients = table
        .get_coefficients(Gender::Women, "100m")
        .expect("Failed to get women's 100m coefficients");
    assert_close(women_100m_coefficients.conversion_factor, 9.927426450685289);
    assert_close(women_100m_coefficients.result_shift, -436.6751262119069);
    assert_close(women_100m_coefficients.point_shift, 4802.020943877404);

    // Test a non-existent event for a specific gender
    assert!(table.get_coefficients(Gender::Men, "NonExistentEvent").is_none());
    assert!(table.get_coefficients(Gender::Women, "AnotherNonExistent").is_none());
}

#[test]
fn constants_test_json_parsing_direct() {
    let table = table_from_json(CONSTANTS_TEST_JSON_DATA);

    // Test men's 100m
    let men_100m_coefficients = table.men.get("100m").expect("Men's 100m coefficients not found");
    assert_close(men_100m_coefficients.conversion_factor, 24.642211664166098);
    assert_close(men_100m_coefficients.result_shift, -837.7135408530303);
    assert_close(men_100m_coefficients.point_shift, 7119.3125116789015);

    // Test women's HJ
    let women_hj_coefficients = table.women.get("HJ").expect("Women's HJ coefficients not found");
    assert_close(women_hj_coefficients.conversion_factor, 39.557908744493034);
    assert_close(women_hj_coefficients.result_shift, 831.3655724464043);
    assert_close(women_hj_coefficients.point_shift, -601.5063267494843);

    // Test a non-existent event
    assert!(table.men.get("NonExistentEvent").is_none());
}

#[test]
fn constants_test_get_coefficients_function_integration() {
    let mut slot = None;
    let _ = load_coefficients(&mut slot, table_from_json(CONSTANTS_TEST_JSON_DATA));

    // Test retrieving men's LJ
    let men_lj_coefficients =
        get_coefficients(&slot, Gender::Men, "LJ").expect("Failed to get men's LJ coefficients");
    assert_close(men_lj_coefficients.conversion_factor, 1.931092872960562);
    assert_close(men_lj_coefficients.result_shift, 186.73134733641928);
    assert_close(men_lj_coefficients.point_shift, -479.7064044575963);

    // Test retrieving women's 100m
    let women_100m_coefficients = get_coefficients(&slot, Gender::Women, "100m")
        .expect("Failed to get women's 100m coefficients");
    assert_close(women_100m_coefficients.conversion_factor, 9.927426450685289);
    assert_close(women_100m_coefficients.result_shift, -436.6751262119069);
    assert_close(women_100m_coefficients.point_shift, 4802.020943877404);

    // Test a non-existent event for a specific gender
    assert!(get_coefficients(&slot, Gender::Men, "NonExistentEvent").is_none());
    assert!(get_coefficients(&slot, Gender::Women, "AnotherNonExistent").is_none());
}

#[test]
fn each_gender_has_its_own_coefficients() {
    let table = table_from_json(COEFFICIENTS_TEST_JSON_DATA);
    // Listed for women only, and for men only.
    assert!(table.get_coefficients(Gender::Women, "HJ").is_some());
    assert!(table.get_coefficients(Gender::Men, "HJ").is_none());
    assert!(table.get_coefficients(Gender::Men, "5000m").is_some());
    assert!(table.get_coefficients(Gender::Women, "5000m").is_none());
    // Listed for both, with different values.
    let men = table.get_coefficients(Gender::Men, "100m").unwrap();
    let women = table.get_coefficients(Gender::Women, "100m").unwrap();
    assert_ne!(men, women);
    // Names are matched as they stand.
    assert!(table.get_coefficients(Gender::Men, "100M").is_none());
    assert!(table.get_coefficients(Gender::Men, "100m ").is_none());
    assert!(table.get_coefficients(Gender::Men, "").is_none());
}

#[test]
fn insert_replaces_the_coefficients_of_an_event() {
    let mut events: GenderCoefficients<i32> = GenderCoefficients::new();
    assert_eq!(events.get("100m"), None);
    events.insert("100m".to_string(), 1);
    events.insert("200m".to_string(), 2);
    events.insert("Long Jump".to_string(), 3);
    assert_eq!(events.get("100m"), Some(&1));
    assert_eq!(events.get("200m"), Some(&2));
    assert_eq!(events.get("Long Jump"), Some(&3));
    events.insert("200m".to_string(), 20);
    assert_eq!(events.get("100m"), Some(&1));
    assert_eq!(events.get("200m"), Some(&20));
    assert_eq!(events.get("Long Jump"), Some(&3));
    assert_eq!(events.get("400m"), None);

    let mut table: CoefficientsTable<i32> = CoefficientsTable::new();
    table.insert(Gender::Men, "100m".to_string(), 1);
    table.insert(Gender::Women, "100m".to_string(), 2);
    table.insert(Gender::Men, "100m".to_string(), 3);
    assert_eq!(table.get_coefficients(Gender::Men, "100m"), Some(&3));
    assert_eq!(table.get_coefficients(Gender::Women, "100m"), Some(&2));
}

#[test]
fn missing_coefficients_are_an_error_that_names_gender_and_event() {
    let table = table_from_json(COEFFICIENTS_TEST_JSON_DATA);
    assert!(table.find_coefficients(Gender::Men, "100m").is_ok());
    let error = table.find_coefficients(Gender::Men, "NonExistentEvent").unwrap_err();
    assert_eq!(
        error,
        CoefficientsError::NotFound {
            gender: Gender::Men,
            event_name: "NonExistentEvent".to_string()
        }
    );
    assert_eq!(
        error.message(),
        "Coefficients not found for gender \"men\" and event: NonExistentEvent"
    );
    let error = table.find_coefficients(Gender::Women, "5000m").unwrap_err();
    assert_eq!(error.message(), "Coefficients not found for gender \"women\" and event: 5000m");
}

#[test]
fn coefficients_are_loaded_once() {
    let mut slot: Option<CoefficientsTable<Coefficients>> = None;

    // Before a table is in place every lookup fails, each in its own way.
    assert!(get_coefficients(&slot, Gender::Men, "100m").is_none());
    let error = resolve_coefficients(&slot, Gender::Men, "100m").unwrap_err();
    assert_eq!(error, CoefficientsError::NotLoaded);
    assert_eq!(error.message(), "Coefficients not loaded. Call load_coefficients() first.");

    assert_eq!(load_coefficients(&mut slot, table_from_json(COEFFICIENTS_TEST_JSON_DATA)), Ok(()));
    let found = resolve_coefficients(&slot, Gender::Men, "5000m").unwrap();
    assert_close(found.conversion_factor, 0.002777997945427213);
    assert_eq!(
        resolve_coefficients(&slot, Gender::Men, "HJ").unwrap_err(),
        CoefficientsError::NotFound { gender: Gender::Men, event_name: "HJ".to_string() }
    );

    // A second table is turned away, and the first stays.
    let second = table_from_json(CONSTANTS_TEST_JSON_DATA);
    assert_eq!(load_coefficients(&mut slot, second), Err(LoadError::AlreadyLoaded));
    assert!(resolve_coefficients(&slot, Gender::Men, "5000m").is_ok());
    assert_eq!(LoadError::AlreadyLoaded.message(), "Coefficients already loaded.");
}

/// The result score as a caller computes it: the curve of the coefficients
/// at the result, rounded to the nearest whole.
fn calculate_result_score(
    table: &CoefficientsTable<Coefficients>,
    result: f64,
    gender: Gender,
    event_name: &str,
) -> Result<f64, String> {
    let coefficients = table.find_coefficients(gender, event_name).map_err(|e| e.message())?;
    let raw_points = coefficients.conversion_factor * result * result
        + coefficients.result_shift * result
        + coefficients.point_shift;
    Ok(raw_points.round())
}

#[test]
fn test_calculate_placement_score() {
    let table = table_from_json(COEFFICIENTS_TEST_JSON_DATA);

    // A Men's 100m result of 10.5 seconds should yield 1040.0 points
    let points = calculate_result_score(&table, 10.5, Gender::Men, "100m");
    assert!(points.is_ok());
    let points = points.unwrap();
    assert_close(points, 1040.0);

    // A womens long jump of 6.5 meters should result in 1108.0 points
    let points = calculate_result_score(&table, 6.5, Gender::Women, "LJ");
    assert!(points.is_ok());
    let points = points.unwrap();
    assert_close(points, 1108.0);

    // Test with a non-existent event
    let points = calculate_result_score(&table, 10.0, Gender::Men, "NonExistentEvent");
    assert!(points.is_err());

    // Test with a 5k value of 14 minutes (840 seconds) that should yield 1000.0 points
    let points = calculate_result_score(&table, 840.0, Gender::Men, "5000m");
    assert!(points.is_ok());
    let points = points.unwrap();
    assert_close(points, 1000.0);
}
