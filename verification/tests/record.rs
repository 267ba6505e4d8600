use maintenance_log::error::StoreError;
use maintenance_log::identity::Identity;
use maintenance_log::record::MaintenanceRecord;

fn pair(name: &str, value: &str) -> (String, String) {
    (name.to_string(), value.to_string())
}

fn sample() -> MaintenanceRecord {
    MaintenanceRecord::new(
        "2025-01-25".to_string(),
        "Engine check".to_string(),
        Identity::parse("mechanic.test").unwrap(),
        "hash1".to_string(),
    )
}

#[test]
fn new_keeps_the_four_texts() {
    let r = sample();
    assert_eq!(r.date, "2025-01-25");
    assert_eq!(r.description, "Engine check");
    assert_eq!(r.mechanic_id.as_str(), "mechanic.test");
    assert_eq!(r.hash, "hash1");
}

#[test]
fn clone_is_equal_in_all_fields() {
    let r = sample();
    let c = r.clone();
    assert_eq!(c, r);
    assert_eq!(c.date, r.date);
    assert_eq!(c.description, r.description);
    assert_eq!(c.mechanic_id, r.mechanic_id);
    assert_eq!(c.hash, r.hash);
}

#[test]
fn records_differ_when_one_field_differs() {
    let r = sample();
    let mut d = r.clone();
    d.date = "2025-01-26".to_string();
    assert_ne!(d, r);
    let mut d = r.clone();
    d.description = "Engine check ".to_string();
    assert_ne!(d, r);
    let mut d = r.clone();
    d.mechanic_id = Identity::parse("mechanic.tes").unwrap();
    assert_ne!(d, r);
    let mut d = r.clone();
    d.hash = "hash2".to_string();
    assert_ne!(d, r);
}

#[test]
fn wire_shape_names_the_fields_in_order() {
    let fields = sample().to_fields();
    assert_eq!(
        fields,
        vec![
            pair("date", "2025-01-25"),
            pair("description", "Engine check"),
            pair("mechanic_id", "mechanic.test"),
            pair("hash", "hash1"),
        ]
    );
}

#[test]
fn round_trip_gives_the_record_back() {
    let r = sample();
    let back = MaintenanceRecord::from_fields(&r.to_fields());
    assert_eq!(back, Ok(r));
}

#[test]
fn round_trip_of_odd_texts() {
    let r = MaintenanceRecord::new(
        "".to_string(),
        "line one\nline two \"quoted\"".to_string(),
        Identity::parse("date").unwrap(),
        "ハッシュ".to_string(),
    );
    let back = MaintenanceRecord::from_fields(&r.to_fields()).unwrap();
    assert_eq!(back.date, "");
    assert_eq!(back.description, "line one\nline two \"quoted\"");
    assert_eq!(back.mechanic_id.as_str(), "date");
    assert_eq!(back.hash, "ハッシュ");
}

#[test]
fn from_fields_reads_a_well_shaped_record() {
    let fields = vec![
        pair("date", "2025-03-01"),
        pair("description", "Tyres"),
        pair("mechanic_id", "bob.test"),
        pair("hash", "abc"),
    ];
    let r = MaintenanceRecord::from_fields(&fields).unwrap();
    assert_eq!(r.date, "2025-03-01");
    assert_eq!(r.description, "Tyres");
    assert_eq!(r.mechanic_id.as_str(), "bob.test");
    assert_eq!(r.hash, "abc");
}

#[test]
fn from_fields_rejects_a_missing_field() {
    let fields = vec![
        pair("date", "2025-03-01"),
        pair("description", "Tyres"),
        pair("mechanic_id", "bob.test"),
    ];
    assert_eq!(MaintenanceRecord::from_fields(&fields), Err(StoreError::MalformedInput));
    assert_eq!(MaintenanceRecord::from_fields(&Vec::new()), Err(StoreError::MalformedInput));
}

#[test]
fn from_fields_rejects_an_extra_field() {
    let fields = vec![
        pair("date", "2025-03-01"),
        pair("description", "Tyres"),
        pair("mechanic_id", "bob.test"),
        pair("hash", "abc"),
        pair("note", "x"),
    ];
    assert_eq!(MaintenanceRecord::from_fields(&fields), Err(StoreError::MalformedInput));
}

#[test]
fn from_fields_rejects_a_wrong_name() {
    for bad in 0..4 {
        let mut fields = vec![
            pair("date", "2025-03-01"),
            pair("description", "Tyres"),
            pair("mechanic_id", "bob.test"),
            pair("hash", "abc"),
        ];
        fields[bad].0 = "Date".to_string();
        assert_eq!(MaintenanceRecord::from_fields(&fields), Err(StoreError::MalformedInput));
    }
}

#[test]
fn from_fields_rejects_another_order() {
    let fields = vec![
        pair("description", "Tyres"),
        pair("date", "2025-03-01"),
        pair("mechanic_id", "bob.test"),
        pair("hash", "abc"),
    ];
    assert_eq!(MaintenanceRecord::from_fields(&fields), Err(StoreError::MalformedInput));
    let fields = vec![
        pair("date", "2025-03-01"),
        pair("description", "Tyres"),
        pair("hash", "abc"),
        pair("mechanic_id", "bob.test"),
    ];
    assert_eq!(MaintenanceRecord::from_fields(&fields), Err(StoreError::MalformedInput));
}

#[test]
fn from_fields_rejects_a_mechanic_that_is_no_account() {
    for bad in ["Bob.test", "bob test", "b", "", "bob..test", ".bob", "bob-", "bob@test"] {
        let fields = vec![
            pair("date", "2025-03-01"),
            pair("description", "Tyres"),
            pair("mechanic_id", bad),
            pair("hash", "abc"),
        ];
        assert_eq!(MaintenanceRecord::from_fields(&fields), Err(StoreError::MalformedInput));
    }
}

#[test]
fn from_fields_checks_neither_date_nor_hash() {
    let fields = vec![
        pair("date", "the day after tomorrow"),
        pair("description", ""),
        pair("mechanic_id", "bob.test"),
        pair("hash", "NOT HEX"),
    ];
    let r = MaintenanceRecord::from_fields(&fields).unwrap();
    assert_eq!(r.date, "the day after tomorrow");
    assert_eq!(r.description, "");
    assert_eq!(r.hash, "NOT HEX");
}
