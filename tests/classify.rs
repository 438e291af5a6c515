use dexcom_days::{
    classify_rows, required_fields, ClassifyError, Date, DateTime, DexcomRecord, IntegerError, RowError, TimeOfDay,
    TimestampError,
};

fn row(fields: &[(usize, &str)]) -> Vec<String> {
    let mut r: Vec<String> = vec![String::new(); 14];
    for (i, f) in fields {
        r[*i] = f.to_string();
    }
    r
}

fn egv_row(index: &str, ts: &str, glucose: &str) -> Vec<String> {
    row(&[(0, index), (1, ts), (2, "EGV"), (6, "android G6"), (7, glucose), (12, "12345"), (13, "8ABC12")])
}

fn alert_row(duration: &str) -> Vec<String> {
    row(&[(0, "7"), (2, "Alert"), (3, "High"), (6, "android G6"), (7, "250"), (10, duration), (11, "3")])
}

#[test]
fn egv_row_classifies_with_glucose_value() {
    let rec = DexcomRecord::new(&egv_row("12", "2024-03-01T03:30:00", "142"), None).unwrap();
    assert_eq!(rec.index(), 12);
    assert_eq!(rec.glucose_value(), Some(142));
    assert_eq!(rec.transmitter_time(), Some(12345));
    assert_eq!(rec.transmitter_id(), Some("8ABC12"));
    assert_eq!(rec.source_device_id(), Some("android G6"));
    assert_eq!(
        rec.timestamp(),
        Some(DateTime {
            date: Date { year: 2024, month: 3, day: 1 },
            time: TimeOfDay { hour: 3, minute: 30, second: 0, nanosecond: 0 },
        })
    );
    assert_eq!(rec.duration(), None);
    assert_eq!(rec.patient_info(), None);
}

#[test]
fn egv_row_with_bad_timestamp_fails() {
    let r = DexcomRecord::new(&egv_row("12", "2024-03-01 03:30:00", "142"), None);
    assert_eq!(r, Err(ClassifyError::Timestamp { field: 1, reason: TimestampError::Invalid }));
    let r = DexcomRecord::new(&egv_row("12", "", "142"), None);
    assert_eq!(r, Err(ClassifyError::Timestamp { field: 1, reason: TimestampError::TooShort }));
}

#[test]
fn egv_row_with_bad_glucose_fails() {
    let r = DexcomRecord::new(&egv_row("12", "2024-03-01T03:30:00", "High"), None);
    assert_eq!(r, Err(ClassifyError::Integer { field: 7, reason: IntegerError::InvalidDigit }));
    let r = DexcomRecord::new(&egv_row("12", "2024-03-01T03:30:00", "65536"), None);
    assert_eq!(r, Err(ClassifyError::Integer { field: 7, reason: IntegerError::TooLarge }));
    let r = DexcomRecord::new(&egv_row("12", "2024-03-01T03:30:00", ""), None);
    assert_eq!(r, Err(ClassifyError::Integer { field: 7, reason: IntegerError::Empty }));
}

#[test]
fn glucose_value_accepts_plus_sign_and_largest_value() {
    let rec = DexcomRecord::new(&egv_row("1", "2024-03-01T03:30:00", "+65535"), None).unwrap();
    assert_eq!(rec.glucose_value(), Some(65535));
    let r = DexcomRecord::new(&egv_row("1", "2024-03-01T03:30:00", "+"), None);
    assert_eq!(r, Err(ClassifyError::Integer { field: 7, reason: IntegerError::InvalidDigit }));
    let r = DexcomRecord::new(&egv_row("1", "2024-03-01T03:30:00", "-1"), None);
    assert_eq!(r, Err(ClassifyError::Integer { field: 7, reason: IntegerError::InvalidDigit }));
}

#[test]
fn bad_index_fails_before_anything_else() {
    let r = DexcomRecord::new(&egv_row("x", "bad", "bad"), None);
    assert_eq!(r, Err(ClassifyError::Integer { field: 0, reason: IntegerError::InvalidDigit }));
    let r = DexcomRecord::new(&row(&[(0, "4294967296"), (2, "Mystery")]), None);
    assert_eq!(r, Err(ClassifyError::Integer { field: 0, reason: IntegerError::TooLarge }));
}

#[test]
fn unknown_kind_exposes_only_index() {
    let rec = DexcomRecord::new(&row(&[(0, "4294967295"), (1, "junk"), (2, "Mystery"), (7, "99")]), Some(1)).unwrap();
    assert_eq!(rec, DexcomRecord::Unknown { index: 4294967295 });
    assert_eq!(rec.index(), 4294967295);
    assert_eq!(rec.patient_info(), None);
    assert_eq!(rec.device_info(), None);
    assert_eq!(rec.source_device_id(), None);
    assert_eq!(rec.event_subtype(), None);
    assert_eq!(rec.glucose_value(), None);
    assert_eq!(rec.duration(), None);
    assert_eq!(rec.glucose_rate_of_change(), None);
    assert_eq!(rec.timestamp(), None);
    assert_eq!(rec.transmitter_time(), None);
    assert_eq!(rec.transmitter_id(), None);
    assert_eq!(rec.insulin_value(), None);
    assert_eq!(rec.carb_value(), None);
    let w = TimeOfDay { hour: 4, minute: 0, second: 0, nanosecond: 0 };
    assert_eq!(rec.day(w), None);
}

#[test]
fn alert_duration_of_ninety_minutes() {
    let rec = DexcomRecord::new(&alert_row("01:30:00"), None).unwrap();
    assert_eq!(rec.duration(), Some(90 * 60));
    assert_eq!(rec.glucose_value(), Some(250));
    assert_eq!(rec.glucose_rate_of_change(), Some(3));
    assert_eq!(rec.event_subtype(), Some("High"));
    assert_eq!(rec.timestamp(), None);
}

#[test]
fn alert_duration_empty_or_garbage_is_absent() {
    let rec = DexcomRecord::new(&alert_row(""), None).unwrap();
    assert_eq!(rec.duration(), None);
    let rec = DexcomRecord::new(&alert_row("garbage"), None).unwrap();
    assert_eq!(rec.duration(), None);
}

#[test]
fn alert_optional_numbers_that_do_not_read_are_absent() {
    let r = row(&[(0, "7"), (2, "Alert"), (3, "Fall"), (6, "g6"), (7, "Low"), (10, "00:00:05"), (11, "300")]);
    let rec = DexcomRecord::new(&r, None).unwrap();
    assert_eq!(rec.glucose_value(), None);
    assert_eq!(rec.glucose_rate_of_change(), None);
    assert_eq!(rec.duration(), Some(5));
}

#[test]
fn classifying_twice_gives_equal_records() {
    let r = egv_row("3", "2024-03-01T05:00:00", "101");
    assert_eq!(DexcomRecord::new(&r, None), DexcomRecord::new(&r, None));
    let a = alert_row("00:15:00");
    assert_eq!(DexcomRecord::new(&a, None), DexcomRecord::new(&a, None));
}

#[test]
fn patient_and_device_rows() {
    let first = DexcomRecord::new(&row(&[(0, "1"), (2, "FirstName"), (4, "Ada")]), None).unwrap();
    assert_eq!(first.patient_info(), Some("Ada"));
    assert_eq!(first.source_device_id(), None);
    let last = DexcomRecord::new(&row(&[(0, "2"), (2, "LastName"), (4, "Lovelace")]), None).unwrap();
    assert_eq!(last.patient_info(), Some("Lovelace"));
    let dev = DexcomRecord::new(&row(&[(0, "3"), (2, "Device"), (5, "G6 Receiver"), (6, "SN123")]), None).unwrap();
    assert_eq!(dev.device_info(), Some("G6 Receiver"));
    assert_eq!(dev.source_device_id(), Some("SN123"));
    assert_eq!(dev.index(), 3);
}

#[test]
fn insulin_row_takes_the_dose() {
    let r = row(&[(0, "9"), (1, "2024-03-01T08:00:00"), (2, "Insulin"), (3, "Fast-Acting"), (6, "pen"), (8, "4.5")]);
    let bits = 4.5f64.to_bits();
    let rec = DexcomRecord::new(&r, Some(bits)).unwrap();
    assert_eq!(rec.insulin_value(), Some(bits));
    assert_eq!(rec.event_subtype(), Some("Fast-Acting"));
    assert_eq!(DexcomRecord::new(&r, None), Err(ClassifyError::Real { field: 8 }));
}

#[test]
fn carbs_and_calibration_rows() {
    let c = row(&[(0, "10"), (1, "2024-03-01T12:00:00"), (2, "Carbs"), (6, "app"), (9, "45")]);
    let rec = DexcomRecord::new(&c, None).unwrap();
    assert_eq!(rec.carb_value(), Some(45));
    let c = row(&[(0, "10"), (1, "2024-03-01T12:00:00"), (2, "Carbs"), (6, "app"), (9, "lots")]);
    assert_eq!(DexcomRecord::new(&c, None), Err(ClassifyError::Integer { field: 9, reason: IntegerError::InvalidDigit }));
    let k = row(&[(0, "11"), (1, "2024-03-01T12:30:00"), (2, "Calibration"), (6, "rx"), (7, "110"), (13, "8XYZ")]);
    let rec = DexcomRecord::new(&k, None).unwrap();
    assert_eq!(rec.glucose_value(), Some(110));
    assert_eq!(rec.transmitter_id(), Some("8XYZ"));
    assert_eq!(rec.transmitter_time(), None);
    let k = row(&[(0, "11"), (1, "2024-02-30T12:30:00"), (2, "Calibration"), (6, "rx"), (7, "110")]);
    assert!(matches!(DexcomRecord::new(&k, None), Err(ClassifyError::Timestamp { field: 1, .. })));
}

#[test]
fn egv_row_with_bad_transmitter_time_fails() {
    let mut r = egv_row("12", "2024-03-01T03:30:00", "142");
    r[12] = "soon".to_string();
    assert_eq!(DexcomRecord::new(&r, None), Err(ClassifyError::Integer { field: 12, reason: IntegerError::InvalidDigit }));
}

#[test]
fn rows_are_classified_in_order() {
    let rows = vec![
        row(&[(0, "0"), (2, "FirstName"), (4, "Ada")]),
        egv_row("1", "2024-03-01T03:30:00", "99"),
        row(&[(0, "2"), (2, "Mystery")]),
    ];
    let recs = classify_rows(&rows, &vec![None, None, None]).unwrap();
    assert_eq!(recs.len(), 3);
    assert_eq!(recs[0].patient_info(), Some("Ada"));
    assert_eq!(recs[1].glucose_value(), Some(99));
    assert_eq!(recs[2], DexcomRecord::Unknown { index: 2 });
}

#[test]
fn ingestion_stops_at_first_bad_row() {
    let rows = vec![
        egv_row("0", "2024-03-01T03:30:00", "99"),
        egv_row("1", "2024-03-01T03:35:00", "???"),
        egv_row("2", "not a time", "99"),
    ];
    let r = classify_rows(&rows, &vec![None, None, None]);
    assert_eq!(r, Err(RowError { row: 1, error: ClassifyError::Integer { field: 7, reason: IntegerError::InvalidDigit } }));
}

#[test]
fn ingestion_of_no_rows_gives_no_records() {
    let r = classify_rows(&Vec::new(), &Vec::new());
    assert_eq!(r, Ok(Vec::new()));
}

fn short(fields: &[&str]) -> Vec<String> {
    fields.iter().map(|f| f.to_string()).collect()
}

#[test]
fn short_unknown_row_classifies() {
    let r = short(&["7", "", "egv"]);
    assert_eq!(required_fields("egv"), 3);
    let rec = DexcomRecord::new(&r, None).unwrap();
    assert_eq!(rec, DexcomRecord::Unknown { index: 7 });
    assert_eq!(rec.glucose_value(), None);
    assert_eq!(rec.timestamp(), None);
}

#[test]
fn rows_need_only_the_fields_their_kind_reads() {
    assert_eq!(required_fields("FirstName"), 5);
    assert_eq!(required_fields("LastName"), 5);
    assert_eq!(required_fields("Device"), 7);
    assert_eq!(required_fields("Alert"), 12);
    assert_eq!(required_fields("EGV"), 14);
    assert_eq!(required_fields("Insulin"), 9);
    assert_eq!(required_fields("Carbs"), 10);
    assert_eq!(required_fields("Calibration"), 14);
    let first = DexcomRecord::new(&short(&["1", "", "FirstName", "", "Jane"]), None).unwrap();
    assert_eq!(first.patient_info(), Some("Jane"));
    let dev = DexcomRecord::new(&short(&["2", "", "Device", "", "", "G6 Receiver", "SN9"]), None).unwrap();
    assert_eq!(dev.device_info(), Some("G6 Receiver"));
    assert_eq!(dev.source_device_id(), Some("SN9"));
    let ins = short(&["4", "2024-03-01T08:00:00", "Insulin", "Fast-Acting", "", "", "SRC", "", "2.5"]);
    let rec = DexcomRecord::new(&ins, Some(2.5f64.to_bits())).unwrap();
    assert_eq!(rec.insulin_value().map(f64::from_bits), Some(2.5));
    assert_eq!(rec.event_subtype(), Some("Fast-Acting"));
    let carbs = short(&["5", "2024-03-01T08:00:00", "Carbs", "", "", "", "SRC", "", "", "45"]);
    assert_eq!(DexcomRecord::new(&carbs, None).unwrap().carb_value(), Some(45));
}

#[test]
fn twelve_field_alert_rows() {
    let a = short(&["3", "", "Alert", "High", "", "", "SRC", "n/a", "", "", "01:30:00", "2"]);
    let rec = DexcomRecord::new(&a, None).unwrap();
    assert_eq!(rec.duration(), Some(5400));
    assert_eq!(rec.glucose_value(), None);
    assert_eq!(rec.glucose_rate_of_change(), Some(2));
    let mut b = a.clone();
    b[10] = "garbage".to_string();
    b[11] = "300".to_string();
    let rec = DexcomRecord::new(&b, None).unwrap();
    assert_eq!(rec.duration(), None);
    assert_eq!(rec.glucose_rate_of_change(), None);
    b[10] = String::new();
    assert_eq!(DexcomRecord::new(&b, None).unwrap().duration(), None);
}

#[test]
fn leap_second_duration_counts_the_leap_second() {
    let rec = DexcomRecord::new(&alert_row("01:30:60"), None).unwrap();
    assert_eq!(rec.duration(), Some(5460));
}
