//! Classification of one export row into a typed record, and the record's
//! attribute queries.

use vstd::prelude::*;
use crate::text::{
    lemma_unsigned_read_bound, parse_u16, parse_u32, parse_u64, parse_u8, same_text, unsigned_read,
    IntegerError,
};
use crate::time::{
    parse_date_time, parse_time_of_day, parsed_date_time, parsed_time_of_day, DateTime,
    TimestampError,
};

verus! {


/// The format of a timestamp field.
pub const TIMESTAMP_FORMAT: &'static str = "%Y-%m-%dT%H:%M:%S";

/// The format of an alert's duration field.
pub const DURATION_FORMAT: &'static str = "%H:%M:%S";

/// Why a row could not be classified: a mandatory field, by its position in
/// the row, does not read as its type, and why.
#[derive(Clone, Copy, Debug, PartialEq, Eq, Structural)]
pub enum ClassifyError {
    /// Not an unsigned decimal integer that fits the field's type.
    Integer { field: usize, reason: IntegerError },
    /// Not a timestamp in the `YYYY-MM-DDTHH:MM:SS` format.
    Timestamp { field: usize, reason: TimestampError },
    /// Not a real number.
    Real { field: usize },
}

/// Why ingestion of an export stopped: the position of the first row that
/// could not be classified, and why.
#[derive(Clone, Copy, Debug, PartialEq, Eq, Structural)]
pub struct RowError {
    pub row: usize,
    pub error: ClassifyError,
}

/// One row of the export, by kind. Durations are in seconds; an insulin dose
/// is the IEEE 754 binary64 bit pattern of the real number in its field.
#[derive(Clone, Debug, PartialEq, Eq)]
pub enum DexcomRecord {
    FirstName { index: u32, patient_info: String },
    LastName { index: u32, patient_info: String },
    Device { index: u32, device_info: String, source_device_id: String },
    Alert {
        index: u32,
        event_subtype: String,
        source_device_id: String,
        glucose_value: Option<u16>,
        duration: Option<u32>,
        glucose_rate_of_change: Option<u8>,
    },
    EGV {
        index: u32,
        timestamp: DateTime,
        source_device_id: String,
        glucose_value: u16,
        transmitter_time: u64,
        transmitter_id: String,
    },
    Insulin {
        index: u32,
        timestamp: DateTime,
        event_subtype: String,
        source_device_id: String,
        insulin_value: u64,
    },
    Carbs { index: u32, timestamp: DateTime, source_device_id: String, carb_value: u16 },
    Calibration {
        index: u32,
        timestamp: DateTime,
        source_device_id: String,
        glucose_value: u16,
        transmitter_id: String,
    },
    Unknown { index: u32 },
}

/// The mathematical value of a `DexcomRecord`: texts as character sequences.
pub ghost enum Record {
    FirstName { index: u32, patient_info: Seq<char> },
    LastName { index: u32, patient_info: Seq<char> },
    Device { index: u32, device_info: Seq<char>, source_device_id: Seq<char> },
    Alert {
        index: u32,
        event_subtype: Seq<char>,
        source_device_id: Seq<char>,
        glucose_value: Option<u16>,
        duration: Option<u32>,
        glucose_rate_of_change: Option<u8>,
    },
    EGV {
        index: u32,
        timestamp: DateTime,
        source_device_id: Seq<char>,
        glucose_value: u16,
        transmitter_time: u64,
        transmitter_id: Seq<char>,
    },
    Insulin {
        index: u32,
        timestamp: DateTime,
        event_subtype: Seq<char>,
        source_device_id: Seq<char>,
        insulin_value: u64,
    },
    Carbs { index: u32, timestamp: DateTime, source_device_id: Seq<char>, carb_value: u16 },
    Calibration {
        index: u32,
        timestamp: DateTime,
        source_device_id: Seq<char>,
        glucose_value: u16,
        transmitter_id: Seq<char>,
    },
    Unknown { index: u32 },
}

impl View for DexcomRecord {
    type V = Record;

    open spec fn view(&self) -> Record {
        match self {
            DexcomRecord::FirstName { index, patient_info } => Record::FirstName {
                index: *index,
                patient_info: patient_info@,
            },
            DexcomRecord::LastName { index, patient_info } => Record::LastName {
                index: *index,
                patient_info: patient_info@,
            },
            DexcomRecord::Device { index, device_info, source_device_id } => Record::Device {
                index: *index,
                device_info: device_info@,
                source_device_id: source_device_id@,
            },
            DexcomRecord::Alert {
                index,
                event_subtype,
                source_device_id,
                glucose_value,
                duration,
                glucose_rate_of_change,
            } => Record::Alert {
                index: *index,
                event_subtype: event_subtype@,
                source_device_id: source_device_id@,
                glucose_value: *glucose_value,
                duration: *duration,
                glucose_rate_of_change: *glucose_rate_of_change,
            },
            DexcomRecord::EGV {
                index,
                timestamp,
                source_device_id,
                glucose_value,
                transmitter_time,
                transmitter_id,
            } => Record::EGV {
                index: *index,
                timestamp: *timestamp,
                source_device_id: source_device_id@,
                glucose_value: *glucose_value,
                transmitter_time: *transmitter_time,
                transmitter_id: transmitter_id@,
            },
            DexcomRecord::Insulin {
                index,
                timestamp,
                event_subtype,
                source_device_id,
                insulin_value,
            } => Record::Insulin {
                index: *index,
                timestamp: *timestamp,
                event_subtype: event_subtype@,
                source_device_id: source_device_id@,
                insulin_value: *insulin_value,
            },
            DexcomRecord::Carbs { index, timestamp, source_device_id, carb_value } =>
                Record::Carbs {
                index: *index,
                timestamp: *timestamp,
                source_device_id: source_device_id@,
                carb_value: *carb_value,
            },
            DexcomRecord::Calibration {
                index,
                timestamp,
                source_device_id,
                glucose_value,
                transmitter_id,
            } => Record::Calibration {
                index: *index,
                timestamp: *timestamp,
                source_device_id: source_device_id@,
                glucose_value: *glucose_value,
                transmitter_id: transmitter_id@,
            },
            DexcomRecord::Unknown { index } => Record::Unknown { index: *index },
        }
    }
}

/// How many fields a row of the given kind must hold: one past the last field
/// that its kind reads.
pub open spec fn fields_needed(kind: Seq<char>) -> nat {
    if kind == "FirstName"@ || kind == "LastName"@ {
        5
    } else if kind == "Device"@ {
        7
    } else if kind == "Alert"@ {
        12
    } else if kind == "EGV"@ {
        14
    } else if kind == "Insulin"@ {
        9
    } else if kind == "Carbs"@ {
        10
    } else if kind == "Calibration"@ {
        14
    } else {
        3
    }
}

/// Whether a row holds the fields that its kind reads.
pub open spec fn has_needed_fields(row: Seq<Seq<char>>) -> bool {
    row.len() >= 3 && row.len() >= fields_needed(row[2])
}

/// Reads an unsigned field of a row; `max` is the largest value of its type.
pub open spec fn unsigned_field(row: Seq<Seq<char>>, i: int, max: nat) -> Result<nat, IntegerError> {
    unsigned_read(row[i], max)
}

/// Reads an optional unsigned field: absent where it does not read.
pub open spec fn optional_field(row: Seq<Seq<char>>, i: int, max: nat) -> Option<nat> {
    match unsigned_read(row[i], max) {
        Ok(v) => Some(v),
        Err(_) => None,
    }
}

/// Reads a timestamp field of a row.
pub open spec fn timestamp_field(row: Seq<Seq<char>>, i: int) -> Result<DateTime, TimestampError> {
    parsed_date_time(row[i], TIMESTAMP_FORMAT@)
}

/// The elapsed time since midnight, in whole seconds, of a clock field, if it
/// reads as one.
pub open spec fn duration_field(row: Seq<Seq<char>>, i: int) -> Option<u32> {
    match parsed_time_of_day(row[i], DURATION_FORMAT@) {
        Some(t) => Some(t.seconds() as u32),
        None => None,
    }
}

/// The record that a row stands for, with the dose that the row's dose field
/// reads as, or the first mandatory field, in field order, that fails to read.
pub open spec fn classification(row: Seq<Seq<char>>, dose: Option<u64>) -> Result<
    Record,
    ClassifyError,
> {
    let kind = row[2];
    match unsigned_field(row, 0, u32::MAX as nat) {
        Err(reason) => Err(ClassifyError::Integer { field: 0, reason }),
        Ok(i) => {
            let index = i as u32;
            if kind == "FirstName"@ {
                Ok(Record::FirstName { index, patient_info: row[4] })
            } else if kind == "LastName"@ {
                Ok(Record::LastName { index, patient_info: row[4] })
            } else if kind == "Device"@ {
                Ok(Record::Device { index, device_info: row[5], source_device_id: row[6] })
            } else if kind == "Alert"@ {
                Ok(
                    Record::Alert {
                        index,
                        event_subtype: row[3],
                        source_device_id: row[6],
                        glucose_value: match optional_field(row, 7, u16::MAX as nat) {
                            Some(v) => Some(v as u16),
                            None => None,
                        },
                        duration: duration_field(row, 10),
                        glucose_rate_of_change: match optional_field(row, 11, u8::MAX as nat) {
                            Some(v) => Some(v as u8),
                            None => None,
                        },
                    },
                )
            } else if kind == "EGV"@ {
                match timestamp_field(row, 1) {
                    Err(reason) => Err(ClassifyError::Timestamp { field: 1, reason }),
                    Ok(timestamp) => match unsigned_field(row, 7, u16::MAX as nat) {
                        Err(reason) => Err(ClassifyError::Integer { field: 7, reason }),
                        Ok(g) => match unsigned_field(row, 12, u64::MAX as nat) {
                            Err(reason) => Err(ClassifyError::Integer { field: 12, reason }),
                            Ok(t) => Ok(
                                Record::EGV {
                                    index,
                                    timestamp,
                                    source_device_id: row[6],
                                    glucose_value: g as u16,
                                    transmitter_time: t as u64,
                                    transmitter_id: row[13],
                                },
                            ),
                        },
                    },
                }
            } else if kind == "Insulin"@ {
                match timestamp_field(row, 1) {
                    Err(reason) => Err(ClassifyError::Timestamp { field: 1, reason }),
                    Ok(timestamp) => match dose {
                        None => Err(ClassifyError::Real { field: 8 }),
                        Some(d) => Ok(
                            Record::Insulin {
                                index,
                                timestamp,
                                event_subtype: row[3],
                                source_device_id: row[6],
                                insulin_value: d,
                            },
                        ),
                    },
                }
            } else if kind == "Carbs"@ {
                match timestamp_field(row, 1) {
                    Err(reason) => Err(ClassifyError::Timestamp { field: 1, reason }),
                    Ok(timestamp) => match unsigned_field(row, 9, u16::MAX as nat) {
                        Err(reason) => Err(ClassifyError::Integer { field: 9, reason }),
                        Ok(c) => Ok(
                            Record::Carbs {
                                index,
                                timestamp,
                                source_device_id: row[6],
                                carb_value: c as u16,
                            },
                        ),
                    },
                }
            } else if kind == "Calibration"@ {
                match timestamp_field(row, 1) {
                    Err(reason) => Err(ClassifyError::Timestamp { field: 1, reason }),
                    Ok(timestamp) => match unsigned_field(row, 7, u16::MAX as nat) {
                        Err(reason) => Err(ClassifyError::Integer { field: 7, reason }),
                        Ok(g) => Ok(
                            Record::Calibration {
                                index,
                                timestamp,
                                source_device_id: row[6],
                                glucose_value: g as u16,
                                transmitter_id: row[13],
                            },
                        ),
                    },
                }
            } else {
                Ok(Record::Unknown { index })
            }
        },
    }
}

impl Record {
    pub open spec fn index(self) -> u32 {
        match self {
            Record::FirstName { index, .. } => index,
            Record::LastName { index, .. } => index,
            Record::Device { index, .. } => index,
            Record::Alert { index, .. } => index,
            Record::EGV { index, .. } => index,
            Record::Insulin { index, .. } => index,
            Record::Carbs { index, .. } => index,
            Record::Calibration { index, .. } => index,
            Record::Unknown { index } => index,
        }
    }

    pub open spec fn patient_info(self) -> Option<Seq<char>> {
        match self {
            Record::FirstName { patient_info, .. } => Some(patient_info),
            Record::LastName { patient_info, .. } => Some(patient_info),
            _ => None,
        }
    }

    pub open spec fn device_info(self) -> Option<Seq<char>> {
        match self {
            Record::Device { device_info, .. } => Some(device_info),
            _ => None,
        }
    }

    pub open spec fn source_device_id(self) -> Option<Seq<char>> {
        match self {
            Record::Device { source_device_id, .. } => Some(source_device_id),
            Record::Alert { source_device_id, .. } => Some(source_device_id),
            Record::EGV { source_device_id, .. } => Some(source_device_id),
            Record::Insulin { source_device_id, .. } => Some(source_device_id),
            Record::Carbs { source_device_id, .. } => Some(source_device_id),
            Record::Calibration { source_device_id, .. } => Some(source_device_id),
            _ => None,
        }
    }

    pub open spec fn event_subtype(self) -> Option<Seq<char>> {
        match self {
            Record::Alert { event_subtype, .. } => Some(event_subtype),
            Record::Insulin { event_subtype, .. } => Some(event_subtype),
            _ => None,
        }
    }

    pub open spec fn glucose_value(self) -> Option<u16> {
        match self {
            Record::Alert { glucose_value, .. } => glucose_value,
            Record::EGV { glucose_value, .. } => Some(glucose_value),
            Record::Calibration { glucose_value, .. } => Some(glucose_value),
            _ => None,
        }
    }

    pub open spec fn duration(self) -> Option<u32> {
        match self {
            Record::Alert { duration, .. } => duration,
            _ => None,
        }
    }

    pub open spec fn glucose_rate_of_change(self) -> Option<u8> {
        match self {
            Record::Alert { glucose_rate_of_change, .. } => glucose_rate_of_change,
            _ => None,
        }
    }

    pub open spec fn timestamp(self) -> Option<DateTime> {
        match self {
            Record::EGV { timestamp, .. } => Some(timestamp),
            Record::Insulin { timestamp, .. } => Some(timestamp),
            Record::Carbs { timestamp, .. } => Some(timestamp),
            Record::Calibration { timestamp, .. } => Some(timestamp),
            _ => None,
        }
    }

    pub open spec fn transmitter_time(self) -> Option<u64> {
        match self {
            Record::EGV { transmitter_time, .. } => Some(transmitter_time),
            _ => None,
        }
    }

    pub open spec fn transmitter_id(self) -> Option<Seq<char>> {
        match self {
            Record::EGV { transmitter_id, .. } => Some(transmitter_id),
            Record::Calibration { transmitter_id, .. } => Some(transmitter_id),
            _ => None,
        }
    }

    pub open spec fn insulin_value(self) -> Option<u64> {
        match self {
            Record::Insulin { insulin_value, .. } => Some(insulin_value),
            _ => None,
        }
    }

    pub open spec fn carb_value(self) -> Option<u16> {
        match self {
            Record::Carbs { carb_value, .. } => Some(carb_value),
            _ => None,
        }
    }

    /// A timestamp, where the record has one, is a real date and time.
    pub open spec fn wf(self) -> bool {
        self.timestamp() matches Some(t) ==> t.wf()
    }
}

/// The characters of an optional text.
pub open spec fn text_view(t: Option<&str>) -> Option<Seq<char>> {
    match t {
        Some(s) => Some(s@),
        None => None,
    }
}

/// Every kind that the classifier tells apart.
pub open spec fn is_known_kind(kind: Seq<char>) -> bool {
    ||| kind == "FirstName"@
    ||| kind == "LastName"@
    ||| kind == "Device"@
    ||| kind == "Alert"@
    ||| kind == "EGV"@
    ||| kind == "Insulin"@
    ||| kind == "Carbs"@
    ||| kind == "Calibration"@
}

/// Whether the timestamp or the glucose value of a glucose-reading row fails to read.
pub open spec fn reading_fields_fail(row: Seq<Seq<char>>) -> bool {
    timestamp_field(row, 1) is Err || unsigned_field(row, 7, u16::MAX as nat) is Err
}

/// The glucose value that field 7 of a row holds.
pub open spec fn glucose_field(row: Seq<Seq<char>>) -> Option<u16> {
    match unsigned_field(row, 7, u16::MAX as nat) {
        Ok(v) => Some(v as u16),
        Err(_) => None,
    }
}

/// Whether a record answers only for its index.
pub open spec fn exposes_only_index(r: Record) -> bool {
    &&& r.patient_info() is None
    &&& r.device_info() is None
    &&& r.source_device_id() is None
    &&& r.event_subtype() is None
    &&& r.glucose_value() is None
    &&& r.duration() is None
    &&& r.glucose_rate_of_change() is None
    &&& r.timestamp() is None
    &&& r.transmitter_time() is None
    &&& r.transmitter_id() is None
    &&& r.insulin_value() is None
    &&& r.carb_value() is None
}

/// A glucose-reading row whose index and transmitter time read fails to be
/// classified exactly when its timestamp or its glucose value does not read;
/// otherwise the record's glucose value is the one that its field holds.
pub proof fn lemma_glucose_reading_row(row: Seq<Seq<char>>, dose: Option<u64>)
    requires
        has_needed_fields(row),
        row[2] == "EGV"@,
        unsigned_field(row, 0, u32::MAX as nat) is Ok,
        unsigned_field(row, 12, u64::MAX as nat) is Ok,
    ensures
        (classification(row, dose) is Err) == reading_fields_fail(row),
        classification(row, dose) is Ok ==> (classification(row, dose)->Ok_0.glucose_value()
            == glucose_field(row)),
{
    reveal_strlit("EGV");
    reveal_strlit("FirstName");
    reveal_strlit("LastName");
    reveal_strlit("Device");
    reveal_strlit("Alert");
    assert("EGV"@.len() == 3);
    assert("FirstName"@.len() == 9);
    assert("LastName"@.len() == 8);
    assert("Device"@.len() == 6);
    assert("Alert"@.len() == 5);
}

/// A row of a kind the classifier does not know, whose index reads, becomes a
/// record that exposes its index and nothing else.
pub proof fn lemma_unknown_kind_row(row: Seq<Seq<char>>, dose: Option<u64>)
    requires
        has_needed_fields(row),
        !is_known_kind(row[2]),
        unsigned_field(row, 0, u32::MAX as nat) is Ok,
    ensures
        classification(row, dose) is Ok,
        classification(row, dose)->Ok_0.index() == unsigned_field(row, 0, u32::MAX as nat)->Ok_0,
        classification(row, dose)->Ok_0 is Unknown,
        exposes_only_index(classification(row, dose)->Ok_0),
{
    lemma_unsigned_read_bound(row[0], u32::MAX as nat);
}

/// Classification depends on the row and the dose alone: the same row read
/// twice gives the same record, or the same error.
pub proof fn lemma_classification_repeatable(
    first: Seq<Seq<char>>,
    second: Seq<Seq<char>>,
    dose: Option<u64>,
)
    requires
        first == second,
    ensures
        classification(first, dose) == classification(second, dose),
{
}

/// The texts of a row's fields.
pub open spec fn row_view(data: Seq<String>) -> Seq<Seq<char>> {
    data.map_values(|f: String| f@)
}

/// How many fields a row of the given kind must hold: one past the last field
/// that its kind reads.
pub fn required_fields(kind: &str) -> (r: usize)
    ensures
        r == fields_needed(kind@),
{
    if same_text(kind, "FirstName") || same_text(kind, "LastName") {
        5
    } else if same_text(kind, "Device") {
        7
    } else if same_text(kind, "Alert") {
        12
    } else if same_text(kind, "EGV") {
        14
    } else if same_text(kind, "Insulin") {
        9
    } else if same_text(kind, "Carbs") {
        10
    } else if same_text(kind, "Calibration") {
        14
    } else {
        3
    }
}

impl DexcomRecord {
    /// Classifies one row of the export. `insulin_dose` is what the row's dose
    /// field (field 8) reads as, as the IEEE 754 binary64 bit pattern of a real
    /// number, or `None` where it does not read as one; only an insulin row
    /// uses it.
    pub fn new(data: &Vec<String>, insulin_dose: Option<u64>) -> (r: Result<
        DexcomRecord,
        ClassifyError,
    >)
        requires
            has_needed_fields(row_view(data@)),
        ensures
            r matches Ok(rec) ==> rec@.wf(),
            r matches Ok(rec) ==> classification(row_view(data@), insulin_dose) == Ok::<
                Record,
                ClassifyError,
            >(rec@),
            r matches Err(e) ==> classification(row_view(data@), insulin_dose) == Err::<
                Record,
                ClassifyError,
            >(e),
    {
        let ghost row = row_view(data@);
        assert(forall|i: int| 0 <= i < data@.len() ==> #[trigger] row[i] == data@[i]@);
        assert(row.len() == data@.len());
        let index = match parse_u32(data[0].as_str()) {
            Ok(i) => i,
            Err(reason) => return Err(ClassifyError::Integer { field: 0, reason }),
        };
        let kind = data[2].as_str();
        if same_text(kind, "FirstName") {
            Ok(DexcomRecord::FirstName { index, patient_info: data[4].clone() })
        } else if same_text(kind, "LastName") {
            Ok(DexcomRecord::LastName { index, patient_info: data[4].clone() })
        } else if same_text(kind, "Device") {
            Ok(
                DexcomRecord::Device {
                    index,
                    device_info: data[5].clone(),
                    source_device_id: data[6].clone(),
                },
            )
        } else if same_text(kind, "Alert") {
            let duration = match parse_time_of_day(data[10].as_str(), DURATION_FORMAT) {
                Some(t) => Some(t.since_midnight()),
                None => None,
            };
            Ok(
                DexcomRecord::Alert {
                    index,
                    event_subtype: data[3].clone(),
                    source_device_id: data[6].clone(),
                    glucose_value: match parse_u16(data[7].as_str()) {
                        Ok(v) => Some(v),
                        Err(_) => None,
                    },
                    duration,
                    glucose_rate_of_change: match parse_u8(data[11].as_str()) {
                        Ok(v) => Some(v),
                        Err(_) => None,
                    },
                },
            )
        } else if same_text(kind, "EGV") {
            let timestamp = match parse_date_time(data[1].as_str(), TIMESTAMP_FORMAT) {
                Ok(t) => t,
                Err(reason) => return Err(ClassifyError::Timestamp { field: 1, reason }),
            };
            let glucose_value = match parse_u16(data[7].as_str()) {
                Ok(g) => g,
                Err(reason) => return Err(ClassifyError::Integer { field: 7, reason }),
            };
            let transmitter_time = match parse_u64(data[12].as_str()) {
                Ok(t) => t,
                Err(reason) => return Err(ClassifyError::Integer { field: 12, reason }),
            };
            Ok(
                DexcomRecord::EGV {
                    index,
                    timestamp,
                    source_device_id: data[6].clone(),
                    glucose_value,
                    transmitter_time,
                    transmitter_id: data[13].clone(),
                },
            )
        } else if same_text(kind, "Insulin") {
            let timestamp = match parse_date_time(data[1].as_str(), TIMESTAMP_FORMAT) {
                Ok(t) => t,
                Err(reason) => return Err(ClassifyError::Timestamp { field: 1, reason }),
            };
            let insulin_value = match insulin_dose {
                Some(d) => d,
                None => return Err(ClassifyError::Real { field: 8 }),
            };
            Ok(
                DexcomRecord::Insulin {
                    index,
                    timestamp,
                    event_subtype: data[3].clone(),
                    source_device_id: data[6].clone(),
                    insulin_value,
                },
            )
        } else if same_text(kind, "Carbs") {
            let timestamp = match parse_date_time(data[1].as_str(), TIMESTAMP_FORMAT) {
                Ok(t) => t,
                Err(reason) => return Err(ClassifyError::Timestamp { field: 1, reason }),
            };
            let carb_value = match parse_u16(data[9].as_str()) {
                Ok(c) => c,
                Err(reason) => return Err(ClassifyError::Integer { field: 9, reason }),
            };
            Ok(
                DexcomRecord::Carbs {
                    index,
                    timestamp,
                    source_device_id: data[6].clone(),
                    carb_value,
                },
            )
        } else if same_text(kind, "Calibration") {
            let timestamp = match parse_date_time(data[1].as_str(), TIMESTAMP_FORMAT) {
                Ok(t) => t,
                Err(reason) => return Err(ClassifyError::Timestamp { field: 1, reason }),
            };
            let glucose_value = match parse_u16(data[7].as_str()) {
                Ok(g) => g,
                Err(reason) => return Err(ClassifyError::Integer { field: 7, reason }),
            };
            Ok(
                DexcomRecord::Calibration {
                    index,
                    timestamp,
                    source_device_id: data[6].clone(),
                    glucose_value,
                    transmitter_id: data[13].clone(),
                },
            )
        } else {
            Ok(DexcomRecord::Unknown { index })
        }
    }

    pub fn index(&self) -> (r: u32)
        ensures
            r == self@.index(),
    {
        match self {
            DexcomRecord::FirstName { index, .. } => *index,
            DexcomRecord::LastName { index, .. } => *index,
            DexcomRecord::Device { index, .. } => *index,
            DexcomRecord::Alert { index, .. } => *index,
            DexcomRecord::EGV { index, .. } => *index,
            DexcomRecord::Insulin { index, .. } => *index,
            DexcomRecord::Carbs { index, .. } => *index,
            DexcomRecord::Calibration { index, .. } => *index,
            DexcomRecord::Unknown { index } => *index,
        }
    }

    pub fn patient_info(&self) -> (r: Option<&str>)
        ensures
            text_view(r) == self@.patient_info(),
    {
        match self {
            DexcomRecord::FirstName { patient_info, .. } => Some(patient_info.as_str()),
            DexcomRecord::LastName { patient_info, .. } => Some(patient_info.as_str()),
            _ => None,
        }
    }

    pub fn device_info(&self) -> (r: Option<&str>)
        ensures
            text_view(r) == self@.device_info(),
    {
        match self {
            DexcomRecord::Device { device_info, .. } => Some(device_info.as_str()),
            _ => None,
        }
    }

    pub fn source_device_id(&self) -> (r: Option<&str>)
        ensures
            text_view(r) == self@.source_device_id(),
    {
        match self {
            DexcomRecord::Device { source_device_id, .. } => Some(source_device_id.as_str()),
            DexcomRecord::Alert { source_device_id, .. } => Some(source_device_id.as_str()),
            DexcomRecord::EGV { source_device_id, .. } => Some(source_device_id.as_str()),
            DexcomRecord::Insulin { source_device_id, .. } => Some(source_device_id.as_str()),
            DexcomRecord::Carbs { source_device_id, .. } => Some(source_device_id.as_str()),
            DexcomRecord::Calibration { source_device_id, .. } => Some(source_device_id.as_str()),
            _ => None,
        }
    }

    pub fn event_subtype(&self) -> (r: Option<&str>)
        ensures
            text_view(r) == self@.event_subtype(),
    {
        match self {
            DexcomRecord::Alert { event_subtype, .. } => Some(event_subtype.as_str()),
            DexcomRecord::Insulin { event_subtype, .. } => Some(event_subtype.as_str()),
            _ => None,
        }
    }

    pub fn glucose_value(&self) -> (r: Option<u16>)
        ensures
            r == self@.glucose_value(),
    {
        match self {
            DexcomRecord::Alert { glucose_value, .. } => *glucose_value,
            DexcomRecord::EGV { glucose_value, .. } => Some(*glucose_value),
            DexcomRecord::Calibration { glucose_value, .. } => Some(*glucose_value),
            _ => None,
        }
    }

    /// The duration, in seconds.
    pub fn duration(&self) -> (r: Option<u32>)
        ensures
            r == self@.duration(),
    {
        match self {
            DexcomRecord::Alert { duration, .. } => *duration,
            _ => None,
        }
    }

    pub fn glucose_rate_of_change(&self) -> (r: Option<u8>)
        ensures
            r == self@.glucose_rate_of_change(),
    {
        match self {
            DexcomRecord::Alert { glucose_rate_of_change, .. } => *glucose_rate_of_change,
            _ => None,
        }
    }

    pub fn timestamp(&self) -> (r: Option<DateTime>)
        ensures
            r == self@.timestamp(),
    {
        match self {
            DexcomRecord::EGV { timestamp, .. } => Some(*timestamp),
            DexcomRecord::Insulin { timestamp, .. } => Some(*timestamp),
            DexcomRecord::Carbs { timestamp, .. } => Some(*timestamp),
            DexcomRecord::Calibration { timestamp, .. } => Some(*timestamp),
            _ => None,
        }
    }

    pub fn transmitter_time(&self) -> (r: Option<u64>)
        ensures
            r == self@.transmitter_time(),
    {
        match self {
            DexcomRecord::EGV { transmitter_time, .. } => Some(*transmitter_time),
            _ => None,
        }
    }

    pub fn transmitter_id(&self) -> (r: Option<&str>)
        ensures
            text_view(r) == self@.transmitter_id(),
    {
        match self {
            DexcomRecord::EGV { transmitter_id, .. } => Some(transmitter_id.as_str()),
            DexcomRecord::Calibration { transmitter_id, .. } => Some(transmitter_id.as_str()),
            _ => None,
        }
    }

    /// The dose, as the IEEE 754 binary64 bit pattern of the real number.
    pub fn insulin_value(&self) -> (r: Option<u64>)
        ensures
            r == self@.insulin_value(),
    {
        match self {
            DexcomRecord::Insulin { insulin_value, .. } => Some(*insulin_value),
            _ => None,
        }
    }

    pub fn carb_value(&self) -> (r: Option<u16>)
        ensures
            r == self@.carb_value(),
    {
        match self {
            DexcomRecord::Carbs { carb_value, .. } => Some(*carb_value),
            _ => None,
        }
    }
}

/// Classifies the rows of an export in order, stopping at the first row that
/// fails. `doses[i]` is what the dose field of row `i` reads as (see
/// `DexcomRecord::new`).
pub fn classify_rows(rows: &Vec<Vec<String>>, doses: &Vec<Option<u64>>) -> (r: Result<
    Vec<DexcomRecord>,
    RowError,
>)
    requires
        doses@.len() == rows@.len(),
        forall|i: int| 0 <= i < rows@.len() ==> has_needed_fields(row_view((#[trigger] rows@[i])@)),
    ensures
        r is Ok <==> forall|i: int|
            0 <= i < rows@.len() ==> (#[trigger] classification(row_view(rows@[i]@), doses@[i]))
                is Ok,
        r matches Ok(recs) ==> forall|i: int| 0 <= i < recs@.len() ==> (#[trigger] recs@[i])@.wf(),
        r matches Ok(recs) ==> recs@.len() == rows@.len() && forall|i: int|
            0 <= i < rows@.len() ==> classification(row_view(rows@[i]@), doses@[i]) == Ok::<
                Record,
                ClassifyError,
            >((#[trigger] recs@[i])@),
        r matches Err(e) ==> e.row < rows@.len() && classification(
            row_view(rows@[e.row as int]@),
            doses@[e.row as int],
        ) == Err::<Record, ClassifyError>(e.error) && forall|i: int|
            0 <= i < e.row ==> (#[trigger] classification(row_view(rows@[i]@), doses@[i])) is Ok,
{
    let mut recs: Vec<DexcomRecord> = Vec::new();
    let mut i: usize = 0;
    while i < rows.len()
        invariant
            i <= rows@.len(),
            doses@.len() == rows@.len(),
            forall|j: int|
                0 <= j < rows@.len() ==> has_needed_fields(row_view((#[trigger] rows@[j])@)),
            forall|j: int| 0 <= j < i ==> (#[trigger] recs@[j])@.wf(),
            recs@.len() == i,
            forall|j: int|
                0 <= j < i ==> classification(row_view(rows@[j]@), doses@[j]) == Ok::<
                    Record,
                    ClassifyError,
                >((#[trigger] recs@[j])@),
        decreases rows@.len() - i,
    {
        match DexcomRecord::new(&rows[i], doses[i]) {
            Ok(rec) => recs.push(rec),
            Err(error) => {
                assert forall|j: int| 0 <= j < i implies (#[trigger] classification(
                    row_view(rows@[j]@),
                    doses@[j],
                )) is Ok by {
                    assert(classification(row_view(rows@[j]@), doses@[j]) == Ok::<
                        Record,
                        ClassifyError,
                    >(recs@[j]@));
                }
                return Err(RowError { row: i, error });
            },
        }
        i = i + 1;
    }
    assert forall|j: int| 0 <= j < rows@.len() implies (#[trigger] classification(
        row_view(rows@[j]@),
        doses@[j],
    )) is Ok by {
        assert(classification(row_view(rows@[j]@), doses@[j]) == Ok::<Record, ClassifyError>(
            recs@[j]@,
        ));
    }
    Ok(recs)
}

} // verus!
