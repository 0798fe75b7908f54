//! The diagnostic that is sent when the host meets a fault it cannot recover
//! from.

use vstd::prelude::*;
use vstd::string::*;

verus! {

/// The body of a diagnostic frame: a JSON object with the members `status`,
/// `payload`, `file` and `line`, the last two `null` where the place of the
/// fault is not known.
#[derive(Debug)]
pub struct PanicReport {
    pub status: String,
    pub payload: String,
    pub file: Option<String>,
    pub line: Option<u32>,
}

/// The description of a fault: its message where it has one, as a string
/// slice or else as an owned string, and a fixed text where it has none.
pub open spec fn description_of(message: Option<&str>, owned_message: Option<&str>) -> Seq<char> {
    match message {
        Some(text) => text@,
        None => match owned_message {
            Some(text) => text@,
            None => "Box<Any>"@,
        },
    }
}

/// Whether `report` is the diagnostic for a fault with the given description
/// and place.
pub open spec fn reports(
    report: PanicReport,
    description: Seq<char>,
    location: Option<(&str, u32)>,
) -> bool {
    &&& report.status@ == "panic"@
    &&& report.payload@ == description
    &&& match location {
        Some((file, line)) => {
            &&& report.file matches Some(name)
            &&& name@ == file@
            &&& report.line == Some(line)
        },
        None => report.file is None && report.line is None,
    }
}

/// Builds the diagnostic for a fault. `message` and `owned_message` are the
/// two forms in which a fault may carry its message, and `location` is the
/// file and line where it arose.
pub fn panic_report(
    message: Option<&str>,
    owned_message: Option<&str>,
    location: Option<(&str, u32)>,
) -> (report: PanicReport)
    ensures
        reports(report, description_of(message, owned_message), location),
{
    let payload = match message {
        Some(text) => String::from_str(text),
        None => match owned_message {
            Some(text) => String::from_str(text),
            None => String::from_str("Box<Any>"),
        },
    };
    let (file, line) = match location {
        Some((file, line)) => (Some(String::from_str(file)), Some(line)),
        None => (None, None),
    };
    PanicReport { status: String::from_str("panic"), payload, file, line }
}

} // verus!
