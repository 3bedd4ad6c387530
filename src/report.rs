use vstd::prelude::*;
use crate::location::LogLocation;

verus! {

/// One stack frame of a report: a file name and a line in it.
pub struct Frame {
    pub file_name: String,
    pub line_number: u32,
}

/// What `send` hands to a reporting backend: the message and the single frame
/// taken from the location it was reported at.
pub struct ErrorReport {
    pub message: String,
    pub frame: Frame,
}

impl ErrorReport {
    /// The report for `message` raised at `location`.
    pub fn at(message: &String, location: &LogLocation) -> (r: ErrorReport)
        ensures
            r.message@ == message@,
            r.frame.file_name@ == location.file@,
            r.frame.line_number == location.line,
    {
        ErrorReport {
            message: message.clone(),
            frame: Frame { file_name: location.file.clone(), line_number: location.line() },
        }
    }
}

} // verus!
