use vstd::prelude::*;

verus! {

/// The source position an error is reported from.
pub struct LogLocation {
    pub file: String,
    pub line: u32,
}

impl LogLocation {
    pub fn new(file: String, line: u32) -> (r: LogLocation)
        ensures
            r.file@ == file@,
            r.line == line,
    {
        LogLocation { file, line }
    }

    pub fn file(&self) -> (r: &str)
        ensures
            r@ == self.file@,
    {
        self.file.as_str()
    }

    pub fn line(&self) -> (r: u32)
        ensures
            r == self.line,
    {
        self.line
    }
}

} // verus!
