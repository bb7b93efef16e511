use vstd::prelude::*;

verus! {

/// A compiled unit: its name and its full text.
#[derive(Debug)]
pub struct FileInfo {
    name: String,
    code: String,
}

impl FileInfo {
    /// Makes the unit named `name` with text `code`.
    pub fn new(name: String, code: String) -> (r: FileInfo)
        ensures
            r.name() == name@,
            r.code() == code@,
    {
        FileInfo { name, code }
    }

    /// The unit's name.
    pub closed spec fn name(&self) -> Seq<char> {
        self.name@
    }

    /// The unit's text.
    pub closed spec fn code(&self) -> Seq<char> {
        self.code@
    }

    pub fn get_name(&self) -> (r: &str)
        ensures
            r@ == self.name(),
    {
        self.name.as_str()
    }

    pub fn get_code(&self) -> (r: &str)
        ensures
            r@ == self.code(),
    {
        self.code.as_str()
    }
}

} // verus!
