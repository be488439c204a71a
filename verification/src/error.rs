//! What can go wrong with the pet file and with positions in the pet list.

use vstd::prelude::*;
use vstd::string::StringExecFns;

verus! {

/// A failure of one operation on the stored pets.
#[derive(Clone, Debug, PartialEq, Eq)]
pub enum Error {
    /// The file could not be read; holds what the system said.
    ReadDBError(String),
    /// The file's content is not a list of pets; holds what the decoder said.
    ParseDBError(String),
    /// The file could not be written; holds what the system said.
    WriteDBError(String),
    /// A position at or past the end of the list was named.
    IndexError { index: usize, len: usize },
}

impl Error {
    /// The fixed text that introduces each kind of failure.
    pub open spec fn prefix(self) -> Seq<char> {
        match self {
            Error::ReadDBError(_) => "error reading the DB file: "@,
            Error::ParseDBError(_) => "error parsing the DB file: "@,
            Error::WriteDBError(_) => "error writing the DB file: "@,
            Error::IndexError { .. } => "no pet at the selected position"@,
        }
    }

    /// What follows the prefix: the cause, where one was recorded.
    pub open spec fn detail(self) -> Seq<char> {
        match self {
            Error::ReadDBError(cause) => cause@,
            Error::ParseDBError(cause) => cause@,
            Error::WriteDBError(cause) => cause@,
            Error::IndexError { .. } => Seq::empty(),
        }
    }

    /// The message shown to the operator.
    pub fn message(&self) -> (text: String)
        ensures
            text@ == self.prefix() + self.detail(),
    {
        match self {
            Error::ReadDBError(cause) => String::from_str("error reading the DB file: ").concat(
                cause.as_str(),
            ),
            Error::ParseDBError(cause) => String::from_str("error parsing the DB file: ").concat(
                cause.as_str(),
            ),
            Error::WriteDBError(cause) => String::from_str("error writing the DB file: ").concat(
                cause.as_str(),
            ),
            Error::IndexError { .. } => {
                let text = String::from_str("no pet at the selected position");
                assert(text@ + Seq::<char>::empty() =~= text@);
                text
            },
        }
    }
}

} // verus!
