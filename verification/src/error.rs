//! Why a run ends without having done its work.

use vstd::prelude::*;

verus! {

/// What a file was being opened for.
#[derive(Debug, Clone, Copy, PartialEq, Eq, Structural)]
pub enum Access {
    /// To read the document.
    Read,
    /// To append the list of links.
    Append,
}

/// Every failure is fatal: the run stops where it happens, and what was
/// written before it stays written.
#[derive(Debug, Clone, Copy, PartialEq, Eq, Structural)]
pub enum Error {
    /// No path was given on the command line.
    MissingInput,
    /// The path ends neither in `.txt` nor in `.md`.
    UnsupportedFileType,
    /// The path could not be made absolute.
    PathResolution,
    /// The file could not be opened.
    FileOpen(Access),
    /// The file was opened, and reading it failed.
    FileRead,
    /// The HTML is longer than the engine takes: its length in bytes does not
    /// fit in 32 bits.
    DocumentTooLarge,
    /// The engine could not make sense of the selector for anchors.
    SelectorRejected,
    /// The engine selected a node and then found no element under its handle.
    NotAnElement,
    /// An anchor has no `href` attribute, or has it without a value.
    AttributeMissing,
    /// Appending to the file failed.
    FileWrite,
}

impl Error {
    /// The line that tells the user of this failure.
    pub open spec fn diagnostic(self) -> Seq<char> {
        match self {
            Error::MissingInput => "Error: no input provided"@,
            Error::UnsupportedFileType => "Error: input file must be a text file"@,
            Error::PathResolution => "Error: could not resolve the path of the file"@,
            Error::FileOpen(Access::Read) =>
                "Error: could not open file. Are you sure you provided the right path?"@,
            Error::FileOpen(Access::Append) => "Error: could not open file"@,
            Error::FileRead => "Error: could not read file"@,
            Error::DocumentTooLarge => "Error: the document is too large"@,
            Error::SelectorRejected => "Error: could not select the links of the document"@,
            Error::NotAnElement => "Error: could not read a link of the document"@,
            Error::AttributeMissing => "Error: a link of the document has no address"@,
            Error::FileWrite => "Error: could not write to file"@,
        }
    }

    /// The line that tells the user of this failure.
    pub fn message(&self) -> (line: &'static str)
        ensures
            line@ == self.diagnostic(),
    {
        match self {
            Error::MissingInput => "Error: no input provided",
            Error::UnsupportedFileType => "Error: input file must be a text file",
            Error::PathResolution => "Error: could not resolve the path of the file",
            Error::FileOpen(Access::Read) =>
                "Error: could not open file. Are you sure you provided the right path?",
            Error::FileOpen(Access::Append) => "Error: could not open file",
            Error::FileRead => "Error: could not read file",
            Error::DocumentTooLarge => "Error: the document is too large",
            Error::SelectorRejected => "Error: could not select the links of the document",
            Error::NotAnElement => "Error: could not read a link of the document",
            Error::AttributeMissing => "Error: a link of the document has no address",
            Error::FileWrite => "Error: could not write to file",
        }
    }

    /// The status with which the process leaves after this failure.
    pub fn exit_code(&self) -> (code: u8)
        ensures
            code == 1,
    {
        1
    }
}

/// A result as the contracts see it: the view of what it holds, or the error.
pub open spec fn result_view<T: DeepView>(r: Result<T, Error>) -> Result<T::V, Error> {
    match r {
        Ok(value) => Ok(value.deep_view()),
        Err(e) => Err(e),
    }
}

} // verus!
