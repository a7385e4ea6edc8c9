//! Result codes of the native codec and the library's error type.

use vstd::prelude::*;

use crate::entry::{Entry, EntryView};

verus! {

/// A result code of the native codec.
#[derive(Clone, Copy, Debug, PartialEq, Eq, Structural)]
pub enum Code {
    /// The call did what it was asked to.
    Success,
    /// No entry follows the last one.
    EndArchive,
    /// The codec ran out of memory.
    NoMemory,
    /// The content of an entry is damaged.
    BadData,
    /// The archive is damaged.
    BadArchive,
    /// The archive has a format that the codec does not know.
    UnknownFormat,
    /// A file could not be opened. From a processing call: the next volume
    /// was not found.
    EOpen,
    /// A file could not be created.
    ECreate,
    /// A file could not be closed.
    EClose,
    /// A file could not be read.
    ERead,
    /// A file could not be written.
    EWrite,
    /// A buffer handed to the codec was too small.
    SmallBuf,
    /// The codec failed without saying how.
    Unknown,
    /// An entry is encrypted and no password was given.
    MissingPassword,
    /// A link could not be made because its target was not unpacked.
    EReference,
    /// The password is wrong.
    BadPassword,
}

impl Code {
    /// The number by which the codec reports this code.
    pub open spec fn number(self) -> u32 {
        match self {
            Code::Success => 0,
            Code::EndArchive => 10,
            Code::NoMemory => 11,
            Code::BadData => 12,
            Code::BadArchive => 13,
            Code::UnknownFormat => 14,
            Code::EOpen => 15,
            Code::ECreate => 16,
            Code::EClose => 17,
            Code::ERead => 18,
            Code::EWrite => 19,
            Code::SmallBuf => 20,
            Code::Unknown => 21,
            Code::MissingPassword => 22,
            Code::EReference => 23,
            Code::BadPassword => 24,
        }
    }

    /// Reads a number reported by the codec: the code that has this number,
    /// and `None` where no code has it.
    pub fn from(code: u32) -> (result: Option<Code>)
        ensures
            forall|c: Code| #[trigger] c.number() == code <==> result == Some(c),
    {
        match code {
            0 => Some(Code::Success),
            10 => Some(Code::EndArchive),
            11 => Some(Code::NoMemory),
            12 => Some(Code::BadData),
            13 => Some(Code::BadArchive),
            14 => Some(Code::UnknownFormat),
            15 => Some(Code::EOpen),
            16 => Some(Code::ECreate),
            17 => Some(Code::EClose),
            18 => Some(Code::ERead),
            19 => Some(Code::EWrite),
            20 => Some(Code::SmallBuf),
            21 => Some(Code::Unknown),
            22 => Some(Code::MissingPassword),
            23 => Some(Code::EReference),
            24 => Some(Code::BadPassword),
            _ => None,
        }
    }
}

/// The phase in which the codec failed.
#[derive(Clone, Copy, Debug, PartialEq, Eq, Structural)]
pub enum When {
    /// While the archive was opened.
    Open,
    /// While a header was read.
    Read,
    /// While an entry was processed.
    Process,
}

/// A failure of the codec: its code, the phase, and the entry that was being
/// processed where there was one.
#[derive(Debug, PartialEq, Eq)]
pub struct UnrarError {
    /// What the codec reported.
    pub code: Code,
    /// The phase in which it did.
    pub when: When,
    /// The entry that was being processed, with what is known of it.
    pub data: Option<Entry>,
}

/// What an [`UnrarError`] stands for.
pub struct ErrorView {
    pub code: Code,
    pub when: When,
    pub data: Option<EntryView>,
}

impl View for UnrarError {
    type V = ErrorView;

    open spec fn view(&self) -> ErrorView {
        ErrorView {
            code: self.code,
            when: self.when,
            data: match self.data {
                Some(entry) => Some(entry@),
                None => None,
            },
        }
    }
}

/// The result of a step that can fail in the codec.
pub type UnrarResult<T> = Result<T, UnrarError>;

/// What the result of processing an entry stands for.
pub open spec fn result_view(result: UnrarResult<Entry>) -> Result<EntryView, ErrorView> {
    match result {
        Ok(entry) => Ok(entry@),
        Err(error) => Err(error@),
    }
}

impl UnrarError {
    /// A failure that carries the entry it happened on.
    pub fn new(code: Code, when: When, data: Entry) -> (error: UnrarError)
        ensures
            error.code == code,
            error.when == when,
            error.data == Some(data),
    {
        UnrarError { code, when, data: Some(data) }
    }

    /// A failure that belongs to no entry.
    pub fn from(code: Code, when: When) -> (error: UnrarError)
        ensures
            error.code == code,
            error.when == when,
            error.data is None,
    {
        UnrarError { code, when, data: None }
    }
}

} // verus!
