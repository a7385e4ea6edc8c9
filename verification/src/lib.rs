//! Sequential access to the entries of an archive whose bytes are decoded by
//! a native codec.
//!
//! The library holds the protocol, not the codec. Every function here is a
//! step from a state and an event to a next state and an action: the reader
//! says which native call it needs next, the caller makes that call, and the
//! reader takes what came back. Nothing in this crate touches a file or a
//! native handle, so each step is proved for every reply a codec can give.
//!
//! One round of the iteration goes like this. Ask
//! [`OpenArchiveReader::next_call`]. On `None` the iteration is over. On a
//! skip, have the codec make it and give the reply to
//! [`OpenArchiveReader::skip_unprocessed`]; an error ends the round. Then
//! have the codec read a header and give the reply to
//! [`OpenArchiveReader::read_next_header`], which hands out an
//! [`EntryHeader`]. To process the entry behind it, take the request of an
//! operation, from [`EntryHeader::skip_request`] for [`EntryHeader::skip`]
//! and so on, have the codec make that call, and give the reply to the
//! operation. A handle that is dropped instead leaves its entry to be skipped in
//! the next round.
//!
//! * [`error`]: result codes of the codec and the error the library returns.
//! * [`entry`]: the metadata of one archive member and the member itself.
//! * [`archive`]: what is handed to the codec and what it hands back.
//! * [`model`]: the protocol as mathematical functions, and what follows
//!   from them.
//! * [`reader`]: the reader and the handle of one pending entry.

pub mod archive;
pub mod entry;
pub mod error;
pub mod model;
pub mod reader;

pub use archive::{HeaderReply, NativeCall, OpenArchive, Operation, ProcessReply, ProcessRequest};
pub use entry::{Entry, HeaderData};
pub use error::{Code, UnrarError, UnrarResult, When};
pub use reader::{room_for, EntryHeader, OpenArchiveReader};
