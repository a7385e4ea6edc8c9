//! The reader of an open archive and the handle of its pending entry.

use vstd::prelude::*;

use crate::archive::{
    call_view, HeaderReply, NativeCall, OpenArchive, Operation, ProcessReply, ProcessRequest,
};
use crate::entry::{entry_view, text_view, Entry};
use crate::error::{result_view, Code, UnrarError, UnrarResult, When};
use crate::model::{
    bytes_read, header_read, initial, next_call, processed, read_request, request_for,
    reserved_room, skipped, Advance, ReaderView,
};

verus! {

/// Walks the entries of an open archive, one header at a time.
///
/// The reader keeps at most one entry that was read and not processed.
/// [`next_call`](Self::next_call) says which call of the codec comes next;
/// [`skip_unprocessed`](Self::skip_unprocessed) and
/// [`read_next_header`](Self::read_next_header) take the answers. After a
/// failed header read, a failed skip or the end of the archive the reader is
/// damaged: it asks for no further call and reports the end from then on.
#[derive(Debug)]
pub struct OpenArchiveReader {
    inner: OpenArchive,
    current_header: Option<Entry>,
    damaged: bool,
}

impl View for OpenArchiveReader {
    type V = ReaderView;

    closed spec fn view(&self) -> ReaderView {
        ReaderView {
            destination: text_view(self.inner.destination),
            pending: entry_view(self.current_header),
            damaged: self.damaged,
        }
    }
}

impl OpenArchiveReader {
    /// A reader at the start of `archive`: nothing pending, not damaged.
    pub fn new(archive: OpenArchive) -> (reader: OpenArchiveReader)
        ensures
            reader@ == initial(text_view(archive.destination)),
    {
        OpenArchiveReader { inner: archive, current_header: None, damaged: false }
    }

    /// Whether the reader has stopped for good.
    pub fn is_damaged(&self) -> (damaged: bool)
        ensures
            damaged == self@.damaged,
    {
        self.damaged
    }

    /// Whether an entry was read and not processed yet.
    pub fn has_pending(&self) -> (pending: bool)
        ensures
            pending == (self@.pending is Some),
    {
        self.current_header.is_some()
    }

    /// The call of the codec that the reader needs next: none once it is
    /// damaged, a skip of the pending entry while there is one, a header
    /// read otherwise.
    pub fn next_call(&self) -> (call: Option<NativeCall>)
        ensures
            call_view(call) == next_call(self@),
    {
        if self.damaged {
            None
        } else if self.current_header.is_some() {
            let request = ProcessRequest {
                operation: Operation::Skip,
                destination: None,
                buffer: None,
            };
            Some(NativeCall::Process(request))
        } else {
            Some(NativeCall::ReadHeader)
        }
    }

    /// Takes the codec's answer to the skip that
    /// [`next_call`](Self::next_call) asked for.
    ///
    /// The slot is empty afterwards. Where the skip failed the reader is
    /// damaged, and the failure comes back without an entry: the entry that
    /// was skipped is not the one the caller asked for. With nothing pending
    /// the reply is dropped and nothing changes.
    pub fn skip_unprocessed(&mut self, reply: ProcessReply) -> (result: Result<(), UnrarError>)
        ensures
            final(self)@ == skipped(old(self)@, reply@).0,
            match result {
                Ok(_) => skipped(old(self)@, reply@).1 is None,
                Err(e) => skipped(old(self)@, reply@).1 == Some(e@),
            },
    {
        let mut unproc = self.current_header.take();
        if unproc.is_some() {
            let result = EntryHeader::new(&mut unproc, &self.inner).skip(reply);
            if let Err(e) = result {
                self.damaged = true;
                return Err(UnrarError::from(e.code, e.when));
            }
        }
        Ok(())
    }

    /// Takes the codec's answer to a header read and hands out the handle of
    /// the entry that was read.
    ///
    /// Returns `None` exactly when the reader was damaged already or the
    /// codec reported the end of the archive; an error of the reading phase
    /// exactly when the codec reported any other failure; and otherwise a
    /// handle bound to the entry of the header, which is pending from then
    /// on. Every outcome but a handle leaves the reader damaged.
    ///
    /// A header may only be read while no entry is pending.
    pub fn read_next_header(&mut self, reply: HeaderReply) -> (result: Option<
        UnrarResult<EntryHeader<'_>>,
    >)
        requires
            old(self)@.damaged || old(self)@.pending is None,
        ensures
            match result {
                None => header_read(old(self)@, reply@) == (final(self)@, Advance::End),
                Some(Err(e)) => header_read(old(self)@, reply@) == (
                    final(self)@,
                    Advance::Failed(e@),
                ),
                Some(Ok(header)) => {
                    &&& header.bound() is Some
                    &&& header_read(old(self)@, reply@).1 == Advance::Header(
                        header.bound().unwrap()@,
                    )
                    &&& text_view(header.archive.destination) == old(self)@.destination
                    &&& final(self)@ == ReaderView {
                        pending: entry_view(*final(header.entry)),
                        ..header_read(old(self)@, reply@).0
                    }
                },
            },
    {
        if self.damaged {
            self.current_header = None;
            return None;
        }
        self.current_header = Some(
            match reply.code {
                Code::Success => Entry::from(reply.header),
                Code::EndArchive => {
                    self.damaged = true;
                    return None;
                },
                _ => {
                    self.damaged = true;
                    return Some(Err(UnrarError::from(reply.code, When::Read)));
                },
            },
        );
        Some(Ok(EntryHeader::new(&mut self.current_header, &self.inner)))
    }
}

/// The handle of the one entry that is pending.
///
/// It borrows the reader's slot, so while it lives the reader cannot move
/// on, and no second handle can exist. Each of [`skip`](Self::skip),
/// [`test`](Self::test), [`extract`](Self::extract) and
/// [`read_bytes`](Self::read_bytes) consumes the handle and empties the
/// slot. A handle that is dropped leaves the entry in the slot, and the
/// reader skips it before it reads on.
#[derive(Debug)]
pub struct EntryHeader<'a> {
    /// The reader's slot. It holds an entry for as long as the handle lives.
    pub entry: &'a mut Option<Entry>,
    /// The archive that the entry belongs to.
    pub archive: &'a OpenArchive,
}

impl<'a> EntryHeader<'a> {
    /// Binds a handle to the entry in `entry`. The slot must hold one.
    pub fn new(entry: &'a mut Option<Entry>, archive: &'a OpenArchive) -> (header: EntryHeader<'a>)
        requires
            (*old(entry)) is Some,
        ensures
            *header.entry == *old(entry),
            *final(header.entry) == *final(entry),
            header.archive == archive,
    {
        EntryHeader { entry, archive }
    }

    /// The entry that the handle is bound to.
    pub open spec fn bound(&self) -> Option<Entry> {
        *self.entry
    }

    /// The pending entry, for a look at its metadata.
    pub fn entry(&self) -> (entry: &Entry)
        requires
            self.bound() is Some,
        ensures
            Some(*entry) == self.bound(),
    {
        self.entry.as_ref().unwrap()
    }

    /// The name of the pending entry.
    pub fn filename(&self) -> (name: &str)
        requires
            self.bound() is Some,
        ensures
            name@ == self.bound().unwrap()@.metadata.filename,
    {
        self.entry().filename.as_str()
    }

    /// The size of the pending entry as it is stored in the archive.
    pub fn packed_size(&self) -> (size: u64)
        requires
            self.bound() is Some,
        ensures
            size == self.bound().unwrap()@.metadata.packed_size,
    {
        self.entry().packed_size
    }

    /// The size that the header declares for the decoded content.
    pub fn unpacked_size(&self) -> (size: u64)
        requires
            self.bound() is Some,
        ensures
            size == self.bound().unwrap()@.metadata.unpacked_size,
    {
        self.entry().unpacked_size
    }

    /// The attributes of the pending entry.
    pub fn file_attr(&self) -> (attributes: u32)
        requires
            self.bound() is Some,
        ensures
            attributes == self.bound().unwrap()@.metadata.file_attr,
    {
        self.entry().file_attr
    }

    /// The modification time of the pending entry, as the codec packs it.
    pub fn file_time(&self) -> (time: u32)
        requires
            self.bound() is Some,
        ensures
            time == self.bound().unwrap()@.metadata.file_time,
    {
        self.entry().file_time
    }

    /// The checksum that the header declares for the decoded content.
    pub fn file_crc(&self) -> (crc: u32)
        requires
            self.bound() is Some,
        ensures
            crc == self.bound().unwrap()@.metadata.file_crc,
    {
        self.entry().file_crc
    }

    /// The processing call for `operation` on the pending entry. Only an
    /// extraction names the archive's destination; a skip or a test passes
    /// no path.
    pub fn request(&self, operation: Operation) -> (request: ProcessRequest)
        ensures
            request@ == request_for(operation, text_view(self.archive.destination)),
    {
        let destination = if operation == Operation::Extract {
            match &self.archive.destination {
                Some(path) => Some(path.clone()),
                None => None,
            }
        } else {
            None
        };
        ProcessRequest { operation, destination, buffer: None }
    }

    /// The processing call that tests the pending entry. It passes no path.
    pub fn test_request(&self) -> (request: ProcessRequest)
        ensures
            request@ == request_for(Operation::Test, text_view(self.archive.destination)),
    {
        self.request(Operation::Test)
    }

    /// The processing call that extracts the pending entry. It names the
    /// archive's destination.
    pub fn extract_request(&self) -> (request: ProcessRequest)
        ensures
            request@ == request_for(Operation::Extract, text_view(self.archive.destination)),
    {
        self.request(Operation::Extract)
    }

    /// The processing call that skips the pending entry. It passes no path.
    pub fn skip_request(&self) -> (request: ProcessRequest)
        ensures
            request@ == request_for(Operation::Skip, text_view(self.archive.destination)),
    {
        self.request(Operation::Skip)
    }

    /// The processing call that reads the pending entry into memory: a test
    /// whose decoded bytes the codec appends to the buffer in the request.
    /// The buffer is empty, and the allocator was asked for
    /// [`room_for`] the size that the header declares, so that the codec may
    /// deliver the content in pieces without the buffer growing.
    pub fn read_bytes_request(&self) -> (request: ProcessRequest)
        requires
            self.bound() is Some,
        ensures
            request@ == read_request(),
    {
        let buffer = reserve(self.entry().unpacked_size);
        ProcessRequest { operation: Operation::Test, destination: None, buffer: Some(buffer) }
    }

    /// Reads the result code of a processing call. Every code but
    /// [`Code::Success`] is a failure of the processing phase.
    fn process(code: Code) -> (result: UnrarResult<()>)
        ensures
            code == Code::Success ==> result is Ok,
            code != Code::Success ==> (result matches Err(e) && e.code == code && e.when
                == When::Process && e.data is None),
    {
        match code {
            Code::Success => Ok(()),
            // This holds `Code::EOpen` too, which a processing call gives
            // where the next volume was not found: the entry still goes
            // back to the caller, inside the error.
            _ => Err(UnrarError::from(code, When::Process)),
        }
    }

    /// Finishes an operation that brings no content, whichever it was: takes
    /// the entry out of the slot, attaches the continuation that the codec
    /// reported, and returns the entry, inside the error where the call
    /// failed. [`skip`](Self::skip), [`test`](Self::test) and
    /// [`extract`](Self::extract) are this function.
    pub fn process_entry(self, reply: ProcessReply) -> (result: UnrarResult<Entry>)
        requires
            self.bound() is Some,
        ensures
            *final(self.entry) is None,
            result_view(result) == processed(self.bound().unwrap()@, reply@),
    {
        let result = Self::process(reply.code);
        let mut entry = self.entry.take().unwrap();
        entry.next_volume = reply.volume;
        match result {
            Ok(_) => Ok(entry),
            Err(e) => Err(UnrarError::new(e.code, e.when, entry)),
        }
    }

    /// Takes the codec's answer to [`read_bytes_request`](Self::read_bytes_request)
    /// and returns the entry with its content.
    ///
    /// The slot is empty afterwards. The entry gets the continuation of the
    /// reply. Every code but [`Code::Success`] is a failure under that code,
    /// whether the reply holds a buffer or not. Under [`Code::Success`] the
    /// buffer of the reply becomes the entry's content, and a reply without
    /// a buffer is a failure under [`Code::Success`]. Each failure belongs
    /// to the processing phase and carries the entry, without the bytes that
    /// the codec delivered.
    pub fn read_bytes(self, reply: ProcessReply) -> (result: UnrarResult<Entry>)
        requires
            self.bound() is Some,
        ensures
            *final(self.entry) is None,
            result_view(result) == bytes_read(self.bound().unwrap()@, reply@),
    {
        let result = Self::process(reply.code);
        let mut entry = self.entry.take().unwrap();
        entry.next_volume = reply.volume;
        match result {
            Err(e) => Err(UnrarError::new(e.code, e.when, entry)),
            Ok(_) => match reply.bytes {
                Some(bytes) => {
                    entry.bytes = Some(bytes);
                    Ok(entry)
                },
                None => Err(UnrarError::new(Code::Success, When::Process, entry)),
            },
        }
    }

    /// Takes the codec's answer to a test of the pending entry.
    ///
    /// The slot is empty afterwards. The entry gets the continuation of the
    /// reply and comes back as it is under [`Code::Success`], and inside a
    /// failure of the processing phase under every other code.
    pub fn test(self, reply: ProcessReply) -> (result: UnrarResult<Entry>)
        requires
            self.bound() is Some,
        ensures
            *final(self.entry) is None,
            result_view(result) == processed(self.bound().unwrap()@, reply@),
    {
        self.process_entry(reply)
    }

    /// Takes the codec's answer to an extraction of the pending entry.
    ///
    /// The slot is empty afterwards. The entry gets the continuation of the
    /// reply and comes back as it is under [`Code::Success`], and inside a
    /// failure of the processing phase under every other code.
    pub fn extract(self, reply: ProcessReply) -> (result: UnrarResult<Entry>)
        requires
            self.bound() is Some,
        ensures
            *final(self.entry) is None,
            result_view(result) == processed(self.bound().unwrap()@, reply@),
    {
        self.process_entry(reply)
    }

    /// Takes the codec's answer to a skip of the pending entry.
    ///
    /// The slot is empty afterwards. The entry gets the continuation of the
    /// reply and comes back as it is under [`Code::Success`], and inside a
    /// failure of the processing phase under every other code.
    pub fn skip(self, reply: ProcessReply) -> (result: UnrarResult<Entry>)
        requires
            self.bound() is Some,
        ensures
            *final(self.entry) is None,
            result_view(result) == processed(self.bound().unwrap()@, reply@),
    {
        self.process_entry(reply)
    }
}

/// An empty buffer with room for `size` bytes. A size that no buffer can
/// have reserves nothing.
fn reserve(size: u64) -> (buffer: Vec<u8>)
    ensures
        buffer@ == Seq::<u8>::empty(),
{
    Vec::with_capacity(room_for(size))
}

/// The room that the allocator is asked for on behalf of a content of `size`
/// bytes: the whole size, or nothing where no buffer can have that size.
pub fn room_for(size: u64) -> (room: usize)
    ensures
        room == reserved_room(size),
{
    if size <= isize::MAX as u64 {
        size as usize
    } else {
        0
    }
}

} // verus!
