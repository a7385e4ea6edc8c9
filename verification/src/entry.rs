//! One member of an archive: what its header says, and what processing adds.

use vstd::prelude::*;

verus! {

/// The fields of one header as the codec returns them. Each size comes in
/// two halves of 32 bits.
#[derive(Clone, Debug, PartialEq, Eq)]
pub struct HeaderData {
    /// The path of the entry inside the archive.
    pub filename: String,
    /// The flags of the entry, as the codec packs them.
    pub flags: u32,
    /// The lower half of the size that the entry takes in the archive.
    pub pack_size: u32,
    /// The upper half of that size.
    pub pack_size_high: u32,
    /// The lower half of the size of the decoded content.
    pub unp_size: u32,
    /// The upper half of that size.
    pub unp_size_high: u32,
    /// The checksum of the decoded content.
    pub file_crc: u32,
    /// The modification time, as the codec packs it.
    pub file_time: u32,
    /// The method by which the content was packed.
    pub method: u32,
    /// The attributes of the file.
    pub file_attr: u32,
}

/// The metadata of an entry as plain values.
pub struct Metadata {
    pub filename: Seq<char>,
    pub flags: u32,
    pub packed_size: u64,
    pub unpacked_size: u64,
    pub file_crc: u32,
    pub file_time: u32,
    pub method: u32,
    pub file_attr: u32,
}

/// The size whose upper half is `high` and whose lower half is `low`.
pub open spec fn joined(high: u32, low: u32) -> u64 {
    (high * 0x1_0000_0000 + low) as u64
}

impl View for HeaderData {
    type V = Metadata;

    open spec fn view(&self) -> Metadata {
        Metadata {
            filename: self.filename@,
            flags: self.flags,
            packed_size: joined(self.pack_size_high, self.pack_size),
            unpacked_size: joined(self.unp_size_high, self.unp_size),
            file_crc: self.file_crc,
            file_time: self.file_time,
            method: self.method,
            file_attr: self.file_attr,
        }
    }
}

/// One member of the archive.
///
/// The metadata comes from the header and does not change afterwards.
/// `next_volume` and `bytes` are empty until the entry has been processed.
#[derive(Clone, Debug, PartialEq, Eq)]
pub struct Entry {
    /// The path of the entry inside the archive.
    pub filename: String,
    /// The flags of the entry, as the codec packs them.
    pub flags: u32,
    /// The size that the entry takes in the archive.
    pub packed_size: u64,
    /// The size that the header declares for the decoded content.
    pub unpacked_size: u64,
    /// The checksum of the decoded content.
    pub file_crc: u32,
    /// The modification time, as the codec packs it.
    pub file_time: u32,
    /// The method by which the content was packed.
    pub method: u32,
    /// The attributes of the file.
    pub file_attr: u32,
    /// The volume in which the entry continues, where the codec asked for one
    /// that was not open.
    pub next_volume: Option<String>,
    /// The decoded content, after it was read into memory.
    pub bytes: Option<Vec<u8>>,
}

/// What an [`Entry`] stands for.
pub struct EntryView {
    pub metadata: Metadata,
    pub next_volume: Option<Seq<char>>,
    pub bytes: Option<Seq<u8>>,
}

impl View for Entry {
    type V = EntryView;

    open spec fn view(&self) -> EntryView {
        EntryView {
            metadata: Metadata {
                filename: self.filename@,
                flags: self.flags,
                packed_size: self.packed_size,
                unpacked_size: self.unpacked_size,
                file_crc: self.file_crc,
                file_time: self.file_time,
                method: self.method,
                file_attr: self.file_attr,
            },
            next_volume: text_view(self.next_volume),
            bytes: bytes_view(self.bytes),
        }
    }
}

/// The characters of an optional string.
pub open spec fn text_view(text: Option<String>) -> Option<Seq<char>> {
    match text {
        Some(s) => Some(s@),
        None => None,
    }
}

/// The content of an optional buffer.
pub open spec fn bytes_view(bytes: Option<Vec<u8>>) -> Option<Seq<u8>> {
    match bytes {
        Some(b) => Some(b@),
        None => None,
    }
}

/// What an optional entry stands for.
pub open spec fn entry_view(entry: Option<Entry>) -> Option<EntryView> {
    match entry {
        Some(e) => Some(e@),
        None => None,
    }
}

/// The entry that a header describes, before anything was done with it.
pub open spec fn fresh_entry(metadata: Metadata) -> EntryView {
    EntryView { metadata, next_volume: None, bytes: None }
}

impl Entry {
    /// Builds the entry that `header` describes. It has the header's
    /// metadata, each size joined from its halves, no continuation and no
    /// content.
    pub fn from(header: HeaderData) -> (entry: Entry)
        ensures
            entry@ == fresh_entry(header@),
    {
        Entry {
            filename: header.filename,
            flags: header.flags,
            packed_size: join(header.pack_size_high, header.pack_size),
            unpacked_size: join(header.unp_size_high, header.unp_size),
            file_crc: header.file_crc,
            file_time: header.file_time,
            method: header.method,
            file_attr: header.file_attr,
            next_volume: None,
            bytes: None,
        }
    }
}

/// Joins the two halves of a size.
fn join(high: u32, low: u32) -> (size: u64)
    ensures
        size == joined(high, low),
{
    high as u64 * 0x1_0000_0000 + low as u64
}

} // verus!
