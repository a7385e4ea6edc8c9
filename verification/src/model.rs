//! The protocol as mathematical functions.
//!
//! A reader is a pending slot and a flag. Each function here says what one
//! step does to them, over plain values; the executable steps in
//! [`crate::reader`] are proved to compute exactly these.

use vstd::prelude::*;

use crate::archive::{CallView, HeaderReplyView, Operation, ReplyView, RequestView};
use crate::entry::{fresh_entry, EntryView, Metadata};
use crate::error::{Code, ErrorView, When};

verus! {

/// The state of a reader.
pub struct ReaderView {
    /// The directory that extracted entries go to.
    pub destination: Option<Seq<char>>,
    /// The entry whose header was read and that was not processed yet.
    pub pending: Option<EntryView>,
    /// Set once a header read or an implicit skip has failed, or the archive
    /// has ended. Never cleared.
    pub damaged: bool,
}

/// The reader that starts on an archive.
pub open spec fn initial(destination: Option<Seq<char>>) -> ReaderView {
    ReaderView { destination, pending: None, damaged: false }
}

/// The processing call for `operation`. Only an extraction passes the
/// destination on; no operation of this kind brings a buffer.
pub open spec fn request_for(operation: Operation, destination: Option<Seq<char>>) -> RequestView {
    RequestView {
        operation,
        destination: if operation == Operation::Extract {
            destination
        } else {
            None
        },
        buffer: None,
    }
}

/// The processing call that reads an entry into memory: an integrity test
/// with an empty buffer for the data callback to fill.
pub open spec fn read_request() -> RequestView {
    RequestView { operation: Operation::Test, destination: None, buffer: Some(Seq::empty()) }
}

/// The room that is reserved in that buffer for a content of `size` bytes:
/// the whole size, or nothing where no buffer can have that size.
pub open spec fn reserved_room(size: u64) -> usize {
    if size <= isize::MAX {
        size as usize
    } else {
        0
    }
}

/// The entry after a processing call: the metadata as it was, the
/// continuation as the codec left it.
pub open spec fn with_volume(entry: EntryView, reply: ReplyView) -> EntryView {
    EntryView { next_volume: reply.volume, ..entry }
}

/// What skipping, testing or extracting `entry` returns for `reply`: the
/// entry under [`Code::Success`], and under every other code a failure of
/// the processing phase that carries the entry.
pub open spec fn processed(entry: EntryView, reply: ReplyView) -> Result<EntryView, ErrorView> {
    let done = with_volume(entry, reply);
    if reply.code == Code::Success {
        Ok(done)
    } else {
        Err(ErrorView { code: reply.code, when: When::Process, data: Some(done) })
    }
}

/// What reading `entry` into memory returns for `reply`. The codec's code
/// decides first: every code but [`Code::Success`] is a failure of the
/// processing phase under that code, as in [`processed`], whether the reply
/// holds a buffer or not. Under [`Code::Success`] the buffer of the reply
/// becomes the entry's content; a success without a buffer is a failure of
/// the processing phase under [`Code::Success`]. The entry inside a failure
/// has the continuation of the reply and the content that it had before,
/// which for an entry that was just read is none.
pub open spec fn bytes_read(entry: EntryView, reply: ReplyView) -> Result<EntryView, ErrorView> {
    let moved = with_volume(entry, reply);
    if reply.code != Code::Success {
        Err(ErrorView { code: reply.code, when: When::Process, data: Some(moved) })
    } else {
        match reply.bytes {
            None => Err(ErrorView { code: Code::Success, when: When::Process, data: Some(moved) }),
            Some(bytes) => Ok(EntryView { bytes: Some(bytes), ..moved }),
        }
    }
}

/// The call that a reader needs before it can hand out the next header:
/// none once it is damaged, a skip while an entry is pending, a header read
/// otherwise.
pub open spec fn next_call(state: ReaderView) -> Option<CallView> {
    if state.damaged {
        None
    } else if state.pending is Some {
        Some(CallView::Process(request_for(Operation::Skip, state.destination)))
    } else {
        Some(CallView::ReadHeader)
    }
}

/// The reader after the skip of its pending entry was answered by `reply`,
/// and the failure to report where there is one. The slot is empty
/// afterwards. A failed skip damages the reader, and its error carries no
/// entry: the entry skipped is not the one that was asked for.
pub open spec fn skipped(state: ReaderView, reply: ReplyView) -> (ReaderView, Option<ErrorView>) {
    match state.pending {
        None => (state, None),
        Some(entry) => match processed(entry, reply) {
            Ok(_) => (ReaderView { pending: None, ..state }, None),
            Err(e) => (
                ReaderView { pending: None, damaged: true, ..state },
                Some(ErrorView { code: e.code, when: e.when, data: None }),
            ),
        },
    }
}

/// What a header read answers with.
pub enum Advance {
    /// No entry follows.
    End,
    /// The read failed.
    Failed(ErrorView),
    /// A header was read, and this entry is now pending.
    Header(EntryView),
}

/// The reader after a header read was answered by `reply`, and what the
/// caller gets. A damaged reader stays as it is but for the slot, which is
/// cleared, and reports the end. Otherwise [`Code::Success`] makes the
/// header's entry pending, [`Code::EndArchive`] damages the reader and
/// reports the end, and every other code damages it and is reported as a
/// failure of the reading phase.
pub open spec fn header_read(state: ReaderView, reply: HeaderReplyView) -> (ReaderView, Advance) {
    if state.damaged {
        (ReaderView { pending: None, ..state }, Advance::End)
    } else if reply.code == Code::Success {
        let entry = fresh_entry(reply.header);
        (ReaderView { pending: Some(entry), ..state }, Advance::Header(entry))
    } else if reply.code == Code::EndArchive {
        (ReaderView { damaged: true, ..state }, Advance::End)
    } else {
        (
            ReaderView { damaged: true, ..state },
            Advance::Failed(ErrorView { code: reply.code, when: When::Read, data: None }),
        )
    }
}

/// Something that happens to a reader between two of its states.
pub enum Event {
    /// The pending entry was processed through its handle.
    Processed,
    /// The skip of the pending entry was answered.
    Skipped(ReplyView),
    /// A header read was answered.
    HeaderRead(HeaderReplyView),
}

/// Whether `event` can happen in `state`: an entry is processed only while
/// one is pending, and a header is read only while none is.
pub open spec fn admits(state: ReaderView, event: Event) -> bool {
    match event {
        Event::Processed => state.pending is Some,
        Event::Skipped(_) => true,
        Event::HeaderRead(_) => state.damaged || state.pending is None,
    }
}

/// The reader after `event`.
pub open spec fn step(state: ReaderView, event: Event) -> ReaderView {
    match event {
        Event::Processed => ReaderView { pending: None, ..state },
        Event::Skipped(reply) => skipped(state, reply).0,
        Event::HeaderRead(reply) => header_read(state, reply).0,
    }
}

/// The reader after `events`, in their order.
pub open spec fn run(state: ReaderView, events: Seq<Event>) -> ReaderView
    decreases events.len(),
{
    if events.len() == 0 {
        state
    } else {
        step(run(state, events.drop_last()), events.last())
    }
}

/// Whether each of `events` can happen in the state that the ones before it
/// lead to.
pub open spec fn admitted(state: ReaderView, events: Seq<Event>) -> bool
    decreases events.len(),
{
    events.len() == 0 || (admitted(state, events.drop_last()) && admits(
        run(state, events.drop_last()),
        events.last(),
    ))
}

/// The events of one round of the iteration, in which the calls made are
/// exactly those that the reader asks for: none once it is damaged; else the
/// skip of the pending entry, if there is one, answered by `skip`; and then,
/// unless that skip failed, the header read, answered by `header`.
pub open spec fn round(state: ReaderView, skip: ReplyView, header: HeaderReplyView) -> Seq<Event> {
    match next_call(state) {
        None => seq![],
        Some(CallView::ReadHeader) => seq![Event::HeaderRead(header)],
        Some(CallView::Process(_)) => if skipped(state, skip).1 is Some {
            seq![Event::Skipped(skip)]
        } else {
            seq![Event::Skipped(skip), Event::HeaderRead(header)]
        },
    }
}

/// What such a round hands to the caller.
pub open spec fn round_outcome(
    state: ReaderView,
    skip: ReplyView,
    header: HeaderReplyView,
) -> Advance {
    match next_call(state) {
        None => Advance::End,
        Some(CallView::ReadHeader) => header_read(state, header).1,
        Some(CallView::Process(_)) => match skipped(state, skip).1 {
            Some(error) => Advance::Failed(error),
            None => header_read(skipped(state, skip).0, header).1,
        },
    }
}

/// How many entries the header reads among `events` have made pending.
pub open spec fn entries_read(state: ReaderView, events: Seq<Event>) -> nat
    decreases events.len(),
{
    if events.len() == 0 {
        0
    } else {
        let before = run(state, events.drop_last());
        let now: nat = match events.last() {
            Event::HeaderRead(reply) => if header_read(before, reply).1 is Header {
                1
            } else {
                0
            },
            _ => 0,
        };
        entries_read(state, events.drop_last()) + now
    }
}

/// How many entries have left the slot in the course of `events`, processed
/// through a handle or skipped by the reader.
pub open spec fn entries_done(state: ReaderView, events: Seq<Event>) -> nat
    decreases events.len(),
{
    if events.len() == 0 {
        0
    } else {
        let before = run(state, events.drop_last());
        let now: nat = match events.last() {
            Event::Processed => 1,
            Event::Skipped(_) => if before.pending is Some {
                1
            } else {
                0
            },
            Event::HeaderRead(_) => 0,
        };
        entries_done(state, events.drop_last()) + now
    }
}

/// How many entries are pending: one or none.
pub open spec fn pending_count(state: ReaderView) -> nat {
    if state.pending is Some {
        1
    } else {
        0
    }
}

/// At most one entry is pending at any time. From a reader that holds
/// nothing in its slot once it is damaged, every admitted course of events
/// keeps this balance: the entries read are those that have left the slot
/// and the one, if any, that is in it. So no header is read past an entry
/// that was neither processed nor skipped.
pub proof fn lemma_single_pending(start: ReaderView, events: Seq<Event>)
    requires
        start.damaged ==> start.pending is None,
        admitted(start, events),
    ensures
        pending_count(start) + entries_read(start, events) == entries_done(start, events)
            + pending_count(run(start, events)),
        run(start, events).damaged ==> run(start, events).pending is None,
    decreases events.len(),
{
    if events.len() > 0 {
        lemma_single_pending(start, events.drop_last());
    }
}

/// A reader that starts on an archive holds at most one entry, whatever
/// admitted course of events it goes through.
pub proof fn lemma_single_pending_from_start(destination: Option<Seq<char>>, events: Seq<Event>)
    requires
        admitted(initial(destination), events),
    ensures
        entries_read(initial(destination), events) == entries_done(initial(destination), events)
            + pending_count(run(initial(destination), events)),
        pending_count(run(initial(destination), events)) <= 1,
{
    lemma_single_pending(initial(destination), events);
}

/// One round of the iteration, as a whole. A driver that makes the calls
/// the reader asks for never hands it an answer that it does not admit. The
/// round reports the end exactly when the reader was damaged already or the
/// header read gave [`Code::EndArchive`]; a failure exactly when the skip of
/// an unprocessed entry failed, which is a failure of the processing phase,
/// or the header read gave another code, which is one of the reading phase,
/// and neither carries an entry; and the header's entry otherwise, which is
/// pending afterwards. After every outcome but an entry the reader is
/// damaged.
pub proof fn lemma_round(state: ReaderView, skip: ReplyView, header: HeaderReplyView)
    ensures
        admitted(state, round(state, skip, header)),
        ({
            let after = run(state, round(state, skip, header));
            let skip_failed = !state.damaged && state.pending is Some && skip.code
                != Code::Success;
            match round_outcome(state, skip, header) {
                Advance::End => (state.damaged || (!skip_failed && header.code
                    == Code::EndArchive)) && after.damaged,
                Advance::Failed(error) => after.damaged && after.pending is None && if skip_failed {
                    error == (ErrorView { code: skip.code, when: When::Process, data: None })
                } else {
                    &&& !state.damaged
                    &&& header.code != Code::Success
                    &&& header.code != Code::EndArchive
                    &&& error == (ErrorView { code: header.code, when: When::Read, data: None })
                },
                Advance::Header(entry) => {
                    &&& !state.damaged
                    &&& !skip_failed
                    &&& header.code == Code::Success
                    &&& entry == fresh_entry(header.header)
                    &&& after.pending == Some(entry)
                    &&& !after.damaged
                },
            }
        }),
{
    lemma_one_event(state, Event::HeaderRead(header));
    lemma_one_event(state, Event::Skipped(skip));
    lemma_two_events(state, Event::Skipped(skip), Event::HeaderRead(header));
}

/// A course of one event is that event.
proof fn lemma_one_event(state: ReaderView, event: Event)
    ensures
        run(state, seq![event]) == step(state, event),
        admitted(state, seq![event]) == admits(state, event),
{
    let events = seq![event];
    assert(events.drop_last() =~= Seq::<Event>::empty());
    assert(events.last() == event);
    reveal_with_fuel(run, 2);
    reveal_with_fuel(admitted, 2);
}

/// A course of two events is the first and then the second.
proof fn lemma_two_events(state: ReaderView, first: Event, second: Event)
    ensures
        run(state, seq![first, second]) == step(step(state, first), second),
        admitted(state, seq![first, second]) == (admits(state, first) && admits(
            step(state, first),
            second,
        )),
{
    let events = seq![first, second];
    assert(events.drop_last() =~= seq![first]);
    assert(events.last() == second);
    lemma_one_event(state, first);
}

/// The reader asks for a header read exactly while it is not damaged and its
/// slot is empty.
pub proof fn lemma_header_read_needs_empty_slot(state: ReaderView)
    ensures
        next_call(state) == Some(CallView::ReadHeader) <==> !state.damaged && state.pending is None,
{
}

/// An entry whose handle was dropped is skipped once before the next header
/// is read. After the header read that made it pending the reader asks for
/// its skip, which passes no destination and brings no buffer, and for
/// nothing else. The answer empties the slot. After a skip that succeeded
/// the reader asks for the header read, not for a second skip; after one
/// that failed it is damaged and asks for nothing, and the failure is
/// reported without the entry.
pub proof fn lemma_unprocessed_entry_is_skipped_once(
    before: ReaderView,
    header: HeaderReplyView,
    reply: ReplyView,
)
    requires
        header_read(before, header).1 is Header,
    ensures
        ({
            let ignored = header_read(before, header).0;
            let after = skipped(ignored, reply);
            &&& ignored.pending == Some(fresh_entry(header.header))
            &&& next_call(ignored) == Some(
                CallView::Process(
                    RequestView { operation: Operation::Skip, destination: None, buffer: None },
                ),
            )
            &&& after.0.pending is None
            &&& reply.code == Code::Success ==> after.1 is None && !after.0.damaged && next_call(
                after.0,
            ) == Some(CallView::ReadHeader)
            &&& reply.code != Code::Success ==> after.1 == Some(
                ErrorView { code: reply.code, when: When::Process, data: None },
            ) && after.0.damaged && next_call(after.0) is None
        }),
{
}

/// Damage is final. Whatever happens to a damaged reader, it stays damaged,
/// asks for no call of the codec, and answers every header read with the
/// end of the archive.
pub proof fn lemma_damage_is_final(state: ReaderView, events: Seq<Event>, later: HeaderReplyView)
    requires
        state.damaged,
    ensures
        run(state, events).damaged,
        next_call(run(state, events)) is None,
        header_read(run(state, events), later).1 == Advance::End,
    decreases events.len(),
{
    if events.len() > 0 {
        lemma_damage_is_final(state, events.drop_last(), later);
    }
}

/// A header read that gives no header ends the iteration. Where it failed,
/// the failure is one of the reading phase and carries no entry. Either way
/// the reader is damaged, and from then on it asks for no call and reports
/// the end, whatever happens.
pub proof fn lemma_failed_read_ends_iteration(
    state: ReaderView,
    reply: HeaderReplyView,
    events: Seq<Event>,
    later: HeaderReplyView,
)
    requires
        header_read(state, reply).1 !is Header,
    ensures
        header_read(state, reply).1 matches Advance::Failed(error) ==> error == (ErrorView {
            code: reply.code,
            when: When::Read,
            data: None,
        }),
        run(header_read(state, reply).0, events).damaged,
        next_call(run(header_read(state, reply).0, events)) is None,
        header_read(run(header_read(state, reply).0, events), later).1 == Advance::End,
{
    lemma_damage_is_final(header_read(state, reply).0, events, later);
}

/// A failed operation loses no metadata. Whatever the codec answers, the
/// entry that an operation returns, inside an error or not, has the metadata
/// that it had before; for an entry that was just read, that of its header.
/// Every failure of an operation belongs to the processing phase and carries
/// the entry.
pub proof fn lemma_failure_keeps_metadata(entry: EntryView, reply: ReplyView)
    ensures
        processed(entry, reply) matches Err(e) ==> e.when == When::Process && e.data is Some
            && e.data.unwrap().metadata == entry.metadata,
        bytes_read(entry, reply) matches Err(e) ==> e.when == When::Process && e.data is Some
            && e.data.unwrap().metadata == entry.metadata,
        processed(entry, reply) matches Ok(done) ==> done.metadata == entry.metadata,
        bytes_read(entry, reply) matches Ok(done) ==> done.metadata == entry.metadata,
        forall|header: Metadata| (#[trigger] fresh_entry(header)).metadata == header,
{
}

/// No failure of the codec is swallowed. Whatever else the reply holds, an
/// operation that the codec answered with a failing code returns an error
/// under that very code; and an operation returns an error under
/// [`Code::Success`] only where the codec reported success and a read into
/// memory got no buffer back.
pub proof fn lemma_failure_code_is_surfaced(entry: EntryView, reply: ReplyView)
    ensures
        reply.code != Code::Success ==> (processed(entry, reply) matches Err(e) && e.code
            == reply.code),
        reply.code != Code::Success ==> (bytes_read(entry, reply) matches Err(e) && e.code
            == reply.code),
        reply.code == Code::Success ==> processed(entry, reply) is Ok,
        bytes_read(entry, reply) matches Err(e) && e.code == Code::Success ==> reply.code
            == Code::Success && reply.bytes is None,
{
}

/// Content comes with success only. A read into memory that succeeds gives
/// the entry the buffer of the reply. Every other outcome of an operation,
/// a failed read into memory among them, leaves the content of the entry as
/// it was, so an entry that was just read comes back without content.
pub proof fn lemma_content_only_on_success(entry: EntryView, reply: ReplyView)
    ensures
        bytes_read(entry, reply) matches Ok(done) ==> reply.code == Code::Success && reply.bytes
            is Some && done.bytes == reply.bytes,
        bytes_read(entry, reply) matches Err(e) ==> e.data is Some && e.data.unwrap().bytes
            == entry.bytes,
        processed(entry, reply) matches Ok(done) ==> done.bytes == entry.bytes,
        processed(entry, reply) matches Err(e) ==> e.data is Some && e.data.unwrap().bytes
            == entry.bytes,
        forall|header: Metadata| (#[trigger] fresh_entry(header)).bytes is None,
{
}

} // verus!
