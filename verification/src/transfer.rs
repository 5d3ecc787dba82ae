//! The streamed upload of a local file: the handle that names the file, and
//! the state machine that a transfer moves through while the caller reads
//! the file chunk by chunk and the transport forwards each chunk.

use vstd::prelude::*;
use crate::error::GatewayError;

verus! {

/// The most bytes that are held in memory at any moment of a transfer.
pub const CHUNK_CAPACITY: usize = 8192;

/// A local file to upload, with the file name shown to the provider. The
/// path is never empty.
#[derive(Debug, PartialEq, Eq)]
pub struct MediaHandle {
    path: String,
    file_name: String,
}

impl MediaHandle {
    #[verifier::type_invariant]
    spec fn well_formed(self) -> bool {
        self.path@.len() > 0
    }

    /// The path of the file.
    pub closed spec fn path_view(self) -> Seq<char> {
        self.path@
    }

    /// The file name shown to the provider.
    pub closed spec fn file_name_view(self) -> Seq<char> {
        self.file_name@
    }

    /// A handle for the file at `path`, or `None` where `path` is empty.
    pub fn new(path: String, file_name: String) -> (handle: Option<MediaHandle>)
        ensures
            handle is Some <==> path@.len() > 0,
            handle matches Some(h) ==> h.path_view() == path@ && h.file_name_view() == file_name@,
    {
        if path.as_str().is_empty() {
            None
        } else {
            Some(MediaHandle { path, file_name })
        }
    }

    /// Returns the path of the file, which is not empty.
    pub fn path(&self) -> (path: &String)
        ensures
            path@ == self.path_view(),
            path@.len() > 0,
    {
        proof {
            use_type_invariant(self);
        }
        &self.path
    }

    /// Returns the file name shown to the provider.
    pub fn file_name(&self) -> (file_name: &String)
        ensures
            file_name@ == self.file_name_view(),
    {
        &self.file_name
    }
}

/// How many of `available` bytes go into the next chunk: all of them, or as
/// many as the capacity allows.
pub open spec fn fitting_len(available: nat) -> nat {
    if available <= CHUNK_CAPACITY {
        available
    } else {
        CHUNK_CAPACITY as nat
    }
}

/// The length of one chunk read from the file: at most [`CHUNK_CAPACITY`].
#[derive(Clone, Copy, Debug, PartialEq, Eq)]
pub struct ChunkLen {
    len: usize,
}

impl View for ChunkLen {
    type V = nat;

    closed spec fn view(&self) -> nat {
        self.len as nat
    }
}

impl ChunkLen {
    #[verifier::type_invariant]
    spec fn well_formed(self) -> bool {
        self.len <= CHUNK_CAPACITY
    }

    /// The length of a chunk of `len` bytes, or `None` where `len` is over
    /// the capacity.
    pub fn new(len: usize) -> (chunk: Option<ChunkLen>)
        ensures
            chunk is Some <==> len <= CHUNK_CAPACITY,
            chunk matches Some(c) ==> c@ == len,
    {
        if len <= CHUNK_CAPACITY {
            Some(ChunkLen { len })
        } else {
            None
        }
    }

    /// The length of the next chunk to hand on when `available` bytes were
    /// read: all of them, or as many as the capacity allows.
    pub fn fitting(available: usize) -> (chunk: ChunkLen)
        ensures
            chunk@ == fitting_len(available as nat),
    {
        if available <= CHUNK_CAPACITY {
            ChunkLen { len: available }
        } else {
            ChunkLen { len: CHUNK_CAPACITY }
        }
    }

    /// Returns the length in bytes.
    pub fn get(&self) -> (len: usize)
        ensures
            len == self@,
            len <= CHUNK_CAPACITY,
    {
        proof {
            use_type_invariant(self);
        }
        self.len
    }
}

/// Why a transfer failed.
#[derive(Clone, Copy, Debug, PartialEq, Eq, Structural)]
pub enum Fault {
    /// The local file could not be opened.
    SourceUnavailable,
    /// The transport failed while the body was streamed.
    TransportFailed,
}

impl Fault {
    /// The failure that this fault is reported as.
    pub open spec fn error_of(self) -> GatewayError {
        match self {
            Fault::SourceUnavailable => GatewayError::MediaSourceUnavailable,
            Fault::TransportFailed => GatewayError::ProviderUnreachable,
        }
    }

    /// Returns the failure that this fault is reported as.
    pub fn error(&self) -> (error: GatewayError)
        ensures
            error == self.error_of(),
    {
        match self {
            Fault::SourceUnavailable => GatewayError::MediaSourceUnavailable,
            Fault::TransportFailed => GatewayError::ProviderUnreachable,
        }
    }
}

/// Where a transfer stands.
#[derive(Clone, Copy, Debug, PartialEq, Eq, Structural)]
pub enum Phase {
    /// Begun; the local file is not open yet and nothing was sent.
    Opened,
    /// The file is open and the request body is being streamed.
    Streaming,
    /// The whole body was sent and the provider replied.
    Completed,
    /// Given up; a failed transfer is not resumed.
    Failed(Fault),
}

/// What the caller observed since the last step.
#[derive(Clone, Copy, Debug, PartialEq, Eq)]
pub enum TransferEvent {
    /// The local file was opened.
    SourceOpened,
    /// The local file could not be opened.
    SourceUnavailable,
    /// A chunk was read from the file, and the one before it was released.
    Chunk(ChunkLen),
    /// The file is exhausted, the body was sent and the provider replied.
    BodyDelivered,
    /// Reading or sending failed while the body was streamed.
    TransportFailed,
}

/// What a [`TransferEvent`] holds.
pub ghost enum EventView {
    SourceOpened,
    SourceUnavailable,
    Chunk(nat),
    BodyDelivered,
    TransportFailed,
}

impl EventView {
    /// Whether the event respects the chunk capacity.
    pub open spec fn bounded(self) -> bool {
        self matches EventView::Chunk(len) ==> len <= CHUNK_CAPACITY
    }
}

impl View for TransferEvent {
    type V = EventView;

    open spec fn view(&self) -> EventView {
        match self {
            TransferEvent::SourceOpened => EventView::SourceOpened,
            TransferEvent::SourceUnavailable => EventView::SourceUnavailable,
            TransferEvent::Chunk(chunk) => EventView::Chunk(chunk@),
            TransferEvent::BodyDelivered => EventView::BodyDelivered,
            TransferEvent::TransportFailed => EventView::TransportFailed,
        }
    }
}

/// What the caller is to do after a step.
#[derive(Clone, Copy, Debug, PartialEq, Eq, Structural)]
pub enum TransferAction {
    /// Start the one outbound request, with the file as its streamed body.
    IssueRequest,
    /// Hand the chunk to the transport.
    Forward,
    /// Read the provider's reply: the transfer is complete.
    Conclude,
    /// Release what is held and report the fault.
    Abort(Fault),
    /// The event has no effect where the transfer stands.
    Ignore,
}

/// What a [`Transfer`] holds: where it stands, and how many bytes read from
/// the file are in memory.
pub ghost struct TransferView {
    pub phase: Phase,
    pub resident: nat,
}

impl TransferView {
    /// A transfer that has just begun.
    pub open spec fn initial() -> TransferView {
        TransferView { phase: Phase::Opened, resident: 0 }
    }

    /// Whether the bytes in memory are within the capacity, and none are
    /// held outside streaming.
    pub open spec fn bounded(self) -> bool {
        &&& self.resident <= CHUNK_CAPACITY
        &&& self.phase != Phase::Streaming ==> self.resident == 0
    }

    /// Whether the transfer has ended, well or badly.
    pub open spec fn terminal(self) -> bool {
        self.phase == Phase::Completed || self.phase is Failed
    }
}

/// The state that follows `state` on `event`, and what the caller is to do.
///
/// A transfer that has begun waits for the file: it starts streaming, and
/// the one request, once the file is open, and fails where it cannot be
/// opened. While streaming, each chunk takes the place of the one before it;
/// the transfer completes when the body is delivered and fails on a
/// transport error. Every other event leaves the state as it is.
pub open spec fn transition(state: TransferView, event: EventView) -> (
    TransferView,
    TransferAction,
) {
    match (state.phase, event) {
        (Phase::Opened, EventView::SourceOpened) => (
            TransferView { phase: Phase::Streaming, resident: 0 },
            TransferAction::IssueRequest,
        ),
        (Phase::Opened, EventView::SourceUnavailable) => (
            TransferView { phase: Phase::Failed(Fault::SourceUnavailable), resident: 0 },
            TransferAction::Abort(Fault::SourceUnavailable),
        ),
        (Phase::Streaming, EventView::Chunk(len)) => (
            TransferView { phase: Phase::Streaming, resident: len },
            TransferAction::Forward,
        ),
        (Phase::Streaming, EventView::BodyDelivered) => (
            TransferView { phase: Phase::Completed, resident: 0 },
            TransferAction::Conclude,
        ),
        (Phase::Streaming, EventView::TransportFailed) => (
            TransferView { phase: Phase::Failed(Fault::TransportFailed), resident: 0 },
            TransferAction::Abort(Fault::TransportFailed),
        ),
        _ => (state, TransferAction::Ignore),
    }
}

/// One upload in progress.
#[derive(Clone, Copy, Debug, PartialEq, Eq)]
pub struct Transfer {
    phase: Phase,
    resident: usize,
}

impl View for Transfer {
    type V = TransferView;

    closed spec fn view(&self) -> TransferView {
        TransferView { phase: self.phase, resident: self.resident as nat }
    }
}

impl Transfer {
    #[verifier::type_invariant]
    spec fn well_formed(self) -> bool {
        self@.bounded()
    }

    /// A transfer that has just begun.
    pub fn begin() -> (transfer: Transfer)
        ensures
            transfer@ == TransferView::initial(),
    {
        Transfer { phase: Phase::Opened, resident: 0 }
    }

    /// Returns where the transfer stands.
    pub fn phase(&self) -> (phase: Phase)
        ensures
            phase == self@.phase,
    {
        self.phase
    }

    /// Returns how many bytes read from the file are in memory: never more
    /// than [`CHUNK_CAPACITY`], however many bytes went through.
    pub fn resident(&self) -> (resident: usize)
        ensures
            resident == self@.resident,
            resident <= CHUNK_CAPACITY,
            self@.bounded(),
    {
        proof {
            use_type_invariant(self);
        }
        self.resident
    }

    /// Tests whether the transfer has ended.
    pub fn is_terminal(&self) -> (terminal: bool)
        ensures
            terminal == self@.terminal(),
    {
        match self.phase {
            Phase::Completed => true,
            Phase::Failed(_) => true,
            _ => false,
        }
    }

    /// Returns the failure that a failed transfer is reported as, and `None`
    /// for a transfer that has not failed.
    pub fn failure(&self) -> (failure: Option<GatewayError>)
        ensures
            failure == (match self@.phase {
                Phase::Failed(fault) => Some(fault.error_of()),
                _ => None,
            }),
    {
        match self.phase {
            Phase::Failed(fault) => Some(fault.error()),
            _ => None,
        }
    }

    /// Moves the transfer on by one event, and says what the caller is to
    /// do next.
    pub fn step(self, event: TransferEvent) -> (next: (Transfer, TransferAction))
        ensures
            (next.0@, next.1) == transition(self@, event@),
            event@.bounded(),
            next.0@.bounded(),
    {
        proof {
            use_type_invariant(self);
        }
        match (self.phase, event) {
            (Phase::Opened, TransferEvent::SourceOpened) => (
                Transfer { phase: Phase::Streaming, resident: 0 },
                TransferAction::IssueRequest,
            ),
            (Phase::Opened, TransferEvent::SourceUnavailable) => (
                Transfer { phase: Phase::Failed(Fault::SourceUnavailable), resident: 0 },
                TransferAction::Abort(Fault::SourceUnavailable),
            ),
            (Phase::Streaming, TransferEvent::Chunk(chunk)) => (
                Transfer { phase: Phase::Streaming, resident: chunk.get() },
                TransferAction::Forward,
            ),
            (Phase::Streaming, TransferEvent::BodyDelivered) => (
                Transfer { phase: Phase::Completed, resident: 0 },
                TransferAction::Conclude,
            ),
            (Phase::Streaming, TransferEvent::TransportFailed) => (
                Transfer { phase: Phase::Failed(Fault::TransportFailed), resident: 0 },
                TransferAction::Abort(Fault::TransportFailed),
            ),
            (_, TransferEvent::Chunk(chunk)) => {
                proof {
                    use_type_invariant(chunk);
                }
                (self, TransferAction::Ignore)
            },
            _ => (self, TransferAction::Ignore),
        }
    }
}

/// The state that a transfer reaches from `state` through `events`.
pub open spec fn run(state: TransferView, events: Seq<EventView>) -> TransferView
    decreases events.len(),
{
    if events.len() == 0 {
        state
    } else {
        transition(run(state, events.drop_last()), events.last()).0
    }
}

/// What the caller is told at the last of `events`, on the way from `state`.
pub open spec fn last_action(state: TransferView, events: Seq<EventView>) -> TransferAction
    recommends
        events.len() > 0,
{
    transition(run(state, events.drop_last()), events.last()).1
}

/// How many times the caller is told to start the outbound request on the
/// way from `state` through `events`.
pub open spec fn requests_issued(state: TransferView, events: Seq<EventView>) -> nat
    decreases events.len(),
{
    if events.len() == 0 {
        0
    } else {
        requests_issued(state, events.drop_last()) + (if last_action(state, events)
            == TransferAction::IssueRequest {
            1nat
        } else {
            0nat
        })
    }
}

/// How many bytes the caller is told to forward on the way from `state`
/// through `events`.
pub open spec fn bytes_forwarded(state: TransferView, events: Seq<EventView>) -> nat
    decreases events.len(),
{
    if events.len() == 0 {
        0
    } else {
        bytes_forwarded(state, events.drop_last()) + (match events.last() {
            EventView::Chunk(len) => if last_action(state, events) == TransferAction::Forward {
                len
            } else {
                0nat
            },
            _ => 0nat,
        })
    }
}

/// The events of an upload that goes well: the file opens, its chunks are
/// read one after the other, and the body is delivered.
pub open spec fn streamed(chunks: Seq<nat>) -> Seq<EventView> {
    seq![EventView::SourceOpened] + chunks.map_values(|len: nat| EventView::Chunk(len)) + seq![
        EventView::BodyDelivered,
    ]
}

/// The sum of the lengths of the chunks.
pub open spec fn total(chunks: Seq<nat>) -> nat
    decreases chunks.len(),
{
    if chunks.len() == 0 {
        0
    } else {
        total(chunks.drop_last()) + chunks.last()
    }
}

/// Whether every event respects the chunk capacity.
pub open spec fn all_bounded(events: Seq<EventView>) -> bool {
    forall|i: int| 0 <= i < events.len() ==> (#[trigger] events[i]).bounded()
}

/// One step keeps the bytes in memory within the capacity.
pub proof fn law_step_keeps_bound(state: TransferView, event: EventView)
    requires
        state.bounded(),
        event.bounded(),
    ensures
        transition(state, event).0.bounded(),
{
}

/// However many events a transfer goes through, and however many bytes they
/// carry, the bytes in memory stay within the capacity at every point.
pub proof fn law_resident_bounded(events: Seq<EventView>, upto: int)
    requires
        all_bounded(events),
        0 <= upto <= events.len(),
    ensures
        run(TransferView::initial(), events.take(upto)).bounded(),
        run(TransferView::initial(), events.take(upto)).resident <= CHUNK_CAPACITY,
    decreases upto,
{
    if upto > 0 {
        law_resident_bounded(events, upto - 1);
        assert(events.take(upto).drop_last() =~= events.take(upto - 1));
        assert(events.take(upto).last() == events[upto - 1]);
    }
}

/// A transfer that has ended stays as it ended: a failed transfer is not
/// resumed, and nothing more is sent for it.
pub proof fn law_ended_transfer_stays(state: TransferView, events: Seq<EventView>)
    requires
        state.terminal(),
    ensures
        run(state, events) == state,
        requests_issued(state, events) == 0,
        bytes_forwarded(state, events) == 0,
    decreases events.len(),
{
    if events.len() > 0 {
        law_ended_transfer_stays(state, events.drop_last());
    }
}

/// No transfer starts the outbound request more than once, and none starts
/// it before the file is open.
pub proof fn law_at_most_one_request(events: Seq<EventView>)
    ensures
        requests_issued(TransferView::initial(), events) <= 1,
        run(TransferView::initial(), events).phase == Phase::Opened ==> requests_issued(
            TransferView::initial(),
            events,
        ) == 0,
        run(TransferView::initial(), events).phase == Phase::Streaming ==> requests_issued(
            TransferView::initial(),
            events,
        ) == 1,
    decreases events.len(),
{
    if events.len() > 0 {
        law_at_most_one_request(events.drop_last());
    }
}

/// Where the file cannot be opened, the transfer fails as
/// `MediaSourceUnavailable` and the outbound request is never started,
/// whatever follows.
pub proof fn law_unavailable_source_sends_nothing(events: Seq<EventView>)
    requires
        events.len() > 0,
        events[0] == EventView::SourceUnavailable,
    ensures
        run(TransferView::initial(), events).phase == Phase::Failed(Fault::SourceUnavailable),
        Fault::SourceUnavailable.error_of() == GatewayError::MediaSourceUnavailable,
        requests_issued(TransferView::initial(), events) == 0,
        bytes_forwarded(TransferView::initial(), events) == 0,
    decreases events.len(),
{
    if events.len() == 1 {
        assert(events.drop_last() =~= Seq::<EventView>::empty());
        assert(run(TransferView::initial(), events.drop_last()) == TransferView::initial());
        assert(requests_issued(TransferView::initial(), events.drop_last()) == 0);
        assert(bytes_forwarded(TransferView::initial(), events.drop_last()) == 0);
    } else {
        assert(events.drop_last()[0] == events[0]);
        law_unavailable_source_sends_nothing(events.drop_last());
    }
}

proof fn lemma_streaming_prefix(chunks: Seq<nat>)
    requires
        forall|i: int| 0 <= i < chunks.len() ==> #[trigger] chunks[i] <= CHUNK_CAPACITY,
    ensures
        ({
            let events = seq![EventView::SourceOpened] + chunks.map_values(
                |len: nat| EventView::Chunk(len),
            );
            &&& run(TransferView::initial(), events).phase == Phase::Streaming
            &&& run(TransferView::initial(), events).resident <= CHUNK_CAPACITY
            &&& requests_issued(TransferView::initial(), events) == 1
            &&& bytes_forwarded(TransferView::initial(), events) == total(chunks)
        }),
    decreases chunks.len(),
{
    let events = seq![EventView::SourceOpened] + chunks.map_values(
        |len: nat| EventView::Chunk(len),
    );
    if chunks.len() == 0 {
        assert(events =~= seq![EventView::SourceOpened]);
        assert(events.drop_last() =~= Seq::<EventView>::empty());
        assert(run(TransferView::initial(), events.drop_last()) == TransferView::initial());
        assert(requests_issued(TransferView::initial(), events.drop_last()) == 0);
        assert(bytes_forwarded(TransferView::initial(), events.drop_last()) == 0);
    } else {
        let shorter = chunks.drop_last();
        let before = seq![EventView::SourceOpened] + shorter.map_values(
            |len: nat| EventView::Chunk(len),
        );
        lemma_streaming_prefix(shorter);
        assert(events.drop_last() =~= before);
        assert(events.last() == EventView::Chunk(chunks.last()));
    }
}

/// An upload that goes well, of any number of chunks and so of any size,
/// starts exactly one outbound request, forwards every byte read, holds no
/// more than one chunk at any point, and ends completed.
pub proof fn law_streamed_upload_completes(chunks: Seq<nat>)
    requires
        forall|i: int| 0 <= i < chunks.len() ==> #[trigger] chunks[i] <= CHUNK_CAPACITY,
    ensures
        run(TransferView::initial(), streamed(chunks)).phase == Phase::Completed,
        requests_issued(TransferView::initial(), streamed(chunks)) == 1,
        bytes_forwarded(TransferView::initial(), streamed(chunks)) == total(chunks),
        forall|upto: int|
            0 <= upto <= streamed(chunks).len() ==> (#[trigger] run(
                TransferView::initial(),
                streamed(chunks).take(upto),
            )).resident <= CHUNK_CAPACITY,
{
    let events = streamed(chunks);
    let before = seq![EventView::SourceOpened] + chunks.map_values(
        |len: nat| EventView::Chunk(len),
    );
    lemma_streaming_prefix(chunks);
    assert(events.drop_last() =~= before);
    assert(events.last() == EventView::BodyDelivered);
    assert(all_bounded(events));
    assert forall|upto: int| 0 <= upto <= events.len() implies (#[trigger] run(
        TransferView::initial(),
        events.take(upto),
    )).resident <= CHUNK_CAPACITY by {
        law_resident_bounded(events, upto);
    }
}

/// The lengths of the chunks in which a file of `size` bytes is read when
/// each chunk takes as much as fits.
pub open spec fn chunks_of(size: nat) -> Seq<nat>
    decreases size,
{
    if size == 0 {
        Seq::empty()
    } else {
        seq![fitting_len(size)] + chunks_of((size - fitting_len(size)) as nat)
    }
}

proof fn lemma_total_front(first: nat, rest: Seq<nat>)
    ensures
        total(seq![first] + rest) == first + total(rest),
    decreases rest.len(),
{
    let whole = seq![first] + rest;
    if rest.len() == 0 {
        assert(whole.drop_last() =~= Seq::<nat>::empty());
        assert(total(whole.drop_last()) == 0);
    } else {
        lemma_total_front(first, rest.drop_last());
        assert(whole.drop_last() =~= seq![first] + rest.drop_last());
        assert(whole.last() == rest.last());
    }
}

/// Reading a file of any size in fitting chunks reads every byte once, in
/// chunks that are never empty and never over the capacity.
pub proof fn law_chunks_cover_the_file(size: nat)
    ensures
        total(chunks_of(size)) == size,
        forall|i: int|
            0 <= i < chunks_of(size).len() ==> 0 < (#[trigger] chunks_of(size)[i])
                <= CHUNK_CAPACITY,
    decreases size,
{
    if size > 0 {
        let first = fitting_len(size);
        let rest = chunks_of((size - first) as nat);
        law_chunks_cover_the_file((size - first) as nat);
        lemma_total_front(first, rest);
        assert forall|i: int| 0 <= i < chunks_of(size).len() implies 0 < (#[trigger] chunks_of(
            size,
        )[i]) <= CHUNK_CAPACITY by {
            if i > 0 {
                assert(chunks_of(size)[i] == rest[i - 1]);
            }
        }
    }
}

/// The upload of a file of any size, read in fitting chunks, starts exactly
/// one outbound request, forwards exactly the bytes of the file, ends
/// completed, and at no point holds more than one chunk: what is held does
/// not grow with the size of the file.
pub proof fn law_upload_of_any_size(size: nat)
    ensures
        run(TransferView::initial(), streamed(chunks_of(size))).phase == Phase::Completed,
        requests_issued(TransferView::initial(), streamed(chunks_of(size))) == 1,
        bytes_forwarded(TransferView::initial(), streamed(chunks_of(size))) == size,
        forall|upto: int|
            0 <= upto <= streamed(chunks_of(size)).len() ==> (#[trigger] run(
                TransferView::initial(),
                streamed(chunks_of(size)).take(upto),
            )).resident <= CHUNK_CAPACITY,
{
    law_chunks_cover_the_file(size);
    law_streamed_upload_completes(chunks_of(size));
}

} // verus!
