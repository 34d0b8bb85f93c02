use vstd::prelude::*;
use crate::error::UpdateError;

verus! {

/// The number of bytes asked of the source stream with every read.
pub const CHUNK_SIZE: usize = 1024;

/// Where a write session stands: which request to the outside world is
/// pending an answer.
#[derive(Clone, Copy, Debug, PartialEq, Eq, Structural)]
pub enum Phase {
    /// Waiting for the inactive partition to be resolved.
    Resolving,
    /// Waiting for the write session to be opened.
    Beginning,
    /// Waiting for the next chunk of the source stream.
    Reading,
    /// Waiting for a chunk to be written to the partition.
    Writing,
    /// Waiting for the write session to be finalized.
    Ending,
    /// Waiting for the written partition to be selected for boot.
    Switching,
    /// The restart was requested; nothing is expected to follow.
    Restarting,
    /// The session failed; the boot target was not switched by it.
    Failed(UpdateError),
}

/// What the caller observed of the request that was pending.
#[derive(Clone, Debug)]
pub enum Event {
    /// The pending platform operation succeeded.
    Done,
    /// The pending operation, or the read, failed.
    Failed,
    /// The source stream delivered these bytes; none means end of stream.
    Chunk(Vec<u8>),
}

/// What the caller has to do next.
#[derive(Clone, Debug)]
pub enum Action {
    /// Resolve the inactive partition.
    ResolveTarget,
    /// Open a write session of unknown total size on the resolved partition.
    BeginWrite,
    /// Read up to this many bytes from the source stream.
    ReadChunk(usize),
    /// Append these bytes to the open write session.
    WriteChunk(Vec<u8>),
    /// Finalize the write session.
    EndWrite,
    /// Select the written partition as the next boot target.
    SetBootTarget,
    /// Restart the device.
    Restart,
    /// Give up and report this error; nothing is undone.
    Abort(UpdateError),
}

/// The mathematical content of an [`Event`].
pub ghost enum EventView {
    Done,
    Failed,
    Chunk(Seq<u8>),
}

/// The mathematical content of an [`Action`].
pub ghost enum ActionView {
    ResolveTarget,
    BeginWrite,
    ReadChunk(nat),
    WriteChunk(Seq<u8>),
    EndWrite,
    SetBootTarget,
    Restart,
    Abort(UpdateError),
}

impl View for Event {
    type V = EventView;

    open spec fn view(&self) -> EventView {
        match *self {
            Event::Done => EventView::Done,
            Event::Failed => EventView::Failed,
            Event::Chunk(bytes) => EventView::Chunk(bytes@),
        }
    }
}

impl View for Action {
    type V = ActionView;

    open spec fn view(&self) -> ActionView {
        match *self {
            Action::ResolveTarget => ActionView::ResolveTarget,
            Action::BeginWrite => ActionView::BeginWrite,
            Action::ReadChunk(n) => ActionView::ReadChunk(n as nat),
            Action::WriteChunk(bytes) => ActionView::WriteChunk(bytes@),
            Action::EndWrite => ActionView::EndWrite,
            Action::SetBootTarget => ActionView::SetBootTarget,
            Action::Restart => ActionView::Restart,
            Action::Abort(e) => ActionView::Abort(e),
        }
    }
}

/// `event` is a successful answer to the request pending in `phase`.
pub open spec fn answers(phase: Phase, event: EventView) -> bool {
    match phase {
        Phase::Reading => event is Chunk && event->Chunk_0.len() <= CHUNK_SIZE,
        Phase::Restarting | Phase::Failed(_) => false,
        _ => event is Done,
    }
}

/// The error reported when the request pending in `phase` is not answered
/// successfully: a failed read is a network error, a failed partition
/// operation a flash error, and a failed session keeps its error.
pub open spec fn failure_of(phase: Phase) -> UpdateError {
    match phase {
        Phase::Reading => UpdateError::Network,
        Phase::Failed(e) => e,
        _ => UpdateError::Flash,
    }
}

/// The phase that follows `phase` once `event` was observed.
pub open spec fn next_phase(phase: Phase, event: EventView) -> Phase {
    if !answers(phase, event) {
        Phase::Failed(failure_of(phase))
    } else {
        match phase {
            Phase::Resolving => Phase::Beginning,
            Phase::Beginning => Phase::Reading,
            Phase::Reading => if event->Chunk_0.len() == 0 {
                Phase::Ending
            } else {
                Phase::Writing
            },
            Phase::Writing => Phase::Reading,
            Phase::Ending => Phase::Switching,
            Phase::Switching => Phase::Restarting,
            _ => phase,
        }
    }
}

/// The request that is issued when `event` is observed in `phase`: the one
/// that the following phase waits on.
pub open spec fn next_action(phase: Phase, event: EventView) -> ActionView {
    match next_phase(phase, event) {
        Phase::Resolving => ActionView::ResolveTarget,
        Phase::Beginning => ActionView::BeginWrite,
        Phase::Reading => ActionView::ReadChunk(CHUNK_SIZE as nat),
        Phase::Writing => ActionView::WriteChunk(event->Chunk_0),
        Phase::Ending => ActionView::EndWrite,
        Phase::Switching => ActionView::SetBootTarget,
        Phase::Restarting => ActionView::Restart,
        Phase::Failed(e) => ActionView::Abort(e),
    }
}

/// The running total of bytes handed to the partition, which stops counting
/// at the largest representable value.
pub open spec fn next_written(phase: Phase, written: u64, event: EventView) -> u64 {
    if next_phase(phase, event) is Writing {
        if written + event->Chunk_0.len() > u64::MAX {
            u64::MAX
        } else {
            (written + event->Chunk_0.len()) as u64
        }
    } else {
        written
    }
}

/// One write session against the inactive partition.
#[derive(Clone, Copy, Debug)]
pub struct FlashSession {
    pub phase: Phase,
    pub written: u64,
}

impl FlashSession {
    /// Opens a session. The first request is to resolve the inactive
    /// partition.
    pub fn begin() -> (r: (FlashSession, Action))
        ensures
            r.0.phase == Phase::Resolving,
            r.0.written == 0,
            r.1@ == ActionView::ResolveTarget,
    {
        (FlashSession { phase: Phase::Resolving, written: 0 }, Action::ResolveTarget)
    }

    /// Whether the session has ended, by a restart request or by a failure.
    pub fn is_over(&self) -> (r: bool)
        ensures
            r == (self.phase is Restarting || self.phase is Failed),
    {
        match self.phase {
            Phase::Restarting => true,
            Phase::Failed(_) => true,
            _ => false,
        }
    }

    /// Takes the answer to the pending request and returns the next request.
    ///
    /// Any answer but a success fails the session at once: the remaining
    /// steps are skipped and nothing is rolled back.
    pub fn advance(&mut self, event: Event) -> (action: Action)
        ensures
            final(self).phase == next_phase(old(self).phase, event@),
            final(self).written == next_written(old(self).phase, old(self).written, event@),
            action@ == next_action(old(self).phase, event@),
    {
        let phase = self.phase;
        match (phase, event) {
            (Phase::Resolving, Event::Done) => {
                self.phase = Phase::Beginning;
                Action::BeginWrite
            },
            (Phase::Beginning, Event::Done) => {
                self.phase = Phase::Reading;
                Action::ReadChunk(CHUNK_SIZE)
            },
            (Phase::Reading, Event::Chunk(bytes)) => {
                let n: usize = bytes.len();
                if n > CHUNK_SIZE {
                    self.phase = Phase::Failed(UpdateError::Network);
                    Action::Abort(UpdateError::Network)
                } else if n == 0 {
                    self.phase = Phase::Ending;
                    Action::EndWrite
                } else {
                    self.phase = Phase::Writing;
                    self.written = self.written.saturating_add(n as u64);
                    Action::WriteChunk(bytes)
                }
            },
            (Phase::Writing, Event::Done) => {
                self.phase = Phase::Reading;
                Action::ReadChunk(CHUNK_SIZE)
            },
            (Phase::Ending, Event::Done) => {
                self.phase = Phase::Switching;
                Action::SetBootTarget
            },
            (Phase::Switching, Event::Done) => {
                self.phase = Phase::Restarting;
                Action::Restart
            },
            (Phase::Reading, _) => {
                self.phase = Phase::Failed(UpdateError::Network);
                Action::Abort(UpdateError::Network)
            },
            (Phase::Failed(e), _) => {
                Action::Abort(e)
            },
            (_, _) => {
                self.phase = Phase::Failed(UpdateError::Flash);
                Action::Abort(UpdateError::Flash)
            },
        }
    }
}

/// The phase of a fresh session after `events` were observed in order.
pub open spec fn phase_after(events: Seq<EventView>) -> Phase
    decreases events.len(),
{
    if events.len() == 0 {
        Phase::Resolving
    } else {
        next_phase(phase_after(events.drop_last()), events.last())
    }
}

/// The request that a fresh session issues once `events` were observed: its
/// first request when there was none yet.
pub open spec fn action_after(events: Seq<EventView>) -> ActionView {
    if events.len() == 0 {
        ActionView::ResolveTarget
    } else {
        next_action(phase_after(events.drop_last()), events.last())
    }
}

/// The bytes that an action hands to the partition.
pub open spec fn written_by(action: ActionView) -> Seq<u8> {
    match action {
        ActionView::WriteChunk(bytes) => bytes,
        _ => Seq::<u8>::empty(),
    }
}

/// The bytes that an event brings from the source stream.
pub open spec fn read_by(event: EventView) -> Seq<u8> {
    match event {
        EventView::Chunk(bytes) => bytes,
        _ => Seq::<u8>::empty(),
    }
}

/// All bytes handed to the partition, in order, while `events` were observed.
pub open spec fn delivered(events: Seq<EventView>) -> Seq<u8>
    decreases events.len(),
{
    if events.len() == 0 {
        Seq::<u8>::empty()
    } else {
        delivered(events.drop_last()) + written_by(action_after(events))
    }
}

/// All bytes that the source stream brought, in order, within `events`.
pub open spec fn offered(events: Seq<EventView>) -> Seq<u8>
    decreases events.len(),
{
    if events.len() == 0 {
        Seq::<u8>::empty()
    } else {
        offered(events.drop_last()) + read_by(events.last())
    }
}

/// A failed session stays failed, whatever is observed afterwards.
pub proof fn law_failure_is_final(events: Seq<EventView>, k: int)
    requires
        0 <= k <= events.len(),
        phase_after(events.take(k)) is Failed,
    ensures
        phase_after(events) is Failed,
        k < events.len() ==> action_after(events) is Abort,
    decreases events.len(),
{
    if k == events.len() {
        assert(events.take(k) =~= events);
    } else {
        assert(events.drop_last().take(k) =~= events.take(k));
        law_failure_is_final(events.drop_last(), k);
    }
}

/// Streaming fidelity: as long as the session has not failed, the bytes
/// handed to the partition are exactly the bytes read from the source, in
/// order, wherever the chunk boundaries fell.
pub proof fn law_streaming_fidelity(events: Seq<EventView>)
    requires
        !(phase_after(events) is Failed),
    ensures
        delivered(events) == offered(events),
    decreases events.len(),
{
    if events.len() > 0 {
        let before = events.drop_last();
        if phase_after(before) is Failed {
            assert(events.take(before.len() as int) =~= before);
            law_failure_is_final(events, before.len() as int);
        }
        law_streaming_fidelity(before);
        assert(written_by(action_after(events)) =~= read_by(events.last()));
    }
}

/// The byte count of a fresh session after `events` were observed in order.
pub open spec fn written_after(events: Seq<EventView>) -> u64
    decreases events.len(),
{
    if events.len() == 0 {
        0
    } else {
        next_written(
            phase_after(events.drop_last()),
            written_after(events.drop_last()),
            events.last(),
        )
    }
}

/// The byte count of a session is the number of bytes it handed to the
/// partition, as far as the count can go.
pub proof fn law_byte_count_matches_delivery(events: Seq<EventView>)
    ensures
        written_after(events) == if delivered(events).len() > u64::MAX {
            u64::MAX as int
        } else {
            delivered(events).len() as int
        },
    decreases events.len(),
{
    if events.len() > 0 {
        law_byte_count_matches_delivery(events.drop_last());
    }
}

/// The events of a session in which every request succeeds while the source
/// stream brings `chunks` one after the other: the partition is resolved,
/// the session opened, and every chunk read and then written.
pub open spec fn streaming_events(chunks: Seq<Seq<u8>>) -> Seq<EventView>
    decreases chunks.len(),
{
    if chunks.len() == 0 {
        seq![EventView::Done, EventView::Done]
    } else {
        streaming_events(chunks.drop_last()).push(EventView::Chunk(chunks.last())).push(
            EventView::Done,
        )
    }
}

/// The events of a whole successful session over `chunks`: the stream as
/// above, its end, and the success of finalizing and of the boot switch.
pub open spec fn complete_events(chunks: Seq<Seq<u8>>) -> Seq<EventView> {
    streaming_events(chunks).push(EventView::Chunk(Seq::empty())).push(EventView::Done).push(
        EventView::Done,
    )
}

/// The bytes of `chunks`, one chunk after the other.
pub open spec fn joined(chunks: Seq<Seq<u8>>) -> Seq<u8>
    decreases chunks.len(),
{
    if chunks.len() == 0 {
        Seq::<u8>::empty()
    } else {
        joined(chunks.drop_last()) + chunks.last()
    }
}

/// While a stream of non-empty chunks of at most [`CHUNK_SIZE`] bytes is
/// being flashed, the session waits for the next chunk and the partition
/// holds exactly the bytes read so far.
pub proof fn law_stream_in_progress(chunks: Seq<Seq<u8>>)
    requires
        forall|i: int| 0 <= i < chunks.len() ==> 0 < (#[trigger] chunks[i]).len() <= CHUNK_SIZE,
    ensures
        phase_after(streaming_events(chunks)) == Phase::Reading,
        delivered(streaming_events(chunks)) == joined(chunks),
    decreases chunks.len(),
{
    if chunks.len() == 0 {
        let e1 = seq![EventView::Done];
        let e2 = seq![EventView::Done, EventView::Done];
        assert(e2.drop_last() =~= e1);
        assert(e1.drop_last() =~= Seq::<EventView>::empty());
        assert(phase_after(Seq::<EventView>::empty()) == Phase::Resolving);
        assert(delivered(Seq::<EventView>::empty()) =~= Seq::<u8>::empty());
        assert(phase_after(e1) == Phase::Beginning);
        assert(delivered(e1) =~= Seq::<u8>::empty());
        assert(delivered(e2) =~= Seq::<u8>::empty());
    } else {
        let before = streaming_events(chunks.drop_last());
        let read = before.push(EventView::Chunk(chunks.last()));
        let wrote = read.push(EventView::Done);
        assert forall|i: int| 0 <= i < chunks.drop_last().len() implies 0 < (
        #[trigger] chunks.drop_last()[i]).len() <= CHUNK_SIZE by {
            assert(chunks.drop_last()[i] == chunks[i]);
        }
        law_stream_in_progress(chunks.drop_last());
        assert(read.drop_last() =~= before);
        assert(wrote.drop_last() =~= read);
        assert(phase_after(read) == Phase::Writing);
        assert(delivered(read) == joined(chunks.drop_last()) + chunks.last());
        assert(delivered(wrote) =~= delivered(read));
    }
}

/// Streaming fidelity for a whole session: when every request succeeds, a
/// stream of any number of non-empty chunks of at most [`CHUNK_SIZE`] bytes
/// ends with the restart request, and the partition was handed exactly the
/// bytes of the stream, in order, none twice and none lost.
pub proof fn law_whole_stream_is_flashed(chunks: Seq<Seq<u8>>)
    requires
        forall|i: int| 0 <= i < chunks.len() ==> 0 < (#[trigger] chunks[i]).len() <= CHUNK_SIZE,
    ensures
        phase_after(complete_events(chunks)) == Phase::Restarting,
        action_after(complete_events(chunks)) == ActionView::Restart,
        delivered(complete_events(chunks)) == joined(chunks),
        offered(complete_events(chunks)) == joined(chunks),
{
    let stream = streaming_events(chunks);
    let ended = stream.push(EventView::Chunk(Seq::empty()));
    let finalized = ended.push(EventView::Done);
    let switched = finalized.push(EventView::Done);
    law_stream_in_progress(chunks);
    assert(ended.drop_last() =~= stream);
    assert(finalized.drop_last() =~= ended);
    assert(switched.drop_last() =~= finalized);
    assert(phase_after(ended) == Phase::Ending);
    assert(phase_after(finalized) == Phase::Switching);
    assert(delivered(ended) =~= delivered(stream));
    assert(delivered(finalized) =~= delivered(ended));
    assert(delivered(switched) =~= delivered(finalized));
    law_streaming_fidelity(switched);
}

/// The boot target is switched only as the answer to a write session that
/// was finalized successfully.
pub proof fn law_boot_switch_follows_end(events: Seq<EventView>)
    requires
        action_after(events) is SetBootTarget,
    ensures
        events.len() >= 1,
        events.last() is Done,
        action_after(events.drop_last()) is EndWrite,
{
    assert(events.len() >= 1);
    assert(phase_after(events.drop_last()) is Ending);
}

/// The restart is requested only as the answer to a boot target that was
/// switched successfully.
pub proof fn law_restart_follows_boot_switch(events: Seq<EventView>)
    requires
        action_after(events) is Restart,
    ensures
        events.len() >= 1,
        events.last() is Done,
        action_after(events.drop_last()) is SetBootTarget,
{
    assert(events.len() >= 1);
    assert(phase_after(events.drop_last()) is Switching);
}

/// Once any request failed, every later request is to give up: in particular
/// the boot target is never switched and the device never restarted.
pub proof fn law_nothing_follows_a_failure(events: Seq<EventView>, k: int, j: int)
    requires
        0 <= k < j <= events.len(),
        events[k] is Failed,
    ensures
        action_after(events.take(j)) is Abort,
{
    let upto = events.take(j);
    assert(upto.take(k + 1).drop_last() =~= events.take(k));
    assert(upto.take(k + 1).last() == events[k]);
    assert(phase_after(upto.take(k + 1)) is Failed);
    if k + 1 < j {
        law_failure_is_final(upto, k + 1);
    } else {
        assert(upto.take(k + 1) =~= upto);
    }
}

} // verus!
