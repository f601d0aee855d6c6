//! The growable output buffer and the bookkeeping of one run of the driver
//! loop, as both directions share them.

use vstd::prelude::*;
use vstd::slice::slice_subrange;

verus! {

/// How many non-terminal answers in a row may bring no progress before a run
/// is given up.
pub const STALL_LIMIT: u8 = 3;

/// What the engine answered to one call of its chunked primitive.
#[derive(Debug)]
pub struct EngineReply<S> {
    /// How many bytes of the input it was handed the engine took.
    pub consumed: usize,
    /// The bytes that it produced.
    pub produced: Vec<u8>,
    /// The status that it reported.
    pub status: S,
}

/// What a status means to the loop.
#[derive(Clone, Copy, Debug, PartialEq, Eq, Structural)]
pub enum Signal {
    /// The status is terminal: no further call follows.
    Terminal,
    /// The engine wants more room for its output than it was offered.
    MoreRoom,
    /// The engine expects another call, with nothing changed but the offsets.
    Again,
}

/// What the loop does after an answer.
#[derive(Clone, Copy, Debug, PartialEq, Eq, Structural)]
pub enum Verdict {
    /// Call the engine again.
    Continue,
    /// The engine reached a terminal status.
    Stop,
    /// The engine broke its call contract, the buffer cannot grow any further,
    /// or nothing moved for [`STALL_LIMIT`] answers in a row.
    Abort,
}

/// Where a run stands.
#[derive(Debug)]
pub enum RunPhase<S> {
    /// The engine is to be called again.
    Running,
    /// The engine reported this terminal status.
    Finished(S),
    /// The driver gave the run up.
    Aborted,
}

/// `len` zero bytes.
pub open spec fn zeros(len: nat) -> Seq<u8> {
    Seq::new(len, |i: int| 0u8)
}

/// By how much a buffer that holds `len` valid bytes grows.
pub open spec fn growth(len: nat) -> nat {
    len / 8 + 6
}

/// A growable output byte sequence that tracks its valid length apart from
/// its capacity.
#[derive(Debug)]
pub struct StreamBuffer {
    bytes: Vec<u8>,
    capacity: usize,
}

impl View for StreamBuffer {
    type V = Seq<u8>;

    /// The valid bytes.
    closed spec fn view(&self) -> Seq<u8> {
        self.bytes@
    }
}

impl StreamBuffer {
    /// The valid bytes lie within the capacity, which is no more than a
    /// vector can hold.
    pub closed spec fn wf(&self) -> bool {
        self.bytes@.len() <= self.capacity <= isize::MAX
    }

    /// How many bytes the buffer may hold.
    pub closed spec fn spec_capacity(&self) -> nat {
        self.capacity as nat
    }

    /// How many bytes the buffer may still take.
    pub open spec fn spec_room(&self) -> int {
        self.spec_capacity() - self@.len()
    }

    /// An empty buffer that may hold `capacity` bytes.
    pub fn with_capacity(capacity: usize) -> (r: Self)
        requires
            capacity <= isize::MAX,
        ensures
            r.wf(),
            r@ == Seq::<u8>::empty(),
            r.spec_capacity() == capacity,
    {
        StreamBuffer { bytes: Vec::new(), capacity }
    }

    /// The valid length.
    pub fn len(&self) -> (r: usize)
        ensures
            r == self@.len(),
    {
        self.bytes.len()
    }

    /// How many bytes the buffer may hold.
    pub fn capacity(&self) -> (r: usize)
        ensures
            r == self.spec_capacity(),
    {
        self.capacity
    }

    /// How many bytes the buffer may still take.
    pub fn room(&self) -> (r: usize)
        requires
            self.wf(),
        ensures
            r == self.spec_room(),
    {
        self.capacity - self.bytes.len()
    }

    /// The valid bytes.
    pub fn as_slice(&self) -> (r: &[u8])
        ensures
            r@ == self@,
    {
        self.bytes.as_slice()
    }

    /// Marks `produced` valid behind the bytes that are, if there is room for
    /// all of it; writes nothing otherwise.
    pub fn append(&mut self, produced: &[u8]) -> (fits: bool)
        requires
            old(self).wf(),
        ensures
            final(self).wf(),
            fits == (produced@.len() <= old(self).spec_room()),
            final(self).spec_capacity() == old(self).spec_capacity(),
            final(self)@ == if fits {
                old(self)@ + produced@
            } else {
                old(self)@
            },
    {
        if produced.len() > self.capacity - self.bytes.len() {
            return false;
        }
        self.bytes.extend_from_slice(produced);
        assert(self.bytes@ =~= old(self).bytes@ + produced@);
        true
    }

    /// Raises the capacity by [`growth`] of the valid length, if a vector can
    /// hold as much; changes nothing otherwise.
    pub fn grow(&mut self) -> (grown: bool)
        requires
            old(self).wf(),
        ensures
            final(self).wf(),
            grown == (old(self).spec_capacity() + growth(old(self)@.len()) <= isize::MAX),
            final(self)@ == old(self)@,
            final(self).spec_capacity() == if grown {
                old(self).spec_capacity() + growth(old(self)@.len())
            } else {
                old(self).spec_capacity()
            },
    {
        let step: usize = self.bytes.len() / 8 + 6;
        if step > (isize::MAX as usize) - self.capacity {
            return false;
        }
        self.capacity = self.capacity + step;
        true
    }

    /// The valid bytes, the buffer given up.
    pub fn into_bytes(self) -> (r: Vec<u8>)
        ensures
            r@ == self@,
    {
        self.bytes
    }

    /// The whole buffer: the valid bytes, then zeros up to the capacity.
    pub fn into_padded(self) -> (r: Vec<u8>)
        requires
            self.wf(),
        ensures
            r@ == self@ + zeros((self.spec_capacity() - self@.len()) as nat),
    {
        let capacity = self.capacity;
        let mut bytes = self.bytes;
        let ghost valid = bytes@;
        bytes.resize(capacity, 0u8);
        assert(bytes@ =~= valid + zeros((capacity - valid.len()) as nat)) by {
            assert forall|i: int| 0 <= i < valid.len() implies bytes@[i] == valid[i] by {
                assert(bytes@.subrange(0, valid.len() as int)[i] == bytes@[i]);
            }
        }
        bytes
    }
}

/// The bookkeeping of one run as a plain value: the input and how much of it
/// the engine took, the bytes it produced and the room they have, and how
/// many answers in a row brought nothing.
pub struct StreamModel {
    pub input: Seq<u8>,
    pub in_offset: nat,
    pub output: Seq<u8>,
    pub capacity: nat,
    pub stalls: nat,
}

impl StreamModel {
    /// The offsets lie within the input and the capacity, which is no more
    /// than a vector can hold, and the run has not stalled out.
    pub open spec fn wf(self) -> bool {
        &&& self.in_offset <= self.input.len() <= usize::MAX
        &&& self.output.len() <= self.capacity <= isize::MAX
        &&& self.stalls < STALL_LIMIT
    }

    /// A run over `input` that has not begun, with room for `capacity` bytes.
    pub open spec fn start(input: Seq<u8>, capacity: nat) -> StreamModel {
        StreamModel { input, in_offset: 0, output: Seq::empty(), capacity, stalls: 0 }
    }

    /// The unconsumed rest of the input: what the engine is handed next.
    pub open spec fn pending(self) -> Seq<u8> {
        self.input.subrange(self.in_offset as int, self.input.len() as int)
    }

    /// The room that the engine is offered next.
    pub open spec fn room(self) -> int {
        self.capacity - self.output.len()
    }

    /// Whether an answer claims more input than it was handed or more output
    /// than it was offered room for.
    pub open spec fn overrun(self, consumed: nat, produced: Seq<u8>) -> bool {
        consumed > self.input.len() - self.in_offset || produced.len() > self.room()
    }

    /// The run with both offsets advanced by an answer.
    pub open spec fn moved(self, consumed: nat, produced: Seq<u8>) -> StreamModel {
        StreamModel {
            in_offset: self.in_offset + consumed,
            output: self.output + produced,
            ..self
        }
    }

    /// What the loop does after an answer.
    pub open spec fn verdict(self, consumed: nat, produced: Seq<u8>, signal: Signal) -> Verdict {
        if self.overrun(consumed, produced) {
            Verdict::Abort
        } else {
            match signal {
                Signal::Terminal => Verdict::Stop,
                Signal::MoreRoom => if self.capacity + growth(self.output.len() + produced.len())
                    <= isize::MAX {
                    Verdict::Continue
                } else {
                    Verdict::Abort
                },
                Signal::Again => if consumed == 0 && produced.len() == 0 && self.stalls + 1
                    >= STALL_LIMIT {
                    Verdict::Abort
                } else {
                    Verdict::Continue
                },
            }
        }
    }

    /// The run after an answer. An answer that overruns leaves it as it was.
    /// Any other moves the offsets; the call for more room then raises the
    /// capacity by [`growth`] of the new valid length, where a vector can
    /// hold as much; and an answer that moved nothing counts as a stall,
    /// while one that moved something clears the count.
    pub open spec fn next(self, consumed: nat, produced: Seq<u8>, signal: Signal) -> StreamModel {
        if self.overrun(consumed, produced) {
            self
        } else {
            let moved = self.moved(consumed, produced);
            match signal {
                Signal::Terminal => moved,
                Signal::MoreRoom => if moved.capacity + growth(moved.output.len()) <= isize::MAX {
                    StreamModel {
                        capacity: moved.capacity + growth(moved.output.len()),
                        stalls: 0,
                        ..moved
                    }
                } else {
                    moved
                },
                Signal::Again => if consumed == 0 && produced.len() == 0 {
                    if self.stalls + 1 < STALL_LIMIT {
                        StreamModel { stalls: self.stalls + 1, ..moved }
                    } else {
                        moved
                    }
                } else {
                    StreamModel { stalls: 0, ..moved }
                },
            }
        }
    }

    /// A bound on the number of calls that the run can still make.
    pub open spec fn fuel(self) -> nat {
        (STALL_LIMIT * ((self.input.len() - self.in_offset) + (isize::MAX - self.output.len()) + (
        isize::MAX - self.capacity)) + (STALL_LIMIT - 1 - self.stalls)) as nat
    }
}

/// All the bytes of the answers `replies`, those of the first answer first.
pub open spec fn produced_by<S>(replies: Seq<EngineReply<S>>) -> Seq<u8>
    decreases replies.len(),
{
    if replies.len() == 0 {
        Seq::empty()
    } else {
        produced_by(replies.drop_last()) + replies.last().produced@
    }
}

/// How many bytes of input the answers `replies` took in all.
pub open spec fn consumed_by<S>(replies: Seq<EngineReply<S>>) -> nat
    decreases replies.len(),
{
    if replies.len() == 0 {
        0
    } else {
        consumed_by(replies.drop_last()) + replies.last().consumed as nat
    }
}

/// One run of the driver loop as a plain value: its bookkeeping and where it
/// stands.
pub struct RunModel<S> {
    pub stream: StreamModel,
    pub phase: RunPhase<S>,
}

impl<S> RunModel<S> {
    /// A run over `input` that has not begun, with room for `capacity` bytes
    /// of output.
    pub open spec fn start(input: Seq<u8>, capacity: nat) -> RunModel<S> {
        RunModel { stream: StreamModel::start(input, capacity), phase: RunPhase::Running }
    }

    /// Whether the engine is to be called again.
    pub open spec fn is_running(self) -> bool {
        self.phase is Running
    }

    /// The run after an answer with the status `status`, which means `signal`
    /// to the loop: the bookkeeping moves as [`StreamModel::next`] says, and
    /// the run goes on, ends with `status` or is given up as
    /// [`StreamModel::verdict`] says.
    pub open spec fn after(
        self,
        consumed: nat,
        produced: Seq<u8>,
        status: S,
        signal: Signal,
    ) -> RunModel<S> {
        RunModel {
            stream: self.stream.next(consumed, produced, signal),
            phase: match self.stream.verdict(consumed, produced, signal) {
                Verdict::Continue => RunPhase::Running,
                Verdict::Stop => RunPhase::Finished(status),
                Verdict::Abort => RunPhase::Aborted,
            },
        }
    }

    /// A bound on the number of calls that the run can still make.
    pub open spec fn fuel(self) -> nat {
        if self.is_running() {
            self.stream.fuel() + 1
        } else {
            0
        }
    }
}

/// The bookkeeping of one run of the driver loop.
#[derive(Debug)]
pub struct StreamState {
    input: Vec<u8>,
    in_offset: usize,
    output: StreamBuffer,
    stalls: u8,
}

impl View for StreamState {
    type V = StreamModel;

    closed spec fn view(&self) -> StreamModel {
        StreamModel {
            input: self.input@,
            in_offset: self.in_offset as nat,
            output: self.output@,
            capacity: self.output.spec_capacity(),
            stalls: self.stalls as nat,
        }
    }
}

impl StreamState {
    /// The state is one that [`StreamState::new`] and
    /// [`StreamState::advance`] lead to.
    pub closed spec fn wf(&self) -> bool {
        &&& self.output.wf()
        &&& self@.wf()
    }

    /// A run over `input` that has not begun, with room for `capacity` bytes
    /// of output.
    pub fn new(input: Vec<u8>, capacity: usize) -> (r: Self)
        requires
            capacity <= isize::MAX,
        ensures
            r.wf(),
            r@ == StreamModel::start(input@, capacity as nat),
    {
        assert(input@.len() == input.len());
        StreamState {
            input,
            in_offset: 0,
            output: StreamBuffer::with_capacity(capacity),
            stalls: 0,
        }
    }

    /// The unconsumed rest of the input.
    pub fn pending_input(&self) -> (r: &[u8])
        requires
            self.wf(),
        ensures
            r@ == self@.pending(),
    {
        slice_subrange(self.input.as_slice(), self.in_offset, self.input.len())
    }

    /// The room that is left for output.
    pub fn room(&self) -> (r: usize)
        requires
            self.wf(),
        ensures
            r == self@.room(),
    {
        self.output.room()
    }

    /// How many bytes of the input the engine has taken.
    pub fn in_offset(&self) -> (r: usize)
        ensures
            r == self@.in_offset,
    {
        self.in_offset
    }

    /// How many bytes the engine has produced.
    pub fn out_offset(&self) -> (r: usize)
        ensures
            r == self@.output.len(),
    {
        self.output.len()
    }

    /// How many bytes of output the run has room for in all.
    pub fn capacity(&self) -> (r: usize)
        ensures
            r == self@.capacity,
    {
        self.output.capacity()
    }

    /// The bytes that the engine has produced.
    pub fn output(&self) -> (r: &[u8])
        ensures
            r@ == self@.output,
    {
        self.output.as_slice()
    }

    /// Takes in one answer of the engine: `consumed` bytes taken of the
    /// pending input, `produced` written into the room, and what its status
    /// means to the loop.
    pub fn advance(&mut self, consumed: usize, produced: &[u8], signal: Signal) -> (r: Verdict)
        requires
            old(self).wf(),
        ensures
            final(self).wf(),
            final(self)@ == old(self)@.next(consumed as nat, produced@, signal),
            r == old(self)@.verdict(consumed as nat, produced@, signal),
    {
        if consumed > self.input.len() - self.in_offset {
            return Verdict::Abort;
        }
        if !self.output.append(produced) {
            return Verdict::Abort;
        }
        self.in_offset = self.in_offset + consumed;
        match signal {
            Signal::Terminal => Verdict::Stop,
            Signal::MoreRoom => {
                if self.output.grow() {
                    self.stalls = 0;
                    Verdict::Continue
                } else {
                    Verdict::Abort
                }
            },
            Signal::Again => {
                if consumed == 0 && produced.len() == 0 {
                    if self.stalls + 1 < STALL_LIMIT {
                        self.stalls = self.stalls + 1;
                        Verdict::Continue
                    } else {
                        Verdict::Abort
                    }
                } else {
                    self.stalls = 0;
                    Verdict::Continue
                }
            },
        }
    }

    /// What holds of the plain value of a well-formed state.
    pub proof fn lemma_well_formed(&self)
        requires
            self.wf(),
        ensures
            self@.wf(),
    {
    }

    /// The output buffer, the run given up.
    pub fn into_output(self) -> (r: StreamBuffer)
        requires
            self.wf(),
        ensures
            r.wf(),
            r@ == self@.output,
            r.spec_capacity() == self@.capacity,
    {
        self.output
    }
}

/// A run stays well-formed under every answer.
pub proof fn lemma_next_is_well_formed(
    s: StreamModel,
    consumed: nat,
    produced: Seq<u8>,
    signal: Signal,
)
    requires
        s.wf(),
    ensures
        s.next(consumed, produced, signal).wf(),
{
}

/// The capacity never shrinks, and it rises only on the call for more room,
/// by exactly [`growth`] of the valid length.
pub proof fn lemma_capacity_grows_on_demand_only(
    s: StreamModel,
    consumed: nat,
    produced: Seq<u8>,
    signal: Signal,
)
    requires
        s.wf(),
    ensures
        ({
            let t = s.next(consumed, produced, signal);
            &&& t.capacity >= s.capacity
            &&& t.capacity != s.capacity ==> signal == Signal::MoreRoom && t.capacity
                == s.capacity + growth(t.output.len()) && s.verdict(consumed, produced, signal)
                == Verdict::Continue
            &&& signal == Signal::MoreRoom && s.verdict(consumed, produced, signal)
                == Verdict::Continue ==> t.capacity == s.capacity + growth(t.output.len())
        }),
{
}

/// No answer moves an offset back or changes a byte that was produced, and
/// nothing is ever valid beyond the capacity. An answer that holds more than
/// the room it was offered ends the run and leaves the output as it was.
pub proof fn lemma_output_stays_within_capacity(
    s: StreamModel,
    consumed: nat,
    produced: Seq<u8>,
    signal: Signal,
)
    requires
        s.wf(),
    ensures
        ({
            let t = s.next(consumed, produced, signal);
            &&& t.input == s.input
            &&& s.in_offset <= t.in_offset <= t.input.len()
            &&& s.output.is_prefix_of(t.output)
            &&& t.output.len() <= t.capacity
            &&& produced.len() > s.room() ==> t == s && s.verdict(consumed, produced, signal)
                == Verdict::Abort
        }),
{
}

/// Every answer after which the loop goes on uses up fuel, so no run goes on
/// forever.
pub proof fn lemma_continuing_uses_fuel(
    s: StreamModel,
    consumed: nat,
    produced: Seq<u8>,
    signal: Signal,
)
    requires
        s.wf(),
        s.verdict(consumed, produced, signal) == Verdict::Continue,
    ensures
        s.next(consumed, produced, signal).fuel() < s.fuel(),
{
}

/// Of three non-terminal answers in a row that move nothing, the loop does
/// not outlast the third.
pub proof fn lemma_three_stalls_abort(s: StreamModel)
    requires
        s.wf(),
    ensures
        ({
            let nothing = Seq::<u8>::empty();
            let first = s.next(0, nothing, Signal::Again);
            let second = first.next(0, nothing, Signal::Again);
            ||| s.verdict(0, nothing, Signal::Again) == Verdict::Abort
            ||| first.verdict(0, nothing, Signal::Again) == Verdict::Abort
            ||| second.verdict(0, nothing, Signal::Again) == Verdict::Abort
        }),
{
}

} // verus!
