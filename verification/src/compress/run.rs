//! One run of the driver loop for compression.

use crate::compress::status::CompressionStatus;
use crate::stream::lemma_capacity_grows_on_demand_only;
use crate::stream::lemma_continuing_uses_fuel;
use crate::stream::lemma_next_is_well_formed;
use crate::stream::lemma_output_stays_within_capacity;
use crate::stream::consumed_by;
use crate::stream::produced_by;
use crate::stream::EngineReply;
use crate::stream::RunModel;
use crate::stream::RunPhase;
use crate::stream::StreamState;
use crate::stream::Verdict;
use vstd::prelude::*;

verus! {

/// The room for output that a run of compression starts with.
pub const INITIAL_CAPACITY: usize = 8192;

/// One run of compression as a plain value.
pub type CompressionModel = RunModel<CompressionStatus>;

/// What the engine answered to one call of compression.
pub type CompressionReply = EngineReply<CompressionStatus>;

/// The run after one answer of the engine.
pub open spec fn compression_step(
    run: CompressionModel,
    reply: CompressionReply,
) -> CompressionModel {
    run.after(reply.consumed as nat, reply.produced@, reply.status, reply.status.signal())
}

/// The run after the answers `replies`, the first of them first.
pub open spec fn compression_steps(
    run: CompressionModel,
    replies: Seq<CompressionReply>,
) -> CompressionModel
    decreases replies.len(),
{
    if replies.len() == 0 {
        run
    } else {
        compression_step(compression_steps(run, replies.drop_last()), replies.last())
    }
}

/// Whether `replies` are answers that `engine` may give, one after another,
/// to a loop that starts at `run`: before each the run is still going, and
/// the answer is one of `engine` to the rest of the input and the room that
/// the run then has.
pub open spec fn answered_by<F: Fn(&[u8], usize) -> CompressionReply>(
    engine: F,
    run: CompressionModel,
    replies: Seq<CompressionReply>,
) -> bool
    decreases replies.len(),
{
    replies.len() == 0 || {
        let before = compression_steps(run, replies.drop_last());
        &&& answered_by(engine, run, replies.drop_last())
        &&& before.is_running()
        &&& exists|chunk: &[u8]|
            chunk@ == before.stream.pending() && call_ensures(
                engine,
                (chunk, before.stream.room() as usize),
                replies.last(),
            )
    }
}

/// The status that a run has come to: none while it is going, the engine's
/// terminal status once it has reported one, and
/// [`CompressionStatus::Failed`] where the driver gave the run up.
pub open spec fn compression_outcome(run: CompressionModel) -> Option<CompressionStatus> {
    match run.phase {
        RunPhase::Running => None,
        RunPhase::Finished(status) => Some(status),
        RunPhase::Aborted => Some(CompressionStatus::Failed),
    }
}

/// What goes to the caller's sink: the bytes produced, once the engine has
/// reported a terminal status, and nothing before that or where the driver
/// gave the run up.
pub open spec fn compression_sink(run: CompressionModel) -> Option<Seq<u8>> {
    match run.phase {
        RunPhase::Finished(_) => Some(run.stream.output),
        _ => None,
    }
}

/// One run of the driver loop for compression.
#[derive(Debug)]
pub struct CompressionRun {
    stream: StreamState,
    phase: RunPhase<CompressionStatus>,
}

impl View for CompressionRun {
    type V = CompressionModel;

    closed spec fn view(&self) -> CompressionModel {
        RunModel { stream: self.stream@, phase: self.phase }
    }
}

impl CompressionRun {
    /// The run is one that [`CompressionRun::new`] and the methods lead to:
    /// its bookkeeping is well-formed, and a status that it ended with is
    /// terminal.
    pub closed spec fn wf(&self) -> bool {
        &&& self.stream.wf()
        &&& self.phase matches RunPhase::Finished(status) ==> status.is_terminal()
    }

    /// What holds of the plain value of a well-formed run.
    pub proof fn lemma_well_formed(&self)
        requires
            self.wf(),
        ensures
            self@.stream.wf(),
            compression_outcome(self@) matches Some(status) ==> status.is_terminal(),
    {
        self.stream.lemma_well_formed();
    }

    /// A run over `input` that has not begun.
    pub fn new(input: Vec<u8>) -> (r: Self)
        ensures
            r.wf(),
            r@ == CompressionModel::start(input@, INITIAL_CAPACITY as nat),
    {
        CompressionRun {
            stream: StreamState::new(input, INITIAL_CAPACITY),
            phase: RunPhase::Running,
        }
    }

    /// Whether the engine is to be called again.
    pub fn is_running(&self) -> (r: bool)
        ensures
            r == self@.is_running(),
    {
        match self.phase {
            RunPhase::Running => true,
            _ => false,
        }
    }

    /// The status that the run has come to, if it has come to one. A
    /// well-formed run has come to none but a terminal one.
    pub fn status(&self) -> (r: Option<CompressionStatus>)
        ensures
            r == compression_outcome(self@),
            self.wf() ==> (r matches Some(status) ==> status.is_terminal()),
    {
        match self.phase {
            RunPhase::Running => None,
            RunPhase::Finished(status) => Some(status),
            RunPhase::Aborted => Some(CompressionStatus::Failed),
        }
    }

    /// The unconsumed rest of the input: what the engine is handed next.
    pub fn pending_input(&self) -> (r: &[u8])
        requires
            self.wf(),
        ensures
            r@ == self@.stream.pending(),
    {
        self.stream.pending_input()
    }

    /// The room that the engine is offered next.
    pub fn room(&self) -> (r: usize)
        requires
            self.wf(),
        ensures
            r == self@.stream.room(),
    {
        self.stream.room()
    }

    /// How many bytes of the input the engine has taken.
    pub fn in_offset(&self) -> (r: usize)
        ensures
            r == self@.stream.in_offset,
    {
        self.stream.in_offset()
    }

    /// How many bytes the engine has produced.
    pub fn out_offset(&self) -> (r: usize)
        ensures
            r == self@.stream.output.len(),
    {
        self.stream.out_offset()
    }

    /// How many bytes of output the run has room for in all.
    pub fn capacity(&self) -> (r: usize)
        ensures
            r == self@.stream.capacity,
    {
        self.stream.capacity()
    }

    /// The bytes that the engine has produced.
    pub fn output(&self) -> (r: &[u8])
        ensures
            r@ == self@.stream.output,
    {
        self.stream.output()
    }

    /// Takes in one answer of the engine and says what the run has come to:
    /// `None` where the engine is to be called again.
    pub fn advance(&mut self, reply: CompressionReply) -> (r: Option<CompressionStatus>)
        requires
            old(self).wf(),
            old(self)@.is_running(),
        ensures
            final(self).wf(),
            final(self)@ == compression_step(old(self)@, reply),
            r == compression_outcome(final(self)@),
            r matches Some(status) ==> status.is_terminal(),
    {
        let signal = reply.status.to_signal();
        match self.stream.advance(reply.consumed, reply.produced.as_slice(), signal) {
            Verdict::Continue => None,
            Verdict::Stop => {
                self.phase = RunPhase::Finished(reply.status);
                Some(reply.status)
            },
            Verdict::Abort => {
                self.phase = RunPhase::Aborted;
                Some(CompressionStatus::Failed)
            },
        }
    }

    /// Runs the loop to its end: calls `engine` with the rest of the input
    /// and the room that is left, and takes in its answer, until the run has
    /// come to a status. A run that has come to one is left as it is.
    ///
    /// The run ends where the answers of `engine` lead it, with a terminal
    /// status, and there are no more answers than the run had fuel for.
    pub fn drive<F: Fn(&[u8], usize) -> CompressionReply>(&mut self, engine: &F) -> (status:
        CompressionStatus)
        requires
            old(self).wf(),
            forall|chunk: &[u8], room: usize| call_requires(*engine, (chunk, room)),
        ensures
            final(self).wf(),
            compression_outcome(final(self)@) == Some(status),
            status.is_terminal(),
            !old(self)@.is_running() ==> final(self)@ == old(self)@,
            final(self)@.stream.capacity >= old(self)@.stream.capacity,
            exists|replies: Seq<CompressionReply>|
                {
                    &&& replies.len() <= old(self)@.fuel()
                    &&& answered_by(*engine, old(self)@, replies)
                    &&& final(self)@ == compression_steps(old(self)@, replies)
                },
    {
        let ghost mut replies: Seq<CompressionReply> = Seq::empty();
        let mut outcome = self.status();
        while outcome.is_none()
            invariant
                self.wf(),
                outcome == compression_outcome(self@),
                forall|chunk: &[u8], room: usize| call_requires(*engine, (chunk, room)),
                answered_by(*engine, old(self)@, replies),
                self@ == compression_steps(old(self)@, replies),
                replies.len() + self@.fuel() <= old(self)@.fuel(),
                self@.stream.capacity >= old(self)@.stream.capacity,
            decreases self@.fuel(),
        {
            let ghost before = self@;
            let chunk = self.pending_input();
            let room = self.room();
            let reply = engine(chunk, room);
            proof {
                let longer = replies.push(reply);
                assert(longer.drop_last() == replies);
                assert(longer.last() == reply);
                assert(answered_by(*engine, old(self)@, longer));
                replies = longer;
                self.lemma_well_formed();
                lemma_growth_is_monotonic(before, reply);
                if before.stream.verdict(
                    reply.consumed as nat,
                    reply.produced@,
                    reply.status.signal(),
                ) == Verdict::Continue {
                    lemma_continuing_uses_fuel(
                        before.stream,
                        reply.consumed as nat,
                        reply.produced@,
                        reply.status.signal(),
                    );
                }
            }
            outcome = self.advance(reply);
        }
        outcome.unwrap()
    }

    /// What goes to the caller's sink, the run given up.
    pub fn finish(self) -> (r: Option<Vec<u8>>)
        requires
            self.wf(),
        ensures
            match compression_sink(self@) {
                Some(bytes) => r.is_some() && r.unwrap()@ == bytes,
                None => r.is_none(),
            },
    {
        match self.phase {
            RunPhase::Finished(_) => Some(self.stream.into_output().into_bytes()),
            _ => None,
        }
    }
}

/// From one answer to the next the capacity of the output never shrinks. It
/// rises only when the engine reports that it has more output, and then by
/// exactly an eighth of the valid length, rounded down, and six bytes.
pub proof fn lemma_growth_is_monotonic(run: CompressionModel, reply: CompressionReply)
    requires
        run.stream.wf(),
    ensures
        ({
            let after = compression_step(run, reply);
            &&& after.stream.wf()
            &&& after.stream.capacity >= run.stream.capacity
            &&& after.stream.capacity != run.stream.capacity ==> {
                &&& reply.status == CompressionStatus::HasMoreOutput
                &&& after.is_running()
                &&& after.stream.capacity == run.stream.capacity + after.stream.output.len() / 8
                    + 6
            }
        }),
{
    lemma_next_is_well_formed(
        run.stream,
        reply.consumed as nat,
        reply.produced@,
        reply.status.signal(),
    );
    lemma_capacity_grows_on_demand_only(
        run.stream,
        reply.consumed as nat,
        reply.produced@,
        reply.status.signal(),
    );
}

/// Over any number of answers the capacity never shrinks, the input stays
/// what it was, and what was produced stays in front of what comes after it.
pub proof fn lemma_runs_only_move_forward(run: CompressionModel, replies: Seq<CompressionReply>)
    requires
        run.stream.wf(),
    ensures
        ({
            let after = compression_steps(run, replies);
            &&& after.stream.wf()
            &&& after.stream.capacity >= run.stream.capacity
            &&& after.stream.input == run.stream.input
            &&& after.stream.in_offset >= run.stream.in_offset
            &&& run.stream.output.is_prefix_of(after.stream.output)
        }),
    decreases replies.len(),
{
    if replies.len() > 0 {
        let before = compression_steps(run, replies.drop_last());
        let reply = replies.last();
        lemma_runs_only_move_forward(run, replies.drop_last());
        lemma_growth_is_monotonic(before, reply);
        lemma_output_stays_within_capacity(
            before.stream,
            reply.consumed as nat,
            reply.produced@,
            reply.status.signal(),
        );
    }
}

/// An answer that keeps to the call contract moves the offsets by what it
/// took and produced, and its bytes come to stand behind those that were
/// there. One that does not ends the run as failed and changes nothing.
pub proof fn lemma_answers_are_taken_in_whole(run: CompressionModel, reply: CompressionReply)
    requires
        run.stream.wf(),
    ensures
        ({
            let after = compression_step(run, reply);
            if run.stream.overrun(reply.consumed as nat, reply.produced@) {
                &&& after.stream == run.stream
                &&& compression_outcome(after) == Some(CompressionStatus::Failed)
                &&& compression_sink(after).is_none()
            } else {
                &&& after.stream.in_offset == run.stream.in_offset + reply.consumed
                &&& after.stream.output == run.stream.output + reply.produced@
                &&& reply.status.is_terminal() ==> compression_outcome(after) == Some(reply.status)
                    && compression_sink(after) == Some(after.stream.output)
            }
        }),
{
}

/// A run that was not given up holds what the engine produced, byte for
/// byte and in the order of the answers, behind what it held before, and has
/// taken as much input as the answers say: the loop neither drops nor adds
/// nor moves a byte.
pub proof fn lemma_output_is_what_the_engine_produced<F: Fn(&[u8], usize) -> CompressionReply>(
    engine: F,
    run: CompressionModel,
    replies: Seq<CompressionReply>,
)
    requires
        run.stream.wf(),
        answered_by(engine, run, replies),
        !(compression_steps(run, replies).phase is Aborted),
    ensures
        ({
            let after = compression_steps(run, replies);
            &&& after.stream.wf()
            &&& after.stream.output == run.stream.output + produced_by(replies)
            &&& after.stream.in_offset == run.stream.in_offset + consumed_by(replies)
        }),
    decreases replies.len(),
{
    if replies.len() == 0 {
        assert(run.stream.output + produced_by(replies) =~= run.stream.output);
    } else {
        let before = compression_steps(run, replies.drop_last());
        let reply = replies.last();
        lemma_output_is_what_the_engine_produced(engine, run, replies.drop_last());
        lemma_next_is_well_formed(
            before.stream,
            reply.consumed as nat,
            reply.produced@,
            reply.status.signal(),
        );
        assert(run.stream.output + produced_by(replies) =~= (run.stream.output + produced_by(
            replies.drop_last(),
        )) + reply.produced@);
    }
}

/// A run ends with none but a terminal status, whatever the engine answers:
/// with the engine's own, once that is terminal, or with
/// [`CompressionStatus::Failed`].
pub proof fn lemma_runs_end_with_terminal_statuses(run: CompressionModel, reply: CompressionReply)
    ensures
        ({
            let after = compression_step(run, reply);
            &&& compression_outcome(after) matches Some(status) ==> status.is_terminal()
            &&& after.phase matches RunPhase::Finished(status) ==> status == reply.status
            &&& CompressionStatus::Failed.is_terminal()
        }),
{
}

} // verus!
