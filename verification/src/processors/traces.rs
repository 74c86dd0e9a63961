//! Whole runs of a processor: what holds after any sequence of steps.

use crate::processors::base_processor::{status_after, ProcessorModel};
use crate::processors::models::{
    Message, ProcessorAction, ProcessorCommand, ProcessorEvent, ProcessorReply,
};
use vstd::prelude::*;

verus! {

/// One step of a processor's loop, as far as it bears on the state.
pub enum Step<H> {
    /// A command was handled.
    Command(ProcessorCommand<H>),
    /// A tick fired or a packet arrived. `produced` says whether the payload
    /// function would yield a packet for it.
    Offer { produced: bool },
    /// After a fan-out, the peers in the set were found closed.
    Pruned(Set<u128>),
    /// The payload function failed.
    Failed,
}

impl<H> ProcessorModel<H> {
    /// Whether `step` is a fan-out round when taken in this state.
    pub open spec fn completes_round(self, step: Step<H>) -> bool {
        step matches Step::Offer { produced } && produced && self.forwards()
    }

    /// The processor after one step.
    pub open spec fn after_step(self, step: Step<H>) -> Self {
        match step {
            Step::Command(command) => self.after_command(command),
            Step::Offer { .. } => if self.completes_round(step) {
                self.after_round()
            } else {
                self
            },
            Step::Pruned(closed) => self.after_pruning(closed),
            Step::Failed => self.after_failure(),
        }
    }

    /// The processor after a sequence of steps, taken in order.
    pub open spec fn after_steps(self, steps: Seq<Step<H>>) -> Self
        decreases steps.len(),
    {
        if steps.len() == 0 {
            self
        } else {
            self.after_steps(steps.drop_last()).after_step(steps.last())
        }
    }

    /// How many of the steps are fan-out rounds.
    pub open spec fn rounds(self, steps: Seq<Step<H>>) -> nat
        decreases steps.len(),
    {
        if steps.len() == 0 {
            0
        } else {
            let before = self.after_steps(steps.drop_last());
            self.rounds(steps.drop_last()) + if before.completes_round(steps.last()) {
                1nat
            } else {
                0nat
            }
        }
    }
}

/// The step that a transform takes when it handles `event` and answers
/// with `action`. Only an in-memory message offers it a packet.
pub open spec fn transform_step<H>(event: ProcessorEvent<H>, action: ProcessorAction) -> Step<H> {
    match event {
        ProcessorEvent::Command(command) => Step::Command(command),
        ProcessorEvent::Data(Message::InMemoryMessage(_)) => Step::Offer {
            produced: action is FanOut,
        },
        _ => Step::Offer { produced: false },
    }
}

/// The step that a source takes when it handles `event` and answers with
/// `action`. Only a tick offers it a packet.
pub open spec fn source_step<H>(event: ProcessorEvent<H>, action: ProcessorAction) -> Step<H> {
    match event {
        ProcessorEvent::Command(command) => Step::Command(command),
        ProcessorEvent::Tick => Step::Offer { produced: action is FanOut },
        _ => Step::Offer { produced: false },
    }
}

/// How many of the steps are ticks or arriving packets.
pub open spec fn offers<H>(steps: Seq<Step<H>>) -> nat
    decreases steps.len(),
{
    if steps.len() == 0 {
        0
    } else {
        offers(steps.drop_last()) + if steps.last() is Offer {
            1nat
        } else {
            0nat
        }
    }
}

/// Whether `step` takes destination `id` out of a peer set.
pub open spec fn drops_peer<H>(step: Step<H>, id: u128) -> bool {
    match step {
        Step::Command(ProcessorCommand::Disconnect { destination_processor_id }) => {
            destination_processor_id == id
        },
        Step::Pruned(closed) => closed.contains(id),
        _ => false,
    }
}

/// A processor is created stopped. Start takes a stopped processor to
/// Running and Stop takes a running one to Stopped; Start on a running and
/// Stop on a stopped processor change nothing. Whatever the state, the
/// reply to Start, Stop and GetStatus is the status that the command leaves
/// behind, and GetStatus leaves the state as it was.
pub proof fn lemma_start_stop<H>(
    name: Seq<char>,
    id: u128,
    processor: ProcessorModel<H>,
    reply: ProcessorReply,
)
    ensures
        ProcessorModel::<H>::created(name, id).status is Stopped,
        processor.status is Stopped ==> processor.after_command(
            ProcessorCommand::Start,
        ).status is Running,
        processor.status is Running ==> processor.after_command(
            ProcessorCommand::Stop,
        ).status is Stopped,
        processor.status is Running ==> processor.after_command(ProcessorCommand::Start)
            == processor,
        processor.status is Stopped ==> processor.after_command(ProcessorCommand::Stop)
            == processor,
        processor.after_command(ProcessorCommand::GetStatus) == processor,
        processor.after_command(ProcessorCommand::Start).acknowledges(
            ProcessorCommand::Start,
            reply,
        ) ==> reply == ProcessorReply::Status(
            status_after(processor.status, ProcessorCommand::<H>::Start),
        ),
        processor.after_command(ProcessorCommand::Stop).acknowledges(ProcessorCommand::Stop, reply)
            ==> reply == ProcessorReply::Status(
            status_after(processor.status, ProcessorCommand::<H>::Stop),
        ),
        processor.after_command(ProcessorCommand::GetStatus).acknowledges(
            ProcessorCommand::GetStatus,
            reply,
        ) ==> reply == ProcessorReply::Status(processor.status),
{
}

/// Nothing leaves Errored: once the payload function has failed, the status
/// stays Errored whatever steps follow.
pub proof fn lemma_errored_is_terminal<H>(processor: ProcessorModel<H>, steps: Seq<Step<H>>)
    requires
        processor.status is Errored,
    ensures
        processor.after_steps(steps).status is Errored,
    decreases steps.len(),
{
    if steps.len() > 0 {
        lemma_errored_is_terminal(processor, steps.drop_last());
    }
}

/// The packet counter grows by exactly one per fan-out round, and there are
/// at most as many rounds as ticks and arriving packets.
pub proof fn lemma_count_is_rounds<H>(processor: ProcessorModel<H>, steps: Seq<Step<H>>)
    ensures
        processor.after_steps(steps).count == processor.count + processor.rounds(steps),
        processor.rounds(steps) <= offers(steps),
    decreases steps.len(),
{
    if steps.len() > 0 {
        lemma_count_is_rounds(processor, steps.drop_last());
    }
}

/// A processor that is not running, or has no peer, counts nothing: without
/// a command between them, ticks and packets leave the counter as it was.
pub proof fn lemma_idle_counts_nothing<H>(processor: ProcessorModel<H>, steps: Seq<Step<H>>)
    requires
        !processor.forwards(),
        forall|i: int| 0 <= i < steps.len() ==> !(#[trigger] steps[i] is Command),
    ensures
        processor.after_steps(steps).count == processor.count,
        processor.rounds(steps) == 0,
    decreases steps.len(),
{
    lemma_stays_idle(processor, steps);
    if steps.len() > 0 {
        let head = steps.drop_last();
        assert forall|i: int| 0 <= i < head.len() implies !(#[trigger] head[i] is Command) by {
            assert(head[i] == steps[i]);
        }
        lemma_idle_counts_nothing(processor, head);
        lemma_stays_idle(processor, head);
    }
}

/// Without a command, a processor that does not forward stays that way.
proof fn lemma_stays_idle<H>(processor: ProcessorModel<H>, steps: Seq<Step<H>>)
    requires
        !processor.forwards(),
        forall|i: int| 0 <= i < steps.len() ==> !(#[trigger] steps[i] is Command),
    ensures
        !processor.after_steps(steps).forwards(),
    decreases steps.len(),
{
    if steps.len() > 0 {
        let head = steps.drop_last();
        assert forall|i: int| 0 <= i < head.len() implies !(#[trigger] head[i] is Command) by {
            assert(head[i] == steps[i]);
        }
        lemma_stays_idle(processor, head);
        let before = processor.after_steps(head);
        assert(!(steps.last() is Command));
        match steps.last() {
            Step::Pruned(closed) => {
                if before.status is Running {
                    assert(before.peers.is_empty());
                    assert(before.peers.remove_keys(closed).dom() =~= Set::<u128>::empty());
                }
            },
            _ => {},
        }
    }
}

/// Once connected, a destination stays in the peer set, exactly once and
/// under the handle of the latest Connect, until a step disconnects it or
/// finds it closed.
pub proof fn lemma_connected_until_dropped<H>(
    processor: ProcessorModel<H>,
    id: u128,
    tx: H,
    steps: Seq<Step<H>>,
)
    requires
        forall|i: int| 0 <= i < steps.len() ==> !drops_peer(#[trigger] steps[i], id),
    ensures
        processor.after_command(
            ProcessorCommand::Connect { destination_processor_id: id, destination_processor_tx: tx },
        ).after_steps(steps).peers.contains_key(id),
        (forall|i: int|
            0 <= i < steps.len() ==> !(#[trigger] steps[i] matches Step::Command(
                ProcessorCommand::Connect { destination_processor_id, .. },
            ) && destination_processor_id == id)) ==> processor.after_command(
            ProcessorCommand::Connect { destination_processor_id: id, destination_processor_tx: tx },
        ).after_steps(steps).peers[id] == tx,
    decreases steps.len(),
{
    let connected = processor.after_command(
        ProcessorCommand::Connect { destination_processor_id: id, destination_processor_tx: tx },
    );
    if steps.len() > 0 {
        let head = steps.drop_last();
        assert forall|i: int| 0 <= i < head.len() implies !drops_peer(#[trigger] head[i], id) by {
            assert(head[i] == steps[i]);
        }
        lemma_connected_until_dropped(processor, id, tx, head);
        assert(!drops_peer(steps.last(), id));
        if forall|i: int|
            0 <= i < steps.len() ==> !(#[trigger] steps[i] matches Step::Command(
                ProcessorCommand::Connect { destination_processor_id, .. },
            ) && destination_processor_id == id) {
            assert forall|i: int| 0 <= i < head.len() implies !(#[trigger] head[i] matches Step::Command(
                ProcessorCommand::Connect { destination_processor_id, .. },
            ) && destination_processor_id == id) by {
                assert(head[i] == steps[i]);
            }
            assert(!(steps[steps.len() - 1] matches Step::Command(
                ProcessorCommand::Connect { destination_processor_id, .. },
            ) && destination_processor_id == id));
        }
    }
}

} // verus!
