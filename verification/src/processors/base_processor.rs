//! The state that every processor keeps and the transitions of its event
//! loop, stated over a mathematical model.

use crate::handlers::models::ProcessorInfo;
use crate::ids::{fresh_uuid, is_random_uuid, uuid_text, uuid_to_text};
use crate::processors::models::{ProcessorCommand, ProcessorReply, ProcessorStatus};
use std::collections::HashMap;
use vstd::prelude::*;

verus! {

broadcast use vstd::std_specs::hash::group_hash_axioms;

/// A processor as the contracts see it.
pub struct ProcessorModel<H> {
    pub name: Seq<char>,
    pub id: u128,
    pub status: ProcessorStatus,
    /// The peer set: destination id to the handle on its data channel.
    pub peers: Map<u128, H>,
    pub count: nat,
}

/// The status that a command leaves behind. Start and Stop move between
/// Stopped and Running; nothing leaves Errored; no other command touches
/// the status.
pub open spec fn status_after<H>(
    status: ProcessorStatus,
    command: ProcessorCommand<H>,
) -> ProcessorStatus {
    match (status, command) {
        (ProcessorStatus::Stopped, ProcessorCommand::Start) => ProcessorStatus::Running,
        (ProcessorStatus::Running, ProcessorCommand::Stop) => ProcessorStatus::Stopped,
        _ => status,
    }
}

/// The peer set that a command leaves behind. Connect binds the
/// destination to the handle it carries, replacing an earlier handle;
/// Disconnect drops the destination, if it is there.
pub open spec fn peers_after<H>(peers: Map<u128, H>, command: ProcessorCommand<H>) -> Map<
    u128,
    H,
> {
    match command {
        ProcessorCommand::Connect { destination_processor_id, destination_processor_tx } => {
            peers.insert(destination_processor_id, destination_processor_tx)
        },
        ProcessorCommand::Disconnect { destination_processor_id } => {
            peers.remove(destination_processor_id)
        },
        _ => peers,
    }
}

impl<H> ProcessorModel<H> {
    /// A processor as it is created: stopped, without peers, nothing counted.
    pub open spec fn created(name: Seq<char>, id: u128) -> Self {
        ProcessorModel { name, id, status: ProcessorStatus::Stopped, peers: Map::empty(), count: 0 }
    }

    /// The processor after it has handled `command`.
    pub open spec fn after_command(self, command: ProcessorCommand<H>) -> Self {
        ProcessorModel {
            status: status_after(self.status, command),
            peers: peers_after(self.peers, command),
            ..self
        }
    }

    /// Whether `reply` is the acknowledgment that this processor, taken
    /// after the command took effect, owes for `command`.
    pub open spec fn acknowledges(self, command: ProcessorCommand<H>, reply: ProcessorReply) -> bool {
        match command {
            ProcessorCommand::GetInfo => {
                &&& reply matches ProcessorReply::Info(info)
                &&& info.processor_id@ == uuid_text(self.id)
                &&& info.status == self.status
                &&& info.packets_processed_count == self.count
            },
            _ => reply matches ProcessorReply::Status(status) && status == self.status,
        }
    }

    /// Whether a packet that arrives or is due now is sent on: only a
    /// running processor with at least one peer sends.
    pub open spec fn forwards(self) -> bool {
        self.status is Running && !self.peers.is_empty()
    }

    /// The processor after one more fan-out round.
    pub open spec fn after_round(self) -> Self {
        ProcessorModel { count: self.count + 1, ..self }
    }

    /// The processor after the peers in `closed` were found closed.
    pub open spec fn after_pruning(self, closed: Set<u128>) -> Self {
        ProcessorModel { peers: self.peers.remove_keys(closed), ..self }
    }

    /// The processor after its payload function failed.
    pub open spec fn after_failure(self) -> Self {
        ProcessorModel { status: ProcessorStatus::Errored, ..self }
    }
}

/// Name, identity, status, peer set and packet counter of one processor.
pub struct ProcessorState<H> {
    processor_name: String,
    processor_id: u128,
    status: ProcessorStatus,
    peers_tx: HashMap<u128, H>,
    packets_processed_count: u64,
}

impl<H> View for ProcessorState<H> {
    type V = ProcessorModel<H>;

    closed spec fn view(&self) -> ProcessorModel<H> {
        ProcessorModel {
            name: self.processor_name@,
            id: self.processor_id,
            status: self.status,
            peers: self.peers_tx@,
            count: self.packets_processed_count as nat,
        }
    }
}

impl<H> ProcessorState<H> {
    /// A stopped processor under a fresh random identity.
    pub fn new(processor_name: String) -> (r: Self)
        ensures
            r@ == ProcessorModel::<H>::created(processor_name@, r@.id),
            is_random_uuid(r@.id),
    {
        ProcessorState {
            processor_name,
            processor_id: fresh_uuid(),
            status: ProcessorStatus::Stopped,
            peers_tx: HashMap::new(),
            packets_processed_count: 0,
        }
    }

    /// Binds `receiver_processor_id` to `tx` in the peer set, replacing an
    /// earlier handle for the same destination.
    pub fn connect_processor(&mut self, receiver_processor_id: u128, tx: H)
        ensures
            final(self)@ == (ProcessorModel {
                peers: old(self)@.peers.insert(receiver_processor_id, tx),
                ..old(self)@
            }),
    {
        self.peers_tx.insert(receiver_processor_id, tx);
    }

    /// Drops `receiver_processor_id` from the peer set, if it is there.
    pub fn disconnect_processor(&mut self, receiver_processor_id: u128)
        ensures
            final(self)@ == (ProcessorModel {
                peers: old(self)@.peers.remove(receiver_processor_id),
                ..old(self)@
            }),
    {
        self.peers_tx.remove(&receiver_processor_id);
    }

    /// Whether a packet that arrives or is due now is sent on.
    pub fn forwards(&self) -> (r: bool)
        ensures
            r == self@.forwards(),
    {
        match self.status {
            ProcessorStatus::Running => !self.peers_tx.is_empty(),
            _ => false,
        }
    }

    /// Counts one fan-out round: one per round, however many peers it
    /// reached.
    pub fn count_round(&mut self)
        requires
            old(self)@.count < u64::MAX,
        ensures
            final(self)@ == old(self)@.after_round(),
    {
        self.packets_processed_count = self.packets_processed_count + 1;
    }

    /// Drops every peer whose channel was found closed during a fan-out.
    /// Ids that are not in the peer set are passed over.
    pub fn prune_peers(&mut self, closed: &Vec<u128>)
        ensures
            final(self)@ == old(self)@.after_pruning(closed@.to_set()),
    {
        let mut i: usize = 0;
        proof {
            assert(closed@.take(0).to_set() =~= Set::<u128>::empty());
            assert(self@.peers =~= old(self)@.peers.remove_keys(closed@.take(0).to_set()));
        }
        while i < closed.len()
            invariant
                i <= closed.len(),
                self@ == old(self)@.after_pruning(closed@.take(i as int).to_set()),
            decreases closed.len() - i,
        {
            let ghost before = self@.peers;
            self.peers_tx.remove(&closed[i]);
            proof {
                let done = closed@.take(i as int).to_set();
                let more = closed@.take(i + 1).to_set();
                assert(closed@.take(i + 1) =~= closed@.take(i as int).push(closed@[i as int]));
                assert(more =~= done.insert(closed@[i as int])) by {
                    vstd::seq_lib::seq_to_set_is_finite(closed@.take(i as int));
                    closed@.take(i as int).lemma_push_to_set_commute(closed@[i as int]);
                }
                assert(self@.peers =~= old(self)@.peers.remove_keys(more));
            }
            i = i + 1;
        }
        proof {
            assert(closed@.take(closed.len() as int) =~= closed@);
        }
    }

    /// Records that the payload function failed: the processor is Errored
    /// from now on.
    pub fn fail(&mut self)
        ensures
            final(self)@ == old(self)@.after_failure(),
    {
        self.status = ProcessorStatus::Errored;
    }

    /// The peer set, for the fan-out to walk.
    pub fn peers(&self) -> (r: &HashMap<u128, H>)
        ensures
            r@ == self@.peers,
    {
        &self.peers_tx
    }

    /// The identity that the processor was created under.
    pub fn processor_id(&self) -> (r: u128)
        ensures
            r == self@.id,
    {
        self.processor_id
    }

    /// The name that the processor was created under.
    pub fn processor_name(&self) -> (r: &String)
        ensures
            r@ == self@.name,
    {
        &self.processor_name
    }

    /// The current status.
    pub fn status(&self) -> (r: ProcessorStatus)
        ensures
            r == self@.status,
    {
        self.status
    }

    /// How many fan-out rounds were counted so far.
    pub fn packets_processed_count(&self) -> (r: u64)
        ensures
            r == self@.count,
    {
        self.packets_processed_count
    }

    /// Handles one command and hands back the one acknowledgment it owes,
    /// which describes the state after the command took effect.
    pub fn handle_command(&mut self, command: ProcessorCommand<H>) -> (reply: ProcessorReply)
        ensures
            final(self)@ == old(self)@.after_command(command),
            final(self)@.acknowledges(command, reply),
    {
        match command {
            ProcessorCommand::Start => {
                if let ProcessorStatus::Stopped = self.status {
                    self.status = ProcessorStatus::Running;
                }
                ProcessorReply::Status(self.status)
            },
            ProcessorCommand::Stop => {
                if let ProcessorStatus::Running = self.status {
                    self.status = ProcessorStatus::Stopped;
                }
                ProcessorReply::Status(self.status)
            },
            ProcessorCommand::GetStatus => ProcessorReply::Status(self.status),
            ProcessorCommand::Connect { destination_processor_id, destination_processor_tx } => {
                self.connect_processor(destination_processor_id, destination_processor_tx);
                ProcessorReply::Status(self.status)
            },
            ProcessorCommand::Disconnect { destination_processor_id } => {
                self.disconnect_processor(destination_processor_id);
                ProcessorReply::Status(self.status)
            },
            ProcessorCommand::GetInfo => ProcessorReply::Info(
                ProcessorInfo {
                    processor_id: uuid_to_text(self.processor_id),
                    status: self.status,
                    packets_processed_count: self.packets_processed_count,
                },
            ),
        }
    }
}

} // verus!
