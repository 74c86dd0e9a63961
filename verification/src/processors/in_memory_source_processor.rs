//! The source processor: makes a packet on every tick and sends it to its
//! peers.

use crate::processors::base_processor::{ProcessorModel, ProcessorState};
use crate::processors::models::{
    InMemoryPacket, ProcessorAction, ProcessorEvent, ProcessorStatus,
};
use crate::processors::traces::source_step;
use std::collections::HashMap;
use vstd::prelude::*;

verus! {

/// A source processor. `H` is the handle on a peer's data channel.
pub struct InMemorySourceProcessor<H> {
    state: ProcessorState<H>,
}

impl<H> View for InMemorySourceProcessor<H> {
    type V = ProcessorModel<H>;

    closed spec fn view(&self) -> ProcessorModel<H> {
        self.state@
    }
}

impl<H> InMemorySourceProcessor<H> {
    /// A stopped source without peers, under a fresh random identity.
    pub fn new(processor_name: String) -> (r: Self)
        ensures
            r@ == ProcessorModel::<H>::created(processor_name@, r@.id),
            crate::ids::is_random_uuid(r@.id),
    {
        InMemorySourceProcessor { state: ProcessorState::new(processor_name) }
    }

    /// Binds `receiver_processor_id` to `tx_for_receiver` in the peer set,
    /// replacing an earlier handle for the same destination.
    pub fn connect_processor(&mut self, receiver_processor_id: u128, tx_for_receiver: H)
        ensures
            final(self)@ == (ProcessorModel {
                peers: old(self)@.peers.insert(receiver_processor_id, tx_for_receiver),
                ..old(self)@
            }),
    {
        self.state.connect_processor(receiver_processor_id, tx_for_receiver);
    }

    /// Drops `receiver_processor_id` from the peer set, if it is there.
    pub fn disconnect_processor(&mut self, receiver_processor_id: u128)
        ensures
            final(self)@ == (ProcessorModel {
                peers: old(self)@.peers.remove(receiver_processor_id),
                ..old(self)@
            }),
    {
        self.state.disconnect_processor(receiver_processor_id);
    }

    /// Handles one event of the loop and says what the loop owes next.
    ///
    /// A command changes the state as `after_command` says and is answered
    /// by exactly one reply. A tick reaches `generate_packet_func` only
    /// while the processor is running and has a peer; where the function
    /// yields a packet, one round is counted and the packet goes out to the
    /// peers. A source has no inbox, so a message means nothing to it, and
    /// cancellation ends the loop.
    ///
    /// The counter has to have room for the round that the event may
    /// bring.
    pub fn run<F: Fn() -> Option<InMemoryPacket>>(
        &mut self,
        event: ProcessorEvent<H>,
        generate_packet_func: F,
    ) -> (action: ProcessorAction)
        requires
            event is Tick ==> old(self)@.count < u64::MAX,
            event is Tick ==> call_requires(generate_packet_func, ()),
        ensures
            match event {
                ProcessorEvent::Command(command) => {
                    &&& final(self)@ == old(self)@.after_command(command)
                    &&& action matches ProcessorAction::Reply(reply)
                    &&& final(self)@.acknowledges(command, reply)
                },
                ProcessorEvent::Tick => {
                    if old(self)@.forwards() {
                        &&& call_ensures(generate_packet_func, (), action.sent())
                        &&& action is FanOut || action is Idle
                        &&& final(self)@ == if action is FanOut {
                            old(self)@.after_round()
                        } else {
                            old(self)@
                        }
                    } else {
                        action is Idle && final(self)@ == old(self)@
                    }
                },
                ProcessorEvent::Data(_) => action is Idle && final(self)@ == old(self)@,
                ProcessorEvent::Cancelled => action is Exit && final(self)@ == old(self)@,
            },
            final(self)@ == old(self)@.after_step(source_step(event, action)),
    {
        match event {
            ProcessorEvent::Command(command) => ProcessorAction::Reply(
                self.state.handle_command(command),
            ),
            ProcessorEvent::Tick => {
                if self.state.forwards() {
                    match generate_packet_func() {
                        Some(packet) => {
                            self.state.count_round();
                            ProcessorAction::FanOut(packet)
                        },
                        None => ProcessorAction::Idle,
                    }
                } else {
                    ProcessorAction::Idle
                }
            },
            ProcessorEvent::Data(_) => ProcessorAction::Idle,
            ProcessorEvent::Cancelled => ProcessorAction::Exit,
        }
    }

    /// Drops every peer whose channel was found closed during a fan-out.
    /// Ids that are not in the peer set are passed over.
    pub fn prune_peers(&mut self, closed: &Vec<u128>)
        ensures
            final(self)@ == old(self)@.after_pruning(closed@.to_set()),
    {
        self.state.prune_peers(closed);
    }

    /// Records that the payload function failed: the processor is Errored
    /// from now on.
    pub fn fail(&mut self)
        ensures
            final(self)@ == old(self)@.after_failure(),
    {
        self.state.fail();
    }

    /// The peer set, for the fan-out to walk.
    pub fn peers(&self) -> (r: &HashMap<u128, H>)
        ensures
            r@ == self@.peers,
    {
        self.state.peers()
    }

    /// The identity that the processor was created under.
    pub fn processor_id(&self) -> (r: u128)
        ensures
            r == self@.id,
    {
        self.state.processor_id()
    }

    /// The name that the processor was created under.
    pub fn processor_name(&self) -> (r: &String)
        ensures
            r@ == self@.name,
    {
        self.state.processor_name()
    }

    /// The current status.
    pub fn status(&self) -> (r: ProcessorStatus)
        ensures
            r == self@.status,
    {
        self.state.status()
    }

    /// How many fan-out rounds were counted so far.
    pub fn packets_processed_count(&self) -> (r: u64)
        ensures
            r == self@.count,
    {
        self.state.packets_processed_count()
    }
}

} // verus!
