//! Statuses, kinds, commands and packets of the processor runtime.

use crate::handlers::models::ProcessorInfo;
use vstd::prelude::*;
use vstd::std_specs::cmp::PartialEqSpecImpl;

verus! {

/// Lifecycle status of a processor.
#[derive(Copy, Clone, Debug)]
pub enum ProcessorStatus {
    Running,
    Stopped,
    Errored,
}

impl ProcessorStatus {
    /// What `==` means on statuses: two running or two stopped processors
    /// compare equal. An errored status equals nothing, itself included.
    pub open spec fn same_live_status(self, other: Self) -> bool {
        (self is Running && other is Running) || (self is Stopped && other is Stopped)
    }
}

impl PartialEq for ProcessorStatus {
    fn eq(&self, other: &Self) -> (r: bool) {
        match (self, other) {
            (ProcessorStatus::Running, ProcessorStatus::Running) => true,
            (ProcessorStatus::Stopped, ProcessorStatus::Stopped) => true,
            _ => false,
        }
    }
}

impl PartialEqSpecImpl for ProcessorStatus {
    open spec fn obeys_eq_spec() -> bool {
        true
    }

    open spec fn eq_spec(&self, other: &Self) -> bool {
        self.same_live_status(*other)
    }
}

/// Kind of a processor, fixed when it is created.
#[derive(Copy, Clone, Debug)]
pub enum ProcessorType {
    /// Produces packets on a tick.
    SourceProcessor,
    /// Consumes packets from its inbox and forwards what it derives.
    Other,
}

/// A packet whose payload travels inline.
#[derive(Clone, Debug)]
pub struct InMemoryPacket {
    pub id: u128,
    pub data: Vec<u8>,
}

/// A packet whose payload lies in the content repository.
#[derive(Clone, Debug)]
pub struct ReferencePacket {
    pub id: u128,
    pub file_name: String,
    pub offset: u64,
    pub length: u64,
}

/// What travels over a data channel.
#[derive(Clone, Debug)]
pub enum Message {
    InMemoryMessage(InMemoryPacket),
    ReferenceMessage(ReferencePacket),
}

/// What the control plane asks of a processor. `H` is the handle on a
/// destination's data channel; the runtime stores and hands it back, and
/// never looks inside.
#[derive(Debug)]
pub enum ProcessorCommand<H> {
    Stop,
    Start,
    Connect { destination_processor_id: u128, destination_processor_tx: H },
    Disconnect { destination_processor_id: u128 },
    GetStatus,
    GetInfo,
}

/// The single acknowledgment that answers a command.
#[derive(Debug)]
pub enum ProcessorReply {
    Status(ProcessorStatus),
    Info(ProcessorInfo),
}

/// One input of a processor's event loop.
#[derive(Debug)]
pub enum ProcessorEvent<H> {
    /// A command from the control plane.
    Command(ProcessorCommand<H>),
    /// A message from the data inbox.
    Data(Message),
    /// The periodic tick of a source.
    Tick,
    /// The cluster-wide cancellation signal.
    Cancelled,
}

/// What the loop owes after it has handled one event.
#[derive(Debug)]
pub enum ProcessorAction {
    /// Send this acknowledgment on the command's reply handle.
    Reply(ProcessorReply),
    /// Send a clone of this packet to every peer.
    FanOut(InMemoryPacket),
    /// Nothing to do.
    Idle,
    /// Leave the loop.
    Exit,
}

impl ProcessorAction {
    /// The packet that this action sends on, if it sends one.
    pub open spec fn sent(self) -> Option<InMemoryPacket> {
        match self {
            ProcessorAction::FanOut(packet) => Some(packet),
            _ => None,
        }
    }
}

} // verus!
