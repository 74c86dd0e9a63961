//! The registry of the control plane: which processors exist, how to reach
//! each, and which kinds a name can stand for.

use crate::handlers::errors::ApiError;
use crate::handlers::models::{ProcessorConnectionRequest, RequestDetails, ResponseDetails};
use crate::ids::{parse_uuid, parsed_uuid, uuid_text, uuid_to_text};
use crate::processors::models::{ProcessorStatus, ProcessorType};
use std::collections::HashMap;
use vstd::prelude::*;

verus! {

broadcast use vstd::std_specs::hash::group_hash_axioms;

/// The kind that `name` stands for in a list of mappings, where a later
/// entry overrides an earlier one for the same name.
pub open spec fn kind_named(kinds: Seq<(Seq<char>, ProcessorType)>, name: Seq<char>) -> Option<
    ProcessorType,
>
    decreases kinds.len(),
{
    if kinds.len() == 0 {
        None
    } else if kinds.last().0 == name {
        Some(kinds.last().1)
    } else {
        kind_named(kinds.drop_last(), name)
    }
}

/// The registry as the contracts see it. `C` is the handle on a processor's
/// command channel, `D` the handle on its data channel.
pub struct RegistryModel<C, D> {
    /// The control map: every registered processor.
    pub control: Map<u128, C>,
    /// The peers map: every registered processor with a data inbox.
    pub peers: Map<u128, D>,
    /// The name to kind mappings, in the order they were added.
    pub kinds: Seq<(Seq<char>, ProcessorType)>,
}

impl<C, D> RegistryModel<C, D> {
    /// Whoever has a data inbox is a registered processor.
    pub open spec fn wf(self) -> bool {
        forall|id: u128| #[trigger] self.peers.contains_key(id) ==> self.control.contains_key(id)
    }

    /// The kind that a create request for `name` gets, or the error it
    /// meets.
    pub open spec fn resolve(self, name: Seq<char>) -> Result<ProcessorType, ApiError> {
        match kind_named(self.kinds, name) {
            Some(kind) => Ok(kind),
            None => Err(ApiError::UnknownProcessorName),
        }
    }

    /// The processor that `text` names, or the error that a request for it
    /// meets: text that denotes no id is invalid, an id that is not
    /// registered is unknown.
    pub open spec fn control_of(self, text: Seq<char>) -> Result<u128, ApiError> {
        match parsed_uuid(text) {
            None => Err(ApiError::InvalidId),
            Some(id) => if self.control.contains_key(id) {
                Ok(id)
            } else {
                Err(ApiError::UnknownProcessorId)
            },
        }
    }

    /// The processor that a start, stop or status request names, or the
    /// error it meets: a request without an id is as invalid as one whose
    /// id denotes none.
    pub open spec fn requested(self, processor_id: Option<String>) -> Result<u128, ApiError> {
        match processor_id {
            None => Err(ApiError::InvalidId),
            Some(text) => self.control_of(text@),
        }
    }

    /// Source and destination of a connect request, or the error it meets.
    /// Both ids have to be valid; the destination has to have a data inbox
    /// (a registered processor without one is of the wrong kind); the
    /// source has to be registered.
    pub open spec fn connection_of(self, source: Seq<char>, destination: Seq<char>) -> Result<
        (u128, u128),
        ApiError,
    > {
        match (parsed_uuid(source), parsed_uuid(destination)) {
            (Some(source_id), Some(destination_id)) => {
                if self.peers.contains_key(destination_id) {
                    if self.control.contains_key(source_id) {
                        Ok((source_id, destination_id))
                    } else {
                        Err(ApiError::UnknownProcessorId)
                    }
                } else if self.control.contains_key(destination_id) {
                    Err(ApiError::WrongKind)
                } else {
                    Err(ApiError::UnknownProcessorId)
                }
            },
            _ => Err(ApiError::InvalidId),
        }
    }

    /// Source and destination of a disconnect request, or the error it
    /// meets. Both ids have to be valid and the source registered; the
    /// destination need not exist any more.
    pub open spec fn disconnection_of(self, source: Seq<char>, destination: Seq<char>) -> Result<
        (u128, u128),
        ApiError,
    > {
        match (parsed_uuid(source), parsed_uuid(destination)) {
            (Some(source_id), Some(destination_id)) => {
                if self.control.contains_key(source_id) {
                    Ok((source_id, destination_id))
                } else {
                    Err(ApiError::UnknownProcessorId)
                }
            },
            _ => Err(ApiError::InvalidId),
        }
    }
}

/// What a connect request resolves to.
pub struct Connection<'a, C, D> {
    pub source_processor_id: u128,
    /// The handle on the source's command channel.
    pub source_tx: &'a C,
    pub destination_processor_id: u128,
    /// The handle on the destination's data channel.
    pub destination_tx: &'a D,
}

/// What a disconnect request resolves to.
pub struct Disconnection<'a, C> {
    pub source_processor_id: u128,
    /// The handle on the source's command channel.
    pub source_tx: &'a C,
    pub destination_processor_id: u128,
}

/// The processors of one control plane.
pub struct Registry<C, D> {
    parent_processor_tx: HashMap<u128, C>,
    peers_tx: HashMap<u128, D>,
    processor_types_mappings: Vec<(String, ProcessorType)>,
}

/// The mappings of a registry with each name taken by its characters.
pub open spec fn kinds_view(mappings: Seq<(String, ProcessorType)>) -> Seq<
    (Seq<char>, ProcessorType),
> {
    mappings.map_values(|entry: (String, ProcessorType)| (entry.0@, entry.1))
}

impl<C, D> View for Registry<C, D> {
    type V = RegistryModel<C, D>;

    closed spec fn view(&self) -> RegistryModel<C, D> {
        RegistryModel {
            control: self.parent_processor_tx@,
            peers: self.peers_tx@,
            kinds: kinds_view(self.processor_types_mappings@),
        }
    }
}

impl<C, D> Registry<C, D> {
    /// A registry without processors and without names.
    pub fn new() -> (r: Self)
        ensures
            r@ == (RegistryModel::<C, D> {
                control: Map::empty(),
                peers: Map::empty(),
                kinds: Seq::empty(),
            }),
            r@.wf(),
    {
        let r = Registry {
            parent_processor_tx: HashMap::new(),
            peers_tx: HashMap::new(),
            processor_types_mappings: Vec::new(),
        };
        proof {
            assert(kinds_view(r.processor_types_mappings@) =~= Seq::empty());
        }
        r
    }

    /// Lets `processor_name` stand for `kind` from now on.
    pub fn map_name(&mut self, processor_name: String, kind: ProcessorType)
        ensures
            final(self)@ == (RegistryModel {
                kinds: old(self)@.kinds.push((processor_name@, kind)),
                ..old(self)@
            }),
    {
        self.processor_types_mappings.push((processor_name, kind));
        proof {
            assert(kinds_view(self.processor_types_mappings@) =~= kinds_view(
                old(self).processor_types_mappings@,
            ).push((processor_name@, kind)));
        }
    }

    /// Resolves the name of a create request to the kind of processor to
    /// make.
    pub fn resolve(&self, processor_name: &String) -> (r: Result<ProcessorType, ApiError>)
        ensures
            r == self@.resolve(processor_name@),
    {
        let mut i: usize = self.processor_types_mappings.len();
        let ghost kinds = kinds_view(self.processor_types_mappings@);
        proof {
            assert(kinds.take(i as int) =~= kinds);
        }
        while i > 0
            invariant
                i <= self.processor_types_mappings@.len(),
                kinds == kinds_view(self.processor_types_mappings@),
                kind_named(kinds, processor_name@) == kind_named(
                    kinds.take(i as int),
                    processor_name@,
                ),
            decreases i,
        {
            i = i - 1;
            proof {
                let upto = kinds.take(i + 1);
                assert(upto.last() == kinds[i as int]);
                assert(upto.drop_last() =~= kinds.take(i as int));
            }
            if self.processor_types_mappings[i].0 == *processor_name {
                return Ok(self.processor_types_mappings[i].1);
            }
        }
        Err(ApiError::UnknownProcessorName)
    }

    /// Enters a new source: it is reachable for commands and has no data
    /// inbox. The response is the one that answers the create request.
    pub fn register_source(&mut self, processor_id: u128, control_tx: C) -> (r: ResponseDetails)
        ensures
            final(self)@ == (RegistryModel {
                control: old(self)@.control.insert(processor_id, control_tx),
                ..old(self)@
            }),
            old(self)@.wf() ==> final(self)@.wf(),
            r.processor_id@ == uuid_text(processor_id),
            parsed_uuid(r.processor_id@) == Some(processor_id),
            r.status is Stopped,
    {
        self.parent_processor_tx.insert(processor_id, control_tx);
        proof {
            if old(self)@.wf() {
                assert forall|id: u128| #[trigger] self@.peers.contains_key(id) implies self@.control.contains_key(id) by {
                    assert(old(self)@.peers.contains_key(id));
                }
            }
        }
        ResponseDetails {
            processor_id: uuid_to_text(processor_id),
            status: ProcessorStatus::Stopped,
        }
    }

    /// Enters a new transform: it is reachable for commands, and for data
    /// as the destination of a connection. The response is the one that
    /// answers the create request.
    pub fn register_transform(&mut self, processor_id: u128, control_tx: C, data_tx: D) -> (r:
        ResponseDetails)
        ensures
            final(self)@ == (RegistryModel {
                control: old(self)@.control.insert(processor_id, control_tx),
                peers: old(self)@.peers.insert(processor_id, data_tx),
                ..old(self)@
            }),
            old(self)@.wf() ==> final(self)@.wf(),
            r.processor_id@ == uuid_text(processor_id),
            parsed_uuid(r.processor_id@) == Some(processor_id),
            r.status is Stopped,
    {
        self.parent_processor_tx.insert(processor_id, control_tx);
        self.peers_tx.insert(processor_id, data_tx);
        proof {
            if old(self)@.wf() {
                assert forall|id: u128| #[trigger] self@.peers.contains_key(id) implies self@.control.contains_key(id) by {
                    if id != processor_id {
                        assert(old(self)@.peers.contains_key(id));
                    }
                }
            }
        }
        ResponseDetails {
            processor_id: uuid_to_text(processor_id),
            status: ProcessorStatus::Stopped,
        }
    }

    /// Takes a terminated processor out of both maps.
    pub fn unregister(&mut self, processor_id: u128)
        ensures
            final(self)@ == (RegistryModel {
                control: old(self)@.control.remove(processor_id),
                peers: old(self)@.peers.remove(processor_id),
                ..old(self)@
            }),
            old(self)@.wf() ==> final(self)@.wf(),
    {
        self.parent_processor_tx.remove(&processor_id);
        self.peers_tx.remove(&processor_id);
        proof {
            if old(self)@.wf() {
                assert forall|id: u128| #[trigger] self@.peers.contains_key(id) implies self@.control.contains_key(id) by {
                    assert(old(self)@.peers.contains_key(id));
                }
            }
        }
    }

    /// Finds the processor that a request names: its id and the handle on
    /// its command channel.
    pub fn control_of(&self, processor_id: &str) -> (r: Result<(u128, &C), ApiError>)
        ensures
            match r {
                Ok((id, control_tx)) => {
                    &&& self@.control_of(processor_id@) == Ok::<u128, ApiError>(id)
                    &&& *control_tx == self@.control[id]
                },
                Err(error) => self@.control_of(processor_id@) == Err::<u128, ApiError>(error),
            },
    {
        match parse_uuid(processor_id) {
            None => Err(ApiError::InvalidId),
            Some(id) => match self.parent_processor_tx.get(&id) {
                Some(control_tx) => Ok((id, control_tx)),
                None => Err(ApiError::UnknownProcessorId),
            },
        }
    }

    /// Finds the processor that a start, stop or status request names.
    pub fn requested_control(&self, payload: &RequestDetails) -> (r: Result<(u128, &C), ApiError>)
        ensures
            match r {
                Ok((id, control_tx)) => {
                    &&& self@.requested(payload.processor_id) == Ok::<u128, ApiError>(id)
                    &&& *control_tx == self@.control[id]
                },
                Err(error) => self@.requested(payload.processor_id) == Err::<u128, ApiError>(
                    error,
                ),
            },
    {
        match &payload.processor_id {
            None => Err(ApiError::InvalidId),
            Some(text) => self.control_of(text.as_str()),
        }
    }

    /// Resolves a connect request: the source's command channel and the
    /// destination's data channel.
    pub fn connection_of<'a>(&'a self, request: &ProcessorConnectionRequest) -> (r: Result<
        Connection<'a, C, D>,
        ApiError,
    >)
        ensures
            match r {
                Ok(connection) => {
                    &&& self@.connection_of(
                        request.source_processor_id@,
                        request.destination_processor_id@,
                    ) == Ok::<(u128, u128), ApiError>(
                        (connection.source_processor_id, connection.destination_processor_id),
                    )
                    &&& *connection.source_tx == self@.control[connection.source_processor_id]
                    &&& *connection.destination_tx
                        == self@.peers[connection.destination_processor_id]
                },
                Err(error) => self@.connection_of(
                    request.source_processor_id@,
                    request.destination_processor_id@,
                ) == Err::<(u128, u128), ApiError>(error),
            },
    {
        let source = parse_uuid(request.source_processor_id.as_str());
        let destination = parse_uuid(request.destination_processor_id.as_str());
        match (source, destination) {
            (Some(source_id), Some(destination_id)) => {
                match self.peers_tx.get(&destination_id) {
                    Some(data_tx) => match self.parent_processor_tx.get(&source_id) {
                        Some(source_tx) => Ok(
                            Connection {
                                source_processor_id: source_id,
                                source_tx,
                                destination_processor_id: destination_id,
                                destination_tx: data_tx,
                            },
                        ),
                        None => Err(ApiError::UnknownProcessorId),
                    },
                    None => {
                        if self.parent_processor_tx.contains_key(&destination_id) {
                            Err(ApiError::WrongKind)
                        } else {
                            Err(ApiError::UnknownProcessorId)
                        }
                    },
                }
            },
            _ => Err(ApiError::InvalidId),
        }
    }

    /// Resolves a disconnect request: the source's command channel.
    pub fn disconnection_of<'a>(&'a self, request: &ProcessorConnectionRequest) -> (r: Result<
        Disconnection<'a, C>,
        ApiError,
    >)
        ensures
            match r {
                Ok(connection) => {
                    &&& self@.disconnection_of(
                        request.source_processor_id@,
                        request.destination_processor_id@,
                    ) == Ok::<(u128, u128), ApiError>(
                        (connection.source_processor_id, connection.destination_processor_id),
                    )
                    &&& *connection.source_tx == self@.control[connection.source_processor_id]
                },
                Err(error) => self@.disconnection_of(
                    request.source_processor_id@,
                    request.destination_processor_id@,
                ) == Err::<(u128, u128), ApiError>(error),
            },
    {
        let source = parse_uuid(request.source_processor_id.as_str());
        let destination = parse_uuid(request.destination_processor_id.as_str());
        match (source, destination) {
            (Some(source_id), Some(destination_id)) => {
                match self.parent_processor_tx.get(&source_id) {
                    Some(source_tx) => Ok(
                        Disconnection {
                            source_processor_id: source_id,
                            source_tx,
                            destination_processor_id: destination_id,
                        },
                    ),
                    None => Err(ApiError::UnknownProcessorId),
                }
            },
            _ => Err(ApiError::InvalidId),
        }
    }

    /// The control map, for the cluster report to walk.
    pub fn controls(&self) -> (r: &HashMap<u128, C>)
        ensures
            r@ == self@.control,
    {
        &self.parent_processor_tx
    }
}

/// One change of the registry.
pub enum RegistryStep<C, D> {
    /// A source was created.
    RegisterSource { processor_id: u128, control_tx: C },
    /// A transform was created.
    RegisterTransform { processor_id: u128, control_tx: C, data_tx: D },
    /// A processor terminated.
    Unregister { processor_id: u128 },
}

impl<C, D> RegistryModel<C, D> {
    /// The registry after one change.
    pub open spec fn after_step(self, step: RegistryStep<C, D>) -> Self {
        match step {
            RegistryStep::RegisterSource { processor_id, control_tx } => RegistryModel {
                control: self.control.insert(processor_id, control_tx),
                ..self
            },
            RegistryStep::RegisterTransform { processor_id, control_tx, data_tx } => RegistryModel {
                control: self.control.insert(processor_id, control_tx),
                peers: self.peers.insert(processor_id, data_tx),
                ..self
            },
            RegistryStep::Unregister { processor_id } => RegistryModel {
                control: self.control.remove(processor_id),
                peers: self.peers.remove(processor_id),
                ..self
            },
        }
    }

    /// The registry after a sequence of changes, taken in order.
    pub open spec fn after_steps(self, steps: Seq<RegistryStep<C, D>>) -> Self
        decreases steps.len(),
    {
        if steps.len() == 0 {
            self
        } else {
            self.after_steps(steps.drop_last()).after_step(steps.last())
        }
    }
}

/// Whether `step` creates the processor `id`.
pub open spec fn registers<C, D>(step: RegistryStep<C, D>, id: u128) -> bool {
    match step {
        RegistryStep::RegisterSource { processor_id, .. } => processor_id == id,
        RegistryStep::RegisterTransform { processor_id, .. } => processor_id == id,
        RegistryStep::Unregister { .. } => false,
    }
}

/// Whatever changes it goes through, in a registry every processor with a
/// data inbox is reachable for commands.
pub proof fn lemma_registry_stays_wf<C, D>(
    registry: RegistryModel<C, D>,
    steps: Seq<RegistryStep<C, D>>,
)
    requires
        registry.wf(),
    ensures
        registry.after_steps(steps).wf(),
    decreases steps.len(),
{
    if steps.len() > 0 {
        lemma_registry_stays_wf(registry, steps.drop_last());
        let before = registry.after_steps(steps.drop_last());
        let after = before.after_step(steps.last());
        assert forall|id: u128| #[trigger] after.peers.contains_key(id) implies after.control.contains_key(
            id,
        ) by {
            if !registers(steps.last(), id) {
                assert(before.peers.contains_key(id));
            }
        }
    }
}

/// A processor that was created is found under the id text of its create
/// response for as long as it is not terminated, whatever else is created
/// or terminated meanwhile.
pub proof fn lemma_created_stays_known<C, D>(
    registry: RegistryModel<C, D>,
    creation: RegistryStep<C, D>,
    processor_id: u128,
    response: ResponseDetails,
    steps: Seq<RegistryStep<C, D>>,
)
    requires
        registers(creation, processor_id),
        parsed_uuid(response.processor_id@) == Some(processor_id),
        forall|i: int|
            0 <= i < steps.len() ==> !(#[trigger] steps[i] matches RegistryStep::Unregister {
                processor_id: terminated,
            } && terminated == processor_id),
    ensures
        registry.after_step(creation).after_steps(steps).control_of(response.processor_id@) == Ok::<
            u128,
            ApiError,
        >(processor_id),
    decreases steps.len(),
{
    if steps.len() > 0 {
        let head = steps.drop_last();
        assert forall|i: int| 0 <= i < head.len() implies !(#[trigger] head[i] matches RegistryStep::Unregister {
            processor_id: terminated,
        } && terminated == processor_id) by {
            assert(head[i] == steps[i]);
        }
        lemma_created_stays_known(registry, creation, processor_id, response, head);
        assert(!(steps[steps.len() - 1] matches RegistryStep::Unregister { processor_id: terminated }
            && terminated == processor_id));
    }
}

/// A connect request whose destination is not registered is refused as
/// unknown, and one whose destination is a source is refused as the wrong
/// kind; both surface as 404.
pub proof fn lemma_connect_needs_data_inbox<C, D>(
    registry: RegistryModel<C, D>,
    source: Seq<char>,
    destination: Seq<char>,
)
    requires
        parsed_uuid(source) is Some,
        parsed_uuid(destination) matches Some(destination_id) && !registry.peers.contains_key(
            destination_id,
        ),
    ensures
        registry.connection_of(source, destination) matches Err(error) && error.code() == 404,
{
}

} // verus!
