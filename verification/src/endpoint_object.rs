use vstd::prelude::*;
use crate::base::{NetworkStackAdapterRecord, SocketObjectRecord};
use crate::errors::SemanticInvariantError;
use crate::events::{appended_one, has_labeled_event_spec, label_views, lemma_has_labeled_event_extends, log_extends, EventDomain, EventKind};
use crate::graph::{SemanticGraph, Table};
use crate::lookup2::store_is;
use crate::search::{
    any_match, exists_match, find_first, first_failure, first_match, lemma_first_failure_at,
    lemma_first_failure_ok, lemma_first_failure_ok_all, lemma_first_match_facts, max_of, max_u64, opt_index, str_eq,
};
use crate::types::{
    EndpointObjectId, EndpointObjectState, EventId, Generation, Ipv4Octets, NetworkStackAdapterId,
    NetworkStackAdapterState, SocketObjectId, SocketObjectState, StoreId, StoreState,
};

verus! {

/// The port of an endpoint that is not bound yet.
pub const ENDPOINT_OBJECT_UNSPECIFIED_PORT: u16 = 0;

/// An endpoint allocated for a socket; it stays unbound until the socket binds.
pub struct EndpointObjectRecord {
    pub id: EndpointObjectId,
    pub socket: SocketObjectId,
    pub socket_generation: Generation,
    pub adapter: NetworkStackAdapterId,
    pub adapter_generation: Generation,
    pub owner_store: StoreId,
    pub owner_store_generation: Generation,
    pub family: String,
    pub transport: String,
    pub local_addr: [u8; 4],
    pub local_port: u16,
    pub remote_addr: [u8; 4],
    pub remote_port: u16,
    pub generation: Generation,
    pub state: EndpointObjectState,
    pub created_at_event: EventId,
    pub note: String,
}

/// `addr` is the unspecified IPv4 address 0.0.0.0.
pub open spec fn unspecified_ipv4(addr: [u8; 4]) -> bool {
    addr@[0] == 0 && addr@[1] == 0 && addr@[2] == 0 && addr@[3] == 0
}

pub fn is_unspecified_ipv4(addr: [u8; 4]) -> (b: bool)
    ensures
        b == unspecified_ipv4(addr),
{
    addr[0] == 0 && addr[1] == 0 && addr[2] == 0 && addr[3] == 0
}

/// A store in one of these states cannot own a new endpoint.
pub open spec fn store_not_live(state: StoreState) -> bool {
    state == StoreState::Dead || state == StoreState::Faulted || state == StoreState::Cleaning
}

pub fn is_store_not_live(state: StoreState) -> (b: bool)
    ensures
        b == store_not_live(state),
{
    match state {
        StoreState::Dead | StoreState::Faulted | StoreState::Cleaning => true,
        _ => false,
    }
}

pub open spec fn endpoint_id_is(id: EndpointObjectId) -> spec_fn(EndpointObjectRecord) -> bool {
    |r: EndpointObjectRecord| r.id == id
}

pub open spec fn socket_is(id: SocketObjectId, generation: Generation) -> spec_fn(SocketObjectRecord) -> bool {
    |r: SocketObjectRecord| r.id == id && r.generation == generation
}

pub open spec fn created_socket_is(id: SocketObjectId, generation: Generation) -> spec_fn(SocketObjectRecord) -> bool {
    |r: SocketObjectRecord| r.id == id && r.generation == generation && r.state == SocketObjectState::Created
}

pub open spec fn adapter_is(id: NetworkStackAdapterId, generation: Generation) -> spec_fn(NetworkStackAdapterRecord) -> bool {
    |r: NetworkStackAdapterRecord| r.id == id && r.generation == generation
}

pub open spec fn bound_adapter_is(id: NetworkStackAdapterId, generation: Generation) -> spec_fn(NetworkStackAdapterRecord) -> bool {
    |r: NetworkStackAdapterRecord| r.id == id && r.generation == generation && r.state == NetworkStackAdapterState::Bound
}

/// An allocated endpoint already stands for this socket generation.
pub open spec fn allocated_endpoint_for(socket: SocketObjectId, generation: Generation) -> spec_fn(EndpointObjectRecord) -> bool {
    |r: EndpointObjectRecord| r.socket == socket && r.socket_generation == generation && r.state == EndpointObjectState::Allocated
}

/// Another allocated endpoint (id other than `id`) stands for the same socket generation.
pub open spec fn rival_endpoint_for(id: EndpointObjectId, socket: SocketObjectId, generation: Generation) -> spec_fn(EndpointObjectRecord) -> bool {
    |r: EndpointObjectRecord| r.id != id && r.socket == socket && r.socket_generation == generation
        && r.state == EndpointObjectState::Allocated
}

/// Two entries of `s` carry the id `id`.
pub open spec fn endpoint_id_repeated(s: Seq<EndpointObjectRecord>, id: EndpointObjectId) -> bool {
    exists|j: int, k: int| 0 <= j < k < s.len() && (#[trigger] s[j]).id == id && (#[trigger] s[k]).id == id
}

/// The numeric part of the event that records `r`.
pub open spec fn endpoint_created_event(r: EndpointObjectRecord) -> EventKind {
    EventKind::EndpointObjectCreated {
        endpoint: r.id,
        socket: r.socket,
        socket_generation: r.socket_generation,
        adapter: r.adapter,
        adapter_generation: r.adapter_generation,
        owner_store: r.owner_store,
        owner_store_generation: r.owner_store_generation,
        local_addr: Ipv4Octets::spec_from_array(r.local_addr),
        local_port: r.local_port,
        remote_addr: Ipv4Octets::spec_from_array(r.remote_addr),
        remote_port: r.remote_port,
        generation: r.generation,
    }
}

/// The text part of the event that records `r`: its family and transport.
pub open spec fn endpoint_labels(r: EndpointObjectRecord) -> Seq<Seq<char>> {
    seq![r.family@, r.transport@]
}

fn endpoint_label_vec(r: &EndpointObjectRecord) -> (labels: Vec<String>)
    ensures
        label_views(labels@) == endpoint_labels(*r),
{
    let mut labels: Vec<String> = Vec::new();
    labels.push(r.family.clone());
    labels.push(r.transport.clone());
    proof {
        assert(label_views(labels@) =~= endpoint_labels(*r));
    }
    labels
}

/// Whether two entries of `s` carry the id `id`.
fn repeated_endpoint_id(s: &Vec<EndpointObjectRecord>, id: EndpointObjectId) -> (b: bool)
    ensures
        b == endpoint_id_repeated(s@, id),
{
    let mut first: Option<usize> = None;
    let mut i: usize = 0;
    while i < s.len()
        invariant
            i <= s@.len(),
            first matches Some(f) ==> f < i && s@[f as int].id == id,
            forall|j: int| 0 <= j < i && s@[j].id == id ==> first == Some(j as usize),
        decreases s@.len() - i,
    {
        if s[i].id == id {
            if let Some(f) = first {
                proof { assert(s@[f as int].id == id && s@[i as int].id == id); }
                return true;
            }
            first = Some(i);
        }
        i += 1;
    }
    false
}

impl SemanticGraph {
    /// Why allocating this endpoint would be refused, if it would; otherwise the position
    /// of the socket it serves.
    pub open spec fn endpoint_object_verdict(
        &self,
        endpoint: EndpointObjectId,
        socket: SocketObjectId,
        socket_generation: Generation,
        local_addr: [u8; 4],
        local_port: u16,
        remote_addr: [u8; 4],
        remote_port: u16,
    ) -> Result<int, &'static str> {
        if endpoint == 0 {
            Err("endpoint object id=0 is invalid")
        } else if any_match(self.endpoint_objects@, endpoint_id_is(endpoint)) {
            Err("endpoint object already exists")
        } else {
            match first_match(self.socket_objects@, created_socket_is(socket, socket_generation)) {
                None => Err("endpoint object socket generation is missing or inactive"),
                Some(k) => {
                    let sock = self.socket_objects@[k];
                    if !any_match(self.network_stack_adapters@, bound_adapter_is(sock.adapter, sock.adapter_generation)) {
                        Err("endpoint object adapter generation is missing or inactive")
                    } else {
                        match first_match(self.stores@, store_is(sock.owner_store, sock.owner_store_generation)) {
                            None => Err("endpoint object owner store generation is missing"),
                            Some(st) => if store_not_live(self.stores@[st].state) {
                                Err("endpoint object owner store is not live")
                            } else if !unspecified_ipv4(local_addr) || !unspecified_ipv4(remote_addr)
                                || local_port != ENDPOINT_OBJECT_UNSPECIFIED_PORT
                                || remote_port != ENDPOINT_OBJECT_UNSPECIFIED_PORT {
                                Err("endpoint object must remain unbound before N13")
                            } else if any_match(self.endpoint_objects@, allocated_endpoint_for(sock.id, sock.generation)) {
                                Err("endpoint object socket generation already has endpoint")
                            } else if self.graph_audit() is Err {
                                Err("endpoint object requires invariant-clean graph")
                            } else {
                                Ok(k)
                            },
                        }
                    }
                },
            }
        }
    }

    /// What an audit finds wrong with endpoint `r`, if anything.
    pub open spec fn endpoint_object_fault(&self, r: EndpointObjectRecord) -> Option<SemanticInvariantError> {
        match first_match(self.socket_objects@, socket_is(r.socket, r.socket_generation)) {
            None => Some(SemanticInvariantError::EndpointObjectMissingSocket { endpoint: r.id, socket: r.socket }),
            Some(k) => match first_match(self.network_stack_adapters@, adapter_is(r.adapter, r.adapter_generation)) {
                None => Some(SemanticInvariantError::EndpointObjectMissingAdapter { endpoint: r.id, adapter: r.adapter }),
                Some(a) => match first_match(self.stores@, store_is(r.owner_store, r.owner_store_generation)) {
                    None => Some(SemanticInvariantError::EndpointObjectMissingOwnerStore { endpoint: r.id, store: r.owner_store }),
                    Some(st) => {
                        let sock = self.socket_objects@[k];
                        if r.id == 0 || r.generation == 0 || r.socket_generation == 0 || r.adapter_generation == 0
                            || r.owner_store_generation == 0 || sock.state != SocketObjectState::Created
                            || self.network_stack_adapters@[a].state != NetworkStackAdapterState::Bound
                            || store_not_live(self.stores@[st].state)
                            || r.adapter != sock.adapter || r.adapter_generation != sock.adapter_generation
                            || r.owner_store != sock.owner_store || r.owner_store_generation != sock.owner_store_generation
                            || r.family@ != sock.family@ || r.transport@ != sock.transport@
                            || !unspecified_ipv4(r.local_addr) || !unspecified_ipv4(r.remote_addr)
                            || r.local_port != ENDPOINT_OBJECT_UNSPECIFIED_PORT
                            || r.remote_port != ENDPOINT_OBJECT_UNSPECIFIED_PORT
                            || r.state != EndpointObjectState::Allocated {
                            Some(SemanticInvariantError::EndpointObjectInvalid { endpoint: r.id })
                        } else if endpoint_id_repeated(self.endpoint_objects@, r.id) {
                            Some(SemanticInvariantError::EndpointObjectDuplicate { endpoint: r.id })
                        } else {
                            match first_match(self.endpoint_objects@, rival_endpoint_for(r.id, r.socket, r.socket_generation)) {
                                Some(d) => Some(SemanticInvariantError::EndpointObjectDuplicateSocket {
                                    endpoint: self.endpoint_objects@[d].id,
                                    socket: r.socket,
                                }),
                                None => if !has_labeled_event_spec(self.event_log.events@, r.created_at_event,
                                    endpoint_created_event(r), endpoint_labels(r)) {
                                    Some(SemanticInvariantError::EndpointObjectMissingEvent { endpoint: r.id })
                                } else {
                                    None
                                },
                            }
                        }
                    },
                },
            },
        }
    }

    /// Audit verdict of the endpoint table.
    pub open spec fn endpoint_object_audit(&self) -> Result<(), SemanticInvariantError> {
        first_failure(Seq::new(self.endpoint_objects@.len(), |i: int| self.endpoint_object_fault(self.endpoint_objects@[i])))
    }

    fn find_socket(&self, id: SocketObjectId, generation: Generation, created: bool) -> (r: Option<usize>)
        ensures
            created ==> opt_index(r) == first_match(self.socket_objects@, created_socket_is(id, generation)),
            !created ==> opt_index(r) == first_match(self.socket_objects@, socket_is(id, generation)),
    {
        if created {
            find_first(
                &self.socket_objects,
                |x: &SocketObjectRecord| -> (b: bool)
                    ensures b == created_socket_is(id, generation)(*x)
                { x.id == id && x.generation == generation && x.state == SocketObjectState::Created },
                Ghost(created_socket_is(id, generation)),
            )
        } else {
            find_first(
                &self.socket_objects,
                |x: &SocketObjectRecord| -> (b: bool)
                    ensures b == socket_is(id, generation)(*x)
                { x.id == id && x.generation == generation },
                Ghost(socket_is(id, generation)),
            )
        }
    }

    pub fn validate_endpoint_object(
        &self,
        endpoint: EndpointObjectId,
        socket: SocketObjectId,
        socket_generation: Generation,
        local_addr: [u8; 4],
        local_port: u16,
        remote_addr: [u8; 4],
        remote_port: u16,
    ) -> (r: Result<usize, &'static str>)
        ensures
            match r {
                Ok(k) => self.endpoint_object_verdict(endpoint, socket, socket_generation, local_addr, local_port,
                    remote_addr, remote_port) == Ok::<int, &'static str>(k as int),
                Err(e) => self.endpoint_object_verdict(endpoint, socket, socket_generation, local_addr, local_port,
                    remote_addr, remote_port) == Err::<int, &'static str>(e),
            },
            r matches Ok(k) ==> k < self.socket_objects@.len(),
    {
        if endpoint == 0 {
            return Err("endpoint object id=0 is invalid");
        }
        if exists_match(
            &self.endpoint_objects,
            |r: &EndpointObjectRecord| -> (b: bool)
                ensures b == endpoint_id_is(endpoint)(*r)
            { r.id == endpoint },
            Ghost(endpoint_id_is(endpoint)),
        ) {
            return Err("endpoint object already exists");
        }
        let Some(k) = self.find_socket(socket, socket_generation, true) else {
            return Err("endpoint object socket generation is missing or inactive");
        };
        let sock = &self.socket_objects[k];
        let (adapter, adapter_generation) = (sock.adapter, sock.adapter_generation);
        if !exists_match(
            &self.network_stack_adapters,
            |x: &NetworkStackAdapterRecord| -> (b: bool)
                ensures b == bound_adapter_is(adapter, adapter_generation)(*x)
            { x.id == adapter && x.generation == adapter_generation && x.state == NetworkStackAdapterState::Bound },
            Ghost(bound_adapter_is(adapter, adapter_generation)),
        ) {
            return Err("endpoint object adapter generation is missing or inactive");
        }
        let Some(st) = self.find_store(sock.owner_store, sock.owner_store_generation) else {
            return Err("endpoint object owner store generation is missing");
        };
        if is_store_not_live(self.stores[st].state) {
            return Err("endpoint object owner store is not live");
        }
        if !is_unspecified_ipv4(local_addr) || !is_unspecified_ipv4(remote_addr)
            || local_port != ENDPOINT_OBJECT_UNSPECIFIED_PORT || remote_port != ENDPOINT_OBJECT_UNSPECIFIED_PORT {
            return Err("endpoint object must remain unbound before N13");
        }
        let (sid, sgen) = (sock.id, sock.generation);
        if exists_match(
            &self.endpoint_objects,
            |r: &EndpointObjectRecord| -> (b: bool)
                ensures b == allocated_endpoint_for(sid, sgen)(*r)
            { r.socket == sid && r.socket_generation == sgen && r.state == EndpointObjectState::Allocated },
            Ghost(allocated_endpoint_for(sid, sgen)),
        ) {
            return Err("endpoint object socket generation already has endpoint");
        }
        if self.check_invariants().is_err() {
            return Err("endpoint object requires invariant-clean graph");
        }
        Ok(k)
    }
    /// Allocates an unbound endpoint for a socket when the graph accepts it; returns whether it did.
    pub fn record_endpoint_object_with_id(
        &mut self,
        endpoint: EndpointObjectId,
        socket: SocketObjectId,
        socket_generation: Generation,
        local_addr: [u8; 4],
        local_port: u16,
        remote_addr: [u8; 4],
        remote_port: u16,
        note: &str,
    ) -> (ok: bool)
        requires
            old(self).event_log.next_event_id < u64::MAX,
            endpoint < u64::MAX,
        ensures
            ok == (old(self).endpoint_object_verdict(endpoint, socket, socket_generation, local_addr, local_port,
                remote_addr, remote_port) is Ok),
            !ok ==> *final(self) == *old(self),
            ok ==> recorded_endpoint_object(*old(self), *final(self), endpoint, socket, socket_generation,
                local_addr, local_port, remote_addr, remote_port, note@),
    {
        if self.validate_endpoint_object(endpoint, socket, socket_generation, local_addr, local_port, remote_addr,
            remote_port).is_err() {
            return false;
        }
        proof {
            lemma_first_match_facts(self.socket_objects@, created_socket_is(socket, socket_generation));
            let k = first_match(self.socket_objects@, created_socket_is(socket, socket_generation))->0;
            assert(socket_is(socket, socket_generation)(self.socket_objects@[k]));
            lemma_first_match_facts(self.socket_objects@, socket_is(socket, socket_generation));
        }
        let Some(k) = self.find_socket(socket, socket_generation, false) else {
            return false;
        };
        let sock = &self.socket_objects[k];
        let (adapter, adapter_generation, owner_store, owner_store_generation) =
            (sock.adapter, sock.adapter_generation, sock.owner_store, sock.owner_store_generation);
        let family = sock.family.clone();
        let transport = sock.transport.clone();
        let generation: u64 = 1;
        self.next_endpoint_object_id = max_of(self.next_endpoint_object_id, endpoint + 1);
        let record = EndpointObjectRecord {
            id: endpoint,
            socket,
            socket_generation,
            adapter,
            adapter_generation,
            owner_store,
            owner_store_generation,
            family,
            transport,
            local_addr,
            local_port,
            remote_addr,
            remote_port,
            generation,
            state: EndpointObjectState::Allocated,
            created_at_event: self.event_log.next_event_id,
            note: note.to_owned(),
        };
        let labels = endpoint_label_vec(&record);
        self.event_log.push_labeled(
            EventDomain::Network,
            EventKind::EndpointObjectCreated {
                endpoint,
                socket,
                socket_generation,
                adapter,
                adapter_generation,
                owner_store,
                owner_store_generation,
                local_addr: Ipv4Octets::from_array(local_addr),
                local_port,
                remote_addr: Ipv4Octets::from_array(remote_addr),
                remote_port,
                generation,
            },
            labels,
        );
        self.endpoint_objects.push(record);
        proof {
            assert(self.endpoint_objects@.subrange(0, old(self).endpoint_objects@.len() as int)
                =~= old(self).endpoint_objects@);
        }
        true
    }

    pub fn endpoint_objects(&self) -> (r: &[EndpointObjectRecord])
        ensures
            r@ == self.endpoint_objects@,
    {
        self.endpoint_objects.as_slice()
    }

    pub fn endpoint_object_count(&self) -> (r: usize)
        ensures
            r == self.endpoint_objects@.len(),
    {
        self.endpoint_objects.len()
    }

    fn endpoint_object_fault_of(&self, r: &EndpointObjectRecord) -> (f: Option<SemanticInvariantError>)
        ensures
            f == self.endpoint_object_fault(*r),
    {
        let Some(k) = self.find_socket(r.socket, r.socket_generation, false) else {
            return Some(SemanticInvariantError::EndpointObjectMissingSocket { endpoint: r.id, socket: r.socket });
        };
        let (adapter, adapter_generation) = (r.adapter, r.adapter_generation);
        let Some(a) = find_first(
            &self.network_stack_adapters,
            |x: &NetworkStackAdapterRecord| -> (b: bool)
                ensures b == adapter_is(adapter, adapter_generation)(*x)
            { x.id == adapter && x.generation == adapter_generation },
            Ghost(adapter_is(adapter, adapter_generation)),
        ) else {
            return Some(SemanticInvariantError::EndpointObjectMissingAdapter { endpoint: r.id, adapter: r.adapter });
        };
        let Some(st) = self.find_store(r.owner_store, r.owner_store_generation) else {
            return Some(SemanticInvariantError::EndpointObjectMissingOwnerStore { endpoint: r.id, store: r.owner_store });
        };
        let sock = &self.socket_objects[k];
        if r.id == 0 || r.generation == 0 || r.socket_generation == 0 || r.adapter_generation == 0
            || r.owner_store_generation == 0 || sock.state != SocketObjectState::Created
            || self.network_stack_adapters[a].state != NetworkStackAdapterState::Bound
            || is_store_not_live(self.stores[st].state)
            || r.adapter != sock.adapter || r.adapter_generation != sock.adapter_generation
            || r.owner_store != sock.owner_store || r.owner_store_generation != sock.owner_store_generation
            || !str_eq(r.family.as_str(), sock.family.as_str()) || !str_eq(r.transport.as_str(), sock.transport.as_str())
            || !is_unspecified_ipv4(r.local_addr) || !is_unspecified_ipv4(r.remote_addr)
            || r.local_port != ENDPOINT_OBJECT_UNSPECIFIED_PORT
            || r.remote_port != ENDPOINT_OBJECT_UNSPECIFIED_PORT
            || r.state != EndpointObjectState::Allocated {
            return Some(SemanticInvariantError::EndpointObjectInvalid { endpoint: r.id });
        }
        if repeated_endpoint_id(&self.endpoint_objects, r.id) {
            return Some(SemanticInvariantError::EndpointObjectDuplicate { endpoint: r.id });
        }
        let (id, sid, sgen) = (r.id, r.socket, r.socket_generation);
        if let Some(d) = find_first(
            &self.endpoint_objects,
            |o: &EndpointObjectRecord| -> (b: bool)
                ensures b == rival_endpoint_for(id, sid, sgen)(*o)
            { o.id != id && o.socket == sid && o.socket_generation == sgen && o.state == EndpointObjectState::Allocated },
            Ghost(rival_endpoint_for(id, sid, sgen)),
        ) {
            return Some(SemanticInvariantError::EndpointObjectDuplicateSocket {
                endpoint: self.endpoint_objects[d].id,
                socket: r.socket,
            });
        }
        let created = EventKind::EndpointObjectCreated {
            endpoint: r.id,
            socket: r.socket,
            socket_generation: r.socket_generation,
            adapter: r.adapter,
            adapter_generation: r.adapter_generation,
            owner_store: r.owner_store,
            owner_store_generation: r.owner_store_generation,
            local_addr: Ipv4Octets::from_array(r.local_addr),
            local_port: r.local_port,
            remote_addr: Ipv4Octets::from_array(r.remote_addr),
            remote_port: r.remote_port,
            generation: r.generation,
        };
        let labels = endpoint_label_vec(r);
        if !self.event_log.has_labeled_event(r.created_at_event, created, &labels) {
            return Some(SemanticInvariantError::EndpointObjectMissingEvent { endpoint: r.id });
        }
        None
    }

    /// Audits every endpoint; the first fault found is returned.
    pub fn check_endpoint_object_invariants(&self) -> (r: Result<(), SemanticInvariantError>)
        ensures
            r == self.endpoint_object_audit(),
    {
        let ghost faults = Seq::new(self.endpoint_objects@.len(), |i: int| self.endpoint_object_fault(self.endpoint_objects@[i]));
        let mut i: usize = 0;
        while i < self.endpoint_objects.len()
            invariant
                i <= self.endpoint_objects@.len(),
                faults == Seq::new(self.endpoint_objects@.len(), |i: int| self.endpoint_object_fault(self.endpoint_objects@[i])),
                forall|j: int| 0 <= j < i ==> (#[trigger] faults[j]) is None,
            decreases self.endpoint_objects@.len() - i,
        {
            if let Some(e) = self.endpoint_object_fault_of(&self.endpoint_objects[i]) {
                proof { lemma_first_failure_at(faults, i as int); }
                return Err(e);
            }
            i += 1;
        }
        proof { lemma_first_failure_ok(faults); }
        Ok(())
    }
}

/// `new` is `old` after allocating the endpoint; the socket it copies from is the first one
/// with this id and generation.
pub open spec fn recorded_endpoint_object(
    old: SemanticGraph,
    new: SemanticGraph,
    endpoint: EndpointObjectId,
    socket: SocketObjectId,
    socket_generation: Generation,
    local_addr: [u8; 4],
    local_port: u16,
    remote_addr: [u8; 4],
    remote_port: u16,
    note: Seq<char>,
) -> bool {
    let r = new.endpoint_objects@.last();
    let sock = old.socket_objects@[first_match(old.socket_objects@, socket_is(socket, socket_generation))->0];
    let e = new.event_log.events@.last();
    &&& new.agrees_except(&old, set![Table::EventLog, Table::EndpointObjects])
    &&& appended_one(old.endpoint_objects@, new.endpoint_objects@)
    &&& r.id == endpoint && r.socket == socket && r.socket_generation == socket_generation
    &&& r.adapter == sock.adapter && r.adapter_generation == sock.adapter_generation
    &&& r.owner_store == sock.owner_store && r.owner_store_generation == sock.owner_store_generation
    &&& r.family@ == sock.family@ && r.transport@ == sock.transport@
    &&& r.local_addr == local_addr && r.local_port == local_port
    &&& r.remote_addr == remote_addr && r.remote_port == remote_port
    &&& r.generation == 1 && r.state == EndpointObjectState::Allocated
    &&& r.created_at_event == old.event_log.next_event_id && r.note@ == note
    &&& new.event_log.next_event_id == old.event_log.next_event_id + 1
    &&& new.event_log.events@.len() == old.event_log.events@.len() + 1
    &&& log_extends(old.event_log.events@, new.event_log.events@)
    &&& e.id == old.event_log.next_event_id && e.domain == EventDomain::Network
    &&& e.kind == endpoint_created_event(r) && label_views(e.labels@) == endpoint_labels(r)
    &&& new.next_endpoint_object_id == max_u64(old.next_endpoint_object_id, (endpoint + 1) as u64)
}


/// No two sockets share an id and a generation.
pub open spec fn socket_generations_unique(s: Seq<SocketObjectRecord>) -> bool {
    forall|i: int, j: int| 0 <= i < j < s.len()
        ==> !((#[trigger] s[i]).id == (#[trigger] s[j]).id && s[i].generation == s[j].generation)
}

/// No two network stack adapters share an id and a generation.
pub open spec fn adapter_generations_unique(s: Seq<NetworkStackAdapterRecord>) -> bool {
    forall|i: int, j: int| 0 <= i < j < s.len()
        ==> !((#[trigger] s[i]).id == (#[trigger] s[j]).id && s[i].generation == s[j].generation)
}

/// Allocating an endpoint keeps the endpoint audit clean, where sockets and adapters are
/// unique by id and generation and the socket carries nonzero generations.
pub proof fn lemma_record_endpoint_object_keeps_audit(
    old: SemanticGraph,
    new: SemanticGraph,
    endpoint: EndpointObjectId,
    socket: SocketObjectId,
    socket_generation: Generation,
    local_addr: [u8; 4],
    local_port: u16,
    remote_addr: [u8; 4],
    remote_port: u16,
    note: Seq<char>,
)
    requires
        old.endpoint_object_audit() is Ok,
        socket_generations_unique(old.socket_objects@),
        adapter_generations_unique(old.network_stack_adapters@),
        socket_generation != 0,
        forall|i: int| 0 <= i < old.socket_objects@.len() ==> (#[trigger] old.socket_objects@[i]).adapter_generation != 0
            && old.socket_objects@[i].owner_store_generation != 0,
        old.endpoint_object_verdict(endpoint, socket, socket_generation, local_addr, local_port, remote_addr,
            remote_port) is Ok,
        recorded_endpoint_object(old, new, endpoint, socket, socket_generation, local_addr, local_port,
            remote_addr, remote_port, note),
    ensures
        new.endpoint_object_audit() is Ok,
{
    let n = old.endpoint_objects@.len();
    let olds = Seq::new(n, |i: int| old.endpoint_object_fault(old.endpoint_objects@[i]));
    let news = Seq::new(n + 1, |i: int| new.endpoint_object_fault(new.endpoint_objects@[i]));
    lemma_first_failure_ok_all(olds);
    lemma_first_match_facts(old.socket_objects@, created_socket_is(socket, socket_generation));
    lemma_first_match_facts(old.socket_objects@, socket_is(socket, socket_generation));
    let k = first_match(old.socket_objects@, created_socket_is(socket, socket_generation))->0;
    let ks = first_match(old.socket_objects@, socket_is(socket, socket_generation))->0;
    assert(socket_is(socket, socket_generation)(old.socket_objects@[k]));
    if ks < k {
        assert(!(old.socket_objects@[ks].id == old.socket_objects@[k].id
            && old.socket_objects@[ks].generation == old.socket_objects@[k].generation));
    } else if ks > k {
        assert(!socket_is(socket, socket_generation)(old.socket_objects@[k]));
    }
    let sock = old.socket_objects@[k];
    let last = new.endpoint_objects@[n as int];
    assert forall|i: int| 0 <= i < n implies #[trigger] new.endpoint_objects@[i] == old.endpoint_objects@[i] by {
        assert(new.endpoint_objects@.subrange(0, n as int)[i] == old.endpoint_objects@[i]);
    }
    assert forall|j: int| 0 <= j < news.len() implies (#[trigger] news[j]) is None by {
        if j < n {
            let r = old.endpoint_objects@[j];
            assert(olds[j] is None);
            assert(!endpoint_id_repeated(new.endpoint_objects@, r.id)) by {
                if endpoint_id_repeated(new.endpoint_objects@, r.id) {
                    let (a, b) = choose|a: int, b: int| 0 <= a < b < new.endpoint_objects@.len()
                        && (#[trigger] new.endpoint_objects@[a]).id == r.id && (#[trigger] new.endpoint_objects@[b]).id == r.id;
                    if b < n {
                        assert(old.endpoint_objects@[a].id == r.id && old.endpoint_objects@[b].id == r.id);
                    } else {
                        assert(endpoint_id_is(endpoint)(old.endpoint_objects@[j]));
                    }
                }
            }
            lemma_first_match_facts(old.endpoint_objects@, rival_endpoint_for(r.id, r.socket, r.socket_generation));
            lemma_first_match_facts(new.endpoint_objects@, rival_endpoint_for(r.id, r.socket, r.socket_generation));
            assert forall|m: int| 0 <= m < new.endpoint_objects@.len()
                implies !rival_endpoint_for(r.id, r.socket, r.socket_generation)(#[trigger] new.endpoint_objects@[m]) by {
                if m == n {
                    if rival_endpoint_for(r.id, r.socket, r.socket_generation)(last) {
                        assert(allocated_endpoint_for(sock.id, sock.generation)(r));
                    }
                }
            }
            lemma_has_labeled_event_extends(old.event_log.events@, new.event_log.events@, r.created_at_event,
                endpoint_created_event(r), endpoint_labels(r));
        } else {
            lemma_first_match_facts(old.network_stack_adapters@, adapter_is(sock.adapter, sock.adapter_generation));
            let bi = choose|i: int| 0 <= i < old.network_stack_adapters@.len()
                && #[trigger] bound_adapter_is(sock.adapter, sock.adapter_generation)(old.network_stack_adapters@[i]);
            assert(adapter_is(sock.adapter, sock.adapter_generation)(old.network_stack_adapters@[bi]));
            let ai = first_match(old.network_stack_adapters@, adapter_is(sock.adapter, sock.adapter_generation))->0;
            if ai < bi {
                assert(!(old.network_stack_adapters@[ai].id == old.network_stack_adapters@[bi].id
                    && old.network_stack_adapters@[ai].generation == old.network_stack_adapters@[bi].generation));
            } else if ai > bi {
                assert(!adapter_is(sock.adapter, sock.adapter_generation)(old.network_stack_adapters@[bi]));
            }
            assert(old.socket_objects@[k].adapter_generation != 0);
            assert(!endpoint_id_repeated(new.endpoint_objects@, endpoint)) by {
                if endpoint_id_repeated(new.endpoint_objects@, endpoint) {
                    let (a, b) = choose|a: int, b: int| 0 <= a < b < new.endpoint_objects@.len()
                        && (#[trigger] new.endpoint_objects@[a]).id == endpoint && (#[trigger] new.endpoint_objects@[b]).id == endpoint;
                    assert(endpoint_id_is(endpoint)(old.endpoint_objects@[a]));
                }
            }
            lemma_first_match_facts(new.endpoint_objects@, rival_endpoint_for(endpoint, socket, socket_generation));
            assert forall|m: int| 0 <= m < new.endpoint_objects@.len()
                implies !rival_endpoint_for(endpoint, socket, socket_generation)(#[trigger] new.endpoint_objects@[m]) by {
                if m < n {
                    if rival_endpoint_for(endpoint, socket, socket_generation)(old.endpoint_objects@[m]) {
                        assert(allocated_endpoint_for(sock.id, sock.generation)(old.endpoint_objects@[m]));
                    }
                }
            }
            let e = new.event_log.events@.len() - 1;
            assert(new.event_log.events@[e].id == last.created_at_event);
        }
    }
    lemma_first_failure_ok(news);
}

/// When an endpoint is accepted (`validate_endpoint_object` accepts and
/// `record_endpoint_object_with_id` records it exactly then), its id is new and nonzero, its
/// addresses and ports are all unspecified (zero), and it belongs to a created socket of the
/// named id and generation that has no allocated endpoint yet.
pub proof fn lemma_accepted_endpoint_is_unbound(
    g: SemanticGraph,
    endpoint: EndpointObjectId,
    socket: SocketObjectId,
    socket_generation: Generation,
    local_addr: [u8; 4],
    local_port: u16,
    remote_addr: [u8; 4],
    remote_port: u16,
)
    requires
        g.endpoint_object_verdict(endpoint, socket, socket_generation, local_addr, local_port, remote_addr,
            remote_port) is Ok,
    ensures
        endpoint != 0,
        forall|i: int| 0 <= i < g.endpoint_objects@.len() ==> (#[trigger] g.endpoint_objects@[i]).id != endpoint,
        local_port == 0 && remote_port == 0,
        forall|b: int| 0 <= b < 4 ==> local_addr@[b] == 0 && remote_addr@[b] == 0,
        exists|k: int| 0 <= k < g.socket_objects@.len() && (#[trigger] g.socket_objects@[k]).id == socket
            && g.socket_objects@[k].generation == socket_generation
            && g.socket_objects@[k].state == SocketObjectState::Created,
        forall|i: int| 0 <= i < g.endpoint_objects@.len() ==> !({
            let e = #[trigger] g.endpoint_objects@[i];
            e.socket == socket && e.socket_generation == socket_generation && e.state == EndpointObjectState::Allocated
        }),
{
    assert forall|i: int| 0 <= i < g.endpoint_objects@.len() implies (#[trigger] g.endpoint_objects@[i]).id != endpoint by {
        if g.endpoint_objects@[i].id == endpoint {
            assert(endpoint_id_is(endpoint)(g.endpoint_objects@[i]));
        }
    }
    crate::search::lemma_first_match_facts(g.socket_objects@, created_socket_is(socket, socket_generation));
    let k = first_match(g.socket_objects@, created_socket_is(socket, socket_generation))->0;
    let sock = g.socket_objects@[k];
    assert(created_socket_is(socket, socket_generation)(sock));
    assert forall|i: int| 0 <= i < g.endpoint_objects@.len() implies !({
        let e = #[trigger] g.endpoint_objects@[i];
        e.socket == socket && e.socket_generation == socket_generation && e.state == EndpointObjectState::Allocated
    }) by {
        let e = g.endpoint_objects@[i];
        if e.socket == socket && e.socket_generation == socket_generation && e.state == EndpointObjectState::Allocated {
            assert(allocated_endpoint_for(sock.id, sock.generation)(e));
        }
    }
}

} // verus!
