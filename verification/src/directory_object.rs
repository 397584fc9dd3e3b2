use vstd::prelude::*;
use crate::errors::SemanticInvariantError;
use crate::base::FileObjectRecord;
use crate::events::{appended_one, has_labeled_event_spec, label_views, lemma_has_labeled_event_extends, log_extends, EventDomain, EventKind};
use crate::graph::{SemanticGraph, Table};
use crate::lookup2::{file_object_is, live_file_object_is};
use crate::search::{
    any_match, exists_match, find_first, first_failure, first_match, lemma_first_failure_at,
    lemma_first_failure_ok, lemma_first_failure_ok_all, lemma_first_match_facts, max_of, max_u64, saturating_succ, str_eq,
    succ_saturating,
};
use crate::types::{DirectoryEntryKind, DirectoryObjectId, DirectoryObjectState, EventId, FileObjectId, FileObjectState, Generation};

verus! {

/// A directory entry materialized for a file.
pub struct DirectoryObjectRecord {
    pub id: DirectoryObjectId,
    pub file_object: FileObjectId,
    pub file_object_generation: Generation,
    pub namespace: String,
    pub directory_key: String,
    pub directory_path: String,
    pub entry_name: String,
    pub child_file_key: String,
    pub child_path: String,
    pub entry_kind: DirectoryEntryKind,
    pub file_size: u64,
    pub content_digest: u64,
    pub generation: Generation,
    pub state: DirectoryObjectState,
    pub recorded_at_event: EventId,
    pub note: String,
}

pub open spec fn directory_object_id_is(id: DirectoryObjectId) -> spec_fn(DirectoryObjectRecord) -> bool {
    |r: DirectoryObjectRecord| r.id == id
}

/// A live entry with this name already stands in this directory of this namespace.
pub open spec fn materialized_entry(namespace: Seq<char>, directory_key: Seq<char>, entry_name: Seq<char>) -> spec_fn(DirectoryObjectRecord) -> bool {
    |r: DirectoryObjectRecord| r.state != DirectoryObjectState::Invalidated && r.namespace@ == namespace
        && r.directory_key@ == directory_key && r.entry_name@ == entry_name
}

/// Another live entry (id other than `id`) has the same namespace, directory and name.
pub open spec fn rival_entry(id: DirectoryObjectId, namespace: Seq<char>, directory_key: Seq<char>, entry_name: Seq<char>) -> spec_fn(DirectoryObjectRecord) -> bool {
    |r: DirectoryObjectRecord| r.id != id && r.state != DirectoryObjectState::Invalidated
        && r.namespace@ == namespace && r.directory_key@ == directory_key && r.entry_name@ == entry_name
}

/// The numeric part of the event that records `r`.
pub open spec fn directory_object_event(r: DirectoryObjectRecord) -> EventKind {
    EventKind::DirectoryObjectRecorded {
        directory_object: r.id,
        file_object: r.file_object,
        file_object_generation: r.file_object_generation,
        entry_kind: r.entry_kind,
        file_size: r.file_size,
        content_digest: r.content_digest,
        state: r.state,
        generation: r.generation,
    }
}

/// The text part of the event that records `r`: namespace, directory key, directory path,
/// entry name, child file key and child path, in that order.
pub open spec fn directory_object_labels(r: DirectoryObjectRecord) -> Seq<Seq<char>> {
    seq![r.namespace@, r.directory_key@, r.directory_path@, r.entry_name@, r.child_file_key@, r.child_path@]
}

fn directory_labels(r: &DirectoryObjectRecord) -> (labels: Vec<String>)
    ensures
        label_views(labels@) == directory_object_labels(*r),
{
    let mut labels: Vec<String> = Vec::new();
    labels.push(r.namespace.clone());
    labels.push(r.directory_key.clone());
    labels.push(r.directory_path.clone());
    labels.push(r.entry_name.clone());
    labels.push(r.child_file_key.clone());
    labels.push(r.child_path.clone());
    proof {
        assert(label_views(labels@) =~= directory_object_labels(*r));
    }
    labels
}

impl SemanticGraph {
    /// Why recording this directory entry would be refused, if it would; otherwise the
    /// position of the file it names.
    pub open spec fn directory_object_verdict(
        &self,
        directory_object: DirectoryObjectId,
        file_object: FileObjectId,
        file_object_generation: Generation,
        namespace: Seq<char>,
        directory_key: Seq<char>,
        directory_path: Seq<char>,
        entry_name: Seq<char>,
        child_file_key: Seq<char>,
        child_path: Seq<char>,
        entry_kind: DirectoryEntryKind,
        file_size: u64,
        content_digest: u64,
        state: DirectoryObjectState,
    ) -> Result<int, &'static str> {
        if directory_object == 0 {
            Err("directory object id=0 is invalid")
        } else if any_match(self.directory_objects@, directory_object_id_is(directory_object)) {
            Err("directory object already exists")
        } else if file_object_generation == 0 || namespace.len() == 0 || directory_key.len() == 0
            || directory_path.len() == 0 || entry_name.len() == 0 || child_file_key.len() == 0
            || child_path.len() == 0 || file_size == 0 || content_digest == 0 {
            Err("directory object identity values must be nonzero")
        } else if state == DirectoryObjectState::Invalidated {
            Err("directory object cannot be recorded as invalidated")
        } else {
            match first_match(self.file_objects@, live_file_object_is(file_object, file_object_generation)) {
                None => Err("directory object file generation is missing"),
                Some(f) => {
                    let source = self.file_objects@[f];
                    if entry_kind != DirectoryEntryKind::File || namespace != source.namespace@
                        || child_file_key != source.file_key@ || child_path != source.path@
                        || file_size != source.file_size || content_digest != source.content_digest {
                        Err("directory object file identity mismatch")
                    } else if any_match(self.directory_objects@, materialized_entry(namespace, directory_key, entry_name)) {
                        Err("directory object entry already materialized")
                    } else if self.graph_audit() is Err {
                        Err("directory object requires invariant-clean graph")
                    } else {
                        Ok(f)
                    }
                },
            }
        }
    }

    /// What an audit finds wrong with directory entry `r`, if anything.
    pub open spec fn directory_object_fault(&self, r: DirectoryObjectRecord) -> Option<SemanticInvariantError> {
        match first_match(self.file_objects@, file_object_is(r.file_object, r.file_object_generation)) {
            None => Some(SemanticInvariantError::DirectoryObjectMissingFileObject {
                directory_object: r.id,
                file_object: r.file_object,
            }),
            Some(f) => {
                let source = self.file_objects@[f];
                if r.id == 0 || r.generation == 0 || r.file_object_generation == 0
                    || r.namespace@.len() == 0 || r.directory_key@.len() == 0 || r.directory_path@.len() == 0
                    || r.entry_name@.len() == 0 || r.child_file_key@.len() == 0 || r.child_path@.len() == 0
                    || r.entry_kind != DirectoryEntryKind::File || r.file_size == 0 || r.content_digest == 0
                    || r.state == DirectoryObjectState::Invalidated
                    || source.state == FileObjectState::Invalidated
                    || r.namespace@ != source.namespace@ || r.child_file_key@ != source.file_key@
                    || r.child_path@ != source.path@ || r.file_size != source.file_size
                    || r.content_digest != source.content_digest {
                    Some(SemanticInvariantError::DirectoryObjectInvalid { directory_object: r.id })
                } else {
                    match first_match(self.directory_objects@, rival_entry(r.id, r.namespace@, r.directory_key@, r.entry_name@)) {
                        Some(d) => Some(SemanticInvariantError::DirectoryObjectDuplicateEntry {
                            directory_object: self.directory_objects@[d].id,
                        }),
                        None => if !has_labeled_event_spec(self.event_log.events@, r.recorded_at_event,
                            directory_object_event(r), directory_object_labels(r)) {
                            Some(SemanticInvariantError::DirectoryObjectMissingEvent { directory_object: r.id })
                        } else {
                            None
                        },
                    }
                }
            },
        }
    }

    /// Audit verdict of the directory entry table.
    pub open spec fn directory_object_audit(&self) -> Result<(), SemanticInvariantError> {
        first_failure(Seq::new(self.directory_objects@.len(), |i: int| self.directory_object_fault(self.directory_objects@[i])))
    }

    pub fn validate_directory_object(
        &self,
        directory_object: DirectoryObjectId,
        file_object: FileObjectId,
        file_object_generation: Generation,
        namespace: &str,
        directory_key: &str,
        directory_path: &str,
        entry_name: &str,
        child_file_key: &str,
        child_path: &str,
        entry_kind: DirectoryEntryKind,
        file_size: u64,
        content_digest: u64,
        state: DirectoryObjectState,
    ) -> (r: Result<usize, &'static str>)
        ensures
            match r {
                Ok(f) => self.directory_object_verdict(directory_object, file_object, file_object_generation,
                    namespace@, directory_key@, directory_path@, entry_name@, child_file_key@, child_path@,
                    entry_kind, file_size, content_digest, state) == Ok::<int, &'static str>(f as int),
                Err(e) => self.directory_object_verdict(directory_object, file_object, file_object_generation,
                    namespace@, directory_key@, directory_path@, entry_name@, child_file_key@, child_path@,
                    entry_kind, file_size, content_digest, state) == Err::<int, &'static str>(e),
            },
            r matches Ok(f) ==> f < self.file_objects@.len(),
    {
        if directory_object == 0 {
            return Err("directory object id=0 is invalid");
        }
        if exists_match(
            &self.directory_objects,
            |r: &DirectoryObjectRecord| -> (b: bool)
                ensures b == directory_object_id_is(directory_object)(*r)
            { r.id == directory_object },
            Ghost(directory_object_id_is(directory_object)),
        ) {
            return Err("directory object already exists");
        }
        if file_object_generation == 0 || namespace.is_empty() || directory_key.is_empty()
            || directory_path.is_empty() || entry_name.is_empty() || child_file_key.is_empty()
            || child_path.is_empty() || file_size == 0 || content_digest == 0 {
            return Err("directory object identity values must be nonzero");
        }
        if state == DirectoryObjectState::Invalidated {
            return Err("directory object cannot be recorded as invalidated");
        }
        let Some(f) = self.find_live_file_object(file_object, file_object_generation) else {
            return Err("directory object file generation is missing");
        };
        let source = &self.file_objects[f];
        if entry_kind != DirectoryEntryKind::File || !str_eq(namespace, source.namespace.as_str())
            || !str_eq(child_file_key, source.file_key.as_str()) || !str_eq(child_path, source.path.as_str())
            || file_size != source.file_size || content_digest != source.content_digest {
            return Err("directory object file identity mismatch");
        }
        if exists_match(
            &self.directory_objects,
            |r: &DirectoryObjectRecord| -> (b: bool)
                ensures b == materialized_entry(namespace@, directory_key@, entry_name@)(*r)
            {
                r.state != DirectoryObjectState::Invalidated && str_eq(r.namespace.as_str(), namespace)
                    && str_eq(r.directory_key.as_str(), directory_key) && str_eq(r.entry_name.as_str(), entry_name)
            },
            Ghost(materialized_entry(namespace@, directory_key@, entry_name@)),
        ) {
            return Err("directory object entry already materialized");
        }
        if self.check_invariants().is_err() {
            return Err("directory object requires invariant-clean graph");
        }
        Ok(f)
    }

    /// Records a directory entry when the graph accepts it; returns whether it did.
    pub fn record_directory_object_with_id(
        &mut self,
        directory_object: DirectoryObjectId,
        file_object: FileObjectId,
        file_object_generation: Generation,
        namespace: &str,
        directory_key: &str,
        directory_path: &str,
        entry_name: &str,
        child_file_key: &str,
        child_path: &str,
        entry_kind: DirectoryEntryKind,
        file_size: u64,
        content_digest: u64,
        state: DirectoryObjectState,
        note: &str,
    ) -> (ok: bool)
        requires
            old(self).event_log.next_event_id < u64::MAX,
        ensures
            ok == (old(self).directory_object_verdict(directory_object, file_object, file_object_generation,
                namespace@, directory_key@, directory_path@, entry_name@, child_file_key@, child_path@,
                entry_kind, file_size, content_digest, state) is Ok),
            !ok ==> *final(self) == *old(self),
            ok ==> recorded_directory_object(*old(self), *final(self), directory_object, file_object,
                file_object_generation, namespace@, directory_key@, directory_path@, entry_name@,
                child_file_key@, child_path@, entry_kind, file_size, content_digest, state, note@),
    {
        if self.validate_directory_object(directory_object, file_object, file_object_generation, namespace,
            directory_key, directory_path, entry_name, child_file_key, child_path, entry_kind, file_size,
            content_digest, state).is_err() {
            return false;
        }
        let generation: u64 = 1;
        self.next_directory_object_id = max_of(self.next_directory_object_id, succ_saturating(directory_object));
        let record = DirectoryObjectRecord {
            id: directory_object,
            file_object,
            file_object_generation,
            namespace: namespace.to_owned(),
            directory_key: directory_key.to_owned(),
            directory_path: directory_path.to_owned(),
            entry_name: entry_name.to_owned(),
            child_file_key: child_file_key.to_owned(),
            child_path: child_path.to_owned(),
            entry_kind,
            file_size,
            content_digest,
            generation,
            state,
            recorded_at_event: self.event_log.next_event_id,
            note: note.to_owned(),
        };
        let labels = directory_labels(&record);
        let recorded_at_event = self.event_log.push_labeled(
            EventDomain::Block,
            EventKind::DirectoryObjectRecorded {
                directory_object,
                file_object,
                file_object_generation,
                entry_kind,
                file_size,
                content_digest,
                state,
                generation,
            },
            labels,
        );
        self.directory_objects.push(record);
        proof {
            assert(self.directory_objects@.subrange(0, old(self).directory_objects@.len() as int)
                =~= old(self).directory_objects@);
        }
        true
    }

    pub fn directory_objects(&self) -> (r: &[DirectoryObjectRecord])
        ensures
            r@ == self.directory_objects@,
    {
        self.directory_objects.as_slice()
    }

    pub fn directory_object_count(&self) -> (r: usize)
        ensures
            r == self.directory_objects@.len(),
    {
        self.directory_objects.len()
    }

    fn directory_object_fault_of(&self, r: &DirectoryObjectRecord) -> (f: Option<SemanticInvariantError>)
        ensures
            f == self.directory_object_fault(*r),
    {
        let Some(fi) = self.find_file_object(r.file_object, r.file_object_generation) else {
            return Some(SemanticInvariantError::DirectoryObjectMissingFileObject {
                directory_object: r.id,
                file_object: r.file_object,
            });
        };
        let source = &self.file_objects[fi];
        if r.id == 0 || r.generation == 0 || r.file_object_generation == 0
            || r.namespace.as_str().is_empty() || r.directory_key.as_str().is_empty()
            || r.directory_path.as_str().is_empty() || r.entry_name.as_str().is_empty()
            || r.child_file_key.as_str().is_empty() || r.child_path.as_str().is_empty()
            || r.entry_kind != DirectoryEntryKind::File || r.file_size == 0 || r.content_digest == 0
            || r.state == DirectoryObjectState::Invalidated
            || source.state == FileObjectState::Invalidated
            || !str_eq(r.namespace.as_str(), source.namespace.as_str())
            || !str_eq(r.child_file_key.as_str(), source.file_key.as_str())
            || !str_eq(r.child_path.as_str(), source.path.as_str())
            || r.file_size != source.file_size || r.content_digest != source.content_digest {
            return Some(SemanticInvariantError::DirectoryObjectInvalid { directory_object: r.id });
        }
        let id = r.id;
        let (namespace, directory_key, entry_name) = (r.namespace.as_str(), r.directory_key.as_str(), r.entry_name.as_str());
        if let Some(d) = find_first(
            &self.directory_objects,
            |o: &DirectoryObjectRecord| -> (m: bool)
                ensures m == rival_entry(id, namespace@, directory_key@, entry_name@)(*o)
            {
                o.id != id && o.state != DirectoryObjectState::Invalidated
                    && str_eq(o.namespace.as_str(), namespace) && str_eq(o.directory_key.as_str(), directory_key)
                    && str_eq(o.entry_name.as_str(), entry_name)
            },
            Ghost(rival_entry(id, namespace@, directory_key@, entry_name@)),
        ) {
            return Some(SemanticInvariantError::DirectoryObjectDuplicateEntry {
                directory_object: self.directory_objects[d].id,
            });
        }
        let recorded = EventKind::DirectoryObjectRecorded {
            directory_object: r.id,
            file_object: r.file_object,
            file_object_generation: r.file_object_generation,
            entry_kind: r.entry_kind,
            file_size: r.file_size,
            content_digest: r.content_digest,
            state: r.state,
            generation: r.generation,
        };
        let labels = directory_labels(r);
        if !self.event_log.has_labeled_event(r.recorded_at_event, recorded, &labels) {
            return Some(SemanticInvariantError::DirectoryObjectMissingEvent { directory_object: r.id });
        }
        None
    }

    /// Audits every directory entry; the first fault found is returned.
    pub fn check_directory_object_invariants(&self) -> (r: Result<(), SemanticInvariantError>)
        ensures
            r == self.directory_object_audit(),
    {
        let ghost faults = Seq::new(self.directory_objects@.len(), |i: int| self.directory_object_fault(self.directory_objects@[i]));
        let mut i: usize = 0;
        while i < self.directory_objects.len()
            invariant
                i <= self.directory_objects@.len(),
                faults == Seq::new(self.directory_objects@.len(), |i: int| self.directory_object_fault(self.directory_objects@[i])),
                forall|j: int| 0 <= j < i ==> (#[trigger] faults[j]) is None,
            decreases self.directory_objects@.len() - i,
        {
            if let Some(e) = self.directory_object_fault_of(&self.directory_objects[i]) {
                proof { lemma_first_failure_at(faults, i as int); }
                return Err(e);
            }
            i += 1;
        }
        proof { lemma_first_failure_ok(faults); }
        Ok(())
    }
}

/// `new` is `old` after recording the directory entry.
pub open spec fn recorded_directory_object(
    old: SemanticGraph,
    new: SemanticGraph,
    directory_object: DirectoryObjectId,
    file_object: FileObjectId,
    file_object_generation: Generation,
    namespace: Seq<char>,
    directory_key: Seq<char>,
    directory_path: Seq<char>,
    entry_name: Seq<char>,
    child_file_key: Seq<char>,
    child_path: Seq<char>,
    entry_kind: DirectoryEntryKind,
    file_size: u64,
    content_digest: u64,
    state: DirectoryObjectState,
    note: Seq<char>,
) -> bool {
    let r = new.directory_objects@.last();
    let e = new.event_log.events@.last();
    &&& new.agrees_except(&old, set![Table::EventLog, Table::DirectoryObjects])
    &&& appended_one(old.directory_objects@, new.directory_objects@)
    &&& r.id == directory_object && r.file_object == file_object
    &&& r.file_object_generation == file_object_generation
    &&& r.namespace@ == namespace && r.directory_key@ == directory_key
    &&& r.directory_path@ == directory_path && r.entry_name@ == entry_name
    &&& r.child_file_key@ == child_file_key && r.child_path@ == child_path
    &&& r.entry_kind == entry_kind && r.file_size == file_size && r.content_digest == content_digest
    &&& r.generation == 1 && r.state == state && r.note@ == note
    &&& r.recorded_at_event == old.event_log.next_event_id
    &&& new.event_log.next_event_id == old.event_log.next_event_id + 1
    &&& new.event_log.events@.len() == old.event_log.events@.len() + 1
    &&& log_extends(old.event_log.events@, new.event_log.events@)
    &&& e.id == old.event_log.next_event_id && e.domain == EventDomain::Block
    &&& e.kind == directory_object_event(r) && label_views(e.labels@) == directory_object_labels(r)
    &&& new.next_directory_object_id == max_u64(old.next_directory_object_id, saturating_succ(directory_object))
}


/// No two file objects share an id and a generation.
pub open spec fn file_generations_unique(s: Seq<FileObjectRecord>) -> bool {
    forall|i: int, j: int| 0 <= i < j < s.len()
        ==> !((#[trigger] s[i]).id == (#[trigger] s[j]).id && s[i].generation == s[j].generation)
}

/// Recording a directory entry keeps the directory audit clean, where file objects are unique
/// by id and generation.
pub proof fn lemma_record_directory_object_keeps_audit(
    old: SemanticGraph,
    new: SemanticGraph,
    directory_object: DirectoryObjectId,
    file_object: FileObjectId,
    file_object_generation: Generation,
    namespace: Seq<char>,
    directory_key: Seq<char>,
    directory_path: Seq<char>,
    entry_name: Seq<char>,
    child_file_key: Seq<char>,
    child_path: Seq<char>,
    entry_kind: DirectoryEntryKind,
    file_size: u64,
    content_digest: u64,
    state: DirectoryObjectState,
    note: Seq<char>,
)
    requires
        old.directory_object_audit() is Ok,
        file_generations_unique(old.file_objects@),
        old.directory_object_verdict(directory_object, file_object, file_object_generation, namespace, directory_key,
            directory_path, entry_name, child_file_key, child_path, entry_kind, file_size, content_digest, state) is Ok,
        recorded_directory_object(old, new, directory_object, file_object, file_object_generation, namespace,
            directory_key, directory_path, entry_name, child_file_key, child_path, entry_kind, file_size,
            content_digest, state, note),
    ensures
        new.directory_object_audit() is Ok,
{
    let n = old.directory_objects@.len();
    let olds = Seq::new(n, |i: int| old.directory_object_fault(old.directory_objects@[i]));
    let news = Seq::new(n + 1, |i: int| new.directory_object_fault(new.directory_objects@[i]));
    lemma_first_failure_ok_all(olds);
    lemma_first_match_facts(old.file_objects@, live_file_object_is(file_object, file_object_generation));
    lemma_first_match_facts(old.file_objects@, file_object_is(file_object, file_object_generation));
    let f = first_match(old.file_objects@, live_file_object_is(file_object, file_object_generation))->0;
    let fa = first_match(old.file_objects@, file_object_is(file_object, file_object_generation))->0;
    assert(file_object_is(file_object, file_object_generation)(old.file_objects@[f]));
    if fa < f {
        assert(!(old.file_objects@[fa].id == old.file_objects@[f].id
            && old.file_objects@[fa].generation == old.file_objects@[f].generation));
    } else if fa > f {
        assert(!file_object_is(file_object, file_object_generation)(old.file_objects@[f]));
    }
    let last = new.directory_objects@[n as int];
    assert forall|i: int| 0 <= i < n implies #[trigger] new.directory_objects@[i] == old.directory_objects@[i] by {
        assert(new.directory_objects@.subrange(0, n as int)[i] == old.directory_objects@[i]);
    }
    assert forall|j: int| 0 <= j < news.len() implies (#[trigger] news[j]) is None by {
        if j < n {
            let r = old.directory_objects@[j];
            assert(olds[j] is None);
            lemma_first_match_facts(new.directory_objects@, rival_entry(r.id, r.namespace@, r.directory_key@, r.entry_name@));
            lemma_first_match_facts(old.directory_objects@, rival_entry(r.id, r.namespace@, r.directory_key@, r.entry_name@));
            assert forall|m: int| 0 <= m < new.directory_objects@.len()
                implies !rival_entry(r.id, r.namespace@, r.directory_key@, r.entry_name@)(#[trigger] new.directory_objects@[m]) by {
                if m == n && rival_entry(r.id, r.namespace@, r.directory_key@, r.entry_name@)(last) {
                    assert(materialized_entry(namespace, directory_key, entry_name)(r));
                }
            }
            lemma_has_labeled_event_extends(old.event_log.events@, new.event_log.events@, r.recorded_at_event,
                directory_object_event(r), directory_object_labels(r));
        } else {
            lemma_first_match_facts(new.directory_objects@, rival_entry(directory_object, namespace, directory_key, entry_name));
            assert forall|m: int| 0 <= m < new.directory_objects@.len()
                implies !rival_entry(directory_object, namespace, directory_key, entry_name)(#[trigger] new.directory_objects@[m]) by {
                if m < n && rival_entry(directory_object, namespace, directory_key, entry_name)(old.directory_objects@[m]) {
                    assert(materialized_entry(namespace, directory_key, entry_name)(old.directory_objects@[m]));
                }
            }
            let e = new.event_log.events@.len() - 1;
            assert(new.event_log.events@[e].id == last.recorded_at_event);
        }
    }
    lemma_first_failure_ok(news);
}

/// When a directory entry is accepted (`validate_directory_object` accepts and the recorder
/// records it exactly then), its id is new and nonzero, it is not recorded as invalidated, it is a
/// file entry whose namespace, child key, child path, size and digest are those of a live file
/// object of the named id and generation, and no live entry of that namespace and directory has
/// the same name.
pub proof fn lemma_accepted_directory_entry_mirrors_file(
    g: SemanticGraph,
    directory_object: DirectoryObjectId,
    file_object: FileObjectId,
    file_object_generation: Generation,
    namespace: Seq<char>,
    directory_key: Seq<char>,
    directory_path: Seq<char>,
    entry_name: Seq<char>,
    child_file_key: Seq<char>,
    child_path: Seq<char>,
    entry_kind: DirectoryEntryKind,
    file_size: u64,
    content_digest: u64,
    state: DirectoryObjectState,
)
    requires
        g.directory_object_verdict(directory_object, file_object, file_object_generation, namespace, directory_key,
            directory_path, entry_name, child_file_key, child_path, entry_kind, file_size, content_digest, state) is Ok,
    ensures
        directory_object != 0,
        state != DirectoryObjectState::Invalidated,
        entry_kind == DirectoryEntryKind::File,
        entry_name.len() > 0 && directory_key.len() > 0,
        forall|i: int| 0 <= i < g.directory_objects@.len() ==> (#[trigger] g.directory_objects@[i]).id != directory_object,
        exists|f: int| 0 <= f < g.file_objects@.len() && {
            let source = #[trigger] g.file_objects@[f];
            &&& source.id == file_object && source.generation == file_object_generation
            &&& source.state != FileObjectState::Invalidated
            &&& source.namespace@ == namespace && source.file_key@ == child_file_key && source.path@ == child_path
            &&& source.file_size == file_size && source.content_digest == content_digest
        },
        forall|i: int| 0 <= i < g.directory_objects@.len() ==> !({
            let e = #[trigger] g.directory_objects@[i];
            e.state != DirectoryObjectState::Invalidated && e.namespace@ == namespace
                && e.directory_key@ == directory_key && e.entry_name@ == entry_name
        }),
{
    assert forall|i: int| 0 <= i < g.directory_objects@.len() implies (#[trigger] g.directory_objects@[i]).id != directory_object by {
        if g.directory_objects@[i].id == directory_object {
            assert(directory_object_id_is(directory_object)(g.directory_objects@[i]));
        }
    }
    crate::search::lemma_first_match_facts(g.file_objects@, live_file_object_is(file_object, file_object_generation));
    let f = first_match(g.file_objects@, live_file_object_is(file_object, file_object_generation))->0;
    assert(live_file_object_is(file_object, file_object_generation)(g.file_objects@[f]));
    assert forall|i: int| 0 <= i < g.directory_objects@.len() implies !({
        let e = #[trigger] g.directory_objects@[i];
        e.state != DirectoryObjectState::Invalidated && e.namespace@ == namespace
            && e.directory_key@ == directory_key && e.entry_name@ == entry_name
    }) by {
        if materialized_entry(namespace, directory_key, entry_name)(g.directory_objects@[i]) {
            assert(any_match(g.directory_objects@, materialized_entry(namespace, directory_key, entry_name)));
        }
    }
}

} // verus!
