use vstd::prelude::*;
use crate::graph::{SemanticGraph, Table};
use crate::errors::SemanticInvariantError;
use crate::search::any_match;

verus! {

/// Reference to one generation of a guest address space.
#[derive(Clone, Copy, Debug, PartialEq, Eq, Structural)]
pub struct GuestAddressSpaceRef {
    pub id: u64,
    pub generation: u64,
}

/// Reference to one generation of a VMA region.
#[derive(Clone, Copy, Debug, PartialEq, Eq, Structural)]
pub struct VmaRegionRef {
    pub id: u64,
    pub generation: u64,
}

/// Reference to one generation of a page object.
#[derive(Clone, Copy, Debug, PartialEq, Eq, Structural)]
pub struct PageObjectRef {
    pub id: u64,
    pub generation: u64,
}

/// Reference to one generation of a guest memory operation.
#[derive(Clone, Copy, Debug, PartialEq, Eq, Structural)]
pub struct GuestMemoryOperationRef {
    pub id: u64,
    pub generation: u64,
}

/// The process that owns an address space.
#[derive(Clone, Copy, Debug, PartialEq, Eq, Structural)]
pub struct GuestMemoryOwnerRef {
    pub id: u64,
    pub generation: u64,
}

/// A guest-virtual byte range.
#[derive(Clone, Copy, Debug, PartialEq, Eq, Structural)]
pub struct GuestRange {
    pub start: u64,
    pub len: u64,
}

/// Access permissions of a mapping.
#[derive(Clone, Copy, Debug, PartialEq, Eq, Structural)]
pub struct GuestMemoryPerms {
    pub read: bool,
    pub write: bool,
    pub execute: bool,
}

#[derive(Clone, Copy, Debug, PartialEq, Eq, Structural)]
pub enum GuestMemoryOperationKind {
    Mmap,
    Munmap,
    Mprotect,
    Brk,
}

#[derive(Clone, Copy, Debug, PartialEq, Eq, Structural)]
pub struct GuestAddressSpaceRecord {
    pub aspace: GuestAddressSpaceRef,
    pub generation: u64,
    pub owner: GuestMemoryOwnerRef,
    pub vma_generation: u64,
    pub page_map_generation: u64,
    pub root_region: Option<VmaRegionRef>,
}

#[derive(Clone, Copy, Debug, PartialEq, Eq, Structural)]
pub struct VmaRegionRecord {
    pub region: VmaRegionRef,
    pub generation: u64,
    pub aspace: GuestAddressSpaceRef,
    pub range: GuestRange,
    pub backing: PageObjectRef,
    pub perms: GuestMemoryPerms,
}

#[derive(Clone, Copy, Debug, PartialEq, Eq, Structural)]
pub struct PageObjectRecord {
    pub page: PageObjectRef,
    pub generation: u64,
    pub dirty_generation: u64,
}

pub struct GuestMemoryFaultRecord {
    pub id: u64,
    pub generation: u64,
    pub page: PageObjectRef,
    pub reason: String,
}

pub struct GuestMemoryOperationRecord {
    pub operation_ref: GuestMemoryOperationRef,
    pub generation: u64,
    pub aspace: GuestAddressSpaceRef,
    pub operation: GuestMemoryOperationKind,
    pub range: GuestRange,
    pub region_before: Option<VmaRegionRef>,
    pub region_after: Option<VmaRegionRef>,
    pub page_before: Option<PageObjectRef>,
    pub page_after: Option<PageObjectRef>,
    pub perms_before: Option<GuestMemoryPerms>,
    pub perms_after: Option<GuestMemoryPerms>,
    pub brk_after: Option<u64>,
    pub reason: String,
}

impl GuestMemoryFaultRecord {
    /// A copy of this record.
    pub fn duplicate(&self) -> (r: GuestMemoryFaultRecord)
        ensures
            r == *self,
    {
        GuestMemoryFaultRecord {
            id: self.id,
            generation: self.generation,
            page: self.page,
            reason: self.reason.clone(),
        }
    }
}

impl GuestMemoryOperationRecord {
    /// A copy of this record.
    pub fn duplicate(&self) -> (r: GuestMemoryOperationRecord)
        ensures
            r == *self,
    {
        GuestMemoryOperationRecord {
            operation_ref: self.operation_ref,
            generation: self.generation,
            aspace: self.aspace,
            operation: self.operation,
            range: self.range,
            region_before: self.region_before,
            region_after: self.region_after,
            page_before: self.page_before,
            page_after: self.page_after,
            perms_before: self.perms_before,
            perms_after: self.perms_after,
            brk_after: self.brk_after,
            reason: self.reason.clone(),
        }
    }
}

/// The guest memory manager's recorded state, as handed to the graph.
pub struct GuestMemoryManager {
    pub address_spaces: Vec<GuestAddressSpaceRecord>,
    pub regions: Vec<VmaRegionRecord>,
    pub pages: Vec<PageObjectRecord>,
    pub fault_history: Vec<GuestMemoryFaultRecord>,
    pub operations: Vec<GuestMemoryOperationRecord>,
}

/// Every id is nonzero and no two records share an id.
pub open spec fn ids_unique<T>(s: Seq<T>, id_of: spec_fn(T) -> u64) -> bool {
    &&& forall|i: int| 0 <= i < s.len() ==> id_of(#[trigger] s[i]) != 0
    &&& forall|i: int, j: int| 0 <= i < j < s.len() ==> id_of(#[trigger] s[i]) != id_of(#[trigger] s[j])
}

pub open spec fn aspace_id_of() -> spec_fn(GuestAddressSpaceRecord) -> u64 {
    |r: GuestAddressSpaceRecord| r.aspace.id
}

pub open spec fn region_id_of() -> spec_fn(VmaRegionRecord) -> u64 {
    |r: VmaRegionRecord| r.region.id
}

pub open spec fn page_id_of() -> spec_fn(PageObjectRecord) -> u64 {
    |r: PageObjectRecord| r.page.id
}

pub open spec fn fault_id_of() -> spec_fn(GuestMemoryFaultRecord) -> u64 {
    |r: GuestMemoryFaultRecord| r.id
}

pub open spec fn operation_id_of() -> spec_fn(GuestMemoryOperationRecord) -> u64 {
    |r: GuestMemoryOperationRecord| r.operation_ref.id
}

pub open spec fn aspace_is(reference: GuestAddressSpaceRef) -> spec_fn(GuestAddressSpaceRecord) -> bool {
    |r: GuestAddressSpaceRecord| r.aspace == reference
}

pub open spec fn region_is(reference: VmaRegionRef) -> spec_fn(VmaRegionRecord) -> bool {
    |r: VmaRegionRecord| r.region == reference
}

pub open spec fn region_id_is(id: u64) -> spec_fn(VmaRegionRecord) -> bool {
    |r: VmaRegionRecord| r.region.id == id
}

pub open spec fn page_is(reference: PageObjectRef) -> spec_fn(PageObjectRecord) -> bool {
    |r: PageObjectRecord| r.page == reference
}

pub open spec fn page_id_is(id: u64) -> spec_fn(PageObjectRecord) -> bool {
    |r: PageObjectRecord| r.page.id == id
}

pub open spec fn aspace_record_valid(r: GuestAddressSpaceRecord, regions: Seq<VmaRegionRecord>) -> bool {
    &&& r.aspace.id != 0
    &&& r.generation != 0
    &&& r.aspace.generation == r.generation
    &&& r.owner.id != 0
    &&& r.owner.generation != 0
    &&& r.vma_generation != 0
    &&& r.page_map_generation != 0
    &&& (r.root_region matches Some(region) ==> any_match(regions, region_is(region)))
}

pub open spec fn region_record_valid(
    r: VmaRegionRecord,
    address_spaces: Seq<GuestAddressSpaceRecord>,
    pages: Seq<PageObjectRecord>,
) -> bool {
    &&& r.region.id != 0
    &&& r.generation != 0
    &&& r.region.generation == r.generation
    &&& r.range.len != 0
    &&& any_match(address_spaces, aspace_is(r.aspace))
    &&& any_match(pages, page_is(r.backing))
}

pub open spec fn page_record_valid(r: PageObjectRecord) -> bool {
    &&& r.page.id != 0
    &&& r.generation != 0
    &&& r.page.generation == r.generation
    &&& r.dirty_generation != 0
}

pub open spec fn fault_record_valid(r: GuestMemoryFaultRecord, pages: Seq<PageObjectRecord>) -> bool {
    &&& r.id != 0
    &&& r.generation != 0
    &&& any_match(pages, page_is(r.page))
    &&& r.reason@.len() != 0
}

/// The references an operation carries exist, and its shape fits its kind.
pub open spec fn operation_refs_valid(
    o: GuestMemoryOperationRecord,
    regions: Seq<VmaRegionRecord>,
    pages: Seq<PageObjectRecord>,
) -> bool {
    &&& (o.region_before matches Some(region) ==> any_match(regions, region_id_is(region.id)))
    &&& (o.page_before matches Some(page) ==> any_match(pages, page_id_is(page.id)))
    &&& (o.region_after matches Some(region) ==> any_match(regions, region_is(region)))
    &&& (o.page_after matches Some(page) ==> any_match(pages, page_is(page)))
    &&& match o.operation {
        GuestMemoryOperationKind::Mmap => {
            &&& o.range.len != 0
            &&& o.region_before is None
            &&& o.region_after is Some
            &&& o.page_after is Some
            &&& o.perms_after is Some
        },
        GuestMemoryOperationKind::Munmap => {
            &&& o.range.len != 0
            &&& o.region_before is Some
            &&& o.region_after is Some
            &&& o.perms_before is Some
        },
        GuestMemoryOperationKind::Mprotect => {
            &&& o.range.len != 0
            &&& o.region_before is Some
            &&& o.region_after is Some
            &&& o.perms_before is Some
            &&& o.perms_after is Some
        },
        GuestMemoryOperationKind::Brk => o.brk_after is Some,
    }
}

pub open spec fn operation_record_valid(
    o: GuestMemoryOperationRecord,
    address_spaces: Seq<GuestAddressSpaceRecord>,
    regions: Seq<VmaRegionRecord>,
    pages: Seq<PageObjectRecord>,
) -> bool {
    &&& o.operation_ref.id != 0
    &&& o.generation != 0
    &&& o.operation_ref.generation == o.generation
    &&& any_match(address_spaces, aspace_is(o.aspace))
    &&& o.reason@.len() != 0
    &&& operation_refs_valid(o, regions, pages)
}

/// The five guest-memory tables are consistent with each other.
pub open spec fn guest_memory_valid(
    address_spaces: Seq<GuestAddressSpaceRecord>,
    regions: Seq<VmaRegionRecord>,
    pages: Seq<PageObjectRecord>,
    faults: Seq<GuestMemoryFaultRecord>,
    operations: Seq<GuestMemoryOperationRecord>,
) -> bool {
    &&& ids_unique(address_spaces, aspace_id_of())
    &&& ids_unique(regions, region_id_of())
    &&& ids_unique(pages, page_id_of())
    &&& ids_unique(faults, fault_id_of())
    &&& ids_unique(operations, operation_id_of())
    &&& forall|i: int| 0 <= i < address_spaces.len() ==> aspace_record_valid(#[trigger] address_spaces[i], regions)
    &&& forall|i: int| 0 <= i < regions.len() ==> region_record_valid(#[trigger] regions[i], address_spaces, pages)
    &&& forall|i: int| 0 <= i < pages.len() ==> page_record_valid(#[trigger] pages[i])
    &&& forall|i: int| 0 <= i < faults.len() ==> fault_record_valid(#[trigger] faults[i], pages)
    &&& forall|i: int| 0 <= i < operations.len() ==> operation_record_valid(#[trigger] operations[i], address_spaces, regions, pages)
}

/// Whether every id is nonzero and unique; `id_of` computes `id_spec`.
pub fn ids_are_unique<T, F: Fn(&T) -> u64>(records: &[T], id_of: F, Ghost(id_spec): Ghost<spec_fn(T) -> u64>) -> (r: bool)
    requires
        forall|x: &T| #[trigger] id_of.requires((x,)),
        forall|x: &T, v: u64| id_of.ensures((x,), v) ==> v == id_spec(*x),
    ensures
        r == ids_unique(records@, id_spec),
{
    let mut i: usize = 0;
    while i < records.len()
        invariant
            i <= records@.len(),
            forall|x: &T| #[trigger] id_of.requires((x,)),
            forall|x: &T, v: u64| id_of.ensures((x,), v) ==> v == id_spec(*x),
            forall|k: int| 0 <= k < i ==> id_spec(#[trigger] records@[k]) != 0,
            forall|k: int, l: int| 0 <= k < i && k < l < records@.len() ==> id_spec(#[trigger] records@[k]) != id_spec(#[trigger] records@[l]),
        decreases records@.len() - i,
    {
        let id = id_of(&records[i]);
        if id == 0 {
            return false;
        }
        let mut j: usize = i + 1;
        while j < records.len()
            invariant
                i < records@.len(),
                i < j <= records@.len(),
                id == id_spec(records@[i as int]),
                forall|x: &T| #[trigger] id_of.requires((x,)),
                forall|x: &T, v: u64| id_of.ensures((x,), v) ==> v == id_spec(*x),
                forall|l: int| i < l < j ==> id != id_spec(#[trigger] records@[l]),
            decreases records@.len() - j,
        {
            if id_of(&records[j]) == id {
                return false;
            }
            j += 1;
        }
        i += 1;
    }
    true
}

fn contains_aspace_ref(records: &[GuestAddressSpaceRecord], reference: GuestAddressSpaceRef) -> (r: bool)
    ensures
        r == any_match(records@, aspace_is(reference)),
{
    let mut i: usize = 0;
    while i < records.len()
        invariant
            i <= records@.len(),
            forall|k: int| 0 <= k < i ==> !aspace_is(reference)(#[trigger] records@[k]),
        decreases records@.len() - i,
    {
        if records[i].aspace == reference {
            return true;
        }
        i += 1;
    }
    false
}

fn contains_region_ref(records: &[VmaRegionRecord], reference: VmaRegionRef) -> (r: bool)
    ensures
        r == any_match(records@, region_is(reference)),
{
    let mut i: usize = 0;
    while i < records.len()
        invariant
            i <= records@.len(),
            forall|k: int| 0 <= k < i ==> !region_is(reference)(#[trigger] records@[k]),
        decreases records@.len() - i,
    {
        if records[i].region == reference {
            return true;
        }
        i += 1;
    }
    false
}

fn contains_page_ref(records: &[PageObjectRecord], reference: PageObjectRef) -> (r: bool)
    ensures
        r == any_match(records@, page_is(reference)),
{
    let mut i: usize = 0;
    while i < records.len()
        invariant
            i <= records@.len(),
            forall|k: int| 0 <= k < i ==> !page_is(reference)(#[trigger] records@[k]),
        decreases records@.len() - i,
    {
        if records[i].page == reference {
            return true;
        }
        i += 1;
    }
    false
}

fn contains_region_id(records: &[VmaRegionRecord], reference: VmaRegionRef) -> (r: bool)
    ensures
        r == any_match(records@, region_id_is(reference.id)),
{
    let mut i: usize = 0;
    while i < records.len()
        invariant
            i <= records@.len(),
            forall|k: int| 0 <= k < i ==> !region_id_is(reference.id)(#[trigger] records@[k]),
        decreases records@.len() - i,
    {
        if records[i].region.id == reference.id {
            return true;
        }
        i += 1;
    }
    false
}

fn contains_page_id(records: &[PageObjectRecord], reference: PageObjectRef) -> (r: bool)
    ensures
        r == any_match(records@, page_id_is(reference.id)),
{
    let mut i: usize = 0;
    while i < records.len()
        invariant
            i <= records@.len(),
            forall|k: int| 0 <= k < i ==> !page_id_is(reference.id)(#[trigger] records@[k]),
        decreases records@.len() - i,
    {
        if records[i].page.id == reference.id {
            return true;
        }
        i += 1;
    }
    false
}

fn operation_refs_are_valid(
    operation: &GuestMemoryOperationRecord,
    regions: &[VmaRegionRecord],
    pages: &[PageObjectRecord],
) -> (r: bool)
    ensures
        r == operation_refs_valid(*operation, regions@, pages@),
{
    let before_region = match operation.region_before {
        Some(region) => contains_region_id(regions, region),
        None => true,
    };
    let before_page = match operation.page_before {
        Some(page) => contains_page_id(pages, page),
        None => true,
    };
    let after_region = match operation.region_after {
        Some(region) => contains_region_ref(regions, region),
        None => true,
    };
    let after_page = match operation.page_after {
        Some(page) => contains_page_ref(pages, page),
        None => true,
    };
    if !(before_region && before_page) || !(after_region && after_page) {
        return false;
    }
    match operation.operation {
        GuestMemoryOperationKind::Mmap => {
            operation.range.len != 0 && operation.region_before.is_none()
                && operation.region_after.is_some() && operation.page_after.is_some()
                && operation.perms_after.is_some()
        },
        GuestMemoryOperationKind::Munmap => {
            operation.range.len != 0 && operation.region_before.is_some()
                && operation.region_after.is_some() && operation.perms_before.is_some()
        },
        GuestMemoryOperationKind::Mprotect => {
            operation.range.len != 0 && operation.region_before.is_some()
                && operation.region_after.is_some() && operation.perms_before.is_some()
                && operation.perms_after.is_some()
        },
        GuestMemoryOperationKind::Brk => operation.brk_after.is_some(),
    }
}

/// Whether the five guest-memory tables are consistent with each other.
pub fn guest_memory_records_are_valid(
    address_spaces: &[GuestAddressSpaceRecord],
    regions: &[VmaRegionRecord],
    pages: &[PageObjectRecord],
    faults: &[GuestMemoryFaultRecord],
    operations: &[GuestMemoryOperationRecord],
) -> (r: bool)
    ensures
        r == guest_memory_valid(address_spaces@, regions@, pages@, faults@, operations@),
{
    if !ids_are_unique(address_spaces, |r: &GuestAddressSpaceRecord| -> (v: u64) ensures v == aspace_id_of()(*r) { r.aspace.id }, Ghost(aspace_id_of()))
        || !ids_are_unique(regions, |r: &VmaRegionRecord| -> (v: u64) ensures v == region_id_of()(*r) { r.region.id }, Ghost(region_id_of()))
        || !ids_are_unique(pages, |r: &PageObjectRecord| -> (v: u64) ensures v == page_id_of()(*r) { r.page.id }, Ghost(page_id_of()))
        || !ids_are_unique(faults, |r: &GuestMemoryFaultRecord| -> (v: u64) ensures v == fault_id_of()(*r) { r.id }, Ghost(fault_id_of()))
        || !ids_are_unique(operations, |r: &GuestMemoryOperationRecord| -> (v: u64) ensures v == operation_id_of()(*r) { r.operation_ref.id }, Ghost(operation_id_of())) {
        return false;
    }
    let mut i: usize = 0;
    while i < address_spaces.len()
        invariant
            i <= address_spaces@.len(),
            forall|k: int| 0 <= k < i ==> aspace_record_valid(#[trigger] address_spaces@[k], regions@),
        decreases address_spaces@.len() - i,
    {
        let r = &address_spaces[i];
        let root_ok = match r.root_region {
            Some(region) => contains_region_ref(regions, region),
            None => true,
        };
        if !(r.aspace.id != 0 && r.generation != 0 && r.aspace.generation == r.generation
            && r.owner.id != 0 && r.owner.generation != 0 && r.vma_generation != 0
            && r.page_map_generation != 0 && root_ok) {
            return false;
        }
        i += 1;
    }
    let mut i: usize = 0;
    while i < regions.len()
        invariant
            i <= regions@.len(),
            forall|k: int| 0 <= k < i ==> region_record_valid(#[trigger] regions@[k], address_spaces@, pages@),
        decreases regions@.len() - i,
    {
        let r = &regions[i];
        if !(r.region.id != 0 && r.generation != 0 && r.region.generation == r.generation
            && r.range.len != 0 && contains_aspace_ref(address_spaces, r.aspace)
            && contains_page_ref(pages, r.backing)) {
            return false;
        }
        i += 1;
    }
    let mut i: usize = 0;
    while i < pages.len()
        invariant
            i <= pages@.len(),
            forall|k: int| 0 <= k < i ==> page_record_valid(#[trigger] pages@[k]),
        decreases pages@.len() - i,
    {
        let r = &pages[i];
        if !(r.page.id != 0 && r.generation != 0 && r.page.generation == r.generation
            && r.dirty_generation != 0) {
            return false;
        }
        i += 1;
    }
    let mut i: usize = 0;
    while i < faults.len()
        invariant
            i <= faults@.len(),
            forall|k: int| 0 <= k < i ==> fault_record_valid(#[trigger] faults@[k], pages@),
        decreases faults@.len() - i,
    {
        let r = &faults[i];
        if !(r.id != 0 && r.generation != 0 && contains_page_ref(pages, r.page)
            && !r.reason.as_str().is_empty()) {
            return false;
        }
        i += 1;
    }
    let mut i: usize = 0;
    while i < operations.len()
        invariant
            i <= operations@.len(),
            forall|k: int| 0 <= k < i ==> operation_record_valid(#[trigger] operations@[k], address_spaces@, regions@, pages@),
        decreases operations@.len() - i,
    {
        let r = &operations[i];
        if !(r.operation_ref.id != 0 && r.generation != 0
            && r.operation_ref.generation == r.generation
            && contains_aspace_ref(address_spaces, r.aspace) && !r.reason.as_str().is_empty()
            && operation_refs_are_valid(r, regions, pages)) {
            return false;
        }
        i += 1;
    }
    true
}

fn copy_aspaces(s: &[GuestAddressSpaceRecord]) -> (v: Vec<GuestAddressSpaceRecord>)
    ensures
        v@ == s@,
{
    let mut v: Vec<GuestAddressSpaceRecord> = Vec::new();
    let mut i: usize = 0;
    while i < s.len()
        invariant
            i <= s@.len(),
            v@ == s@.subrange(0, i as int),
        decreases s@.len() - i,
    {
        v.push(s[i]);
        i += 1;
    }
    v
}

fn copy_regions(s: &[VmaRegionRecord]) -> (v: Vec<VmaRegionRecord>)
    ensures
        v@ == s@,
{
    let mut v: Vec<VmaRegionRecord> = Vec::new();
    let mut i: usize = 0;
    while i < s.len()
        invariant
            i <= s@.len(),
            v@ == s@.subrange(0, i as int),
        decreases s@.len() - i,
    {
        v.push(s[i]);
        i += 1;
    }
    v
}

fn copy_pages(s: &[PageObjectRecord]) -> (v: Vec<PageObjectRecord>)
    ensures
        v@ == s@,
{
    let mut v: Vec<PageObjectRecord> = Vec::new();
    let mut i: usize = 0;
    while i < s.len()
        invariant
            i <= s@.len(),
            v@ == s@.subrange(0, i as int),
        decreases s@.len() - i,
    {
        v.push(s[i]);
        i += 1;
    }
    v
}

fn copy_faults(s: &[GuestMemoryFaultRecord]) -> (v: Vec<GuestMemoryFaultRecord>)
    ensures
        v@ == s@,
{
    let mut v: Vec<GuestMemoryFaultRecord> = Vec::new();
    let mut i: usize = 0;
    while i < s.len()
        invariant
            i <= s@.len(),
            v@ == s@.subrange(0, i as int),
        decreases s@.len() - i,
    {
        v.push(s[i].duplicate());
        i += 1;
    }
    v
}

fn copy_operations(s: &[GuestMemoryOperationRecord]) -> (v: Vec<GuestMemoryOperationRecord>)
    ensures
        v@ == s@,
{
    let mut v: Vec<GuestMemoryOperationRecord> = Vec::new();
    let mut i: usize = 0;
    while i < s.len()
        invariant
            i <= s@.len(),
            v@ == s@.subrange(0, i as int),
        decreases s@.len() - i,
    {
        v.push(s[i].duplicate());
        i += 1;
    }
    v
}

impl SemanticGraph {
    /// The graph holds no guest-memory records yet.
    pub open spec fn guest_memory_empty(&self) -> bool {
        &&& self.guest_address_spaces@.len() == 0
        &&& self.vma_regions@.len() == 0
        &&& self.page_objects@.len() == 0
        &&& self.guest_memory_faults@.len() == 0
        &&& self.guest_memory_operations@.len() == 0
    }

    /// Audit verdict of the guest-memory tables.
    pub open spec fn guest_memory_audit(&self) -> Result<(), SemanticInvariantError> {
        if guest_memory_valid(
            self.guest_address_spaces@,
            self.vma_regions@,
            self.page_objects@,
            self.guest_memory_faults@,
            self.guest_memory_operations@,
        ) {
            Ok(())
        } else {
            Err(SemanticInvariantError::InvalidGuestMemory)
        }
    }

    /// Loads the guest memory manager's records; see `restore_guest_memory_records`.
    pub fn record_guest_memory_manager(&mut self, memory: &GuestMemoryManager) -> (ok: bool)
        ensures
            ok == (old(self).guest_memory_empty() && guest_memory_valid(
                memory.address_spaces@,
                memory.regions@,
                memory.pages@,
                memory.fault_history@,
                memory.operations@,
            )),
            ok ==> {
                &&& final(self).guest_address_spaces@ == memory.address_spaces@
                &&& final(self).vma_regions@ == memory.regions@
                &&& final(self).page_objects@ == memory.pages@
                &&& final(self).guest_memory_faults@ == memory.fault_history@
                &&& final(self).guest_memory_operations@ == memory.operations@
            },
            final(self).agrees_except(old(self), set![Table::GuestMemory]),
            !ok ==> *final(self) == *old(self),
            ok ==> forall|i: int| 0 <= i < final(self).vma_regions@.len() ==> names_address_space(
                final(self).guest_address_spaces@, (#[trigger] final(self).vma_regions@[i]).aspace),
            ok ==> forall|i: int| 0 <= i < final(self).vma_regions@.len() ==> names_page(
                final(self).page_objects@, (#[trigger] final(self).vma_regions@[i]).backing),
    {
        let ok = self.restore_guest_memory_records(
            memory.address_spaces.as_slice(),
            memory.regions.as_slice(),
            memory.pages.as_slice(),
            memory.fault_history.as_slice(),
            memory.operations.as_slice(),
        );
        proof {
            if ok {
                lemma_accepted_guest_memory_references_resolve(memory.address_spaces@, memory.regions@,
                    memory.pages@, memory.fault_history@, memory.operations@);
            }
        }
        ok
    }

    /// Loads guest-memory records into an empty graph when they are consistent.
    pub fn restore_guest_memory_records(
        &mut self,
        address_spaces: &[GuestAddressSpaceRecord],
        regions: &[VmaRegionRecord],
        pages: &[PageObjectRecord],
        faults: &[GuestMemoryFaultRecord],
        operations: &[GuestMemoryOperationRecord],
    ) -> (ok: bool)
        ensures
            ok == (old(self).guest_memory_empty() && guest_memory_valid(
                address_spaces@,
                regions@,
                pages@,
                faults@,
                operations@,
            )),
            ok ==> {
                &&& final(self).guest_address_spaces@ == address_spaces@
                &&& final(self).vma_regions@ == regions@
                &&& final(self).page_objects@ == pages@
                &&& final(self).guest_memory_faults@ == faults@
                &&& final(self).guest_memory_operations@ == operations@
            },
            final(self).agrees_except(old(self), set![Table::GuestMemory]),
            !ok ==> *final(self) == *old(self),
    {
        if !self.guest_address_spaces.is_empty() || !self.vma_regions.is_empty()
            || !self.page_objects.is_empty() || !self.guest_memory_faults.is_empty()
            || !self.guest_memory_operations.is_empty() {
            return false;
        }
        if !guest_memory_records_are_valid(address_spaces, regions, pages, faults, operations) {
            return false;
        }
        self.guest_address_spaces = copy_aspaces(address_spaces);
        self.vma_regions = copy_regions(regions);
        self.page_objects = copy_pages(pages);
        self.guest_memory_faults = copy_faults(faults);
        self.guest_memory_operations = copy_operations(operations);
        true
    }

    pub fn guest_address_spaces(&self) -> (r: &[GuestAddressSpaceRecord])
        ensures
            r@ == self.guest_address_spaces@,
    {
        self.guest_address_spaces.as_slice()
    }

    pub fn guest_address_space_count(&self) -> (r: usize)
        ensures
            r == self.guest_address_spaces@.len(),
    {
        self.guest_address_spaces.len()
    }

    pub fn vma_regions(&self) -> (r: &[VmaRegionRecord])
        ensures
            r@ == self.vma_regions@,
    {
        self.vma_regions.as_slice()
    }

    pub fn vma_region_count(&self) -> (r: usize)
        ensures
            r == self.vma_regions@.len(),
    {
        self.vma_regions.len()
    }

    pub fn page_objects(&self) -> (r: &[PageObjectRecord])
        ensures
            r@ == self.page_objects@,
    {
        self.page_objects.as_slice()
    }

    pub fn page_object_count(&self) -> (r: usize)
        ensures
            r == self.page_objects@.len(),
    {
        self.page_objects.len()
    }

    pub fn guest_memory_faults(&self) -> (r: &[GuestMemoryFaultRecord])
        ensures
            r@ == self.guest_memory_faults@,
    {
        self.guest_memory_faults.as_slice()
    }

    pub fn guest_memory_fault_count(&self) -> (r: usize)
        ensures
            r == self.guest_memory_faults@.len(),
    {
        self.guest_memory_faults.len()
    }

    pub fn guest_memory_operations(&self) -> (r: &[GuestMemoryOperationRecord])
        ensures
            r@ == self.guest_memory_operations@,
    {
        self.guest_memory_operations.as_slice()
    }

    pub fn guest_memory_operation_count(&self) -> (r: usize)
        ensures
            r == self.guest_memory_operations@.len(),
    {
        self.guest_memory_operations.len()
    }

    /// Audits the guest-memory tables.
    pub fn check_guest_memory_invariants(&self) -> (r: Result<(), SemanticInvariantError>)
        ensures
            r == self.guest_memory_audit(),
    {
        if guest_memory_records_are_valid(
            self.guest_address_spaces.as_slice(),
            self.vma_regions.as_slice(),
            self.page_objects.as_slice(),
            self.guest_memory_faults.as_slice(),
            self.guest_memory_operations.as_slice(),
        ) {
            Ok(())
        } else {
            Err(SemanticInvariantError::InvalidGuestMemory)
        }
    }
}

/// Some address space of `address_spaces` has the id and generation of `reference`.
pub open spec fn names_address_space(address_spaces: Seq<GuestAddressSpaceRecord>, reference: GuestAddressSpaceRef) -> bool {
    exists|j: int| 0 <= j < address_spaces.len() && (#[trigger] address_spaces[j]).aspace.id == reference.id
        && address_spaces[j].aspace.generation == reference.generation
}

/// Some page of `pages` has the id and generation of `reference`.
pub open spec fn names_page(pages: Seq<PageObjectRecord>, reference: PageObjectRef) -> bool {
    exists|k: int| 0 <= k < pages.len() && (#[trigger] pages[k]).page.id == reference.id
        && pages[k].page.generation == reference.generation
}

/// Guest memory records are loaded (by `record_guest_memory_manager` and
/// `restore_guest_memory_records`) only when `guest_memory_valid` holds of them. Then every VMA
/// region names an address space of the same id and generation and a backing page of the same
/// id and generation, every fault names a page, every operation names an address space, and no
/// two address spaces or regions share an id.
pub proof fn lemma_accepted_guest_memory_references_resolve(
    address_spaces: Seq<GuestAddressSpaceRecord>,
    regions: Seq<VmaRegionRecord>,
    pages: Seq<PageObjectRecord>,
    faults: Seq<GuestMemoryFaultRecord>,
    operations: Seq<GuestMemoryOperationRecord>,
)
    requires
        guest_memory_valid(address_spaces, regions, pages, faults, operations),
    ensures
        forall|i: int| 0 <= i < regions.len() ==> names_address_space(address_spaces, (#[trigger] regions[i]).aspace),
        forall|i: int| 0 <= i < regions.len() ==> names_page(pages, (#[trigger] regions[i]).backing),
        forall|i: int| 0 <= i < faults.len() ==> names_page(pages, (#[trigger] faults[i]).page),
        forall|i: int| 0 <= i < operations.len() ==> names_address_space(address_spaces, (#[trigger] operations[i]).aspace),
        forall|i: int, j: int| 0 <= i < j < address_spaces.len()
            ==> (#[trigger] address_spaces[i]).aspace.id != (#[trigger] address_spaces[j]).aspace.id,
        forall|i: int, j: int| 0 <= i < j < regions.len()
            ==> (#[trigger] regions[i]).region.id != (#[trigger] regions[j]).region.id,
{
    assert forall|i: int| 0 <= i < regions.len() implies names_address_space(address_spaces, (#[trigger] regions[i]).aspace)
        && names_page(pages, regions[i].backing) by {
        assert(region_record_valid(regions[i], address_spaces, pages));
        let j = choose|j: int| 0 <= j < address_spaces.len() && aspace_is(regions[i].aspace)(#[trigger] address_spaces[j]);
        assert(aspace_is(regions[i].aspace)(address_spaces[j]));
        let k = choose|k: int| 0 <= k < pages.len() && page_is(regions[i].backing)(#[trigger] pages[k]);
        assert(page_is(regions[i].backing)(pages[k]));
    }
    assert forall|i: int| 0 <= i < faults.len() implies names_page(pages, (#[trigger] faults[i]).page) by {
        assert(fault_record_valid(faults[i], pages));
        let k = choose|k: int| 0 <= k < pages.len() && page_is(faults[i].page)(#[trigger] pages[k]);
        assert(page_is(faults[i].page)(pages[k]));
    }
    assert forall|i: int| 0 <= i < operations.len() implies names_address_space(address_spaces, (#[trigger] operations[i]).aspace) by {
        assert(operation_record_valid(operations[i], address_spaces, regions, pages));
        let j = choose|j: int| 0 <= j < address_spaces.len() && aspace_is(operations[i].aspace)(#[trigger] address_spaces[j]);
        assert(aspace_is(operations[i].aspace)(address_spaces[j]));
    }
    assert forall|i: int, j: int| 0 <= i < j < address_spaces.len()
        implies (#[trigger] address_spaces[i]).aspace.id != (#[trigger] address_spaces[j]).aspace.id by {
        assert(aspace_id_of()(address_spaces[i]) != aspace_id_of()(address_spaces[j]));
    }
    assert forall|i: int, j: int| 0 <= i < j < regions.len()
        implies (#[trigger] regions[i]).region.id != (#[trigger] regions[j]).region.id by {
        assert(region_id_of()(regions[i]) != region_id_of()(regions[j]));
    }
}

/// Accepted guest memory records are well formed one by one: every address space, region, page,
/// fault and operation has a nonzero id and generation (with the generation its own reference
/// carries), every region covers a nonempty range, every page has a nonzero dirty generation,
/// every fault and operation carries a reason, every mmap, munmap and mprotect covers a nonempty
/// range and names the region after it, and no two pages, faults or operations share an id.
pub proof fn lemma_accepted_guest_memory_records_are_well_formed(
    address_spaces: Seq<GuestAddressSpaceRecord>,
    regions: Seq<VmaRegionRecord>,
    pages: Seq<PageObjectRecord>,
    faults: Seq<GuestMemoryFaultRecord>,
    operations: Seq<GuestMemoryOperationRecord>,
)
    requires
        guest_memory_valid(address_spaces, regions, pages, faults, operations),
    ensures
        forall|i: int| 0 <= i < address_spaces.len() ==> {
            let a = #[trigger] address_spaces[i];
            a.aspace.id != 0 && a.generation != 0 && a.aspace.generation == a.generation
        },
        forall|i: int| 0 <= i < regions.len() ==> {
            let r = #[trigger] regions[i];
            r.region.id != 0 && r.generation != 0 && r.region.generation == r.generation && r.range.len != 0
        },
        forall|i: int| 0 <= i < pages.len() ==> {
            let p = #[trigger] pages[i];
            p.page.id != 0 && p.generation != 0 && p.page.generation == p.generation && p.dirty_generation != 0
        },
        forall|i: int| 0 <= i < faults.len() ==> {
            let f = #[trigger] faults[i];
            f.id != 0 && f.generation != 0 && f.reason@.len() != 0
        },
        forall|i: int| 0 <= i < operations.len() ==> {
            let o = #[trigger] operations[i];
            &&& o.operation_ref.id != 0 && o.generation != 0 && o.operation_ref.generation == o.generation
            &&& o.reason@.len() != 0
            &&& o.operation != GuestMemoryOperationKind::Brk ==> o.range.len != 0 && o.region_after is Some
            &&& o.operation == GuestMemoryOperationKind::Brk ==> o.brk_after is Some
        },
        forall|i: int, j: int| 0 <= i < j < pages.len() ==> (#[trigger] pages[i]).page.id != (#[trigger] pages[j]).page.id,
        forall|i: int, j: int| 0 <= i < j < faults.len() ==> (#[trigger] faults[i]).id != (#[trigger] faults[j]).id,
        forall|i: int, j: int| 0 <= i < j < operations.len()
            ==> (#[trigger] operations[i]).operation_ref.id != (#[trigger] operations[j]).operation_ref.id,
{
    assert forall|i: int| 0 <= i < operations.len() implies {
        let o = #[trigger] operations[i];
        &&& o.operation_ref.id != 0 && o.generation != 0 && o.operation_ref.generation == o.generation
        &&& o.reason@.len() != 0
        &&& o.operation != GuestMemoryOperationKind::Brk ==> o.range.len != 0 && o.region_after is Some
        &&& o.operation == GuestMemoryOperationKind::Brk ==> o.brk_after is Some
    } by {
        assert(operation_record_valid(operations[i], address_spaces, regions, pages));
        assert(operation_refs_valid(operations[i], regions, pages));
    }
    assert forall|i: int, j: int| 0 <= i < j < pages.len()
        implies (#[trigger] pages[i]).page.id != (#[trigger] pages[j]).page.id by {
        assert(page_id_of()(pages[i]) != page_id_of()(pages[j]));
    }
    assert forall|i: int, j: int| 0 <= i < j < faults.len()
        implies (#[trigger] faults[i]).id != (#[trigger] faults[j]).id by {
        assert(fault_id_of()(faults[i]) != fault_id_of()(faults[j]));
    }
    assert forall|i: int, j: int| 0 <= i < j < operations.len()
        implies (#[trigger] operations[i]).operation_ref.id != (#[trigger] operations[j]).operation_ref.id by {
        assert(operation_id_of()(operations[i]) != operation_id_of()(operations[j]));
    }
}

} // verus!
