//! Architecture memory regions, RAM filtering, and the per-region backing
//! plan.
//!
//! The region list itself comes from the architecture-layout collaborator
//! and is trusted to be non-overlapping and ordered; this module decides
//! which regions are RAM and how each RAM region is to be backed.

use vstd::prelude::*;

verus! {

/// The kind of an architecture-supplied memory region.
#[derive(Clone, Copy, Debug, PartialEq, Eq, Structural)]
pub enum RegionType {
    /// Guest RAM, to be backed with host memory.
    Ram,
    /// A carved-out part of a RAM range, managed elsewhere.
    SubRegion,
    /// An architecture-reserved range, never backed.
    Reserved,
}

/// One region of the architecture memory layout: a contiguous
/// guest-physical span and its kind.
#[derive(Clone, Copy, Debug, PartialEq, Eq, Structural)]
pub struct ArchRegion {
    pub start: u64,
    pub size: usize,
    pub kind: RegionType,
}

/// One contiguous span of guest RAM.
#[derive(Clone, Copy, Debug, PartialEq, Eq, Structural)]
pub struct RamRegion {
    pub start: u64,
    pub size: usize,
}

/// What the caller's backing path turned out to be: absent, an existing
/// regular file, an existing directory, or something else entirely.
#[derive(Clone, Copy, Debug, PartialEq, Eq, Structural)]
pub enum BackingStatus {
    /// No backing path given: regions are mapped anonymously.
    NoFile,
    /// The path names an existing regular file.
    RegularFile,
    /// The path names an existing directory.
    Directory,
    /// The path names neither a regular file nor a directory.
    Unmatched,
}

/// How one RAM region is to be backed.
#[derive(Clone, Copy, Debug, PartialEq, Eq, Structural)]
pub enum BackingKind {
    /// Private anonymous memory.
    Anonymous,
    /// The caller-supplied regular file, resized to the region length and
    /// mapped at offset zero.
    SharedFile,
    /// A freshly created temporary file inside the caller-supplied
    /// directory, resized to the region length and unlinked immediately,
    /// keeping only the open descriptor.
    TempFile,
}

/// One RAM region together with its resolved backing. When the backing is a
/// file, the file must be resized to exactly `size` bytes before mapping.
#[derive(Clone, Copy, Debug, PartialEq, Eq, Structural)]
pub struct PlannedRegion {
    pub start: u64,
    pub size: usize,
    pub backing: BackingKind,
}

/// The RAM regions of an architecture layout, in order.
pub open spec fn spec_ram_regions(regions: Seq<ArchRegion>) -> Seq<RamRegion>
    decreases regions.len(),
{
    if regions.len() == 0 {
        Seq::empty()
    } else {
        let rest = spec_ram_regions(regions.drop_last());
        if regions.last().kind is Ram {
            rest.push(RamRegion { start: regions.last().start, size: regions.last().size })
        } else {
            rest
        }
    }
}

/// The backing kind a status resolves to, or nothing when the path matches
/// neither a regular file nor a directory, in which case every region is
/// skipped.
pub open spec fn spec_backing_kind(status: BackingStatus) -> Option<BackingKind> {
    match status {
        BackingStatus::NoFile => Some(BackingKind::Anonymous),
        BackingStatus::RegularFile => Some(BackingKind::SharedFile),
        BackingStatus::Directory => Some(BackingKind::TempFile),
        BackingStatus::Unmatched => None,
    }
}

/// The backing plan for a RAM region list under a backing status: every
/// region with the resolved backing kind, or no region at all when the
/// status resolves to none.
pub open spec fn spec_backing_plan(ram: Seq<RamRegion>, status: BackingStatus) -> Seq<
    PlannedRegion,
> {
    match spec_backing_kind(status) {
        Some(kind) => ram.map_values(
            |r: RamRegion| PlannedRegion { start: r.start, size: r.size, backing: kind },
        ),
        None => Seq::empty(),
    }
}

/// Keeps exactly the RAM-typed regions of an architecture layout, in their
/// original order, as (address, size) RAM regions.
pub fn filter_ram_regions(regions: &Vec<ArchRegion>) -> (ram: Vec<RamRegion>)
    ensures
        ram@ == spec_ram_regions(regions@),
{
    let mut ram: Vec<RamRegion> = Vec::new();
    let mut i: usize = 0;
    while i < regions.len()
        invariant
            i <= regions.len(),
            ram@ == spec_ram_regions(regions@.take(i as int)),
        decreases regions.len() - i,
    {
        let r = regions[i];
        if matches!(r.kind, RegionType::Ram) {
            ram.push(RamRegion { start: r.start, size: r.size });
        }
        i = i + 1;
        proof {
            assert(regions@.take(i as int).drop_last() == regions@.take(i - 1));
            assert(regions@.take(i as int).last() == regions@[i - 1]);
        }
    }
    proof {
        assert(regions@.take(regions@.len() as int) == regions@);
    }
    ram
}

/// Resolves the backing plan for a RAM region list: anonymous memory when no
/// path was given, the shared file when the path is a regular file, an
/// unlinked temporary file per region when it is a directory, and no region
/// at all when the path matches neither. Each planned file backing carries
/// the region's own size as the required file length.
pub fn plan_backing(ram: &Vec<RamRegion>, status: BackingStatus) -> (plan: Vec<PlannedRegion>)
    ensures
        plan@ == spec_backing_plan(ram@, status),
{
    let kind: Option<BackingKind> = match status {
        BackingStatus::NoFile => Some(BackingKind::Anonymous),
        BackingStatus::RegularFile => Some(BackingKind::SharedFile),
        BackingStatus::Directory => Some(BackingKind::TempFile),
        BackingStatus::Unmatched => None,
    };
    let mut plan: Vec<PlannedRegion> = Vec::new();
    match kind {
        Some(kind) => {
            let mut i: usize = 0;
            while i < ram.len()
                invariant
                    i <= ram.len(),
                    spec_backing_kind(status) == Some(kind),
                    plan@ == spec_backing_plan(ram@, status).take(i as int),
                decreases ram.len() - i,
            {
                let r = ram[i];
                plan.push(PlannedRegion { start: r.start, size: r.size, backing: kind });
                i = i + 1;
            }
            proof {
                assert(spec_backing_plan(ram@, status).take(ram@.len() as int)
                    == spec_backing_plan(ram@, status));
            }
        },
        None => {
        },
    }
    plan
}

/// Law: a resolved backing plan covers the RAM regions one for one — same
/// count, and per region the same start, the same size (so a file backing
/// is resized to exactly the region length), and the one resolved kind.
pub proof fn lemma_backing_plan_faithful(ram: Seq<RamRegion>, status: BackingStatus)
    requires
        spec_backing_kind(status) is Some,
    ensures
        spec_backing_plan(ram, status).len() == ram.len(),
        forall|i: int|
            0 <= i < ram.len() ==> #[trigger] spec_backing_plan(ram, status)[i] == (PlannedRegion {
                start: ram[i].start,
                size: ram[i].size,
                backing: spec_backing_kind(status)->Some_0,
            }),
{
}

} // verus!
