//! The hand-off payload: the memory map, a list of at most 32 regions in the
//! order in which the firmware reported them.

use vstd::prelude::*;
use arrayvec::ArrayVec;
use crate::error::BootError;
use crate::region::MemoryRegion;

verus! {

/// The number of regions that a memory map has room for.
pub const MEMORY_MAP_CAPACITY: usize = 32;

/// `arrayvec::ArrayVec`, a vector of at most `CAP` items that are stored in
/// the value itself, without a heap.
#[verifier::external_type_specification]
#[verifier::external_body]
#[verifier::reject_recursive_types(T)]
pub struct ExArrayVec<T, const CAP: usize>(ArrayVec<T, CAP>);

/// The regions that a memory map holds, in the order in which they were
/// pushed.
pub uninterp spec fn map_regions(map: ArrayVec<MemoryRegion, MEMORY_MAP_CAPACITY>) -> Seq<MemoryRegion>;

/// `ArrayVec::new`.
///
/// Trusted: the new vector holds nothing. (`new` panics only for a capacity
/// above `u32::MAX`.)
#[verifier::external_body]
fn empty_map() -> (map: ArrayVec<MemoryRegion, MEMORY_MAP_CAPACITY>)
    ensures
        map_regions(map) == Seq::<MemoryRegion>::empty(),
{
    ArrayVec::new()
}

/// `ArrayVec::push`.
///
/// Trusted: `push` panics when the vector already holds as many items as it
/// has room for, which the precondition excludes; otherwise it writes the
/// item behind the last one and leaves the others as they are.
#[verifier::external_body]
fn push_to_map(map: &mut ArrayVec<MemoryRegion, MEMORY_MAP_CAPACITY>, region: MemoryRegion)
    requires
        map_regions(*old(map)).len() < MEMORY_MAP_CAPACITY,
    ensures
        map_regions(*final(map)) == map_regions(*old(map)).push(region),
{
    map.push(region)
}

/// `ArrayVec::as_slice`.
///
/// Trusted: the slice holds the items of the vector, all of them and in
/// their order.
#[verifier::external_body]
fn map_as_slice(map: &ArrayVec<MemoryRegion, MEMORY_MAP_CAPACITY>) -> (regions: &[MemoryRegion])
    ensures
        regions@ == map_regions(*map),
{
    map.as_slice()
}

/// What a bootloader hands to the kernel.
pub struct BootInfo {
    /// The memory regions in the order in which the firmware reported them.
    /// Nothing is sorted, merged or dropped.
    pub memory_map: ArrayVec<MemoryRegion, MEMORY_MAP_CAPACITY>,
}

impl View for BootInfo {
    type V = Seq<MemoryRegion>;

    /// The regions of the memory map, first reported first.
    open spec fn view(&self) -> Seq<MemoryRegion> {
        map_regions(self.memory_map)
    }
}

impl BootInfo {
    /// What pushing `region` makes of a memory map that holds `regions`:
    /// the same regions with `region` behind them, or an error, when the map
    /// is full.
    pub open spec fn spec_push(regions: Seq<MemoryRegion>, region: MemoryRegion) -> Result<
        Seq<MemoryRegion>,
        BootError,
    > {
        if regions.len() < MEMORY_MAP_CAPACITY {
            Ok(regions.push(region))
        } else {
            Err(BootError::CapacityExceeded)
        }
    }

    /// What pushing the regions of `more`, one after the other, makes of a
    /// memory map that holds `regions`: the error of the first push that
    /// fails, if one does.
    pub open spec fn spec_push_all(regions: Seq<MemoryRegion>, more: Seq<MemoryRegion>) -> Result<
        Seq<MemoryRegion>,
        BootError,
    >
        decreases more.len(),
    {
        if more.len() == 0 {
            Ok(regions)
        } else {
            match Self::spec_push_all(regions, more.drop_last()) {
                Ok(pushed) => Self::spec_push(pushed, more.last()),
                Err(error) => Err(error),
            }
        }
    }

    /// Pushes succeed as long as the memory map has room, and keep the
    /// regions in the order in which they came: a map that holds `regions`,
    /// at most 32, takes `more` exactly when both together are at most 32,
    /// and then holds `regions` followed by `more`. So an empty map takes any
    /// 32 regions and holds them in their order, and no map takes a region
    /// more.
    pub proof fn lemma_push_all(regions: Seq<MemoryRegion>, more: Seq<MemoryRegion>)
        requires
            regions.len() <= MEMORY_MAP_CAPACITY,
        ensures
            Self::spec_push_all(regions, more) == (if regions.len() + more.len()
                <= MEMORY_MAP_CAPACITY {
                Ok::<Seq<MemoryRegion>, BootError>(regions + more)
            } else {
                Err::<Seq<MemoryRegion>, BootError>(BootError::CapacityExceeded)
            }),
        decreases more.len(),
    {
        if more.len() == 0 {
            assert(regions + more =~= regions);
        } else {
            Self::lemma_push_all(regions, more.drop_last());
            if regions.len() + more.len() <= MEMORY_MAP_CAPACITY {
                assert((regions + more.drop_last()).push(more.last()) =~= regions + more);
            }
        }
    }

    /// Pushed one after the other into an empty memory map, 32 regions all
    /// go in and stand in the map in the order in which they came; a region
    /// more is refused.
    pub proof fn lemma_fill(regions: Seq<MemoryRegion>, extra: MemoryRegion)
        requires
            regions.len() == MEMORY_MAP_CAPACITY,
        ensures
            Self::spec_push_all(Seq::empty(), regions) == Ok::<Seq<MemoryRegion>, BootError>(
                regions,
            ),
            Self::spec_push(regions, extra) == Err::<Seq<MemoryRegion>, BootError>(
                BootError::CapacityExceeded,
            ),
            Self::spec_push_all(Seq::empty(), regions.push(extra)) == Err::<
                Seq<MemoryRegion>,
                BootError,
            >(BootError::CapacityExceeded),
    {
        Self::lemma_push_all(Seq::empty(), regions);
        Self::lemma_push_all(Seq::empty(), regions.push(extra));
        assert(Seq::<MemoryRegion>::empty() + regions =~= regions);
    }

    /// Whether the payload holds no more regions than a memory map has room
    /// for. It holds of a new payload and is kept by every push.
    pub open spec fn wf(&self) -> bool {
        self@.len() <= MEMORY_MAP_CAPACITY
    }

    /// A payload without regions.
    pub fn new() -> (info: BootInfo)
        ensures
            info@ == Seq::<MemoryRegion>::empty(),
            info.wf(),
    {
        BootInfo { memory_map: empty_map() }
    }

    /// The number of regions.
    pub fn len(&self) -> (len: usize)
        ensures
            len == self@.len(),
    {
        map_as_slice(&self.memory_map).len()
    }

    /// The regions, first reported first.
    pub fn as_slice(&self) -> (regions: &[MemoryRegion])
        ensures
            regions@ == self@,
    {
        map_as_slice(&self.memory_map)
    }

    /// Appends a region to a memory map that is not full.
    pub fn push(&mut self, region: MemoryRegion)
        requires
            old(self)@.len() < MEMORY_MAP_CAPACITY,
        ensures
            final(self)@ == old(self)@.push(region),
            Self::spec_push(old(self)@, region) == Ok::<Seq<MemoryRegion>, BootError>(final(self)@),
            final(self).wf(),
    {
        push_to_map(&mut self.memory_map, region)
    }

    /// Appends a region if the memory map has room for it, and leaves the map
    /// as it is if it has none.
    pub fn try_push(&mut self, region: MemoryRegion) -> (result: Result<(), BootError>)
        ensures
            match Self::spec_push(old(self)@, region) {
                Ok(regions) => result is Ok && final(self)@ == regions,
                Err(error) => result == Err::<(), BootError>(error) && final(self)@ == old(self)@,
            },
            old(self).wf() ==> final(self).wf(),
    {
        if self.len() < MEMORY_MAP_CAPACITY {
            self.push(region);
            Ok(())
        } else {
            Err(BootError::CapacityExceeded)
        }
    }
}

} // verus!
