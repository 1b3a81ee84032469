//! A descriptor allocator that grows by pools and recycles them.
//!
//! Sets are allocated from the current pool; when it runs out of memory a
//! further pool is taken, reused from the free pools where there is one.
//! Resetting hands every used pool back to the free pools.
use vstd::prelude::*;
use crate::vulkan::device::LogicalDeviceError;
use crate::vulkan::error::VulkanError;

verus! {

/// Errors of the descriptor allocator
#[derive(Clone, Copy, Debug, PartialEq, Eq, Structural)]
pub enum DescriptorAllocatorError {
    DeviceError(LogicalDeviceError),
}

/// The kinds of descriptors
#[derive(Clone, Copy, Debug, PartialEq, Eq, Structural)]
pub enum DescriptorType {
    Sampler,
    CombinedImageSampler,
    SampledImage,
    StorageImage,
    UniformTexelBuffer,
    StorageTexelBuffer,
    UniformBuffer,
    StorageBuffer,
    UniformBufferDynamic,
    StorageBufferDynamic,
    InputAttachment,
}

/// The descriptor type that the position of a reflected descriptor type
/// (in the order undefined, sampler, combined image sampler, sampled image,
/// storage image, uniform texel buffer, storage texel buffer, uniform buffer,
/// storage buffer, dynamic uniform buffer, dynamic storage buffer, input
/// attachment) stands for; an undefined type is taken as a sampler.
pub open spec fn reflected_descriptor_type(code: u32) -> DescriptorType {
    if code <= 1 { DescriptorType::Sampler }
    else if code == 2 { DescriptorType::CombinedImageSampler }
    else if code == 3 { DescriptorType::SampledImage }
    else if code == 4 { DescriptorType::StorageImage }
    else if code == 5 { DescriptorType::UniformTexelBuffer }
    else if code == 6 { DescriptorType::StorageTexelBuffer }
    else if code == 7 { DescriptorType::UniformBuffer }
    else if code == 8 { DescriptorType::StorageBuffer }
    else if code == 9 { DescriptorType::UniformBufferDynamic }
    else if code == 10 { DescriptorType::StorageBufferDynamic }
    else { DescriptorType::InputAttachment }
}

impl DescriptorType {
    /// The descriptor type of a reflected descriptor type, given by its
    /// position (see [reflected_descriptor_type]); acceleration structures
    /// (position 12) are not supported.
    pub fn from_reflected(code: u32) -> (t: DescriptorType)
        requires
            code <= 11,
        ensures
            t == reflected_descriptor_type(code),
    {
        if code <= 1 {
            DescriptorType::Sampler
        } else if code == 2 {
            DescriptorType::CombinedImageSampler
        } else if code == 3 {
            DescriptorType::SampledImage
        } else if code == 4 {
            DescriptorType::StorageImage
        } else if code == 5 {
            DescriptorType::UniformTexelBuffer
        } else if code == 6 {
            DescriptorType::StorageTexelBuffer
        } else if code == 7 {
            DescriptorType::UniformBuffer
        } else if code == 8 {
            DescriptorType::StorageBuffer
        } else if code == 9 {
            DescriptorType::UniformBufferDynamic
        } else if code == 10 {
            DescriptorType::StorageBufferDynamic
        } else {
            DescriptorType::InputAttachment
        }
    }

    /// The raw `VkDescriptorType`.
    pub fn to_raw(self) -> (r: i32)
        ensures
            r == (match self {
                DescriptorType::Sampler => 0i32,
                DescriptorType::CombinedImageSampler => 1i32,
                DescriptorType::SampledImage => 2i32,
                DescriptorType::StorageImage => 3i32,
                DescriptorType::UniformTexelBuffer => 4i32,
                DescriptorType::StorageTexelBuffer => 5i32,
                DescriptorType::UniformBuffer => 6i32,
                DescriptorType::StorageBuffer => 7i32,
                DescriptorType::UniformBufferDynamic => 8i32,
                DescriptorType::StorageBufferDynamic => 9i32,
                DescriptorType::InputAttachment => 10i32,
            }),
    {
        match self {
            DescriptorType::Sampler => 0,
            DescriptorType::CombinedImageSampler => 1,
            DescriptorType::SampledImage => 2,
            DescriptorType::StorageImage => 3,
            DescriptorType::UniformTexelBuffer => 4,
            DescriptorType::StorageTexelBuffer => 5,
            DescriptorType::UniformBuffer => 6,
            DescriptorType::StorageBuffer => 7,
            DescriptorType::UniformBufferDynamic => 8,
            DescriptorType::StorageBufferDynamic => 9,
            DescriptorType::InputAttachment => 10,
        }
    }
}

/// The number of descriptor sets a newly created pool is sized for.
pub const NEW_POOL_SET_COUNT: u32 = 1000;

/// The pools of a descriptor allocator, by raw handle (0 stands for none).
pub struct DescriptorAllocator {
    /// The pool sets are allocated from, or 0
    pub current_pool: u64,
    /// The pools taken since the last reset, in the order taken
    pub used_pools: Vec<u64>,
    /// The pools reset and ready to be taken again; the last is taken first
    pub free_pools: Vec<u64>,
}

/// All the pools an allocator holds: the used ones, then the free ones.
pub open spec fn all_pools(a: &DescriptorAllocator) -> Seq<u64> {
    a.used_pools@ + a.free_pools@
}

/// No pool is held twice, none is both used and free, and none is null.
pub open spec fn pools_distinct(used: Seq<u64>, free: Seq<u64>) -> bool {
    &&& used.no_duplicates()
    &&& free.no_duplicates()
    &&& forall|i: int, j: int| 0 <= i < used.len() && 0 <= j < free.len() ==> used[i] != free[j]
    &&& !used.contains(0)
    &&& !free.contains(0)
}

/// Where an allocation stands between two steps of
/// [DescriptorAllocator::allocate_step].
#[derive(Clone, Copy, Debug, PartialEq, Eq, Structural)]
pub enum AllocationPhase {
    /// No allocation is under way
    Idle,
    /// A new pool was asked for; `retry` once the current pool ran out of memory
    AwaitingPool { retry: bool },
    /// A set was asked for from the current pool; `retry` on the further pool
    AwaitingSet { retry: bool },
}

/// What the device reports back to [DescriptorAllocator::allocate_step].
#[derive(Clone, Copy, Debug, PartialEq, Eq, Structural)]
pub enum AllocationEvent {
    /// A set is to be allocated
    Start,
    /// The pool that was asked for was created, by raw handle
    PoolCreated(u64),
    /// Creating the pool failed
    PoolFailed(DescriptorAllocatorError),
    /// A set was allocated from the pool asked, by raw handle
    SetAllocated(u64),
    /// Allocating from the pool asked failed
    SetFailed(VulkanError),
}

/// What [DescriptorAllocator::allocate_step] asks the device to do next.
#[derive(Clone, Copy, Debug, PartialEq, Eq, Structural)]
pub enum AllocationAction {
    /// Create a pool sized for this many sets and report it
    CreatePool(u32),
    /// Allocate one set from this pool and report it
    AllocateFrom(u64),
    /// The allocation is over: this set, by raw handle, was allocated
    Allocated(u64),
    /// The allocation is over: it failed with this error
    Failed(DescriptorAllocatorError),
}

/// The events that can answer an action asked in a phase.
pub open spec fn event_fits(phase: AllocationPhase, event: AllocationEvent) -> bool {
    match phase {
        AllocationPhase::Idle => event is Start,
        AllocationPhase::AwaitingPool { .. } => event is PoolFailed || (event matches AllocationEvent::PoolCreated(p) && p != 0),
        AllocationPhase::AwaitingSet { .. } => event is SetAllocated || event is SetFailed,
    }
}

/// The pools are as they were.
pub open spec fn same_pools(before: &DescriptorAllocator, after: &DescriptorAllocator) -> bool {
    &&& after.current_pool == before.current_pool
    &&& after.used_pools@ == before.used_pools@
    &&& after.free_pools@ == before.free_pools@
}

/// Getting a pool: the most recently freed one becomes the current pool and
/// a set is asked of it; with no free pool, a new one is asked for and the
/// pools stay as they were.
pub open spec fn gets_pool(
    before: &DescriptorAllocator,
    after: &DescriptorAllocator,
    retry: bool,
    r: (AllocationPhase, AllocationAction),
) -> bool {
    if before.free_pools.len() > 0 {
        let p = before.free_pools@.last();
        &&& after.current_pool == p
        &&& after.used_pools@ == before.used_pools@.push(p)
        &&& after.free_pools@ == before.free_pools@.drop_last()
        &&& r == (AllocationPhase::AwaitingSet { retry }, AllocationAction::AllocateFrom(p))
    } else {
        &&& same_pools(before, after)
        &&& r == (AllocationPhase::AwaitingPool { retry }, AllocationAction::CreatePool(NEW_POOL_SET_COUNT))
    }
}

/// One step of allocating a set: from the phase and what the device
/// reported, the pools after the step, the next phase and the action.
pub open spec fn allocate_step_spec(
    before: &DescriptorAllocator,
    after: &DescriptorAllocator,
    phase: AllocationPhase,
    event: AllocationEvent,
    r: (AllocationPhase, AllocationAction),
) -> bool {
    match (phase, event) {
        (AllocationPhase::Idle, _) => if before.current_pool == 0 {
            gets_pool(before, after, false, r)
        } else {
            same_pools(before, after)
                && r == (AllocationPhase::AwaitingSet { retry: false }, AllocationAction::AllocateFrom(before.current_pool))
        },
        (AllocationPhase::AwaitingPool { retry }, AllocationEvent::PoolCreated(p)) => {
            &&& after.current_pool == p
            &&& after.used_pools@ == before.used_pools@.push(p)
            &&& after.free_pools@ == before.free_pools@
            &&& r == (AllocationPhase::AwaitingSet { retry }, AllocationAction::AllocateFrom(p))
        },
        (AllocationPhase::AwaitingPool { .. }, AllocationEvent::PoolFailed(e)) =>
            same_pools(before, after) && r == (AllocationPhase::Idle, AllocationAction::Failed(e)),
        (AllocationPhase::AwaitingSet { .. }, AllocationEvent::SetAllocated(set)) =>
            same_pools(before, after) && r == (AllocationPhase::Idle, AllocationAction::Allocated(set)),
        (AllocationPhase::AwaitingSet { retry }, AllocationEvent::SetFailed(e)) =>
            if !retry && e == VulkanError::OutOfPoolMemory {
                gets_pool(before, after, true, r)
            } else {
                same_pools(before, after) && r == (AllocationPhase::Idle, AllocationAction::Failed(
                    DescriptorAllocatorError::DeviceError(LogicalDeviceError::Other(e)),
                ))
            },
        _ => true,
    }
}

impl DescriptorAllocator {
    /// Well-formed: a current pool is one of the used pools, and the pools
    /// are distinct, none both used and free.
    pub open spec fn wf(&self) -> bool {
        &&& self.current_pool != 0 ==> self.used_pools@.contains(self.current_pool)
        &&& pools_distinct(self.used_pools@, self.free_pools@)
    }

    /// An allocator with no pools.
    pub fn new() -> (a: DescriptorAllocator)
        ensures
            a.wf(),
            a.current_pool == 0,
            a.used_pools@ == Seq::<u64>::empty(),
            a.free_pools@ == Seq::<u64>::empty(),
    {
        DescriptorAllocator { current_pool: 0, used_pools: Vec::new(), free_pools: Vec::new() }
    }

    /// Whether the allocator holds this pool, used or free.
    pub fn holds_pool(&self, pool: u64) -> (r: bool)
        ensures
            r == (self.used_pools@.contains(pool) || self.free_pools@.contains(pool)),
    {
        let mut i: usize = 0;
        while i < self.used_pools.len()
            invariant
                i <= self.used_pools.len(),
                forall|k: int| 0 <= k < i ==> self.used_pools@[k] != pool,
            decreases self.used_pools.len() - i,
        {
            if self.used_pools[i] == pool {
                return true;
            }
            i = i + 1;
        }
        let mut j: usize = 0;
        while j < self.free_pools.len()
            invariant
                j <= self.free_pools.len(),
                !self.used_pools@.contains(pool),
                forall|k: int| 0 <= k < j ==> self.free_pools@[k] != pool,
            decreases self.free_pools.len() - j,
        {
            if self.free_pools[j] == pool {
                return true;
            }
            j = j + 1;
        }
        false
    }

    /// Makes `pool` the current pool, recording it as used.
    fn use_pool(&mut self, pool: u64)
        requires
            old(self).wf(),
            pool != 0,
            !old(self).used_pools@.contains(pool),
            !old(self).free_pools@.contains(pool),
        ensures
            final(self).wf(),
            final(self).current_pool == pool,
            final(self).used_pools@ == old(self).used_pools@.push(pool),
            final(self).free_pools@ == old(self).free_pools@,
    {
        let ghost used = self.used_pools@;
        self.current_pool = pool;
        self.used_pools.push(pool);
        assert(self.used_pools@[self.used_pools@.len() - 1] == pool);
        assert forall|i: int, j: int| 0 <= i < self.used_pools@.len() && 0 <= j < self.free_pools@.len()
            implies self.used_pools@[i] != self.free_pools@[j] by {
            if i < used.len() {
                assert(self.used_pools@[i] == used[i]);
            } else {
                assert(self.free_pools@.contains(self.free_pools@[j]));
            }
        }
        assert forall|a: int, b: int| 0 <= a < self.used_pools@.len() && 0 <= b < self.used_pools@.len() && a != b
            implies self.used_pools@[a] != self.used_pools@[b] by {
            if a < used.len() && b < used.len() {
            } else if a < used.len() {
                assert(used.contains(used[a]));
            } else {
                assert(used.contains(used[b]));
            }
        }
        assert(!self.used_pools@.contains(0)) by {
            if self.used_pools@.contains(0) {
                let k = choose|k: int| 0 <= k < self.used_pools@.len() && self.used_pools@[k] == 0;
                if k < used.len() {
                    assert(used.contains(used[k]));
                }
            }
        }
    }

    /// Gets a pool to allocate from: the most recently freed one, or else a
    /// new one is asked for.
    fn get_pool(&mut self, retry: bool) -> (r: (AllocationPhase, AllocationAction))
        requires
            old(self).wf(),
        ensures
            final(self).wf(),
            gets_pool(&*old(self), &*final(self), retry, r),
    {
        match self.free_pools.pop() {
            Some(pool) => {
                let ghost before = *old(self);
                proof {
                    let free = before.free_pools@;
                    assert(free.last() == pool);
                    assert(free.contains(pool));
                    assert(!self.used_pools@.contains(pool)) by {
                        if self.used_pools@.contains(pool) {
                            let k = choose|k: int| 0 <= k < self.used_pools@.len() && self.used_pools@[k] == pool;
                            assert(self.used_pools@[k] != free[free.len() - 1]);
                        }
                    }
                    assert(!self.free_pools@.contains(pool)) by {
                        if self.free_pools@.contains(pool) {
                            let k = choose|k: int| 0 <= k < self.free_pools@.len() && self.free_pools@[k] == pool;
                            assert(free[k] == free[free.len() - 1]);
                        }
                    }
                    assert(self.free_pools@.no_duplicates()) by {
                        assert forall|a: int, b: int| 0 <= a < self.free_pools@.len() && 0 <= b < self.free_pools@.len() && a != b
                            implies self.free_pools@[a] != self.free_pools@[b] by {
                            assert(free[a] != free[b]);
                        }
                    }
                    assert(!self.free_pools@.contains(0)) by {
                        if self.free_pools@.contains(0) {
                            let k = choose|k: int| 0 <= k < self.free_pools@.len() && self.free_pools@[k] == 0;
                            assert(free.contains(free[k]));
                        }
                    }
                    assert forall|i: int, j: int| 0 <= i < self.used_pools@.len() && 0 <= j < self.free_pools@.len()
                        implies self.used_pools@[i] != self.free_pools@[j] by {
                        assert(free[j] == self.free_pools@[j]);
                    }
                    assert(pool != 0);
                }
                self.use_pool(pool);
                (AllocationPhase::AwaitingSet { retry }, AllocationAction::AllocateFrom(pool))
            },
            None => (AllocationPhase::AwaitingPool { retry }, AllocationAction::CreatePool(NEW_POOL_SET_COUNT)),
        }
    }

    /// One step of allocating a descriptor set, between the device's reports.
    ///
    /// An allocation starts with [AllocationEvent::Start] in the idle phase.
    /// With no current pool, one is got first: the most recently freed pool,
    /// or a new pool of [NEW_POOL_SET_COUNT] sets that the device is asked to
    /// create. A set is then asked of the current pool. When that runs out of
    /// pool memory, a further pool is got the same way and the set is asked
    /// of it once more; any other failure, or a second failure, ends the
    /// allocation with the error, as does a failure to create a pool. Every
    /// step keeps the allocator well-formed.
    pub fn allocate_step(&mut self, phase: AllocationPhase, event: AllocationEvent) -> (r: (AllocationPhase, AllocationAction))
        requires
            old(self).wf(),
            event_fits(phase, event),
            event matches AllocationEvent::PoolCreated(p) ==> !old(self).used_pools@.contains(p)
                && !old(self).free_pools@.contains(p),
        ensures
            final(self).wf(),
            allocate_step_spec(&*old(self), &*final(self), phase, event, r),
    {
        match phase {
            AllocationPhase::Idle => {
                if self.current_pool == 0 {
                    self.get_pool(false)
                } else {
                    (AllocationPhase::AwaitingSet { retry: false }, AllocationAction::AllocateFrom(self.current_pool))
                }
            },
            AllocationPhase::AwaitingPool { retry } => match event {
                AllocationEvent::PoolCreated(pool) => {
                    self.use_pool(pool);
                    (AllocationPhase::AwaitingSet { retry }, AllocationAction::AllocateFrom(pool))
                },
                AllocationEvent::PoolFailed(e) => (AllocationPhase::Idle, AllocationAction::Failed(e)),
                _ => {
                    proof { assert(false); }
                    (AllocationPhase::Idle, AllocationAction::Failed(DescriptorAllocatorError::DeviceError(
                        LogicalDeviceError::Other(VulkanError::Unknown),
                    )))
                },
            },
            AllocationPhase::AwaitingSet { retry } => match event {
                AllocationEvent::SetAllocated(set) => (AllocationPhase::Idle, AllocationAction::Allocated(set)),
                AllocationEvent::SetFailed(e) => {
                    if !retry && e == VulkanError::OutOfPoolMemory {
                        self.get_pool(true)
                    } else {
                        (AllocationPhase::Idle, AllocationAction::Failed(
                            DescriptorAllocatorError::DeviceError(LogicalDeviceError::Other(e)),
                        ))
                    }
                },
                _ => {
                    proof { assert(false); }
                    (AllocationPhase::Idle, AllocationAction::Failed(DescriptorAllocatorError::DeviceError(
                        LogicalDeviceError::Other(VulkanError::Unknown),
                    )))
                },
            },
        }
    }

    /// Resets the allocator: returns the used pools, in order, for each to be
    /// reset; they join the free pools after those already free, and no pool
    /// is current.
    pub fn reset_pools(&mut self) -> (reset: Vec<u64>)
        requires
            old(self).wf(),
        ensures
            final(self).wf(),
            reset@ == old(self).used_pools@,
            final(self).current_pool == 0,
            final(self).used_pools@ == Seq::<u64>::empty(),
            final(self).free_pools@ == old(self).free_pools@ + old(self).used_pools@,
    {
        let mut reset: Vec<u64> = Vec::new();
        let mut i: usize = 0;
        while i < self.used_pools.len()
            invariant
                i <= self.used_pools.len(),
                self.used_pools@ == old(self).used_pools@,
                reset@ == old(self).used_pools@.take(i as int),
                self.free_pools@ == old(self).free_pools@ + old(self).used_pools@.take(i as int),
            decreases self.used_pools.len() - i,
        {
            let pool = self.used_pools[i];
            reset.push(pool);
            self.free_pools.push(pool);
            assert(old(self).used_pools@.take(i + 1) == old(self).used_pools@.take(i as int).push(pool));
            i = i + 1;
        }
        assert(old(self).used_pools@.take(i as int) == old(self).used_pools@);
        proof {
            lemma_freed_pools_distinct(old(self).used_pools@, old(self).free_pools@);
        }
        self.used_pools.clear();
        self.current_pool = 0;
        reset
    }

    /// Every pool the allocator holds, used then free, to be destroyed.
    pub fn pools_to_destroy(&self) -> (r: Vec<u64>)
        ensures
            r@ == all_pools(self),
    {
        let mut out: Vec<u64> = Vec::new();
        let mut i: usize = 0;
        while i < self.used_pools.len()
            invariant
                i <= self.used_pools.len(),
                out@ == self.used_pools@.take(i as int),
            decreases self.used_pools.len() - i,
        {
            out.push(self.used_pools[i]);
            assert(self.used_pools@.take(i + 1) == self.used_pools@.take(i as int).push(self.used_pools@[i as int]));
            i = i + 1;
        }
        assert(self.used_pools@.take(i as int) == self.used_pools@);
        let mut j: usize = 0;
        while j < self.free_pools.len()
            invariant
                j <= self.free_pools.len(),
                out@ == self.used_pools@ + self.free_pools@.take(j as int),
            decreases self.free_pools.len() - j,
        {
            out.push(self.free_pools[j]);
            assert(self.free_pools@.take(j + 1) == self.free_pools@.take(j as int).push(self.free_pools@[j as int]));
            j = j + 1;
        }
        assert(self.free_pools@.take(j as int) == self.free_pools@);
        out
    }
}

/// Every set is asked of the allocator's current pool, one of its used
/// pools; and once a set has been asked of a further pool, the next step
/// ends the allocation, so no pool is taken a third time for one set.
pub proof fn lemma_allocation_steps(
    before: &DescriptorAllocator,
    after: &DescriptorAllocator,
    phase: AllocationPhase,
    event: AllocationEvent,
    r: (AllocationPhase, AllocationAction),
)
    requires
        before.wf(),
        after.wf(),
        event_fits(phase, event),
        allocate_step_spec(before, after, phase, event, r),
    ensures
        r.1 matches AllocationAction::AllocateFrom(p) ==> p == after.current_pool && after.used_pools@.contains(p),
        phase == (AllocationPhase::AwaitingSet { retry: true }) ==> r.0 == AllocationPhase::Idle,
        r.0 == AllocationPhase::Idle <==> (r.1 is Allocated || r.1 is Failed),
{
    if r.1 is AllocateFrom {
        let p = r.1->AllocateFrom_0;
        if before.free_pools.len() > 0 {
            assert(before.free_pools@.contains(before.free_pools@.last()));
        }
        assert(p != 0);
    }
}

/// Distinct used and free pools stay distinct when the used ones join the
/// free ones.
proof fn lemma_freed_pools_distinct(used: Seq<u64>, free: Seq<u64>)
    requires
        pools_distinct(used, free),
    ensures
        pools_distinct(Seq::<u64>::empty(), free + used),
{
    let all = free + used;
    assert forall|a: int, b: int| 0 <= a < all.len() && 0 <= b < all.len() && a != b
        implies all[a] != all[b] by {
        if a < free.len() && b < free.len() {
        } else if a >= free.len() && b >= free.len() {
            assert(all[a] == used[a - free.len()]);
            assert(all[b] == used[b - free.len()]);
        } else if a < free.len() {
            assert(all[b] == used[b - free.len()]);
        } else {
            assert(all[a] == used[a - free.len()]);
        }
    }
    assert(!all.contains(0)) by {
        if all.contains(0) {
            let k = choose|k: int| 0 <= k < all.len() && all[k] == 0;
            if k < free.len() {
                assert(free.contains(free[k]));
            } else {
                assert(used[k - free.len()] == 0);
                assert(used.contains(used[k - free.len()]));
            }
        }
    }
}

/// Resetting keeps every pool: the pools held before and after a reset are
/// the same, counted with multiplicity.
pub proof fn lemma_reset_keeps_pools(before: &DescriptorAllocator, after: &DescriptorAllocator)
    requires
        after.used_pools@ == Seq::<u64>::empty(),
        after.free_pools@ == before.free_pools@ + before.used_pools@,
    ensures
        all_pools(after).to_multiset() == all_pools(before).to_multiset(),
{
    broadcast use vstd::multiset::group_multiset_axioms;
    let used = before.used_pools@;
    let free = before.free_pools@;
    vstd::seq_lib::lemma_multiset_commutative(free, used);
    vstd::seq_lib::lemma_multiset_commutative(used, free);
    assert(Seq::<u64>::empty() + (free + used) == free + used);
    assert(free.to_multiset().add(used.to_multiset()) =~= used.to_multiset().add(free.to_multiset()));
}

/// Taking a free pool and using it keeps every pool: the pools held before
/// and after, counted with multiplicity, are the same.
pub proof fn lemma_take_and_use_keeps_pools(before: &DescriptorAllocator, after: &DescriptorAllocator)
    requires
        before.free_pools.len() > 0,
        after.used_pools@ == before.used_pools@.push(before.free_pools@.last()),
        after.free_pools@ == before.free_pools@.drop_last(),
    ensures
        all_pools(after).to_multiset() == all_pools(before).to_multiset(),
{
    broadcast use vstd::multiset::group_multiset_axioms;
    let used = before.used_pools@;
    let free = before.free_pools@;
    let p = free.last();
    let rest = free.drop_last();
    assert(free == rest.push(p));
    vstd::seq_lib::lemma_multiset_commutative(used.push(p), rest);
    vstd::seq_lib::lemma_multiset_commutative(used, free);
    used.to_multiset_ensures();
    rest.to_multiset_ensures();
    assert(used.push(p).to_multiset() =~= used.to_multiset().insert(p));
    assert(free.to_multiset() =~= rest.to_multiset().insert(p));
    assert(used.to_multiset().insert(p).add(rest.to_multiset()) =~= used.to_multiset().add(rest.to_multiset().insert(p)));
}

} // verus!
