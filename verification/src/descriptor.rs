use vstd::prelude::*;

verus! {

/// The abstract state of a descriptor slot allocator: the next never-used
/// slot, and the stack of released slots.
pub struct DescriptorCacheModel {
    pub next: u32,
    pub free: Seq<u32>,
}

/// Every released slot was handed out before, and none is released twice.
pub open spec fn model_wf(m: DescriptorCacheModel) -> bool {
    &&& forall|i: int| 0 <= i < m.free.len() ==> m.free[i] < m.next
    &&& m.free.no_duplicates()
}

/// The slots that are handed out and not released.
pub open spec fn in_use(m: DescriptorCacheModel) -> Set<u32> {
    Set::new(|i: u32| i < m.next && !m.free.contains(i))
}

/// Whether a slot can be handed out without running past `u32::MAX`.
pub open spec fn can_allocate(m: DescriptorCacheModel) -> bool {
    m.free.len() > 0 || m.next < u32::MAX
}

/// Handing out a slot: the most recently released one if any, else the next
/// never-used one.
pub open spec fn spec_allocate(m: DescriptorCacheModel) -> (DescriptorCacheModel, u32) {
    if m.free.len() > 0 {
        (DescriptorCacheModel { next: m.next, free: m.free.drop_last() }, m.free.last())
    } else {
        (DescriptorCacheModel { next: (m.next + 1) as u32, free: m.free }, m.next)
    }
}

/// Releasing a slot puts it on top of the released stack.
pub open spec fn spec_release(m: DescriptorCacheModel, index: u32) -> DescriptorCacheModel {
    DescriptorCacheModel { next: m.next, free: m.free.push(index) }
}

/// Descriptor slot allocator of the bindless descriptor set: slots are array
/// elements of one binding, handed out to resources and given back when the
/// resource is destroyed.
pub struct DescriptorCache {
    next_descriptor: u32,
    free_descriptors: Vec<u32>,
}

impl View for DescriptorCache {
    type V = DescriptorCacheModel;

    closed spec fn view(&self) -> DescriptorCacheModel {
        DescriptorCacheModel { next: self.next_descriptor, free: self.free_descriptors@ }
    }
}

impl DescriptorCache {
    /// An allocator with no slot handed out.
    pub fn new() -> (r: Self)
        ensures
            r@.next == 0,
            r@.free.len() == 0,
            model_wf(r@),
            in_use(r@) == Set::<u32>::empty(),
    {
        let r = DescriptorCache { next_descriptor: 0, free_descriptors: Vec::new() };
        assert(in_use(r@) =~= Set::<u32>::empty());
        r
    }

    /// Whether `allocate` can be called.
    pub fn can_allocate(&self) -> (r: bool)
        ensures
            r == can_allocate(self@),
    {
        self.free_descriptors.len() > 0 || self.next_descriptor < u32::MAX
    }

    /// Hands out a slot, as `spec_allocate` states.
    pub fn allocate(&mut self) -> (r: u32)
        requires
            can_allocate(old(self)@),
        ensures
            (final(self)@, r) == spec_allocate(old(self)@),
    {
        match self.free_descriptors.pop() {
            Some(index) => index,
            None => {
                let index = self.next_descriptor;
                self.next_descriptor = self.next_descriptor + 1;
                index
            },
        }
    }

    /// Gives a slot back, as `spec_release` states.
    pub fn release(&mut self, index: u32)
        ensures
            final(self)@ == spec_release(old(self)@, index),
    {
        self.free_descriptors.push(index);
    }
}

/// A slot that is handed out was not in use before, and is the only slot
/// that joins the slots in use; the allocator stays well formed.
pub proof fn law_allocate_fresh(m: DescriptorCacheModel)
    requires
        model_wf(m),
        can_allocate(m),
    ensures
        !in_use(m).contains(spec_allocate(m).1),
        in_use(spec_allocate(m).0) == in_use(m).insert(spec_allocate(m).1),
        model_wf(spec_allocate(m).0),
        spec_allocate(m).1 < spec_allocate(m).0.next,
{
    let (m2, idx) = spec_allocate(m);
    if m.free.len() > 0 {
        assert(m.free.contains(idx)) by {
            assert(m.free[m.free.len() - 1] == idx);
        }
        assert forall|x: u32| #[trigger] m2.free.contains(x) implies m.free.contains(x) && x != idx by {
            let k = choose|k: int| 0 <= k < m2.free.len() && m2.free[k] == x;
            assert(m.free[k] == x);
        }
        assert forall|x: u32| m.free.contains(x) && x != idx implies #[trigger] m2.free.contains(x) by {
            let k = choose|k: int| 0 <= k < m.free.len() && m.free[k] == x;
            assert(k != m.free.len() - 1);
            assert(m2.free[k] == x);
        }
    } else {
        assert(!m.free.contains(idx));
    }
    assert(in_use(m2) =~= in_use(m).insert(idx));
}

/// Releasing a slot in use takes exactly that slot out of use and keeps the
/// allocator well formed.
pub proof fn law_release_frees(m: DescriptorCacheModel, index: u32)
    requires
        model_wf(m),
        in_use(m).contains(index),
    ensures
        in_use(spec_release(m, index)) == in_use(m).remove(index),
        model_wf(spec_release(m, index)),
{
    let m2 = spec_release(m, index);
    assert forall|x: u32| #[trigger] m2.free.contains(x) <==> (m.free.contains(x) || x == index) by {
        if m2.free.contains(x) {
            let k = choose|k: int| 0 <= k < m2.free.len() && m2.free[k] == x;
            if k < m.free.len() {
                assert(m.free[k] == x);
            }
        }
        if m.free.contains(x) {
            let k = choose|k: int| 0 <= k < m.free.len() && m.free[k] == x;
            assert(m2.free[k] == x);
        }
        if x == index {
            assert(m2.free[m.free.len() as int] == x);
        }
    }
    assert(in_use(m2) =~= in_use(m).remove(index));
}

/// The slot handed out right after a release is the slot just released, and
/// the allocator is back where it was.
pub proof fn law_release_then_allocate(m: DescriptorCacheModel, index: u32)
    ensures
        spec_allocate(spec_release(m, index)).1 == index,
        spec_allocate(spec_release(m, index)).0 == m,
{
    assert(m.free.push(index).drop_last() =~= m.free);
}

} // verus!
