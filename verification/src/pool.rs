//! A fixed-size pool of reusable objects with a free list.
//!
//! Members are handed out by index (a handle) instead of by raw pointer;
//! a handle stays valid for the whole life of the pool.
use vstd::prelude::*;
use vstd::set_lib::*;

verus! {

/// One slot of the pool: the stored object and whether it is free.
pub struct PoolMember<T> {
    is_free: bool,
    val: T,
}

impl<T> PoolMember<T> {
    /// Whether the slot is free (spec accessor).
    pub closed spec fn spec_is_free(&self) -> bool {
        self.is_free
    }

    /// The stored object (spec accessor).
    pub closed spec fn spec_val(&self) -> T {
        self.val
    }

    /// Creates a slot holding `val` with the given free flag.
    pub fn new(is_free: bool, val: T) -> (r: Self)
        ensures
            r.spec_is_free() == is_free,
            r.spec_val() == val,
    {
        Self { is_free, val }
    }

    /// Gives mutable access to the stored object; the free flag is untouched.
    pub fn get_value(&mut self) -> (r: &mut T)
        ensures
            *r == old(self).spec_val(),
            final(self).spec_val() == *final(r),
            final(self).spec_is_free() == old(self).spec_is_free(),
    {
        &mut self.val
    }

    /// Whether the slot is free.
    pub fn is_free(&self) -> (r: bool)
        ensures
            r == self.spec_is_free(),
    {
        self.is_free
    }
}

/// The abstract state of a pool.
pub struct PoolModel<T> {
    /// `free[i]` tells whether slot `i` may be handed out.
    pub free: Seq<bool>,
    /// The objects held by the slots.
    pub values: Seq<T>,
    /// The free list; its entries from `next_free` on are the free slots.
    pub free_list: Seq<usize>,
    /// Position in `free_list` of the next slot to hand out.
    pub next_free: nat,
    /// Number of free slots.
    pub free_count: nat,
}

impl<T> PoolModel<T> {
    /// Number of slots.
    pub open spec fn capacity(self) -> nat {
        self.free.len()
    }

    /// The part of the free list that names free slots.
    pub open spec fn available(self) -> Seq<usize> {
        self.free_list.subrange(self.next_free as int, self.free_list.len() as int)
    }

    /// The set of free slots.
    pub open spec fn free_slots(self) -> Set<int> {
        Set::new(|k: int| 0 <= k < self.capacity() && self.free[k])
    }

    /// Well-formedness: the free list from `next_free` on holds each free slot exactly once.
    pub open spec fn wf(self) -> bool {
        &&& self.free.len() <= usize::MAX
        &&& self.values.len() == self.free.len()
        &&& self.free_list.len() == self.free.len()
        &&& self.next_free <= self.free.len()
        &&& self.free_count + self.next_free == self.free.len()
        &&& self.available().no_duplicates()
        &&& forall|i: int|
            0 <= i < self.available().len() ==> {
                &&& (#[trigger] self.available()[i]) < self.capacity()
                &&& self.free[self.available()[i] as int]
            }
        &&& forall|k: int|
            0 <= k < self.capacity() && #[trigger] self.free[k] ==> self.available().contains(
                k as usize,
            )
    }

    /// The effect of `acquire`: the new state and the handle handed out.
    pub open spec fn acquire_step(self) -> (PoolModel<T>, Option<usize>) {
        if self.free_count > 0 {
            let slot = self.free_list[self.next_free as int];
            if self.free[slot as int] {
                (
                    PoolModel {
                        free: self.free.update(slot as int, false),
                        next_free: self.next_free + 1,
                        free_count: (self.free_count - 1) as nat,
                        ..self
                    },
                    Some(slot),
                )
            } else {
                (PoolModel { free_count: (self.free_count - 1) as nat, ..self }, None)
            }
        } else {
            (self, None)
        }
    }

    /// The effect of `release(handle)`.
    pub open spec fn release_step(self, handle: usize) -> PoolModel<T> {
        if self.next_free > 0 && !self.free[handle as int] {
            PoolModel {
                free: self.free.update(handle as int, true),
                free_list: self.free_list.update(self.next_free - 1, handle),
                next_free: (self.next_free - 1) as nat,
                free_count: self.free_count + 1,
                ..self
            }
        } else {
            self
        }
    }
}

/// A pool of `T` objects created up front and handed out one at a time.
/// Not thread-safe.
pub struct MemPool<T> {
    pool: Vec<PoolMember<T>>,
    free_count: usize,
    next_free_index: usize,
    free_index_list: Vec<usize>,
}

impl<T> View for MemPool<T> {
    type V = PoolModel<T>;

    closed spec fn view(&self) -> PoolModel<T> {
        PoolModel {
            free: self.pool@.map_values(|m: PoolMember<T>| m.is_free),
            values: self.pool@.map_values(|m: PoolMember<T>| m.val),
            free_list: self.free_index_list@,
            next_free: self.next_free_index as nat,
            free_count: self.free_count as nat,
        }
    }
}

/// If no slot is handed out, every slot is free.
proof fn lemma_all_free_when_none_out<T>(m: PoolModel<T>)
    requires
        m.wf(),
        m.next_free == 0,
    ensures
        forall|k: int| 0 <= k < m.capacity() ==> m.free[k],
{
    let n = m.capacity() as int;
    let s = m.available().map_values(|x: usize| x as int);
    m.available().lemma_no_duplicates_injective(|x: usize| x as int);
    s.unique_seq_to_set();
    lemma_int_range(0, n);
    assert(s.to_set().subset_of(set_int_range(0, n))) by {
        assert forall|x: int| s.to_set().contains(x) implies set_int_range(0, n).contains(x) by {
            let i = choose|i: int| 0 <= i < s.len() && s[i] == x;
            assert(m.available()[i] < m.capacity());
        }
    }
    lemma_subset_equality(s.to_set(), set_int_range(0, n));
    assert forall|k: int| 0 <= k < m.capacity() implies m.free[k] by {
        assert(set_int_range(0, n).contains(k));
        assert(s.to_set().contains(k));
        let i = choose|i: int| 0 <= i < s.len() && s[i] == k;
        assert(m.available()[i] as int == k);
    }
}

/// A slot that is in use implies that something has been handed out.
proof fn lemma_in_use_means_handed_out<T>(m: PoolModel<T>, h: int)
    requires
        m.wf(),
        0 <= h < m.capacity(),
        !m.free[h],
    ensures
        m.next_free > 0,
{
    if m.next_free == 0 {
        lemma_all_free_when_none_out(m);
    }
}

/// `acquire` keeps the pool well-formed.
proof fn lemma_acquire_keeps_wf<T>(m: PoolModel<T>)
    requires
        m.wf(),
    ensures
        m.acquire_step().0.wf(),
{
    if m.free_count > 0 {
        let slot = m.free_list[m.next_free as int];
        let m2 = m.acquire_step().0;
        assert(m.available()[0] == slot);
        assert(m2.available() =~= m.available().drop_first());
        assert forall|i: int| 0 <= i < m2.available().len() implies {
            &&& (#[trigger] m2.available()[i]) < m2.capacity()
            &&& m2.free[m2.available()[i] as int]
        } by {
            assert(m2.available()[i] == m.available()[i + 1]);
            assert(m.available()[i + 1] != m.available()[0]);
        }
        assert forall|k: int| 0 <= k < m2.capacity() && #[trigger] m2.free[k] implies m2.available().contains(
            k as usize,
        ) by {
            assert(m.free[k]);
            let i = choose|i: int| 0 <= i < m.available().len() && m.available()[i] == k as usize;
            assert(i != 0);
            assert(m2.available()[i - 1] == k as usize);
        }
    }
}

/// `release` keeps the pool well-formed.
proof fn lemma_release_keeps_wf<T>(m: PoolModel<T>, h: usize)
    requires
        m.wf(),
        h < m.capacity(),
    ensures
        m.release_step(h).wf(),
{
    if m.next_free > 0 && !m.free[h as int] {
        let m2 = m.release_step(h);
        assert(m2.available() =~= seq![h] + m.available());
        assert(!m.available().contains(h));
        assert(m2.available().no_duplicates()) by {
            assert forall|i: int, j: int|
                0 <= i < m2.available().len() && 0 <= j < m2.available().len() && i != j
                    implies m2.available()[i] != m2.available()[j] by {
                if i == 0 {
                    assert(m2.available()[j] == m.available()[j - 1]);
                } else if j == 0 {
                    assert(m2.available()[i] == m.available()[i - 1]);
                } else {
                    assert(m2.available()[i] == m.available()[i - 1]);
                    assert(m2.available()[j] == m.available()[j - 1]);
                }
            }
        }
        assert forall|i: int| 0 <= i < m2.available().len() implies {
            &&& (#[trigger] m2.available()[i]) < m2.capacity()
            &&& m2.free[m2.available()[i] as int]
        } by {
            if i > 0 {
                assert(m2.available()[i] == m.available()[i - 1]);
            }
        }
        assert forall|k: int| 0 <= k < m2.capacity() && #[trigger] m2.free[k] implies m2.available().contains(
            k as usize,
        ) by {
            if k == h as int {
                assert(m2.available()[0] == h);
            } else {
                assert(m.free[k]);
                let i = choose|i: int| 0 <= i < m.available().len() && m.available()[i] == k as usize;
                assert(m2.available()[i + 1] == k as usize);
            }
        }
    }
}

impl<T> MemPool<T> {
    /// Well-formedness of the pool.
    pub open spec fn wf(&self) -> bool {
        self@.wf()
    }

    /// Creates a pool of `size` objects, each made by calling `closure`; all slots start free.
    pub fn new<F: Fn() -> T>(size: usize, closure: F) -> (s: Self)
        requires
            forall|| #[trigger] closure.requires(()),
        ensures
            s.wf(),
            s@.capacity() == size,
            s@.free_count == size,
            s@.next_free == 0,
            forall|i: int| 0 <= i < size ==> s@.free[i],
            forall|i: int| 0 <= i < size ==> s@.free_list[i] == i,
            forall|i: int| 0 <= i < size ==> closure.ensures((), #[trigger] s@.values[i]),
    {
        let mut pool: Vec<PoolMember<T>> = Vec::with_capacity(size);
        let mut free_index_list: Vec<usize> = Vec::with_capacity(size);
        let mut i: usize = 0;
        while i < size
            invariant
                i <= size,
                pool@.len() == i,
                free_index_list@.len() == i,
                forall||#[trigger] closure.requires(()),
                forall|j: int| 0 <= j < i ==> (#[trigger] pool@[j]).is_free,
                forall|j: int| 0 <= j < i ==> #[trigger] free_index_list@[j] == j,
                forall|j: int| 0 <= j < i ==> closure.ensures((), (#[trigger] pool@[j]).val),
            decreases size - i,
        {
            let v = closure();
            pool.push(PoolMember::new(true, v));
            free_index_list.push(i);
            i = i + 1;
        }
        let s = Self { pool, free_count: size, next_free_index: 0, free_index_list };
        proof {
            let m = s@;
            assert(m.available() =~= m.free_list);
            assert(m.available().no_duplicates());
            assert forall|k: int| 0 <= k < m.capacity() && #[trigger] m.free[k] implies m.available().contains(
                k as usize,
            ) by {
                assert(m.available()[k] == k as usize);
            }
        }
        s
    }

    /// Number of free slots.
    pub fn free_count(&self) -> (r: usize)
        ensures
            r == self@.free_count,
    {
        self.free_count
    }

    /// Position in the free list of the next slot to hand out; equals the number of slots in use.
    pub fn next_free_index(&self) -> (r: usize)
        ensures
            r == self@.next_free,
    {
        self.next_free_index
    }

    /// Number of slots.
    pub fn capacity(&self) -> (r: usize)
        requires
            self.wf(),
        ensures
            r == self@.capacity(),
    {
        self.pool.len()
    }

    /// Hands out a free slot and marks it in use; `None` when every slot is in use.
    /// The slot handed out is the one the free list names next.
    pub fn acquire(&mut self) -> (r: Option<usize>)
        requires
            old(self).wf(),
        ensures
            final(self).wf(),
            (final(self)@, r) == old(self)@.acquire_step(),
            final(self)@.values == old(self)@.values,
            r is Some <==> old(self)@.free_count > 0,
            r matches Some(h) ==> h < old(self)@.capacity() && old(self)@.free[h as int]
                && !final(self)@.free[h as int],
    {
        proof {
            lemma_acquire_keeps_wf(self@);
        }
        if self.free_count > 0 {
            self.free_count = self.free_count - 1;
            let free = self.free_index_list[self.next_free_index];
            proof {
                assert(self@.available()[0] == free);
            }
            if self.pool[free].is_free {
                self.next_free_index = self.next_free_index + 1;
                self.pool[free].is_free = false;
                proof {
                    assert(self@.free =~= old(self)@.free.update(free as int, false));
                    assert(self@.values =~= old(self)@.values);
                }
                return Some(free);
            }
        }
        None
    }

    /// Puts the slot `obj` back for reuse; releasing a slot that is already free has no effect.
    pub fn release(&mut self, obj: usize)
        requires
            old(self).wf(),
            obj < old(self)@.capacity(),
        ensures
            final(self).wf(),
            final(self)@ == old(self)@.release_step(obj),
            final(self)@.values == old(self)@.values,
            forall|k: int| 0 <= k < old(self)@.capacity() && k != obj ==> #[trigger] final(self)@.free[k]
                == old(self)@.free[k],
            final(self)@.free[obj as int],
            !old(self)@.free[obj as int] ==> {
                &&& final(self)@.free_count == old(self)@.free_count + 1
                &&& final(self)@.next_free + 1 == old(self)@.next_free
                &&& final(self)@.free_slots() == old(self)@.free_slots().insert(obj as int)
            },
            old(self)@.free[obj as int] ==> final(self)@ == old(self)@,
    {
        proof {
            lemma_release_keeps_wf(self@, obj);
            if !self@.free[obj as int] {
                lemma_in_use_means_handed_out(self@, obj as int);
            }
        }
        if self.next_free_index > 0 && !self.pool[obj].is_free {
            self.free_index_list.set(self.next_free_index - 1, obj);
            self.next_free_index = self.next_free_index - 1;
            self.free_count = self.free_count + 1;
            self.pool[obj].is_free = true;
            proof {
                assert(self@.free =~= old(self)@.free.update(obj as int, true));
                assert(self@.values =~= old(self)@.values);
                assert(self@.free_slots() =~= old(self)@.free_slots().insert(obj as int));
            }
        }
    }

    /// The object held by slot `handle`.
    pub fn value(&self, handle: usize) -> (r: &T)
        requires
            self.wf(),
            handle < self@.capacity(),
        ensures
            *r == self@.values[handle as int],
    {
        &self.pool[handle].val
    }

    /// Replaces the object held by slot `handle`; the pool's bookkeeping is untouched.
    pub fn set_value(&mut self, handle: usize, v: T)
        requires
            old(self).wf(),
            handle < old(self)@.capacity(),
        ensures
            final(self).wf(),
            final(self)@ == (PoolModel { values: old(self)@.values.update(handle as int, v), ..old(self)@ }),
    {
        self.pool[handle].val = v;
        proof {
            assert(self@.free =~= old(self)@.free);
            assert(self@.values =~= old(self)@.values.update(handle as int, v));
        }
    }
}

/// Acquiring a slot and then releasing it gives back exactly the pool one started with.
pub proof fn law_acquire_then_release_restores<T>(m: PoolModel<T>)
    requires
        m.wf(),
        m.acquire_step().1 is Some,
    ensures
        m.acquire_step().0.release_step(m.acquire_step().1->0) == m,
{
    let (m2, r) = m.acquire_step();
    let h = r->0;
    assert(m.available()[0] == m.free_list[m.next_free as int]);
    assert(m2.free_list[m2.next_free - 1] == h);
    assert(m2.free_list.update(m2.next_free - 1, h) =~= m.free_list);
    assert(m2.free.update(h as int, true) =~= m.free);
}

/// Handing out and taking back slots never moves or changes the objects the slots hold:
/// every slot keeps its object, and releasing one slot leaves the other slots' flags as
/// they were.
pub proof fn law_acquire_release_keep_objects<T>(m: PoolModel<T>, h: usize)
    requires
        m.wf(),
        h < m.capacity(),
    ensures
        m.acquire_step().0.values == m.values,
        m.release_step(h).values == m.values,
        forall|i: int| 0 <= i < m.capacity() ==> #[trigger] m.release_step(h).values[i] == m.values[i],
        forall|k: int| 0 <= k < m.capacity() && k != h ==> #[trigger] m.release_step(h).free[k]
            == m.free[k],
        m.release_step(h).capacity() == m.capacity(),
{
}

/// Releasing a slot that is already free changes nothing.
pub proof fn law_release_of_free_slot_is_noop<T>(m: PoolModel<T>, h: usize)
    requires
        m.wf(),
        h < m.capacity(),
        m.free[h as int],
    ensures
        m.release_step(h) == m,
{
}

/// When every slot is in use, `acquire` hands out nothing and changes nothing.
pub proof fn law_acquire_on_exhausted_pool<T>(m: PoolModel<T>)
    requires
        m.wf(),
        m.free_count == 0,
    ensures
        m.acquire_step() == (m, Option::<usize>::None),
{
}

/// The free counter always equals the number of free slots, and the slots in use
/// number exactly `next_free`.
pub proof fn law_free_count_matches_free_slots<T>(m: PoolModel<T>)
    requires
        m.wf(),
    ensures
        m.free_slots().finite(),
        m.free_slots().len() == m.free_count,
        m.capacity() - m.free_slots().len() == m.next_free,
{
    let s = m.available().map_values(|x: usize| x as int);
    m.available().lemma_no_duplicates_injective(|x: usize| x as int);
    s.unique_seq_to_set();
    assert(s.to_set() =~= m.free_slots()) by {
        assert forall|x: int| s.to_set().contains(x) implies m.free_slots().contains(x) by {
            let i = choose|i: int| 0 <= i < s.len() && s[i] == x;
            assert(m.available()[i] < m.capacity());
        }
        assert forall|x: int| m.free_slots().contains(x) implies s.to_set().contains(x) by {
            let i = choose|i: int| 0 <= i < m.available().len() && m.available()[i] == x as usize;
            assert(s[i] == x);
        }
    }
}

/// A slot handed out by `acquire` is not handed out again until it is released.
pub proof fn law_acquired_slot_not_reissued<T>(m: PoolModel<T>)
    requires
        m.wf(),
        m.acquire_step().1 is Some,
    ensures
        m.acquire_step().0.acquire_step().1 != m.acquire_step().1,
{
    lemma_acquire_keeps_wf(m);
    let m2 = m.acquire_step().0;
    let h = m.acquire_step().1->0;
    assert(m.available()[0] == m.free_list[m.next_free as int]);
    if m2.acquire_step().1 is Some {
        assert(!m2.free[h as int]);
    }
}

} // verus!
