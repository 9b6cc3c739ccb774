use vstd::prelude::*;

use crate::desc::{chain_supports, InterfaceDesc};
use crate::iid::{is_root, is_root_iid, Iid};
use crate::object::{obj_wf, ComponentObject};
use crate::status::{E_INVALIDARG, E_NOINTERFACE, E_POINTER, NOERROR};
use crate::vtable::{lemma_root_slots_first, Slot, PTR_WIDTH};

verus! {

/// An interface pointer: the address of one of an object's dispatch-pointer
/// fields, never the address of the object itself. It names the object's
/// allocation and the byte offset of the field from the object base, which
/// is the implemented interface's index times the pointer width. A holder
/// of an interface pointer owns one unit of the object's shared count and
/// must eventually release it.
#[derive(Clone, Copy, Debug, PartialEq, Eq, Structural)]
pub struct InterfacePtr {
    pub object: usize,
    pub offset: usize,
}

/// The interface index a pointer's field offset addresses.
pub open spec fn ptr_index(p: InterfacePtr) -> int {
    p.offset as int / PTR_WIDTH as int
}

/// Whether handle `h` addresses a live allocation.
pub open spec fn slot_live<F>(s: Seq<Option<ComponentObject<F>>>, h: int) -> bool {
    0 <= h < s.len() && s[h] is Some
}

/// The object behind a live handle.
pub open spec fn obj_at<F>(s: Seq<Option<ComponentObject<F>>>, h: int) -> ComponentObject<F> {
    s[h]->0
}

/// Whether `p` is a live interface pointer: its object is allocated and its
/// offset addresses one of the object's dispatch-pointer fields exactly.
pub open spec fn ptr_live<F>(s: Seq<Option<ComponentObject<F>>>, p: InterfacePtr) -> bool {
    &&& slot_live(s, p.object as int)
    &&& p.offset % PTR_WIDTH == 0
    &&& ptr_index(p) < obj_at(s, p.object as int).interfaces@.len()
}

/// The shared reference count of the object behind handle `h`.
pub open spec fn count_of<F>(s: Seq<Option<ComponentObject<F>>>, h: int) -> u32 {
    obj_at(s, h).ref_count
}

/// `o` with its shared count set to `c` and all else unchanged.
pub open spec fn with_count<F>(o: ComponentObject<F>, c: u32) -> ComponentObject<F> {
    ComponentObject { ref_count: c, ..o }
}

/// The state after an add-ref through any interface pointer of the object
/// behind `h`: that object's shared count one higher, all else unchanged.
pub open spec fn add_ref_post<F>(s: Seq<Option<ComponentObject<F>>>, h: int) -> Seq<
    Option<ComponentObject<F>>,
> {
    s.update(h, Some(with_count(obj_at(s, h), (count_of(s, h) + 1) as u32)))
}

/// The state after a release through any interface pointer of the object
/// behind `h`. When the count goes from one to zero the object and the
/// vtable instances it exclusively owns leave the state together, exactly
/// once and through no other path; otherwise only the count changes.
pub open spec fn release_post<F>(s: Seq<Option<ComponentObject<F>>>, h: int) -> Seq<
    Option<ComponentObject<F>>,
> {
    if count_of(s, h) == 1 {
        s.update(h, None)
    } else {
        s.update(h, Some(with_count(obj_at(s, h), (count_of(s, h) - 1) as u32)))
    }
}

/// Whether the object implements the requested identifier: a query through
/// any of the object's interface pointers succeeds exactly when the
/// identifier is the universal root's or appears in the resolved
/// inheritance chain of one of the implemented interfaces.
pub open spec fn obj_supports<F>(o: ComponentObject<F>, iid: Iid) -> bool {
    is_root_iid(iid) || exists|i: int|
        0 <= i < o.interfaces@.len() && #[trigger] chain_supports(o.interfaces@[i], iid)
}

/// The index of the first implemented interface at or after `i` whose chain
/// contains `iid`, or the number of implemented interfaces when none does.
pub open spec fn first_match_from(ifaces: Seq<InterfaceDesc>, iid: Iid, i: int) -> int
    decreases ifaces.len() - i,
{
    if i < 0 || i >= ifaces.len() {
        ifaces.len() as int
    } else if chain_supports(ifaces[i], iid) {
        i
    } else {
        first_match_from(ifaces, iid, i + 1)
    }
}

/// The index of the first implemented interface, in declaration order,
/// whose chain contains `iid`.
pub open spec fn first_match(ifaces: Seq<InterfaceDesc>, iid: Iid) -> int {
    first_match_from(ifaces, iid, 0)
}

proof fn lemma_first_match_from_found(ifaces: Seq<InterfaceDesc>, iid: Iid, i: int, j: int)
    requires
        0 <= i <= j < ifaces.len(),
        forall|k: int| i <= k < j ==> !#[trigger] chain_supports(ifaces[k], iid),
        chain_supports(ifaces[j], iid),
    ensures
        first_match_from(ifaces, iid, i) == j,
    decreases j - i,
{
    if i < j {
        lemma_first_match_from_found(ifaces, iid, i + 1, j);
    }
}

proof fn lemma_first_match_from_none(ifaces: Seq<InterfaceDesc>, iid: Iid, i: int)
    requires
        0 <= i <= ifaces.len(),
        forall|k: int| i <= k < ifaces.len() ==> !#[trigger] chain_supports(ifaces[k], iid),
    ensures
        first_match_from(ifaces, iid, i) == ifaces.len(),
    decreases ifaces.len() - i,
{
    if i < ifaces.len() {
        lemma_first_match_from_none(ifaces, iid, i + 1);
    }
}

/// What a query through pointer `p` hands back. A request for the universal
/// root identifier is answered with the very pointer the caller passed in;
/// any other supported identifier is answered with the pointer to the first
/// implemented interface, in declaration order, whose chain contains it;
/// an unsupported identifier is answered with the null sentinel.
pub open spec fn query_result<F>(
    s: Seq<Option<ComponentObject<F>>>,
    p: InterfacePtr,
    iid: Iid,
) -> Option<InterfacePtr> {
    let ifaces = obj_at(s, p.object as int).interfaces@;
    if is_root_iid(iid) {
        Some(p)
    } else if exists|i: int|
        0 <= i < ifaces.len() && #[trigger] chain_supports(ifaces[i], iid) {
        Some(
            InterfacePtr {
                object: p.object,
                offset: (first_match(ifaces, iid) * (PTR_WIDTH as int)) as usize,
            },
        )
    } else {
        None
    }
}

/// Every live object of the state is well formed, so every live interface
/// pointer addresses a dispatch field whose vtable instance holds exactly
/// that interface's resolved slot list.
pub open spec fn arena_wf<F>(s: Seq<Option<ComponentObject<F>>>) -> bool {
    forall|h: int| slot_live(s, h) ==> obj_wf(#[trigger] obj_at(s, h))
}

/// Removing a sequence element and inserting another at the same position
/// is an update of that position.
proof fn lemma_remove_insert_is_update<T>(s: Seq<T>, i: int, x: T)
    requires
        0 <= i < s.len(),
    ensures
        s.remove(i).insert(i, x) == s.update(i, x),
{
    assert(s.remove(i).insert(i, x) =~= s.update(i, x));
}

/// The arena holding the component objects: one allocation per handle,
/// dead handles left as `None`. All mutation of the structural machinery
/// (counts, teardown) goes through the operations below; the model is
/// single-threaded, with no atomicity on the shared counts.
pub struct Arena<F> {
    pub slots: Vec<Option<ComponentObject<F>>>,
}

impl<F> View for Arena<F> {
    type V = Seq<Option<ComponentObject<F>>>;

    open spec fn view(&self) -> Seq<Option<ComponentObject<F>>> {
        self.slots@
    }
}

impl<F> Arena<F> {
    /// An arena with no allocations.
    pub fn new() -> (a: Arena<F>)
        ensures
            a@.len() == 0,
            arena_wf(a@),
    {
        Arena { slots: Vec::new() }
    }

    /// Places a fully constructed object into the arena and hands back its
    /// handle. The object's count is whatever its constructor left there;
    /// construction hands out no reference by itself.
    pub fn insert(&mut self, obj: ComponentObject<F>) -> (h: usize)
        requires
            obj_wf(obj),
            arena_wf(old(self)@),
        ensures
            h == old(self)@.len(),
            final(self)@ == old(self)@.push(Some(obj)),
            slot_live(final(self)@, h as int),
            obj_at(final(self)@, h as int) == obj,
            arena_wf(final(self)@),
    {
        let h = self.slots.len();
        self.slots.push(Some(obj));
        proof {
            assert forall|k: int| slot_live(self@, k) implies obj_wf(obj_at(self@, k)) by {
                if k < h {
                    assert(obj_at(self@, k) == obj_at(old(self)@, k));
                }
            }
        }
        h
    }

    /// Whether a handle still addresses a live allocation.
    pub fn is_live(&self, h: usize) -> (r: bool)
        ensures
            r == slot_live(self@, h as int),
    {
        h < self.slots.len() && self.slots[h].is_some()
    }

    /// The interface pointer for the `index`-th implemented interface of
    /// the object behind `h`: the address of that dispatch-pointer field,
    /// at the field's fixed offset from the object base.
    pub fn interface_ptr(&self, h: usize, index: usize) -> (p: InterfacePtr)
        requires
            arena_wf(self@),
            slot_live(self@, h as int),
            index < obj_at(self@, h as int).interfaces@.len(),
        ensures
            p.object == h,
            p.offset == index * PTR_WIDTH,
            ptr_index(p) == index,
            ptr_live(self@, p),
    {
        proof {
            assert(obj_wf(obj_at(self@, h as int)));
        }
        InterfacePtr { object: h, offset: index * PTR_WIDTH }
    }

    /// The shared reference count of the object behind a live handle.
    pub fn ref_count_of(&self, h: usize) -> (c: u32)
        requires
            slot_live(self@, h as int),
        ensures
            c == count_of(self@, h as int),
    {
        match &self.slots[h] {
            Some(obj) => obj.ref_count,
            None => vstd::pervasive::unreached(),
        }
    }

    /// Increments the shared count of the object behind `h` by one and
    /// returns the new count.
    fn bump(&mut self, h: usize) -> (c: u32)
        requires
            slot_live(old(self)@, h as int),
            count_of(old(self)@, h as int) < u32::MAX,
        ensures
            final(self)@ == add_ref_post(old(self)@, h as int),
            c == count_of(old(self)@, h as int) + 1,
    {
        let entry = self.slots.remove(h);
        match entry {
            Some(mut obj) => {
                obj.ref_count = obj.ref_count + 1;
                let c = obj.ref_count;
                self.slots.insert(h, Some(obj));
                proof {
                    lemma_remove_insert_is_update(
                        old(self)@,
                        h as int,
                        Some(with_count(obj_at(old(self)@, h as int), c)),
                    );
                }
                c
            },
            None => vstd::pervasive::unreached(),
        }
    }

    /// Add-ref through any interface pointer of an object: increments the
    /// object's shared count by one and returns the new count. The count is
    /// shared across all of the object's dispatch-pointer fields; no
    /// per-interface count exists. Overflow of the count is an accounting
    /// bug upstream and outside the contract, never a recoverable result.
    pub fn add_ref(&mut self, ptr: InterfacePtr) -> (c: u32)
        requires
            arena_wf(old(self)@),
            ptr_live(old(self)@, ptr),
            count_of(old(self)@, ptr.object as int) < u32::MAX,
        ensures
            final(self)@ == add_ref_post(old(self)@, ptr.object as int),
            c == count_of(old(self)@, ptr.object as int) + 1,
            c == count_of(final(self)@, ptr.object as int),
            ptr_live(final(self)@, ptr),
            arena_wf(final(self)@),
    {
        let c = self.bump(ptr.object);
        proof {
            lemma_add_ref_post_wf(old(self)@, ptr.object as int);
        }
        c
    }

    /// Release through any interface pointer of an object: decrements the
    /// object's shared count by one and returns the new count. When the
    /// count reaches zero the object's vtable instances and the object
    /// itself are deallocated, exactly once; this is the sole deallocation
    /// path, and no access through any of the object's interface pointers
    /// is valid afterwards. Underflow of the count is an accounting bug
    /// upstream and outside the contract, never a recoverable result.
    pub fn release(&mut self, ptr: InterfacePtr) -> (c: u32)
        requires
            arena_wf(old(self)@),
            ptr_live(old(self)@, ptr),
            count_of(old(self)@, ptr.object as int) >= 1,
        ensures
            final(self)@ == release_post(old(self)@, ptr.object as int),
            c == count_of(old(self)@, ptr.object as int) - 1,
            c == 0 ==> !slot_live(final(self)@, ptr.object as int),
            c > 0 ==> ptr_live(final(self)@, ptr) && c == count_of(
                final(self)@,
                ptr.object as int,
            ),
            arena_wf(final(self)@),
    {
        let h = ptr.object;
        let entry = self.slots.remove(h);
        match entry {
            Some(mut obj) => {
                obj.ref_count = obj.ref_count - 1;
                let c = obj.ref_count;
                if c == 0 {
                    self.slots.insert(h, None);
                    proof {
                        lemma_remove_insert_is_update(old(self)@, h as int, None);
                        lemma_release_post_wf(old(self)@, h as int);
                    }
                } else {
                    self.slots.insert(h, Some(obj));
                    proof {
                        lemma_remove_insert_is_update(
                            old(self)@,
                            h as int,
                            Some(with_count(obj_at(old(self)@, h as int), c)),
                        );
                        lemma_release_post_wf(old(self)@, h as int);
                    }
                }
                c
            },
            None => vstd::pervasive::unreached(),
        }
    }

    /// Query-by-identifier through any live interface pointer of an
    /// object. A request for the universal root identifier is answered with
    /// the same pointer the caller passed in; otherwise the implemented
    /// interfaces are walked in declaration order and the first whose
    /// resolved chain contains the identifier answers, with the pointer to
    /// its dispatch-pointer field. On success the shared count rises by
    /// exactly one, owed to the caller, and the returned pointer is a live
    /// interface pointer of the same object. On failure the answer is the
    /// null sentinel with `E_NOINTERFACE`, and no state changes at all.
    pub fn query_interface(&mut self, ptr: InterfacePtr, riid: &Iid) -> (r: (
        i32,
        Option<InterfacePtr>,
    ))
        requires
            arena_wf(old(self)@),
            ptr_live(old(self)@, ptr),
            count_of(old(self)@, ptr.object as int) < u32::MAX,
        ensures
            r.1 == query_result(old(self)@, ptr, *riid),
            obj_supports(obj_at(old(self)@, ptr.object as int), *riid) <==> r.0 == NOERROR,
            obj_supports(obj_at(old(self)@, ptr.object as int), *riid) ==> r.1 is Some && final(self)@ == add_ref_post(old(self)@, ptr.object as int),
            !obj_supports(obj_at(old(self)@, ptr.object as int), *riid) ==> r.0 == E_NOINTERFACE
                && r.1 is None && final(self)@ == old(self)@,
            r.1 is Some ==> ptr_live(final(self)@, r.1->0) && (r.1->0).object == ptr.object,
            is_root_iid(*riid) ==> r.1 == Some(ptr),
            !is_root_iid(*riid) && r.1 is Some ==> chain_supports(
                obj_at(old(self)@, ptr.object as int).interfaces@[ptr_index(r.1->0)],
                *riid,
            ),
            arena_wf(final(self)@),
    {
        let h = ptr.object;
        if is_root(riid) {
            self.bump(h);
            proof {
                lemma_add_ref_post_wf(old(self)@, h as int);
            }
            return (NOERROR, Some(ptr));
        }
        let ghost ifs = obj_at(self@, h as int).interfaces@;
        proof {
            assert(obj_wf(obj_at(self@, h as int)));
        }
        let n = match &self.slots[h] {
            Some(o) => o.interfaces.len(),
            None => vstd::pervasive::unreached(),
        };
        let mut j: usize = 0;
        while j < n
            invariant
                self@ == old(self)@,
                arena_wf(self@),
                ptr_live(self@, ptr),
                count_of(self@, h as int) < u32::MAX,
                h == ptr.object,
                ifs == obj_at(self@, h as int).interfaces@,
                n == ifs.len(),
                n <= crate::object::MAX_INTERFACES,
                j <= n,
                !is_root_iid(*riid),
                forall|k: int| 0 <= k < j ==> !#[trigger] chain_supports(ifs[k], *riid),
            decreases n - j,
        {
            let sup = match &self.slots[h] {
                Some(o) => o.interfaces[j].supports(riid),
                None => vstd::pervasive::unreached(),
            };
            if sup {
                proof {
                    lemma_first_match_from_found(ifs, *riid, 0, j as int);
                }
                self.bump(h);
                proof {
                    lemma_add_ref_post_wf(old(self)@, h as int);
                }
                return (NOERROR, Some(InterfacePtr { object: h, offset: j * PTR_WIDTH }));
            }
            j += 1;
        }
        proof {
            lemma_first_match_from_none(ifs, *riid, 0);
        }
        (E_NOINTERFACE, None)
    }

    /// Query-by-identifier behind argument validation: a pointer that does
    /// not address a live allocation is answered with `E_POINTER`, one
    /// whose offset does not address a dispatch-pointer field with
    /// `E_INVALIDARG`, each with the null sentinel and no state change;
    /// a live pointer is answered as by `query_interface`.
    pub fn query_interface_checked(&mut self, ptr: InterfacePtr, riid: &Iid) -> (r: (
        i32,
        Option<InterfacePtr>,
    ))
        requires
            arena_wf(old(self)@),
            ptr_live(old(self)@, ptr) ==> count_of(old(self)@, ptr.object as int) < u32::MAX,
        ensures
            !slot_live(old(self)@, ptr.object as int) ==> r.0 == E_POINTER && r.1 is None && final(self)@ == old(self)@,
            slot_live(old(self)@, ptr.object as int) && !ptr_live(old(self)@, ptr) ==> r.0
                == E_INVALIDARG && r.1 is None && final(self)@ == old(self)@,
            ptr_live(old(self)@, ptr) ==> r.1 == query_result(old(self)@, ptr, *riid) && (
            obj_supports(obj_at(old(self)@, ptr.object as int), *riid) <==> r.0 == NOERROR) && (
            obj_supports(obj_at(old(self)@, ptr.object as int), *riid) ==> final(self)@
                == add_ref_post(old(self)@, ptr.object as int)) && (!obj_supports(
                obj_at(old(self)@, ptr.object as int),
                *riid,
            ) ==> r.0 == E_NOINTERFACE && final(self)@ == old(self)@),
            arena_wf(final(self)@),
    {
        if ptr.object >= self.slots.len() {
            return (E_POINTER, None);
        }
        let live = match &self.slots[ptr.object] {
            Some(_) => true,
            None => false,
        };
        if !live {
            return (E_POINTER, None);
        }
        let n = match &self.slots[ptr.object] {
            Some(o) => o.interfaces.len(),
            None => vstd::pervasive::unreached(),
        };
        if ptr.offset % PTR_WIDTH != 0 || ptr.offset / PTR_WIDTH >= n {
            return (E_INVALIDARG, None);
        }
        self.query_interface(ptr, riid)
    }

    /// Add-ref called the way an external caller calls it: through slot 1
    /// of the dispatch table the pointer addresses. The adjustor thunk
    /// baked into that table recovers the object base by subtracting the
    /// field offset of its own interface — exactly, as the assertion shows —
    /// and delegates to the one shared implementation, so the effect is the
    /// same whichever of the object's interfaces the caller holds.
    pub fn call_add_ref(&mut self, ptr: InterfacePtr) -> (c: u32)
        requires
            arena_wf(old(self)@),
            ptr_live(old(self)@, ptr),
            count_of(old(self)@, ptr.object as int) < u32::MAX,
        ensures
            final(self)@ == add_ref_post(old(self)@, ptr.object as int),
            c == count_of(old(self)@, ptr.object as int) + 1,
            arena_wf(final(self)@),
    {
        let idx = ptr.offset / PTR_WIDTH;
        let (slot, adjustment) = {
            let o = match &self.slots[ptr.object] {
                Some(o) => o,
                None => vstd::pervasive::unreached(),
            };
            proof {
                assert(obj_wf(*o));
                lemma_root_slots_first(o.interfaces@[idx as int]);
            }
            let vt = &o.vtables[idx];
            (vt.slots[1], vt.adjustment)
        };
        let base = ptr.offset - adjustment;
        assert(base == 0);
        let base_ptr = InterfacePtr { object: ptr.object, offset: base };
        match slot {
            Slot::AddRef => self.add_ref(base_ptr),
            _ => vstd::pervasive::unreached(),
        }
    }

    /// Release called the way an external caller calls it: through slot 2
    /// of the dispatch table the pointer addresses, with the same base
    /// recovery and delegation as `call_add_ref`. Releasing through one
    /// interface's pointer decrements the same shared count as through any
    /// other.
    pub fn call_release(&mut self, ptr: InterfacePtr) -> (c: u32)
        requires
            arena_wf(old(self)@),
            ptr_live(old(self)@, ptr),
            count_of(old(self)@, ptr.object as int) >= 1,
        ensures
            final(self)@ == release_post(old(self)@, ptr.object as int),
            c == count_of(old(self)@, ptr.object as int) - 1,
            c == 0 ==> !slot_live(final(self)@, ptr.object as int),
            arena_wf(final(self)@),
    {
        let idx = ptr.offset / PTR_WIDTH;
        let (slot, adjustment) = {
            let o = match &self.slots[ptr.object] {
                Some(o) => o,
                None => vstd::pervasive::unreached(),
            };
            proof {
                assert(obj_wf(*o));
                lemma_root_slots_first(o.interfaces@[idx as int]);
            }
            let vt = &o.vtables[idx];
            (vt.slots[2], vt.adjustment)
        };
        let base = ptr.offset - adjustment;
        assert(base == 0);
        let base_ptr = InterfacePtr { object: ptr.object, offset: base };
        match slot {
            Slot::Release => self.release(base_ptr),
            _ => vstd::pervasive::unreached(),
        }
    }

    /// Query-by-identifier called the way an external caller calls it:
    /// through slot 0 of the dispatch table the pointer addresses. The
    /// thunk delegates to the one shared resolver, which answers a root
    /// request with the caller's own pointer.
    pub fn call_query_interface(&mut self, ptr: InterfacePtr, riid: &Iid) -> (r: (
        i32,
        Option<InterfacePtr>,
    ))
        requires
            arena_wf(old(self)@),
            ptr_live(old(self)@, ptr),
            count_of(old(self)@, ptr.object as int) < u32::MAX,
        ensures
            r.1 == query_result(old(self)@, ptr, *riid),
            obj_supports(obj_at(old(self)@, ptr.object as int), *riid) <==> r.0 == NOERROR,
            obj_supports(obj_at(old(self)@, ptr.object as int), *riid) ==> r.1 is Some && final(self)@ == add_ref_post(old(self)@, ptr.object as int),
            !obj_supports(obj_at(old(self)@, ptr.object as int), *riid) ==> r.0 == E_NOINTERFACE
                && r.1 is None && final(self)@ == old(self)@,
            arena_wf(final(self)@),
    {
        let idx = ptr.offset / PTR_WIDTH;
        let slot = {
            let o = match &self.slots[ptr.object] {
                Some(o) => o,
                None => vstd::pervasive::unreached(),
            };
            proof {
                assert(obj_wf(*o));
                lemma_root_slots_first(o.interfaces@[idx as int]);
            }
            let vt = &o.vtables[idx];
            vt.slots[0]
        };
        match slot {
            Slot::QueryInterface => self.query_interface(ptr, riid),
            _ => vstd::pervasive::unreached(),
        }
    }
}

/// A count change alone preserves well-formedness of every live object.
proof fn lemma_add_ref_post_wf<F>(s: Seq<Option<ComponentObject<F>>>, h: int)
    requires
        arena_wf(s),
        slot_live(s, h),
    ensures
        arena_wf(add_ref_post(s, h)),
{
    let t = add_ref_post(s, h);
    assert forall|k: int| slot_live(t, k) implies obj_wf(obj_at(t, k)) by {
        if k != h {
            assert(obj_at(t, k) == obj_at(s, k));
        } else {
            assert(obj_wf(obj_at(s, h)));
        }
    }
}

/// A release preserves well-formedness of every live object.
proof fn lemma_release_post_wf<F>(s: Seq<Option<ComponentObject<F>>>, h: int)
    requires
        arena_wf(s),
        slot_live(s, h),
    ensures
        arena_wf(release_post(s, h)),
{
    let t = release_post(s, h);
    assert forall|k: int| slot_live(t, k) implies obj_wf(obj_at(t, k)) by {
        if k != h {
            assert(obj_at(t, k) == obj_at(s, k));
        } else {
            assert(obj_wf(obj_at(s, h)));
        }
    }
}

/// For any live interface pointer of a well-formed state, the dispatch
/// field it addresses holds the vtable instance of exactly its interface:
/// the slot list is that interface's resolved layout, its first three slots
/// are query-by-identifier, add-ref and release whichever interface the
/// pointer represents, and the baked adjustment equals the pointer's own
/// field offset, so base recovery by subtraction is exact.
pub proof fn lemma_live_pointer_dispatch<F>(s: Seq<Option<ComponentObject<F>>>, p: InterfacePtr)
    requires
        arena_wf(s),
        ptr_live(s, p),
    ensures
        obj_at(s, p.object as int).vtables@[ptr_index(p)].slots@ == crate::vtable::layout_spec(
            obj_at(s, p.object as int).interfaces@[ptr_index(p)],
        ),
        obj_at(s, p.object as int).vtables@[ptr_index(p)].slots@.len() >= 3,
        obj_at(s, p.object as int).vtables@[ptr_index(p)].slots@[0] == Slot::QueryInterface,
        obj_at(s, p.object as int).vtables@[ptr_index(p)].slots@[1] == Slot::AddRef,
        obj_at(s, p.object as int).vtables@[ptr_index(p)].slots@[2] == Slot::Release,
        obj_at(s, p.object as int).vtables@[ptr_index(p)].adjustment == p.offset,
{
    let o = obj_at(s, p.object as int);
    assert(obj_wf(o));
    lemma_root_slots_first(o.interfaces@[ptr_index(p)]);
}

/// Add-ref then release through any interface pointer of an object restores
/// the state exactly: the shared count is unchanged and the object is not
/// deallocated. This holds for every holder of an interface pointer, since
/// a holder owns one unit of the count, so the count is at least one.
pub proof fn lemma_add_ref_then_release<F>(s: Seq<Option<ComponentObject<F>>>, p: InterfacePtr)
    requires
        ptr_live(s, p),
        1 <= count_of(s, p.object as int) < u32::MAX,
    ensures
        release_post(add_ref_post(s, p.object as int), p.object as int) == s,
        slot_live(add_ref_post(s, p.object as int), p.object as int),
{
    let h = p.object as int;
    let o = obj_at(s, h);
    let s1 = add_ref_post(s, h);
    assert(obj_at(s1, h) == with_count(o, (count_of(s, h) + 1) as u32));
    assert(with_count(with_count(o, (count_of(s, h) + 1) as u32), count_of(s, h)) == o);
    assert(release_post(s1, h) =~= s);
}

/// Teardown happens exactly once: driving the shared count from one to zero
/// removes the object — and with it the vtable instances it exclusively
/// owns — from the state, leaves every other allocation untouched, and
/// leaves no live interface pointer of that object behind, so no second
/// teardown of the same allocation is possible.
pub proof fn lemma_teardown_once<F>(s: Seq<Option<ComponentObject<F>>>, p: InterfacePtr)
    requires
        ptr_live(s, p),
        count_of(s, p.object as int) == 1,
    ensures
        release_post(s, p.object as int)[p.object as int] is None,
        release_post(s, p.object as int).len() == s.len(),
        forall|k: int|
            0 <= k < s.len() && k != p.object as int ==> release_post(s, p.object as int)[k]
                == s[k],
        forall|q: InterfacePtr|
            q.object == p.object ==> !ptr_live(release_post(s, p.object as int), q),
{
}

/// Cross-interface identity: two live interface pointers of the same object
/// address the same shared count, so add-ref or release through the one has
/// exactly the effect of add-ref or release through the other.
pub proof fn lemma_cross_interface_identity<F>(
    s: Seq<Option<ComponentObject<F>>>,
    pa: InterfacePtr,
    pb: InterfacePtr,
)
    requires
        ptr_live(s, pa),
        ptr_live(s, pb),
        pa.object == pb.object,
    ensures
        add_ref_post(s, pa.object as int) == add_ref_post(s, pb.object as int),
        release_post(s, pa.object as int) == release_post(s, pb.object as int),
{
}

/// A successful query through one interface pointer hands back a pointer of
/// the same object, and releasing through that returned pointer gives back
/// exactly the count the query took: the state is restored as if through
/// the original pointer.
pub proof fn lemma_query_then_release_restores<F>(
    s: Seq<Option<ComponentObject<F>>>,
    pa: InterfacePtr,
    iid: Iid,
)
    requires
        ptr_live(s, pa),
        1 <= count_of(s, pa.object as int) < u32::MAX,
        obj_supports(obj_at(s, pa.object as int), iid),
    ensures
        query_result(s, pa, iid) is Some,
        (query_result(s, pa, iid)->0).object == pa.object,
        release_post(add_ref_post(s, pa.object as int), (query_result(s, pa, iid)->0).object as int)
            == s,
{
    lemma_add_ref_then_release(s, pa);
}

} // verus!
