use vstd::prelude::*;

use crate::desc::{chain_resolves, iid_of, InterfaceDesc};
use crate::status::E_INVALIDARG;
use crate::vtable::{compile_layout, layout_spec, Slot, PTR_WIDTH};

verus! {

/// Most interfaces one object may implement: a machine bound, so that every
/// dispatch-pointer field offset `index * PTR_WIDTH` fits in a `usize`.
pub const MAX_INTERFACES: usize = 65536;

/// One dispatch table instance, exclusively owned by one object: the
/// ordered slot list of one implemented interface, and the byte offset of
/// that interface's dispatch-pointer field within the object, baked into
/// the table's adjustor thunks so they can recover the object base exactly.
#[derive(Debug)]
pub struct Vtable {
    pub adjustment: usize,
    pub slots: Vec<Slot>,
}

/// A component object: one dispatch-pointer field per implemented interface
/// in declaration order (each owning that interface's vtable instance), one
/// shared reference count governing the whole object, and the user payload
/// stored verbatim.
#[derive(Debug)]
pub struct ComponentObject<F> {
    pub vtables: Vec<Vtable>,
    pub interfaces: Vec<InterfaceDesc>,
    pub ref_count: u32,
    pub user: F,
}

/// Well-formedness of a constructed object: one vtable per implemented
/// interface, each vtable holding exactly that interface's resolved slot
/// list with the adjustment of its field offset baked in, every chain
/// resolving to the universal root, and no identifier naming two distinct
/// implemented interfaces.
pub open spec fn obj_wf<F>(o: ComponentObject<F>) -> bool {
    &&& o.vtables@.len() == o.interfaces@.len()
    &&& o.interfaces@.len() <= MAX_INTERFACES
    &&& forall|i: int| 0 <= i < o.interfaces@.len() ==> chain_resolves(#[trigger] o.interfaces@[i])
    &&& forall|i: int|
        0 <= i < o.vtables@.len() ==> (#[trigger] o.vtables@[i]).adjustment == i * (
        PTR_WIDTH as int)
    &&& forall|i: int|
        0 <= i < o.vtables@.len() ==> (#[trigger] o.vtables@[i]).slots@ == layout_spec(
            o.interfaces@[i],
        )
    &&& forall|i: int, j: int|
        0 <= i < j < o.interfaces@.len() ==> iid_of(#[trigger] o.interfaces@[i]) != iid_of(
            #[trigger] o.interfaces@[j],
        )
}

/// The inputs on which construction succeeds: not more interfaces than
/// offsets can address, every chain resolving to the universal root, and
/// pairwise distinct interface identifiers.
pub open spec fn construct_ok(interfaces: Seq<InterfaceDesc>) -> bool {
    &&& interfaces.len() <= MAX_INTERFACES
    &&& forall|i: int| 0 <= i < interfaces.len() ==> chain_resolves(#[trigger] interfaces[i])
    &&& forall|i: int, j: int|
        0 <= i < j < interfaces.len() ==> iid_of(#[trigger] interfaces[i]) != iid_of(
            #[trigger] interfaces[j],
        )
}

/// Constructs a component object from its implemented interfaces (order
/// meaningful: it fixes the dispatch-pointer field offsets) and its user
/// payload. All interfaces are validated before any vtable is allocated;
/// a definition that fails validation is rejected whole, with no partial
/// side effect. On success the object is fully formed: one vtable per
/// interface with the thunk adjustment of its position baked in, the shared
/// count initialized to zero (the first increment is the first caller's
/// responsibility), and the payload stored verbatim.
pub fn construct<F>(interfaces: Vec<InterfaceDesc>, user: F) -> (r: Result<
    ComponentObject<F>,
    i32,
>)
    ensures
        r is Ok <==> construct_ok(interfaces@),
        r is Err ==> r->Err_0 == E_INVALIDARG,
        r is Ok ==> obj_wf(r->Ok_0) && r->Ok_0.interfaces@ == interfaces@ && r->Ok_0.ref_count == 0
            && r->Ok_0.user == user,
{
    let n = interfaces.len();
    if n > MAX_INTERFACES {
        return Err(E_INVALIDARG);
    }
    let mut i: usize = 0;
    while i < n
        invariant
            n == interfaces@.len(),
            i <= n,
            forall|k: int| 0 <= k < i ==> chain_resolves(#[trigger] interfaces@[k]),
        decreases n - i,
    {
        if !interfaces[i].resolves_to_root() {
            return Err(E_INVALIDARG);
        }
        i += 1;
    }
    let mut a: usize = 0;
    while a < n
        invariant
            n == interfaces@.len(),
            a <= n,
            forall|k: int| 0 <= k < n ==> chain_resolves(#[trigger] interfaces@[k]),
            forall|p: int, q: int|
                0 <= p < q < n && p < a ==> iid_of(#[trigger] interfaces@[p]) != iid_of(
                    #[trigger] interfaces@[q],
                ),
        decreases n - a,
    {
        let mut b: usize = a + 1;
        while b < n
            invariant
                n == interfaces@.len(),
                a < b || a + 1 == b,
                a < n,
                a + 1 <= b <= n,
                forall|k: int| 0 <= k < n ==> chain_resolves(#[trigger] interfaces@[k]),
                forall|q: int|
                    a < q < b ==> iid_of(interfaces@[a as int]) != iid_of(
                        #[trigger] interfaces@[q],
                    ),
            decreases n - b,
        {
            if interfaces[a].chain[0].iid == interfaces[b].chain[0].iid {
                return Err(E_INVALIDARG);
            }
            b += 1;
        }
        a += 1;
    }
    let mut vtables: Vec<Vtable> = Vec::new();
    let mut i: usize = 0;
    while i < n
        invariant
            n == interfaces@.len(),
            n <= MAX_INTERFACES,
            i <= n,
            vtables@.len() == i,
            forall|k: int| 0 <= k < n ==> chain_resolves(#[trigger] interfaces@[k]),
            forall|k: int|
                0 <= k < i ==> (#[trigger] vtables@[k]).adjustment == k * (PTR_WIDTH as int),
            forall|k: int|
                0 <= k < i ==> (#[trigger] vtables@[k]).slots@ == layout_spec(interfaces@[k]),
        decreases n - i,
    {
        let layout = match compile_layout(&interfaces[i]) {
            Ok(l) => l,
            Err(_) => vstd::pervasive::unreached(),
        };
        vtables.push(Vtable { adjustment: i * PTR_WIDTH, slots: layout });
        i += 1;
    }
    Ok(ComponentObject { vtables, interfaces, ref_count: 0, user })
}

} // verus!
