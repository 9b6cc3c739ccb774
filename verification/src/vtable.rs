use vstd::prelude::*;

use crate::desc::{chain_resolves, InterfaceDesc, InterfaceLevel};
use crate::iid::{is_root, is_root_iid, Iid};
use crate::status::E_INVALIDARG;

verus! {

/// Width in bytes of one dispatch-pointer field. The offset of an object's
/// `i`-th dispatch-pointer field from the object base is `i * PTR_WIDTH`.
pub const PTR_WIDTH: usize = 8;

/// One dispatch slot of a vtable. The first three slots of every vtable are
/// the three universal root slots, in this order: query-by-identifier,
/// add-ref, release. A `User` slot names the chain level that declared the
/// method, the method's index at that level, and its number of explicit
/// parameters.
#[derive(Clone, Copy, Debug, PartialEq)]
pub enum Slot {
    QueryInterface,
    AddRef,
    Release,
    User { iid: Iid, method: usize, params: usize },
}

/// The number of parameters of the thunk behind a slot, the implicit
/// interface-pointer parameter included. The calling convention is fixed and
/// uniform, so this is all of a slot's signature beyond its slot kind.
pub open spec fn slot_arity(s: Slot) -> int {
    match s {
        Slot::QueryInterface => 3,
        Slot::AddRef => 1,
        Slot::Release => 1,
        Slot::User { params, .. } => 1 + params,
    }
}

/// The number of parameters of the thunk behind a slot, the implicit
/// interface-pointer parameter included.
pub fn thunk_arity(s: &Slot) -> (r: usize)
    requires
        slot_arity(*s) <= usize::MAX,
    ensures
        r == slot_arity(*s),
{
    match s {
        Slot::QueryInterface => 3,
        Slot::AddRef => 1,
        Slot::Release => 1,
        Slot::User { params, .. } => 1 + *params,
    }
}

/// The slots one chain level contributes to a layout: the universal root
/// interface contributes the three mandatory root slots, every other level
/// contributes one `User` slot per method it declares, in declaration order.
pub open spec fn level_slots(l: InterfaceLevel) -> Seq<Slot> {
    if is_root_iid(l.iid) {
        seq![Slot::QueryInterface, Slot::AddRef, Slot::Release]
    } else {
        Seq::new(
            l.methods@.len(),
            |j: int| Slot::User { iid: l.iid, method: j as usize, params: l.methods@[j].params },
        )
    }
}

/// The slots contributed by the last `n` levels of `chain`, deepest level
/// first: the suffix of the chain laid out in inherited-first order.
pub open spec fn layout_rec(chain: Seq<InterfaceLevel>, n: int) -> Seq<Slot>
    decreases n,
{
    if n <= 0 {
        Seq::empty()
    } else {
        layout_rec(chain, n - 1) + level_slots(chain[chain.len() - n])
    }
}

/// The resolved slot list of an interface: inherited slots first, in chain
/// order starting from the universal root, then the interface's own slots.
pub open spec fn layout_spec(d: InterfaceDesc) -> Seq<Slot> {
    layout_rec(d.chain@, d.chain@.len() as int)
}

/// The slots of a chain's last `m` levels are a prefix of the slots of its
/// last `n` levels, for `m <= n`.
pub proof fn lemma_layout_rec_prefix(chain: Seq<InterfaceLevel>, m: int, n: int)
    requires
        0 <= m <= n,
    ensures
        layout_rec(chain, m).len() <= layout_rec(chain, n).len(),
        forall|i: int|
            0 <= i < layout_rec(chain, m).len() ==> layout_rec(chain, m)[i] == layout_rec(
                chain,
                n,
            )[i],
    decreases n - m,
{
    if m < n {
        lemma_layout_rec_prefix(chain, m, n - 1);
        assert(layout_rec(chain, n) == layout_rec(chain, n - 1) + level_slots(
            chain[chain.len() - n],
        ));
    }
}

/// Two chains that end in the same `m` levels contribute the same slots for
/// those levels.
pub proof fn lemma_layout_common_suffix(
    c1: Seq<InterfaceLevel>,
    c2: Seq<InterfaceLevel>,
    m: int,
)
    requires
        0 <= m <= c1.len(),
        m <= c2.len(),
        c1.subrange(c1.len() - m, c1.len() as int) == c2.subrange(c2.len() - m, c2.len() as int),
    ensures
        layout_rec(c1, m) == layout_rec(c2, m),
    decreases m,
{
    if m > 0 {
        let s1 = c1.subrange(c1.len() - m, c1.len() as int);
        let s2 = c2.subrange(c2.len() - m, c2.len() as int);
        assert(c1.subrange(c1.len() - (m - 1), c1.len() as int) =~= s1.subrange(1, m));
        assert(c2.subrange(c2.len() - (m - 1), c2.len() as int) =~= s2.subrange(1, m));
        lemma_layout_common_suffix(c1, c2, m - 1);
        assert(c1[c1.len() - m] == s1[0]);
        assert(c2[c2.len() - m] == s2[0]);
    }
}

/// Two interfaces whose declared chains end in the same `m` levels produce
/// layouts with identical prefixes: every slot contributed by those shared
/// levels stands at the same index in both layouts. In particular two
/// interfaces with the same declared chain produce the same layout.
pub proof fn lemma_shared_chain_shared_prefix(d1: InterfaceDesc, d2: InterfaceDesc, m: int)
    requires
        0 <= m <= d1.chain@.len(),
        m <= d2.chain@.len(),
        d1.chain@.subrange(d1.chain@.len() - m, d1.chain@.len() as int) == d2.chain@.subrange(
            d2.chain@.len() - m,
            d2.chain@.len() as int,
        ),
    ensures
        layout_rec(d1.chain@, m).len() <= layout_spec(d1).len(),
        layout_rec(d1.chain@, m).len() <= layout_spec(d2).len(),
        forall|i: int|
            0 <= i < layout_rec(d1.chain@, m).len() ==> layout_spec(d1)[i] == layout_spec(d2)[i],
{
    lemma_layout_common_suffix(d1.chain@, d2.chain@, m);
    lemma_layout_rec_prefix(d1.chain@, m, d1.chain@.len() as int);
    lemma_layout_rec_prefix(d2.chain@, m, d2.chain@.len() as int);
}

/// Any resolved layout begins with the three universal root slots, in this
/// order: query-by-identifier, add-ref, release. So the first three slots
/// behind any interface pointer are the same regardless of which concrete
/// interface the pointer represents.
pub proof fn lemma_root_slots_first(d: InterfaceDesc)
    requires
        chain_resolves(d),
    ensures
        layout_spec(d).len() >= 3,
        layout_spec(d)[0] == Slot::QueryInterface,
        layout_spec(d)[1] == Slot::AddRef,
        layout_spec(d)[2] == Slot::Release,
{
    let c = d.chain@;
    assert(layout_rec(c, 0) == Seq::<Slot>::empty());
    assert(layout_rec(c, 1) =~= seq![Slot::QueryInterface, Slot::AddRef, Slot::Release]);
    lemma_layout_rec_prefix(c, 1, c.len() as int);
}

/// Derives from an interface descriptor the concrete, ordered dispatch-slot
/// list: inherited slots first, in chain order starting from the universal
/// root, then the interface's own slots. A chain that does not terminate at
/// the universal root is rejected at definition time.
pub fn compile_layout(d: &InterfaceDesc) -> (r: Result<Vec<Slot>, i32>)
    ensures
        r is Ok <==> chain_resolves(*d),
        r is Ok ==> r->Ok_0@ == layout_spec(*d),
        r is Err ==> r->Err_0 == E_INVALIDARG,
{
    if !d.resolves_to_root() {
        return Err(E_INVALIDARG);
    }
    let n = d.chain.len();
    let mut slots: Vec<Slot> = Vec::new();
    let mut done: usize = 0;
    while done < n
        invariant
            n == d.chain@.len(),
            done <= n,
            slots@ == layout_rec(d.chain@, done as int),
        decreases n - done,
    {
        let level = &d.chain[n - 1 - done];
        let ghost prev = slots@;
        let ghost lev = d.chain@[n - 1 - done];
        if is_root(&level.iid) {
            slots.push(Slot::QueryInterface);
            slots.push(Slot::AddRef);
            slots.push(Slot::Release);
            proof {
                assert(slots@ =~= prev + level_slots(lev));
            }
        } else {
            let m = level.methods.len();
            let mut k: usize = 0;
            while k < m
                invariant
                    m == level.methods@.len(),
                    k <= m,
                    *level == lev,
                    !is_root_iid(lev.iid),
                    slots@ == prev + Seq::new(
                        k as nat,
                        |j: int|
                            Slot::User {
                                iid: lev.iid,
                                method: j as usize,
                                params: lev.methods@[j].params,
                            },
                    ),
                decreases m - k,
            {
                slots.push(Slot::User { iid: level.iid, method: k, params: level.methods[k].params });
                k += 1;
                proof {
                    assert(slots@ =~= prev + Seq::new(
                        k as nat,
                        |j: int|
                            Slot::User {
                                iid: lev.iid,
                                method: j as usize,
                                params: lev.methods@[j].params,
                            },
                    ));
                }
            }
            proof {
                assert(Seq::new(
                    m as nat,
                    |j: int|
                        Slot::User {
                            iid: lev.iid,
                            method: j as usize,
                            params: lev.methods@[j].params,
                        },
                ) =~= level_slots(lev));
            }
        }
        done += 1;
        proof {
            assert(slots@ == layout_rec(d.chain@, done as int));
        }
    }
    Ok(slots)
}

} // verus!
