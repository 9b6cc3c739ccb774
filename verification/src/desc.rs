use vstd::prelude::*;

use crate::iid::{is_root, is_root_iid, Iid};

verus! {

/// One method signature of an interface. Every method additionally takes an
/// implicit first parameter, the interface pointer itself, and the calling
/// convention is fixed and uniform system-wide, so a signature is described
/// by its number of explicit parameters.
#[derive(Clone, Copy, Debug, PartialEq, Eq, Structural)]
pub struct MethodSig {
    pub params: usize,
}

/// One interface of an inheritance chain: its identifier and the methods it
/// declares itself (inherited methods belong to the levels above it).
#[derive(Debug)]
pub struct InterfaceLevel {
    pub iid: Iid,
    pub methods: Vec<MethodSig>,
}

/// A compile-time description of an interface: its linear inheritance chain,
/// written derived-interface first and ending at the universal root
/// interface. `chain[0]` is the described interface itself.
#[derive(Debug)]
pub struct InterfaceDesc {
    pub chain: Vec<InterfaceLevel>,
}

/// The identifier of the interface a descriptor describes.
pub open spec fn iid_of(d: InterfaceDesc) -> Iid {
    d.chain@[0].iid
}

/// A well-formed chain is non-empty, terminates at the universal root
/// interface, and reaches the root only as its last level. A chain that
/// does not resolve to the root is a definition-time failure.
pub open spec fn chain_resolves(d: InterfaceDesc) -> bool {
    &&& d.chain@.len() > 0
    &&& is_root_iid(d.chain@[d.chain@.len() - 1].iid)
    &&& forall|k: int| 0 <= k < d.chain@.len() - 1 ==> !is_root_iid(#[trigger] d.chain@[k].iid)
}

/// Whether `iid` appears anywhere in the descriptor's inheritance chain.
pub open spec fn chain_supports(d: InterfaceDesc, iid: Iid) -> bool {
    exists|k: int| 0 <= k < d.chain@.len() && (#[trigger] d.chain@[k].iid) == iid
}

impl InterfaceDesc {
    /// Checks at definition time that the inheritance chain terminates at
    /// the universal root interface and reaches it exactly once, as its
    /// last level.
    pub fn resolves_to_root(&self) -> (r: bool)
        ensures
            r == chain_resolves(*self),
    {
        let n = self.chain.len();
        if n == 0 {
            return false;
        }
        if !is_root(&self.chain[n - 1].iid) {
            return false;
        }
        let mut k: usize = 0;
        while k < n - 1
            invariant
                n == self.chain@.len(),
                n > 0,
                k <= n - 1,
                forall|j: int| 0 <= j < k ==> !is_root_iid(#[trigger] self.chain@[j].iid),
            decreases n - 1 - k,
        {
            if is_root(&self.chain[k].iid) {
                return false;
            }
            k += 1;
        }
        true
    }

    /// Tests whether `iid` appears anywhere in this interface's resolved
    /// inheritance chain, so that a query for `iid` can be answered through
    /// this interface's dispatch table.
    pub fn supports(&self, iid: &Iid) -> (r: bool)
        ensures
            r == chain_supports(*self, *iid),
    {
        let n = self.chain.len();
        let mut k: usize = 0;
        while k < n
            invariant
                n == self.chain@.len(),
                k <= n,
                forall|j: int| 0 <= j < k ==> (#[trigger] self.chain@[j].iid) != *iid,
            decreases n - k,
        {
            if self.chain[k].iid == *iid {
                return true;
            }
            k += 1;
        }
        false
    }
}

} // verus!
