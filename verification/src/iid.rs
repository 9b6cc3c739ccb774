use vstd::prelude::*;

verus! {

/// A 128-bit interface identifier: 16 bytes laid out as one `u32`, two
/// `u16`s and eight trailing bytes, with no padding, for compatibility with
/// the external binary convention. Equality is byte-wise; every interface
/// carries exactly one identifier and two distinct interfaces never share
/// one.
#[derive(Clone, Copy, Debug)]
pub struct Iid {
    pub data1: u32,
    pub data2: u16,
    pub data3: u16,
    pub data4: [u8; 8],
}

impl PartialEq for Iid {
    fn eq(&self, other: &Iid) -> (r: bool) {
        let r = self.data1 == other.data1 && self.data2 == other.data2
            && self.data3 == other.data3 && self.data4[0] == other.data4[0]
            && self.data4[1] == other.data4[1] && self.data4[2] == other.data4[2]
            && self.data4[3] == other.data4[3] && self.data4[4] == other.data4[4]
            && self.data4[5] == other.data4[5] && self.data4[6] == other.data4[6]
            && self.data4[7] == other.data4[7];
        proof {
            if r {
                assert(self.data4 =~= other.data4);
            }
        }
        r
    }
}

impl vstd::std_specs::cmp::PartialEqSpecImpl for Iid {
    open spec fn obeys_eq_spec() -> bool {
        true
    }

    open spec fn eq_spec(&self, other: &Iid) -> bool {
        *self == *other
    }
}

impl Eq for Iid {}

/// Whether `i` is the identifier of the universal root interface, the
/// interface every inheritance chain terminates at and whose three methods
/// (query-by-identifier, add-ref, release) head every dispatch table.
pub open spec fn is_root_iid(i: Iid) -> bool {
    &&& i.data1 == 0
    &&& i.data2 == 0
    &&& i.data3 == 0
    &&& i.data4[0] == 0xC0u8
    &&& i.data4[1] == 0u8
    &&& i.data4[2] == 0u8
    &&& i.data4[3] == 0u8
    &&& i.data4[4] == 0u8
    &&& i.data4[5] == 0u8
    &&& i.data4[6] == 0u8
    &&& i.data4[7] == 0x46u8
}

/// The identifier of the universal root interface.
pub fn iid_root() -> (r: Iid)
    ensures
        is_root_iid(r),
{
    Iid { data1: 0, data2: 0, data3: 0, data4: [0xC0, 0, 0, 0, 0, 0, 0, 0x46] }
}

/// Tests whether `i` is the universal root identifier.
pub fn is_root(i: &Iid) -> (r: bool)
    ensures
        r == is_root_iid(*i),
{
    i.data1 == 0 && i.data2 == 0 && i.data3 == 0 && i.data4[0] == 0xC0 && i.data4[1] == 0
        && i.data4[2] == 0 && i.data4[3] == 0 && i.data4[4] == 0 && i.data4[5] == 0
        && i.data4[6] == 0 && i.data4[7] == 0x46
}

/// There is exactly one root identifier value: any two identifiers that
/// satisfy `is_root_iid` are byte-wise equal.
pub proof fn lemma_root_iid_unique(a: Iid, b: Iid)
    requires
        is_root_iid(a),
        is_root_iid(b),
    ensures
        a == b,
{
    assert(a.data4 =~= b.data4);
}

} // verus!
