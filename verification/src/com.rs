//! Identifiers of component interfaces.

use vstd::prelude::*;
use vstd::std_specs::cmp::PartialEqSpecImpl;

verus! {

/// A globally unique identifier, in the layout in which interfaces are
/// identified: 32, 16 and 16 bits, then 8 bytes.
#[allow(clippy::upper_case_acronyms)]
#[derive(Debug, Clone, Copy, Eq, Hash)]
pub struct GUID {
    pub data1: u32,
    pub data2: u16,
    pub data3: u16,
    pub data4: [u8; 8],
}

impl GUID {
    /// Whether two identifiers agree in every part.
    pub open spec fn same(&self, other: &GUID) -> bool {
        &&& self.data1 == other.data1
        &&& self.data2 == other.data2
        &&& self.data3 == other.data3
        &&& self.data4@ == other.data4@
    }

    /// The identifier with the given parts.
    pub fn from_values(data1: u32, data2: u16, data3: u16, data4: [u8; 8]) -> (id: GUID)
        ensures
            id == (GUID { data1, data2, data3, data4 }),
    {
        GUID { data1, data2, data3, data4 }
    }
}

impl PartialEq for GUID {
    fn eq(&self, other: &Self) -> (equal: bool) {
        if self.data1 != other.data1 || self.data2 != other.data2 || self.data3 != other.data3 {
            return false;
        }
        let mut i: usize = 0;
        while i < 8
            invariant
                i <= 8,
                forall|j: int| 0 <= j < i ==> self.data4@[j] == other.data4@[j],
            decreases 8 - i,
        {
            if self.data4[i] != other.data4[i] {
                return false;
            }
            i = i + 1;
        }
        assert(self.data4@ =~= other.data4@);
        true
    }
}

impl PartialEqSpecImpl for GUID {
    open spec fn obeys_eq_spec() -> bool {
        true
    }

    /// Two identifiers are equal exactly when all their parts are.
    open spec fn eq_spec(&self, other: &Self) -> bool {
        self.same(other)
    }
}

/// Identifiers that agree in every part are the same identifier, and only
/// those.
pub proof fn lemma_same_is_equal(a: GUID, b: GUID)
    ensures
        a.same(&b) <==> a == b,
{
    if a.same(&b) {
        assert(a.data4 =~= b.data4);
    }
}

} // verus!
