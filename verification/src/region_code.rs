//! Region codes with a fixed meaning.

use vstd::prelude::*;

verus! {

pub struct RegionCode {}

impl RegionCode {
    /// The region code that stands for "unknown region".
    pub fn get_unknown() -> (code: &'static str)
        ensures
            code@ == "ZZ"@,
    {
        Self::zz()
    }

    pub fn zz() -> (code: &'static str)
        ensures
            code@ == "ZZ"@,
    {
        "ZZ"
    }
}

} // verus!
