//! Interface matching for the lamp array effect interfaces.

use crate::com::GUID;
use vstd::prelude::*;

verus! {

/// The identifiers of the lamp array effect interfaces, as the binding layer
/// knows them.
#[allow(non_snake_case)]
#[derive(Debug, Clone, Copy)]
pub struct EffectIds {
    pub ILampArrayEffect: GUID,
}

/// The method table of `ILampArrayEffect`.
#[allow(non_camel_case_types)]
pub struct ILampArrayEffect_Vtbl;

impl ILampArrayEffect_Vtbl {
    /// Whether `iid` names `ILampArrayEffect`.
    pub fn matches(iid: &GUID, ids: &EffectIds) -> (found: bool)
        ensures
            found == iid.same(&ids.ILampArrayEffect),
    {
        *iid == ids.ILampArrayEffect
    }
}

} // verus!
