//! Decision core of the server's metrics report: which GPU vendor is
//! reported, given the verdicts of the vendor probes. The probes themselves
//! run vendor tools outside the core.

use vstd::prelude::*;
use vstd::string::StringExecFns;

verus! {

/// A GPU counts as detected when any vendor probe succeeded.
pub fn detect_gpu(nvidia: bool, amd: bool, intel: bool) -> (b: bool)
    ensures
        b == (nvidia || amd || intel),
{
    nvidia || amd || intel
}

/// The reported vendor, by fixed precedence: NVIDIA, then AMD, then Intel;
/// none when no probe succeeded.
pub fn get_gpu_vendor(nvidia: bool, amd: bool, intel: bool) -> (v: Option<String>)
    ensures
        nvidia ==> (v matches Some(s) && s@ == "nvidia"@),
        (!nvidia && amd) ==> (v matches Some(s) && s@ == "amd"@),
        (!nvidia && !amd && intel) ==> (v matches Some(s) && s@ == "intel"@),
        (!nvidia && !amd && !intel) ==> v is None,
{
    if nvidia {
        Some(String::from_str("nvidia"))
    } else if amd {
        Some(String::from_str("amd"))
    } else if intel {
        Some(String::from_str("intel"))
    } else {
        None
    }
}

} // verus!
