//! Host-identity resolution: among the host's network interfaces, in
//! enumeration order, the first one that is not the loopback is the
//! one whose hardware address becomes the host identity.

use vstd::prelude::*;
use vstd::string::StringExecFns;

verus! {

/// Selects the interface whose address will identify this host: the
/// first entry that is not the loopback interface `lo`, in the order
/// the host enumerated them. `None` means no usable interface exists,
/// which is a fatal startup condition for the caller.
pub fn select_interface(names: &Vec<String>) -> (r: Option<usize>)
    ensures
        match r {
            Some(i) => i < names@.len() && names@[i as int]@ != "lo"@ && (forall|k: int|
                0 <= k < i as int ==> names@[k]@ == "lo"@),
            None => forall|k: int| 0 <= k < names@.len() ==> names@[k]@ == "lo"@,
        },
{
    let lo = String::from_str("lo");
    let mut i: usize = 0;
    while i < names.len()
        invariant
            i <= names@.len(),
            lo@ == "lo"@,
            forall|k: int| 0 <= k < i as int ==> names@[k]@ == "lo"@,
        decreases names@.len() - i,
    {
        if !names[i].eq(&lo) {
            return Some(i);
        }
        i = i + 1;
    }
    None
}

} // verus!
