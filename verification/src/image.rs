//! Image mapping: a small static table from symbolic runtime names to
//! concrete container-image references.  An unmapped name is a hard
//! provisioning error for the caller.

use vstd::prelude::*;

verus! {

/// Compares two string slices by value, through owned strings: vstd
/// specifies `String` equality, not `str` equality.
pub fn str_eq(a: &str, b: &str) -> (r: bool)
    ensures
        r == (a@ == b@),
{
    let oa: String = a.to_owned();
    let ob: String = b.to_owned();
    oa == ob
}

/// The image reference that the symbolic runtime name stands for,
/// if the table maps it.
pub open spec fn spec_select_image(image_name: Seq<char>) -> Option<Seq<char>> {
    if image_name == "nodejs"@ {
        Some("openwhisk/action-nodejs-v16"@)
    } else {
        None
    }
}

/// Returns the container image associated with the given symbolic runtime
/// name, or nothing when the table does not map it.
pub fn select_image(image_name: &str) -> (r: Option<&str>)
    ensures
        r is Some <==> spec_select_image(image_name@) is Some,
        r matches Some(img) ==> spec_select_image(image_name@) == Some(img@),
{
    if str_eq(image_name, "nodejs") {
        Some("openwhisk/action-nodejs-v16")
    } else {
        None
    }
}

} // verus!
