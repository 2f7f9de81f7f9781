use vstd::prelude::*;

verus! {

/// The report of a purge of the spaces root `spaces_dir`.
pub fn purged_message(spaces_dir: &str) -> (r: String)
    ensures
        r@ == "Purged "@ + spaces_dir@,
{
    String::from_str("Purged ").concat(spaces_dir)
}

} // verus!
