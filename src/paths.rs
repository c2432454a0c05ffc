//! Fixed locations that host and extensions agree on.

use vstd::prelude::*;

verus! {

pub fn get_tmp_dir() -> (r: String)
    ensures
        r@ == "/tmp"@,
{
    "/tmp".to_owned()
}

/// The mailbox that carries a form from an extension to the host.
pub fn get_form_path() -> (r: String)
    ensures
        r@ == "/tmp/tigris-form.bin"@,
{
    "/tmp/tigris-form.bin".to_owned()
}

} // verus!
