//! Platform error codes as the kernel reports them.
use vstd::prelude::*;

verus! {

/// Linux error code for "permission denied".
pub const EACCES: i32 = 13;

/// Linux error code for "bad address".
pub const EFAULT: i32 = 14;

/// The symbolic name that the syscalls crate knows for an error code, if any.
pub uninterp spec fn errno_name_of(code: i32) -> Option<Seq<char>>;

/// Relies on `syscalls::Errno::name`: a fixed table lookup on the raw code,
/// `None` where the code has no name.
#[verifier::external_body]
pub(crate) fn errno_name(code: i32) -> (r: Option<&'static str>)
    ensures
        match r {
            Some(s) => errno_name_of(code) == Some(s@),
            None => errno_name_of(code) is None,
        },
{
    syscalls::Errno::new(code).name()
}

} // verus!
