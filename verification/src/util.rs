use vstd::prelude::*;

verus! {

use vstd::string::StringExecFns;

/// Builds the error text used throughout the capture pipeline when an OS
/// call reports a failure: a caller-supplied context message joined with
/// the operating system's own error description.
///
/// The platform layer fetches the OS error description (the textual form
/// of the thread's last error code) and passes it in as plain text.
pub fn get_last_error(message: &str, os_error: &str) -> (r: String)
    ensures
        r@ == message@ + ": "@ + os_error@,
{
    let mut r = message.to_owned();
    r.append(": ");
    r.append(os_error);
    proof {
        assert(r@ == message@ + ": "@ + os_error@);
    }
    r
}

} // verus!
