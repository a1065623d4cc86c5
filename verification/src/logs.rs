//! Where the log files are kept.

use vstd::prelude::*;
use vstd::string::{StrSliceExecFns, StringExecFns};

verus! {

/// The name under which the product keeps its files.
pub const PRODUCT_NAME: &'static str = "mullvad-vpn";

/// The directory under which the system keeps log files.
pub const SYSTEM_LOG_DIR: &'static str = "/var/log";

/// The path of `component` seen from the directory `base`: an absolute
/// component stands for itself, any other follows the base, with one
/// separator between the two unless the base is empty or ends in one.
pub open spec fn spec_join(base: Seq<char>, component: Seq<char>) -> Seq<char> {
    if component.len() > 0 && component[0] == '/' {
        component
    } else if base.len() == 0 || base.last() == '/' {
        base + component
    } else {
        base + seq!['/'] + component
    }
}

/// Appends `component` to the path `base`.
pub fn join(base: &str, component: &str) -> (res: String)
    ensures
        res@ == spec_join(base@, component@),
{
    let base_len = base.unicode_len();
    if component.unicode_len() > 0 && component.get_char(0) == '/' {
        String::from_str(component)
    } else if base_len == 0 || base.get_char(base_len - 1) == '/' {
        String::from_str(base).concat(component)
    } else {
        proof {
            reveal_strlit("/");
            assert("/"@ =~= seq!['/']);
        }
        String::from_str(base).concat("/").concat(component)
    }
}

/// The logging directory: the one that was chosen, if one was, and the
/// default otherwise. The directory is not created.
pub fn get_log_dir(log_dir: Option<String>) -> (res: String)
    ensures
        match log_dir {
            Some(path) => res == path,
            None => res@ == spec_join(SYSTEM_LOG_DIR@, PRODUCT_NAME@),
        },
{
    match log_dir {
        Some(path) => path,
        None => get_default_log_dir(),
    }
}

/// The logging directory that is used when none is chosen: the product's own
/// directory under the system's directory for logs.
pub fn get_default_log_dir() -> (res: String)
    ensures
        res@ == spec_join(SYSTEM_LOG_DIR@, PRODUCT_NAME@),
        res@ == "/var/log/mullvad-vpn"@,
{
    proof {
        reveal_strlit("/var/log");
        reveal_strlit("mullvad-vpn");
        reveal_strlit("/var/log/mullvad-vpn");
        assert(spec_join("/var/log"@, "mullvad-vpn"@) =~= "/var/log/mullvad-vpn"@);
    }
    join(SYSTEM_LOG_DIR, PRODUCT_NAME)
}

} // verus!
