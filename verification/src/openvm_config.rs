//! Where the VM configuration comes from, and what every configuration is held to.

use vstd::prelude::*;
use vstd::string::*;

use crate::text::{is_blank, trim};

verus! {

/// Name of the variable that points at a custom extension set. Unset, it is the
/// standard one.
pub const EDGE_OPENVM_CONFIG_ENV: &'static str = "EDGE_OPENVM_CONFIG";

/// The maximum constraint degree, whatever the extension set.
pub const VM_MAX_CONSTRAINT_DEGREE: usize = 3;

/// The number of public values, whatever the extension set.
pub const VM_NUM_PUBLIC_VALUES: usize = 32;

/// The limits of the VM itself, beside its extensions.
#[derive(Debug, Clone, Copy, PartialEq, Eq, Structural)]
pub struct VmLimits {
    pub max_constraint_degree: usize,
    pub num_public_values: usize,
}

/// The limits that a configuration is held to in place of those that were read with its
/// extension set. The aggregation layers depend on them.
pub fn held_limits(read: VmLimits) -> (r: VmLimits)
    ensures
        r.max_constraint_degree == 3,
        r.num_public_values == 32,
{
    let mut held = read;
    held.max_constraint_degree = VM_MAX_CONSTRAINT_DEGREE;
    held.num_public_values = VM_NUM_PUBLIC_VALUES;
    held
}

/// Where the extension set comes from.
pub enum VmConfigSource {
    Standard,
    /// A file at this path.
    File(String),
}

/// Decide where the extension set comes from. A blank value counts as unset; a path is
/// taken as it stands.
pub fn vm_config_source(value: Option<&str>) -> (r: VmConfigSource)
    ensures
        match value {
            Some(path) => if is_blank(path@) {
                r is Standard
            } else {
                r is File && r->File_0@ == path@
            },
            None => r is Standard,
        },
{
    match value {
        Some(path) => {
            if trim(path).unicode_len() == 0 {
                VmConfigSource::Standard
            } else {
                VmConfigSource::File(path.to_owned())
            }
        },
        None => VmConfigSource::Standard,
    }
}

fn config_file_text(open: &str, path: &str, close: &str, e: &str) -> (r: String)
    ensures
        r@ == open@ + EDGE_OPENVM_CONFIG_ENV@ + " ("@ + path@ + close@ + e@,
{
    let mut out = open.to_owned();
    out.append(EDGE_OPENVM_CONFIG_ENV);
    out.append(" (");
    out.append(path);
    out.append(close);
    out.append(e);
    out
}

/// The text of an extension set that cannot be read.
pub fn unreadable_config(path: &str, e: &str) -> (r: String)
    ensures
        r@ == "Failed to read "@ + EDGE_OPENVM_CONFIG_ENV@ + " ("@ + path@ + "): "@ + e@,
{
    config_file_text("Failed to read ", path, "): ", e)
}

/// The text of an extension set that cannot be parsed.
pub fn unparsable_config(path: &str, e: &str) -> (r: String)
    ensures
        r@ == "Failed to parse "@ + EDGE_OPENVM_CONFIG_ENV@ + " ("@ + path@
            + ") as openvm.toml: "@ + e@,
{
    config_file_text("Failed to parse ", path, ") as openvm.toml: ", e)
}

/// Whatever was read with an extension set, the limits are the same.
pub proof fn limits_do_not_depend_on_the_set(
    a: VmLimits,
    b: VmLimits,
    held_a: VmLimits,
    held_b: VmLimits,
)
    requires
        call_ensures(held_limits, (a,), held_a),
        call_ensures(held_limits, (b,), held_b),
    ensures
        held_a == held_b,
        held_a.max_constraint_degree == 3,
        held_a.num_public_values == 32,
{
}

/// The extension set is read from a file exactly if the variable holds more than white
/// space, and from the path as it stands there.
pub proof fn only_blank_paths_are_ignored(value: Option<&str>, r: VmConfigSource)
    requires
        call_ensures(vm_config_source, (value,), r),
    ensures
        r is File <==> value is Some && !is_blank(value->0@),
        r is File ==> r->File_0@ == value->0@,
{
}

/// What is said of a file that is of no use names the variable, the file and the cause, and
/// tells reading from parsing.
pub proof fn bad_config_files_are_told(path: &str, e: &str, unread: String, unparsed: String)
    requires
        call_ensures(unreadable_config, (path, e), unread),
        call_ensures(unparsable_config, (path, e), unparsed),
    ensures
        unread@ == "Failed to read "@ + "EDGE_OPENVM_CONFIG"@ + " ("@ + path@ + "): "@ + e@,
        unparsed@ == "Failed to parse "@ + "EDGE_OPENVM_CONFIG"@ + " ("@ + path@
            + ") as openvm.toml: "@ + e@,
{
}

} // verus!
