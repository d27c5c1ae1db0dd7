//! Where a container's files live under the runtime root.
use vstd::prelude::*;

use crate::text::join_path;

verus! {

/// The root directory used when none is given.
pub open spec fn default_root() -> Seq<char> {
    "/tmp/pura"@
}

/// `/tmp/pura`, the runtime root used when none is given.
pub fn default_root_dir() -> (r: String)
    ensures
        r@ == default_root(),
{
    "/tmp/pura".to_string()
}

/// The directory of container `id`: `<root>/<id>`.
pub fn container_dir(root: &str, id: &str) -> (r: String)
    ensures
        r@ == root@ + "/"@ + id@,
{
    join_path(root, id)
}

/// The init-lock socket of a container directory: `<dir>/init.sock`.
pub fn init_lock_path(dir: &str) -> (r: String)
    ensures
        r@ == dir@ + "/"@ + "init.sock"@,
{
    join_path(dir, "init.sock")
}

/// The start-lock socket of a container directory: `<dir>/run.sock`.
pub fn start_lock_path(dir: &str) -> (r: String)
    ensures
        r@ == dir@ + "/"@ + "run.sock"@,
{
    join_path(dir, "run.sock")
}

/// The state document of a container directory: `<dir>/state.json`.
pub fn state_file_path(dir: &str) -> (r: String)
    ensures
        r@ == dir@ + "/"@ + "state.json"@,
{
    join_path(dir, "state.json")
}

/// The file a new state document is written to before it replaces the old
/// one: `<dir>/state.json.tmp`.
pub fn state_temp_path(dir: &str) -> (r: String)
    ensures
        r@ == dir@ + "/"@ + "state.json.tmp"@,
{
    join_path(dir, "state.json.tmp")
}

/// The configuration document of a bundle: `<bundle>/config.json`.
pub fn config_path(bundle: &str) -> (r: String)
    ensures
        r@ == bundle@ + "/"@ + "config.json"@,
{
    join_path(bundle, "config.json")
}

} // verus!
