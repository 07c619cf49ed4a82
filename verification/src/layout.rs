//! Filesystem layout of the provisioned per-application data directory.
//!
//! On mobile profiles the server's document root lives under a fixed
//! subdirectory of the application-private data directory.  On first launch
//! a fixed tree of seven directories is created there and a sentinel marker
//! file is written; a fixed set of environment variables points the child
//! process at paths inside that tree.  Everything here is pure path
//! arithmetic: strings joined with forward slashes.

use vstd::prelude::*;
use vstd::string::StringExecFns;

verus! {

/// `base` and `sub` joined with a single forward slash.
pub open spec fn slash_join(base: Seq<char>, sub: Seq<char>) -> Seq<char> {
    base + "/"@ + sub
}

/// The server's root directory inside the application data directory.
pub open spec fn server_root_spec(data_dir: Seq<char>) -> Seq<char> {
    slash_join(data_dir, "laravel"@)
}

/// The sentinel marker file whose presence means provisioning already ran.
pub open spec fn sentinel_path_spec(root: Seq<char>) -> Seq<char> {
    slash_join(root, ".initialized"@)
}

/// The seven directory subpaths provisioned on first launch, in creation
/// order.
pub open spec fn provisioned_subpaths() -> Seq<Seq<char>> {
    seq![
        "storage/app/public"@,
        "storage/framework/cache"@,
        "storage/framework/sessions"@,
        "storage/framework/views"@,
        "storage/logs"@,
        "database"@,
        "bootstrap/cache"@,
    ]
}

/// The seven provisioned directories as absolute paths under `root`.
pub open spec fn provisioned_dirs_spec(root: Seq<char>) -> Seq<Seq<char>> {
    provisioned_subpaths().map_values(|sub: Seq<char>| slash_join(root, sub))
}

/// The environment variables handed to the child process on mobile
/// profiles, each value a path under `root`.
pub open spec fn env_vars_spec(root: Seq<char>) -> Seq<(Seq<char>, Seq<char>)> {
    seq![
        ("STORAGE_PATH"@, slash_join(root, "storage"@)),
        ("BOOTSTRAP_CACHE"@, slash_join(root, "bootstrap/cache"@)),
        ("DATABASE_PATH"@, slash_join(root, "database"@)),
        ("DB_DATABASE"@, slash_join(root, "database/database.sqlite"@)),
    ]
}

/// Every environment variable value handed to the child process is a path
/// rooted under the resolved application data directory: the value starts
/// with `data_dir` followed by a forward slash.
pub proof fn lemma_env_vars_rooted(data_dir: Seq<char>)
    ensures
        forall|i: int|
            0 <= i < env_vars_spec(server_root_spec(data_dir)).len()
                ==> (#[trigger] env_vars_spec(server_root_spec(data_dir))[i].1).take(
                data_dir.len() as int,
            ) == data_dir && env_vars_spec(server_root_spec(data_dir))[i].1.len()
                > data_dir.len() && env_vars_spec(server_root_spec(data_dir))[i].1[data_dir.len() as int]
                == '/',
{
    reveal_strlit("/");
    let env = env_vars_spec(server_root_spec(data_dir));
    assert forall|i: int| 0 <= i < env.len() implies (#[trigger] env[i].1).take(
        data_dir.len() as int,
    ) == data_dir && env[i].1.len() > data_dir.len() && env[i].1[data_dir.len() as int] == '/' by {
        assert(env[i].1.take(data_dir.len() as int) =~= data_dir);
    }
}

/// Joins two path fragments with a forward slash.
pub fn join_path(base: &str, sub: &str) -> (r: String)
    ensures
        r@ == slash_join(base@, sub@),
{
    let mut r = String::from_str(base);
    r.append("/");
    r.append(sub);
    r
}

/// The server's root directory under the resolved application data
/// directory.
pub fn server_root(data_dir: &str) -> (r: String)
    ensures
        r@ == server_root_spec(data_dir@),
{
    join_path(data_dir, "laravel")
}

/// The path of the sentinel marker file under `root`.
pub fn sentinel_path(root: &str) -> (r: String)
    ensures
        r@ == sentinel_path_spec(root@),
{
    join_path(root, ".initialized")
}

/// The seven directories to create under `root` on first launch.
pub fn provisioned_dirs(root: &str) -> (dirs: Vec<String>)
    ensures
        dirs@.len() == provisioned_dirs_spec(root@).len(),
        forall|i: int|
            0 <= i < dirs@.len() ==> dirs@[i]@ == provisioned_dirs_spec(root@)[i],
{
    let mut dirs: Vec<String> = Vec::new();
    dirs.push(join_path(root, "storage/app/public"));
    dirs.push(join_path(root, "storage/framework/cache"));
    dirs.push(join_path(root, "storage/framework/sessions"));
    dirs.push(join_path(root, "storage/framework/views"));
    dirs.push(join_path(root, "storage/logs"));
    dirs.push(join_path(root, "database"));
    dirs.push(join_path(root, "bootstrap/cache"));
    dirs
}

/// The environment variable pairs for the child process on mobile profiles.
pub fn env_vars(root: &str) -> (env: Vec<(String, String)>)
    ensures
        env@.len() == env_vars_spec(root@).len(),
        forall|i: int|
            0 <= i < env@.len() ==> #[trigger] env@[i].0@ == env_vars_spec(root@)[i].0
                && env@[i].1@ == env_vars_spec(root@)[i].1,
{
    let mut env: Vec<(String, String)> = Vec::new();
    env.push((String::from_str("STORAGE_PATH"), join_path(root, "storage")));
    env.push((String::from_str("BOOTSTRAP_CACHE"), join_path(root, "bootstrap/cache")));
    env.push((String::from_str("DATABASE_PATH"), join_path(root, "database")));
    env.push((String::from_str("DB_DATABASE"), join_path(root, "database/database.sqlite")));
    env
}

} // verus!
