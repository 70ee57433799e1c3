//! What one run decides before touching the system: the cache file that may be
//! deleted and the command line handed to the downstream tool.

use vstd::prelude::*;
use crate::invocation::InvocationArgs;
use crate::invocation::flag_token;
use crate::invocation::resolved_dir;

verus! {

/// The name of the cache file inside the build directory, led by the path
/// separator.
pub open spec fn cache_file_suffix() -> Seq<char> {
    "/CMakeCache.txt"@
}

/// The path of the cache file belonging to build directory `dir`.
pub open spec fn cache_path(dir: Seq<char>) -> Seq<char> {
    dir + cache_file_suffix()
}

/// The argument list handed to the downstream tool: the flag token, the
/// resolved build directory, then the trailing arguments verbatim.
pub open spec fn forwarded(dir: Seq<char>, trailing: Seq<Seq<char>>) -> Seq<Seq<char>> {
    seq![flag_token(), dir] + trailing
}

/// Law: the forwarded command line is an order-preserving passthrough. After
/// the prepended flag token and directory, it carries the trailing arguments
/// exactly, in their original order.
pub proof fn lemma_forwarded_passthrough(dir: Seq<char>, trailing: Seq<Seq<char>>)
    ensures
        forwarded(dir, trailing).len() == trailing.len() + 2,
        forwarded(dir, trailing)[0] == flag_token(),
        forwarded(dir, trailing)[1] == dir,
        forall|j: int| 0 <= j < trailing.len() ==> forwarded(dir, trailing)[j + 2] == trailing[j],
        forwarded(dir, trailing).skip(2) == trailing,
{
    assert(forwarded(dir, trailing).skip(2) =~= trailing);
}

/// Everything one run decides before touching the system: the resolved build
/// directory, the cache file that may be deleted from it, and the full command
/// line handed to the downstream tool.
pub struct ReconfigurePlan {
    pub build_directory: String,
    pub cache_file: String,
    pub command_args: Vec<String>,
}

/// Builds the plan of one run. The cache file lies in the very directory that
/// the command line hands to the downstream tool behind the flag token: the
/// wrapper never deletes a cache in one directory while building in another.
pub fn plan_reconfigure(args: &InvocationArgs) -> (p: ReconfigurePlan)
    ensures
        p.build_directory@ == resolved_dir(args.build_directory@, args.trailing_args.deep_view()),
        p.cache_file@ == cache_path(p.build_directory@),
        p.command_args.deep_view() == forwarded(
            p.build_directory@,
            args.trailing_args.deep_view(),
        ),
        p.cache_file@ == cache_path(p.command_args.deep_view()[1]),
{
    let dir = args.resolved_build_directory();
    let mut cache_file = dir.clone();
    cache_file.append("/CMakeCache.txt");
    let mut command_args: Vec<String> = Vec::new();
    command_args.push("-B".to_owned());
    command_args.push(dir.clone());
    let n = args.trailing_args.len();
    let mut i: usize = 0;
    while i < n
        invariant
            i <= n,
            n == args.trailing_args.len(),
            command_args.len() == i + 2,
            command_args.deep_view()[0] == flag_token(),
            command_args.deep_view()[1] == dir@,
            forall|j: int|
                0 <= j < i ==> command_args.deep_view()[j + 2]
                    == args.trailing_args.deep_view()[j],
        decreases n - i,
    {
        command_args.push(args.trailing_args[i].clone());
        i += 1;
    }
    proof {
        assert(command_args.deep_view() =~~= forwarded(dir@, args.trailing_args.deep_view()));
    }
    ReconfigurePlan { build_directory: dir, cache_file, command_args }
}

impl ReconfigurePlan {
    /// The cleanup decision: deletion is attempted exactly when the build
    /// directory exists on the system, and then only at that directory's cache
    /// file. `directory_exists` is the system's answer for `build_directory`.
    pub fn cache_deletion_target(&self, directory_exists: bool) -> (r: Option<String>)
        ensures
            directory_exists ==> (r matches Some(t) && t@ == self.cache_file@),
            !directory_exists ==> r is None,
    {
        if directory_exists {
            Some(self.cache_file.clone())
        } else {
            None
        }
    }
}

/// Relies on `std::path::Path::exists`: whether `path` names anything present
/// on this system. The answer depends on the state of the filesystem, so
/// nothing is promised of it.
#[verifier::external_body]
fn path_exists(path: &str) -> bool {
    std::path::Path::new(path).exists()
}

/// Relies on `std::path::Path::is_dir`: whether `path` names a directory on
/// this system. The answer depends on the state of the filesystem, so nothing
/// is promised of it.
#[verifier::external_body]
fn path_is_dir(path: &str) -> bool {
    std::path::Path::new(path).is_dir()
}

/// Whether `path` names an existing directory: it is present on the system and
/// is a directory rather than a file.
pub fn is_existing_directory(path: &str) -> bool {
    path_exists(path) && path_is_dir(path)
}

} // verus!
