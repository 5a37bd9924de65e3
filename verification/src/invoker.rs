//! Resolution of the external resource compiler and the outcome of running it.

use vstd::prelude::*;

verus! {

/// How a finished (or failed) run of the resource compiler is classified.
#[derive(Clone, Copy, PartialEq, Eq, Structural, Debug)]
pub enum CompileOutcome {
    /// The compiler process ran and exited with a success status.
    Success,
    /// The compiler process ran and exited with a non-success status.
    CompilerFailed,
    /// The compiler process could not be started at all.
    SpawnFailed,
}

impl CompileOutcome {
    /// A non-success outcome must abort the whole build step: the process
    /// exit code, not an in-process value, is the error channel.
    pub open spec fn must_terminate_build(self) -> bool {
        self != CompileOutcome::Success
    }
}

/// The fixed relative path of the generated descriptor file. It is both
/// where the rendered text is written and the final compiler argument.
pub fn descriptor_file_name() -> (r: &'static str)
    ensures
        r@ == "resources.rc"@,
{
    "resources.rc"
}

/// The environment variable that overrides the compiler location.
pub fn compiler_override_variable() -> (r: &'static str)
    ensures
        r@ == "PATH_TO_RC"@,
{
    "PATH_TO_RC"
}

/// The default location of the resource compiler, used when no environment
/// override is set.
pub fn default_compiler_path() -> (r: &'static str)
    ensures
        r@ == "D:\\EWDK\\content\\Program Files\\Windows Kits\\10\\bin\\10.0.22621.0\\x86\\rc.exe"@,
{
    "D:\\EWDK\\content\\Program Files\\Windows Kits\\10\\bin\\10.0.22621.0\\x86\\rc.exe"
}

/// The compiler executable to run: the environment override when one is set,
/// the given fallback path otherwise.
pub fn resolve_compiler_path(environment_override: Option<String>, fallback: &str) -> (r: String)
    ensures
        r@ == match environment_override {
            Some(p) => p@,
            None => fallback@,
        },
{
    match environment_override {
        Some(p) => p,
        None => fallback.to_owned(),
    }
}

/// The compiler argument list for the given include paths and descriptor
/// path: one `/I <path>` argument per include path, in order, and the
/// descriptor path as the final argument.
pub open spec fn spec_compiler_args(paths: Seq<Seq<char>>, descriptor: Seq<char>) -> Seq<
    Seq<char>,
> {
    paths.map_values(|p: Seq<char>| "/I "@ + p).push(descriptor)
}

/// Builds the compiler argument list: include-path order is preserved, since
/// include-path precedence is order-sensitive, and the descriptor file path
/// comes last.
pub fn build_compiler_args(include_paths: &Vec<String>) -> (r: Vec<String>)
    ensures
        r.deep_view() == spec_compiler_args(include_paths.deep_view(), "resources.rc"@),
{
    let ghost paths = include_paths.deep_view();
    let mut out: Vec<String> = Vec::new();
    let n = include_paths.len();
    let mut i: usize = 0;
    while i < n
        invariant
            n == include_paths@.len(),
            0 <= i <= n,
            paths == include_paths.deep_view(),
            out.deep_view() == paths.subrange(0, i as int).map_values(|p: Seq<char>| "/I "@ + p),
        decreases n - i,
    {
        let ghost before = out.deep_view();
        let mut arg = String::new();
        arg.append("/I ");
        arg.append(include_paths[i].as_str());
        proof {
            assert(include_paths[i as int]@ == paths[i as int]);
            assert(arg@ == "/I "@ + paths[i as int]);
        }
        out.push(arg);
        i += 1;
        proof {
            assert(out.deep_view() =~= before.push("/I "@ + paths[i - 1]));
            assert(out.deep_view() =~= paths.subrange(0, i as int).map_values(
                |p: Seq<char>| "/I "@ + p,
            ));
        }
    }
    let ghost before = out.deep_view();
    out.push(descriptor_file_name().to_owned());
    proof {
        assert(paths.subrange(0, n as int) =~= paths);
        assert(out.deep_view() =~= before.push("resources.rc"@));
        assert(out.deep_view() =~= spec_compiler_args(paths, "resources.rc"@));
    }
    out
}

/// Classifies the result of spawning the compiler and waiting for it.
/// `None` means the process could not be spawned; `Some(s)` means it ran and
/// `s` tells whether its exit status was a success.
pub fn compile_outcome(spawn_result: Option<bool>) -> (r: CompileOutcome)
    ensures
        r == CompileOutcome::Success <==> spawn_result == Some(true),
        r == CompileOutcome::CompilerFailed <==> spawn_result == Some(false),
        r == CompileOutcome::SpawnFailed <==> spawn_result is None,
        r.must_terminate_build() <==> spawn_result != Some(true),
{
    match spawn_result {
        Some(true) => CompileOutcome::Success,
        Some(false) => CompileOutcome::CompilerFailed,
        None => CompileOutcome::SpawnFailed,
    }
}

} // verus!
