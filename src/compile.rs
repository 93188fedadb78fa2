//! The compiler invocation: output name, flags, arguments and environment.

use crate::cli::{CompileTarget, GoTarget};
use crate::errors::PackError;
use crate::text::{eq_fold, eq_ignore_ascii_case, join_path, join_spec};
use vstd::prelude::*;
use vstd::string::*;

verus! {

/// The compiler executable, looked up on the search path.
pub const GO: &'static str = "go";

/// Whether a Go operating system name is the Windows family, in any case.
pub open spec fn is_windows(goos: Seq<char>) -> bool {
    eq_fold(goos, "windows"@)
}

/// Whether a Go operating system name is the Windows family, in any case.
pub fn is_windows_target(goos: &str) -> (r: bool)
    ensures
        r == is_windows(goos@),
{
    eq_ignore_ascii_case(goos, "windows")
}

/// The project name, with `.exe` on Windows.
pub open spec fn binary_name_spec(target: CompileTarget, goos: Seq<char>) -> Seq<char> {
    if is_windows(goos) {
        target.project_spec() + ".exe"@
    } else {
        target.project_spec()
    }
}

/// The file name of the compiled binary.
pub fn binary_name(target: &CompileTarget, goos: &str) -> (r: String)
    ensures
        r@ == binary_name_spec(*target, goos@),
{
    let s = String::from_str(target.project());
    if is_windows_target(goos) {
        s.concat(".exe")
    } else {
        s
    }
}

/// The link flags used when none are given: Xray-core embeds the build
/// identifier; both strip symbols and the build ID.
pub open spec fn default_ldflags(target: CompileTarget, commid: Seq<char>) -> Seq<char> {
    match target {
        CompileTarget::Xray { .. } => "-X github.com/xtls/xray-core/core.build="@ + commid
            + " -s -w -buildid="@,
        CompileTarget::V2ray { .. } => "-s -w -buildid="@,
    }
}

/// The link flags: the given ones verbatim, else the default.
pub open spec fn ldflags_spec(target: CompileTarget, commid: Seq<char>) -> Seq<char> {
    match target.options_spec().ldflags {
        Some(l) => l@,
        None => default_ldflags(target, commid),
    }
}

pub fn ldflags(target: &CompileTarget, commid: &str) -> (r: String)
    ensures
        r@ == ldflags_spec(*target, commid@),
{
    match &target.compile_options().ldflags {
        Some(l) => l.clone(),
        None => match target {
            CompileTarget::Xray { .. } => String::from_str(
                "-X github.com/xtls/xray-core/core.build=",
            ).concat(commid).concat(" -s -w -buildid="),
            CompileTarget::V2ray { .. } => String::from_str("-s -w -buildid="),
        },
    }
}

/// The views of a list of strings.
pub open spec fn views(v: Seq<String>) -> Seq<Seq<char>> {
    v.map_values(|s: String| s@)
}

/// The views of a list of name and value pairs.
pub open spec fn pair_views(v: Seq<(String, String)>) -> Seq<(Seq<char>, Seq<char>)> {
    v.map_values(|p: (String, String)| (p.0@, p.1@))
}

/// The arguments of `go build`.
pub open spec fn build_args_spec(
    target: CompileTarget,
    output: Seq<char>,
    ldflags: Seq<char>,
    verbose: bool,
) -> Seq<Seq<char>> {
    seq![
        "build"@,
        "-o"@,
        output,
        "-trimpath"@,
        "-gcflags"@,
        target.options_spec().gcflags@,
        "-ldflags"@,
        ldflags,
    ] + (if verbose {
        seq!["-v"@]
    } else {
        seq![]
    }) + (if target is Xray {
        seq!["-buildvcs=false"@]
    } else {
        seq![]
    }) + seq!["./main"@]
}

/// The environment of `go build`: the target, and native interop off unless
/// the caller set it.
pub open spec fn build_envs_spec(go_target: GoTarget, cgo_enabled: Option<String>) -> Seq<
    (Seq<char>, Seq<char>),
> {
    seq![
        ("GOOS"@, go_target.goos@),
        ("GOARCH"@, go_target.goarch@),
        (
            "CGO_ENABLED"@,
            match cgo_enabled {
                Some(v) => v@,
                None => "0"@,
            },
        ),
    ]
}

/// A compiler invocation, to be run in the repository directory.
#[derive(Debug)]
pub struct BuildCommand {
    pub program: String,
    pub args: Vec<String>,
    pub envs: Vec<(String, String)>,
    /// Where the binary is written.
    pub output_path: String,
}

/// Assembles the compiler invocation for a target. `commid` is the build
/// identifier, `cgo_enabled` the caller's own `CGO_ENABLED`, if set.
pub fn build_command(
    target: &CompileTarget,
    go_target: &GoTarget,
    verbose: bool,
    commid: &str,
    temp_dir: &str,
    cgo_enabled: Option<String>,
) -> (r: BuildCommand)
    ensures
        r.program@ == GO@,
        r.output_path@ == join_spec(temp_dir@, binary_name_spec(*target, go_target.goos@)),
        views(r.args@) == build_args_spec(
            *target,
            r.output_path@,
            ldflags_spec(*target, commid@),
            verbose,
        ),
        pair_views(r.envs@) == build_envs_spec(*go_target, cgo_enabled),
{
    let name = binary_name(target, go_target.goos.as_str());
    let output_path = join_path(temp_dir, name.as_str());
    let ld = ldflags(target, commid);
    let mut args: Vec<String> = Vec::new();
    args.push(String::from_str("build"));
    args.push(String::from_str("-o"));
    args.push(output_path.clone());
    args.push(String::from_str("-trimpath"));
    args.push(String::from_str("-gcflags"));
    args.push(target.compile_options().gcflags.clone());
    args.push(String::from_str("-ldflags"));
    args.push(ld);
    if verbose {
        args.push(String::from_str("-v"));
    }
    if let CompileTarget::Xray { .. } = target {
        args.push(String::from_str("-buildvcs=false"));
    }
    args.push(String::from_str("./main"));
    assert(views(args@) =~= build_args_spec(
        *target,
        output_path@,
        ldflags_spec(*target, commid@),
        verbose,
    ));
    let cgo = match &cgo_enabled {
        Some(v) => v.clone(),
        None => String::from_str("0"),
    };
    let mut envs: Vec<(String, String)> = Vec::new();
    envs.push((String::from_str("GOOS"), go_target.goos.clone()));
    envs.push((String::from_str("GOARCH"), go_target.goarch.clone()));
    envs.push((String::from_str("CGO_ENABLED"), cgo));
    assert(pair_views(envs@) =~= build_envs_spec(*go_target, cgo_enabled));
    BuildCommand { program: String::from_str(GO), args, envs, output_path }
}

/// What a finished compiler run means: the binary's path on success, else
/// the compiler's error output.
pub fn finish_build(succeeded: bool, stderr: String, output_path: String) -> (r: Result<
    String,
    PackError,
>)
    ensures
        succeeded ==> r == Ok::<String, PackError>(output_path),
        !succeeded ==> r == Err::<String, PackError>(PackError::BuildFailed(stderr)),
{
    if succeeded {
        Ok(output_path)
    } else {
        Err(PackError::BuildFailed(stderr))
    }
}

} // verus!
