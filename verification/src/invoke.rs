//! The build invocation: which program to run and with which arguments.

use vstd::prelude::*;
use crate::text::{
    lemma_occurrences_concat, lemma_occurrences_small, occurrences, opt_text, push_text, texts,
};

verus! {

/// What the user asked to have built.
#[derive(Clone, Debug, PartialEq, Eq)]
pub struct BuildRequest {
    pub release: bool,
    pub manifest_path: Option<String>,
    pub bin: Option<String>,
    pub example: Option<String>,
}

/// A `BuildRequest` with its strings taken as character sequences.
pub struct BuildRequestView {
    pub release: bool,
    pub manifest_path: Option<Seq<char>>,
    pub bin: Option<Seq<char>>,
    pub example: Option<Seq<char>>,
}

impl View for BuildRequest {
    type V = BuildRequestView;

    open spec fn view(&self) -> BuildRequestView {
        BuildRequestView {
            release: self.release,
            manifest_path: opt_text(self.manifest_path),
            bin: opt_text(self.bin),
            example: opt_text(self.example),
        }
    }
}

/// The two arguments every build invocation starts with: the subcommand and
/// the switch that selects one structured record per line.
pub open spec fn fixed_args() -> Seq<Seq<char>> {
    seq!["build"@, "--message-format=json"@]
}

/// A flag followed by its value, or nothing when the value is absent.
pub open spec fn flag_with_value(flag: Seq<char>, value: Option<Seq<char>>) -> Seq<Seq<char>> {
    match value {
        Some(v) => seq![flag, v],
        None => Seq::empty(),
    }
}

/// `--release`, or nothing.
pub open spec fn release_args(release: bool) -> Seq<Seq<char>> {
    if release {
        seq!["--release"@]
    } else {
        Seq::empty()
    }
}

/// The complete argument list of the build invocation for a request.
pub open spec fn build_args_spec(r: BuildRequestView) -> Seq<Seq<char>> {
    fixed_args() + release_args(r.release) + flag_with_value("--manifest-path"@, r.manifest_path)
        + flag_with_value("--bin"@, r.bin) + flag_with_value("--example"@, r.example)
}

/// Name of the build tool when nothing overrides it.
pub open spec fn default_build_tool() -> Seq<char> {
    "cargo"@
}

/// How many of the values a request passes through equal `t`.
pub open spec fn passed_values(r: BuildRequestView, t: Seq<char>) -> nat {
    let m: nat = if r.manifest_path == Some(t) {
        1
    } else {
        0
    };
    let b: nat = if r.bin == Some(t) {
        1
    } else {
        0
    };
    let e: nat = if r.example == Some(t) {
        1
    } else {
        0
    };
    m + b + e
}

/// Whether `t` is one of the two fixed leading arguments.
pub open spec fn is_fixed_arg(t: Seq<char>) -> bool {
    t == "build"@ || t == "--message-format=json"@
}

/// The four flags differ from the two fixed arguments.
proof fn lemma_flags_are_not_fixed()
    ensures
        !is_fixed_arg("--release"@),
        !is_fixed_arg("--manifest-path"@),
        !is_fixed_arg("--bin"@),
        !is_fixed_arg("--example"@),
        "build"@ != "--message-format=json"@,
{
    reveal_strlit("build");
    reveal_strlit("--message-format=json");
    reveal_strlit("--release");
    reveal_strlit("--manifest-path");
    reveal_strlit("--bin");
    reveal_strlit("--example");
    assert("build"@.len() == 5 && "build"@[0] == 'b');
    assert("--message-format=json"@.len() == 21);
    assert("--release"@.len() == 9);
    assert("--manifest-path"@.len() == 15);
    assert("--bin"@.len() == 5 && "--bin"@[0] == '-');
    assert("--example"@.len() == 9);
}

/// Occurrences of a fixed argument in a flag-and-value pair.
proof fn lemma_flag_with_value_occurrences(flag: Seq<char>, value: Option<Seq<char>>, t: Seq<char>)
    requires
        flag != t,
    ensures
        occurrences(flag_with_value(flag, value), t) == if value == Some(t) {
            1nat
        } else {
            0nat
        },
{
    match value {
        Some(v) => lemma_occurrences_small(flag, v, t),
        None => lemma_occurrences_small(flag, flag, t),
    }
}

/// Each of the two fixed arguments occurs in the argument list once at the
/// front, and once more for every passed-through value that spells the same
/// word.
pub proof fn lemma_fixed_arg_count(r: BuildRequestView, t: Seq<char>)
    requires
        is_fixed_arg(t),
    ensures
        occurrences(build_args_spec(r), t) == 1 + passed_values(r, t),
{
    lemma_flags_are_not_fixed();
    let a0 = fixed_args();
    let a1 = release_args(r.release);
    let a2 = flag_with_value("--manifest-path"@, r.manifest_path);
    let a3 = flag_with_value("--bin"@, r.bin);
    let a4 = flag_with_value("--example"@, r.example);
    lemma_occurrences_small("build"@, "--message-format=json"@, t);
    lemma_occurrences_small("--release"@, "--release"@, t);
    lemma_flag_with_value_occurrences("--manifest-path"@, r.manifest_path, t);
    lemma_flag_with_value_occurrences("--bin"@, r.bin, t);
    lemma_flag_with_value_occurrences("--example"@, r.example, t);
    lemma_occurrences_concat(a0, a1, t);
    lemma_occurrences_concat(a0 + a1, a2, t);
    lemma_occurrences_concat(a0 + a1 + a2, a3, t);
    lemma_occurrences_concat(a0 + a1 + a2 + a3, a4, t);
}

/// The subcommand and the structured-output switch lead every build
/// invocation, and each occurs exactly once in it, whatever else was
/// requested, as long as no passed-through value spells one of them.
pub proof fn lemma_build_and_format_exactly_once(r: BuildRequestView)
    requires
        passed_values(r, "build"@) == 0,
        passed_values(r, "--message-format=json"@) == 0,
    ensures
        build_args_spec(r)[0] == "build"@,
        build_args_spec(r)[1] == "--message-format=json"@,
        occurrences(build_args_spec(r), "build"@) == 1,
        occurrences(build_args_spec(r), "--message-format=json"@) == 1,
{
    lemma_fixed_arg_count(r, "build"@);
    lemma_fixed_arg_count(r, "--message-format=json"@);
}

/// What the launcher does once the build tool has exited.
#[derive(Clone, Copy, Debug, PartialEq, Eq, Structural)]
pub enum BuildOutcome {
    /// The build did not fail: go on to pick the executable.
    Proceed,
    /// The build failed: stop at once with the build tool's own exit code.
    Exit(i32),
}

/// Decides from the build tool's exit code whether to go on.
///
/// A non-zero code is propagated verbatim. A zero code, or none at all (the
/// tool was ended by a signal), lets the pipeline proceed.
pub fn after_build(exit_code: Option<i32>) -> (outcome: BuildOutcome)
    ensures
        outcome == match exit_code {
            Some(code) if code != 0 => BuildOutcome::Exit(code),
            _ => BuildOutcome::Proceed,
        },
{
    match exit_code {
        Some(code) => if code != 0 {
            BuildOutcome::Exit(code)
        } else {
            BuildOutcome::Proceed
        },
        None => BuildOutcome::Proceed,
    }
}

/// Appends `flag` and `value` to `args` when a value is present.
fn push_flag_with_value(args: &mut Vec<String>, flag: &str, value: &Option<String>)
    ensures
        texts(final(args)@) == texts(old(args)@) + flag_with_value(flag@, opt_text(*value)),
{
    match value {
        Some(v) => {
            push_text(args, flag);
            push_text(args, v.as_str());
            assert(texts(args@) =~= texts(old(args)@) + seq![flag@, v@]);
        },
        None => {
            assert(texts(args@) =~= texts(old(args)@) + Seq::<Seq<char>>::empty());
        },
    }
}

/// Synthesizes the build tool's argument list for `request`.
///
/// The list starts with the subcommand and the structured-output switch;
/// `--release`, `--manifest-path`, `--bin` and `--example` follow in that
/// order, each only if requested. Values are passed through untouched.
pub fn build_args(request: &BuildRequest) -> (args: Vec<String>)
    ensures
        texts(args@) == build_args_spec(request@),
{
    let mut args: Vec<String> = Vec::new();
    assert(texts(args@) =~= Seq::<Seq<char>>::empty());
    push_text(&mut args, "build");
    push_text(&mut args, "--message-format=json");
    assert(texts(args@) =~= fixed_args());
    if request.release {
        push_text(&mut args, "--release");
    }
    assert(texts(args@) =~= fixed_args() + release_args(request.release));
    push_flag_with_value(&mut args, "--manifest-path", &request.manifest_path);
    push_flag_with_value(&mut args, "--bin", &request.bin);
    push_flag_with_value(&mut args, "--example", &request.example);
    args
}

/// Name of the environment variable that overrides the build tool's program.
pub fn build_tool_variable() -> (name: &'static str)
    ensures
        name@ == "CARGO"@,
{
    "CARGO"
}

/// Resolves the build tool's program name: the override if there is one,
/// else the default name, to be looked up on the search path.
pub fn build_program(override_name: Option<String>) -> (program: String)
    ensures
        program@ == match override_name {
            Some(name) => name@,
            None => default_build_tool(),
        },
{
    match override_name {
        Some(name) => name,
        None => String::from_str("cargo"),
    }
}

} // verus!
