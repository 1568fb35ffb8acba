//! The debugger invocation: which debugger, where its program is found, and
//! how the executable and the user's trailing arguments are framed for it.

use vstd::prelude::*;
use crate::text::{extend_texts, opt_text, push_text, texts};

verus! {

/// The supported debuggers. The set is closed.
#[derive(Clone, Copy, Debug, PartialEq, Eq, Structural)]
pub enum Debugger {
    Gdb,
    Gdbserver,
    Lldb,
    /// The Visual Studio IDE debugger; Windows only.
    Devenv,
    Windbg,
}

/// The platform family the launcher runs on.
#[derive(Clone, Copy, Debug, PartialEq, Eq, Structural)]
pub enum Platform {
    Unix,
    Windows,
    Other,
}

/// One entry of the installed-IDE registry.
#[derive(Clone, Debug, PartialEq, Eq)]
pub struct Installation {
    pub product_id: String,
    pub product_path: String,
}

/// An `Installation` with its strings taken as character sequences.
pub struct InstallationView {
    pub product_id: Seq<char>,
    pub product_path: Seq<char>,
}

impl View for Installation {
    type V = InstallationView;

    open spec fn view(&self) -> InstallationView {
        InstallationView { product_id: self.product_id@, product_path: self.product_path@ }
    }
}

/// A fully formed debugger launch: program and argument list.
#[derive(Clone, Debug, PartialEq, Eq)]
pub struct DebuggerSpec {
    pub kind: Debugger,
    pub program: String,
    pub args: Vec<String>,
}

/// A `DebuggerSpec` with its strings taken as character sequences.
pub struct DebuggerSpecView {
    pub kind: Debugger,
    pub program: Seq<char>,
    pub args: Seq<Seq<char>>,
}

impl View for DebuggerSpec {
    type V = DebuggerSpecView;

    open spec fn view(&self) -> DebuggerSpecView {
        DebuggerSpecView { kind: self.kind, program: self.program@, args: texts(self.args@) }
    }
}

/// Why no debugger invocation could be formed. Each is a configuration
/// error, found before anything is launched.
#[derive(Clone, Copy, Debug, PartialEq, Eq, Structural)]
pub enum DebuggerError {
    /// No debugger was chosen and the platform has no default one.
    NoDefault,
    /// The chosen debugger cannot be resolved on this platform.
    Unavailable(Debugger),
    /// No installed IDE has a matching product identifier.
    IdeNotInstalled,
}

/// The views of a list of installations, in order.
pub open spec fn installation_views(v: Seq<Installation>) -> Seq<InstallationView> {
    Seq::new(v.len(), |i: int| v[i]@)
}

/// Product identifiers of the IDE start with this.
pub open spec fn ide_product_prefix() -> Seq<char> {
    "Microsoft.VisualStudio.Product."@
}

/// Whether an installation is an IDE that can debug an executable.
pub open spec fn is_ide(i: InstallationView) -> bool {
    ide_product_prefix().is_prefix_of(i.product_id)
}

/// The product path of the first IDE among the installations, if any.
pub open spec fn ide_path(installations: Seq<InstallationView>) -> Option<Seq<char>>
    decreases installations.len(),
{
    if installations.len() == 0 {
        None
    } else {
        match ide_path(installations.drop_last()) {
            Some(path) => Some(path),
            None => if is_ide(installations.last()) {
                Some(installations.last().product_path)
            } else {
                None
            },
        }
    }
}

/// The default debugger of a platform.
pub open spec fn default_debugger(platform: Platform) -> Result<Debugger, DebuggerError> {
    match platform {
        Platform::Unix => Ok(Debugger::Gdb),
        Platform::Windows => Ok(Debugger::Devenv),
        Platform::Other => Err(DebuggerError::NoDefault),
    }
}

/// The debugger to use: the explicit choice, else the platform's default.
pub open spec fn resolved_debugger(choice: Option<Debugger>, platform: Platform) -> Result<
    Debugger,
    DebuggerError,
> {
    match choice {
        Some(kind) => Ok(kind),
        None => default_debugger(platform),
    }
}

/// Whether the program of `kind` has to be discovered in the IDE registry.
pub open spec fn needs_ide(kind: Debugger, platform: Platform) -> bool {
    kind == Debugger::Devenv && platform == Platform::Windows
}

/// The debugger's program: a fixed name, looked up on the search path, for
/// all but the IDE debugger, whose path comes from the registry.
pub open spec fn program_spec(
    kind: Debugger,
    platform: Platform,
    installations: Seq<InstallationView>,
) -> Result<Seq<char>, DebuggerError> {
    match kind {
        Debugger::Gdb => Ok("gdb"@),
        Debugger::Gdbserver => Ok("gdbserver"@),
        Debugger::Lldb => Ok("lldb"@),
        Debugger::Windbg => Ok("windbgx"@),
        Debugger::Devenv => if platform != Platform::Windows {
            Err(DebuggerError::Unavailable(Debugger::Devenv))
        } else {
            match ide_path(installations) {
                Some(path) => Ok(path),
                None => Err(DebuggerError::IdeNotInstalled),
            }
        },
    }
}

/// What stands before the executable's path in the argument list.
pub open spec fn lead_args(kind: Debugger, has_trailing: bool) -> Seq<Seq<char>> {
    match kind {
        Debugger::Gdb => if has_trailing {
            seq!["--args"@]
        } else {
            Seq::empty()
        },
        Debugger::Gdbserver => Seq::empty(),
        Debugger::Lldb => seq!["--file"@],
        Debugger::Devenv => seq!["/DebugExe"@],
        Debugger::Windbg => seq!["-o"@],
    }
}

/// What stands between the executable's path and the trailing arguments.
pub open spec fn separator_args(kind: Debugger, has_trailing: bool) -> Seq<Seq<char>> {
    if kind == Debugger::Lldb && has_trailing {
        seq!["--"@]
    } else {
        Seq::empty()
    }
}

/// The debugger's argument list: the lead, the executable's path, the
/// separator, and the trailing arguments as they were given.
pub open spec fn debugger_args_spec(
    kind: Debugger,
    binary: Seq<char>,
    trailing: Seq<Seq<char>>,
) -> Seq<Seq<char>> {
    lead_args(kind, trailing.len() > 0) + seq![binary] + separator_args(kind, trailing.len() > 0)
        + trailing
}

/// The complete launch, or the configuration error that prevents it.
pub open spec fn synthesize_spec(
    kind: Debugger,
    platform: Platform,
    binary: Seq<char>,
    trailing: Seq<Seq<char>>,
    installations: Seq<InstallationView>,
) -> Result<DebuggerSpecView, DebuggerError> {
    match program_spec(kind, platform, installations) {
        Ok(program) => Ok(
            DebuggerSpecView { kind, program, args: debugger_args_spec(kind, binary, trailing) },
        ),
        Err(e) => Err(e),
    }
}

/// The view of a synthesis result.
pub open spec fn synthesis_view(r: Result<DebuggerSpec, DebuggerError>) -> Result<
    DebuggerSpecView,
    DebuggerError,
> {
    match r {
        Ok(spec) => Ok(spec@),
        Err(e) => Err(e),
    }
}

/// The view of a program result.
pub open spec fn program_view(r: Result<String, DebuggerError>) -> Result<
    Seq<char>,
    DebuggerError,
> {
    match r {
        Ok(program) => Ok(program@),
        Err(e) => Err(e),
    }
}

/// The message shown to the user for a configuration error.
pub open spec fn error_message_spec(e: DebuggerError) -> Seq<char> {
    match e {
        DebuggerError::NoDefault => "no default debugger"@,
        DebuggerError::Unavailable(_) => "devenv is only available on Windows"@,
        DebuggerError::IdeNotInstalled =>
            "Could not find a compatible version of Visual Studio :("@,
    }
}

/// Whether `text` begins with `prefix`.
fn starts_with(text: &str, prefix: &str) -> (b: bool)
    ensures
        b == prefix@.is_prefix_of(text@),
{
    let n = prefix.unicode_len();
    if text.unicode_len() < n {
        return false;
    }
    let mut i: usize = 0;
    while i < n
        invariant
            i <= n,
            n == prefix@.len(),
            n <= text@.len(),
            forall|j: int| 0 <= j < i ==> prefix@[j] == text@[j],
        decreases n - i,
    {
        if prefix.get_char(i) != text.get_char(i) {
            return false;
        }
        i += 1;
    }
    assert(prefix@ =~= text@.subrange(0, n as int));
    true
}

impl Debugger {
    /// The platform's default debugger: `Gdb` on Unix-like platforms,
    /// `Devenv` on Windows, and an error anywhere else.
    pub fn default_for(platform: Platform) -> (result: Result<Debugger, DebuggerError>)
        ensures
            result == default_debugger(platform),
    {
        match platform {
            Platform::Unix => Ok(Debugger::Gdb),
            Platform::Windows => Ok(Debugger::Devenv),
            Platform::Other => Err(DebuggerError::NoDefault),
        }
    }

    /// The debugger to use: `choice` if one was made, else the default.
    pub fn resolve(choice: Option<Debugger>, platform: Platform) -> (result: Result<
        Debugger,
        DebuggerError,
    >)
        ensures
            result == resolved_debugger(choice, platform),
    {
        match choice {
            Some(kind) => Ok(kind),
            None => Debugger::default_for(platform),
        }
    }

    /// Whether synthesis for this debugger reads the IDE registry, so that
    /// the caller has to query it first.
    pub fn needs_ide_registry(self, platform: Platform) -> (b: bool)
        ensures
            b == needs_ide(self, platform),
    {
        match (self, platform) {
            (Debugger::Devenv, Platform::Windows) => true,
            _ => false,
        }
    }
}

impl DebuggerError {
    /// The process exit code for a configuration error: always 1.
    pub fn exit_code(&self) -> (code: i32)
        ensures
            code == 1,
    {
        1
    }

    /// The message shown to the user.
    pub fn message(&self) -> (text: String)
        ensures
            text@ == error_message_spec(*self),
    {
        match self {
            DebuggerError::NoDefault => String::from_str("no default debugger"),
            DebuggerError::Unavailable(_) => String::from_str(
                "devenv is only available on Windows",
            ),
            DebuggerError::IdeNotInstalled => String::from_str(
                "Could not find a compatible version of Visual Studio :(",
            ),
        }
    }
}

/// The product path of the first installation whose product identifier
/// starts with the IDE's prefix.
pub fn find_ide(installations: &Vec<Installation>) -> (path: Option<String>)
    ensures
        opt_text(path) == ide_path(installation_views(installations@)),
{
    let ghost all = installation_views(installations@);
    let mut i: usize = 0;
    assert(all.subrange(0, 0) =~= Seq::empty());
    while i < installations.len()
        invariant
            i <= installations.len(),
            all == installation_views(installations@),
            ide_path(all.subrange(0, i as int)) is None,
        decreases installations.len() - i,
    {
        let ghost next = all.subrange(0, i + 1);
        assert(next.drop_last() =~= all.subrange(0, i as int));
        assert(next.last() == installations@[i as int]@);
        let entry = &installations[i];
        if starts_with(entry.product_id.as_str(), "Microsoft.VisualStudio.Product.") {
            let path = entry.product_path.clone();
            proof {
                assert(ide_path(next) == Some(path@));
                lemma_ide_path_prefix(all, i + 1);
            }
            return Some(path);
        }
        i += 1;
    }
    assert(all.subrange(0, i as int) =~= all);
    None
}

/// An IDE found in a prefix of the registry is the one found in all of it.
pub proof fn lemma_ide_path_prefix(installations: Seq<InstallationView>, n: int)
    requires
        0 <= n <= installations.len(),
        ide_path(installations.subrange(0, n)) is Some,
    ensures
        ide_path(installations) == ide_path(installations.subrange(0, n)),
    decreases installations.len() - n,
{
    if n < installations.len() {
        let next = installations.subrange(0, n + 1);
        assert(next.drop_last() =~= installations.subrange(0, n));
        lemma_ide_path_prefix(installations, n + 1);
    } else {
        assert(installations.subrange(0, n) =~= installations);
    }
}

/// Resolves the debugger's program.
///
/// The IDE debugger is a configuration error off Windows, and on Windows
/// where the registry lists no IDE. Every other debugger has a fixed name.
pub fn debugger_program(
    kind: Debugger,
    platform: Platform,
    installations: &Vec<Installation>,
) -> (result: Result<String, DebuggerError>)
    ensures
        program_view(result) == program_spec(kind, platform, installation_views(installations@)),
{
    match kind {
        Debugger::Gdb => Ok(String::from_str("gdb")),
        Debugger::Gdbserver => Ok(String::from_str("gdbserver")),
        Debugger::Lldb => Ok(String::from_str("lldb")),
        Debugger::Windbg => Ok(String::from_str("windbgx")),
        Debugger::Devenv => match platform {
            Platform::Windows => match find_ide(installations) {
                Some(path) => Ok(path),
                None => Err(DebuggerError::IdeNotInstalled),
            },
            _ => Err(DebuggerError::Unavailable(Debugger::Devenv)),
        },
    }
}

/// Frames the executable's path and the trailing arguments for `kind`.
pub fn debugger_args(kind: Debugger, binary: &str, trailing: &Vec<String>) -> (args: Vec<String>)
    ensures
        texts(args@) == debugger_args_spec(kind, binary@, texts(trailing@)),
{
    let has_trailing = trailing.len() > 0;
    assert(has_trailing == (texts(trailing@).len() > 0));
    let mut args: Vec<String> = Vec::new();
    assert(texts(args@) =~= Seq::<Seq<char>>::empty());
    match kind {
        Debugger::Gdb => if has_trailing {
            push_text(&mut args, "--args");
        },
        Debugger::Gdbserver => {},
        Debugger::Lldb => {
            push_text(&mut args, "--file");
        },
        Debugger::Devenv => {
            push_text(&mut args, "/DebugExe");
        },
        Debugger::Windbg => {
            push_text(&mut args, "-o");
        },
    }
    assert(texts(args@) =~= lead_args(kind, has_trailing));
    push_text(&mut args, binary);
    match kind {
        Debugger::Lldb => if has_trailing {
            push_text(&mut args, "--");
        },
        _ => {},
    }
    assert(texts(args@) =~= lead_args(kind, has_trailing) + seq![binary@] + separator_args(
        kind,
        has_trailing,
    ));
    extend_texts(&mut args, trailing);
    args
}

/// Synthesizes the debugger launch for `kind`: its program and its argument
/// list, or the configuration error that prevents the launch.
pub fn synthesize(
    kind: Debugger,
    platform: Platform,
    binary: &str,
    trailing: &Vec<String>,
    installations: &Vec<Installation>,
) -> (result: Result<DebuggerSpec, DebuggerError>)
    ensures
        synthesis_view(result) == synthesize_spec(
            kind,
            platform,
            binary@,
            texts(trailing@),
            installation_views(installations@),
        ),
{
    match debugger_program(kind, platform, installations) {
        Ok(program) => {
            let args = debugger_args(kind, binary, trailing);
            Ok(DebuggerSpec { kind, program, args })
        },
        Err(e) => Err(e),
    }
}

/// In every debugger's argument list the executable's path stands right
/// after the lead, and the trailing arguments stand at the end, unchanged and
/// in order.
pub proof fn lemma_binary_then_trailing(
    kind: Debugger,
    binary: Seq<char>,
    trailing: Seq<Seq<char>>,
)
    ensures
        ({
            let args = debugger_args_spec(kind, binary, trailing);
            let lead = lead_args(kind, trailing.len() > 0);
            let sep = separator_args(kind, trailing.len() > 0);
            &&& args.len() == lead.len() + 1 + sep.len() + trailing.len()
            &&& args.subrange(0, lead.len() as int) == lead
            &&& args[lead.len() as int] == binary
            &&& args.subrange(args.len() - trailing.len(), args.len() as int) == trailing
            &&& lead.len() <= 1
            &&& sep.len() <= 1
            &&& trailing.len() == 0 ==> args == lead.push(binary)
        }),
{
    let args = debugger_args_spec(kind, binary, trailing);
    let lead = lead_args(kind, trailing.len() > 0);
    assert(args.subrange(0, lead.len() as int) =~= lead);
    assert(args.subrange(args.len() - trailing.len(), args.len() as int) =~= trailing);
    if trailing.len() == 0 {
        assert(args =~= lead.push(binary));
    }
}

} // verus!
