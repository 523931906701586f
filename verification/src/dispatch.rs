//! The dispatcher: maps the parsed command line to the one thing the tool
//! must do — show the version, list every command, report an unknown name,
//! refuse an unsupported platform, or carry out the selected command's
//! action (a remote fetch, one OS command, or a fixed message).
use vstd::prelude::*;
use vstd::string::StringExecFns;

use crate::options::{Options, OptionsSpec};
use crate::platform::{current_platform, platform_has_tag, platform_supported, Platform};
use crate::registry::{
    commands, line_of, linux_and_macos, listing, macos_only, registry, sentinel,
    lemma_registry_well_formed, CommandAction, CommandInfo,
};
use crate::text::{join_strings, join_with};

verus! {

/// Which remote endpoint a fetch directive is for.
#[derive(Clone, Copy, PartialEq, Eq, Structural, Debug)]
pub enum RemoteKind {
    Ip,
    Time,
}

/// Why an action refuses the live platform.
#[derive(Clone, Copy, PartialEq, Eq, Structural, Debug)]
pub enum UnsupportedPlatform {
    OnlyMacos,
    NotLinuxOrMacos,
}

pub open spec fn msg_only_macos() -> Seq<char> {
    "Only supports macOS."@
}

pub open spec fn msg_not_linux_or_macos() -> Seq<char> {
    "Not linux or macos."@
}

/// The fixed message of a platform refusal.
pub open spec fn unsupported_message(e: UnsupportedPlatform) -> Seq<char> {
    match e {
        UnsupportedPlatform::OnlyMacos => msg_only_macos(),
        UnsupportedPlatform::NotLinuxOrMacos => msg_not_linux_or_macos(),
    }
}

impl UnsupportedPlatform {
    /// The fixed message of this refusal.
    pub fn message(&self) -> (r: String)
        ensures
            r@ == unsupported_message(*self),
    {
        match self {
            UnsupportedPlatform::OnlyMacos => String::from_str("Only supports macOS."),
            UnsupportedPlatform::NotLinuxOrMacos => String::from_str("Not linux or macos."),
        }
    }
}

pub open spec fn ip_url() -> Seq<char> {
    "https://hatter.ink/ip/ip.jsonp"@
}

pub open spec fn time_url() -> Seq<char> {
    "https://hatter.ink/time/time.jsonp"@
}

/// The mathematical image of an action plan.
#[verifier::ext_equal]
pub enum PlanSpec {
    Fetch { url: Seq<char>, kind: RemoteKind },
    Run { args: Seq<Seq<char>> },
    Print { message: Seq<char> },
}

/// What carrying an action out takes: a remote fetch, one OS command with
/// its argument list, or a fixed message to print.
pub enum ActionPlan {
    Fetch { url: String, kind: RemoteKind },
    Run { args: Vec<String> },
    Print { message: String },
}

impl View for ActionPlan {
    type V = PlanSpec;

    open spec fn view(&self) -> PlanSpec {
        match self {
            ActionPlan::Fetch { url, kind } => PlanSpec::Fetch { url: url@, kind: *kind },
            ActionPlan::Run { args } => PlanSpec::Run { args: args.deep_view() },
            ActionPlan::Print { message } => PlanSpec::Print { message: message@ },
        }
    }
}

/// The image of a planning outcome.
pub open spec fn plan_view(r: Result<ActionPlan, UnsupportedPlatform>) -> Result<
    PlanSpec,
    UnsupportedPlatform,
> {
    match r {
        Ok(p) => Ok(p@),
        Err(e) => Err(e),
    }
}

/// What each action does on each platform, including the platform test
/// that every action makes for itself when it is invoked.
pub open spec fn plan_of(action: CommandAction, p: Platform) -> Result<
    PlanSpec,
    UnsupportedPlatform,
> {
    match action {
        CommandAction::Ip => Ok(PlanSpec::Fetch { url: ip_url(), kind: RemoteKind::Ip }),
        CommandAction::Time => Ok(PlanSpec::Fetch { url: time_url(), kind: RemoteKind::Time }),
        CommandAction::Cal => Ok(PlanSpec::Run { args: seq!["cal"@, "-3"@] }),
        CommandAction::Route => Ok(PlanSpec::Run { args: seq!["netstat"@, "-nr"@] }),
        CommandAction::Network => if p is MacOS {
            Ok(PlanSpec::Run { args: seq!["networksetup"@, "-listallhardwareports"@] })
        } else {
            Err(UnsupportedPlatform::OnlyMacos)
        },
        CommandAction::ListJava => if p is MacOS {
            Ok(PlanSpec::Run { args: seq!["/usr/libexec/java_home"@, "-V"@] })
        } else {
            Err(UnsupportedPlatform::OnlyMacos)
        },
        CommandAction::ListenTcp => match p {
            Platform::Linux => Ok(PlanSpec::Run { args: seq!["netstat"@, "-ltnp"@] }),
            Platform::MacOS => Ok(
                PlanSpec::Run { args: seq!["lsof"@, "-iTCP"@, "-sTCP:LISTEN"@, "-n"@, "-P"@] },
            ),
            Platform::Other => Err(UnsupportedPlatform::NotLinuxOrMacos),
        },
        CommandAction::ListenUdp => match p {
            Platform::Linux => Ok(PlanSpec::Run { args: seq!["netstat"@, "-lunp"@] }),
            Platform::MacOS => Ok(PlanSpec::Run { args: seq!["lsof"@, "-iUDP"@, "-n"@, "-P"@] }),
            Platform::Other => Err(UnsupportedPlatform::NotLinuxOrMacos),
        },
        CommandAction::InstallBrew => if p is MacOS {
            Ok(
                PlanSpec::Run {
                    args: seq![
                        "/usr/bin/ruby"@,
                        "-e"@,
                        r#""$(curl -fsSL https://raw.githubusercontent.com/Homebrew/install/master/install)""#@,
                    ],
                },
            )
        } else {
            Err(UnsupportedPlatform::OnlyMacos)
        },
        CommandAction::InstallJenv => if p is MacOS {
            Ok(PlanSpec::Run { args: seq!["sh"@, "-c"@, "curl -L -s get.jenv.io | bash"@] })
        } else {
            Err(UnsupportedPlatform::OnlyMacos)
        },
        CommandAction::InstallPorts => if p is MacOS {
            Ok(PlanSpec::Print { message: "Please access: https://www.macports.org/install.php"@ })
        } else {
            Err(UnsupportedPlatform::OnlyMacos)
        },
        CommandAction::InstallSdkman => if p is MacOS {
            Ok(
                PlanSpec::Run {
                    args: seq!["sh"@, "-c"@, r#""curl -s "https://get.sdkman.io" | bash""#@],
                },
            )
        } else {
            Err(UnsupportedPlatform::OnlyMacos)
        },
        CommandAction::InstallDart => if p is MacOS {
            Ok(
                PlanSpec::Print {
                    message: "Please run command:\n$ brew tap dart-lang/dart\n$ brew install dart"@,
                },
            )
        } else {
            Err(UnsupportedPlatform::OnlyMacos)
        },
        CommandAction::WifiInfo => if p is MacOS {
            Ok(PlanSpec::Run { args: seq![airport_path(), "-I"@] })
        } else {
            Err(UnsupportedPlatform::OnlyMacos)
        },
        CommandAction::WifiScan => if p is MacOS {
            Ok(PlanSpec::Run { args: seq![airport_path(), "-s"@] })
        } else {
            Err(UnsupportedPlatform::OnlyMacos)
        },
    }
}

pub open spec fn airport_path() -> Seq<char> {
    "/System/Library/PrivateFrameworks/Apple80211.framework/Versions/Current/Resources/airport"@
}

/// Builds a two-token argument list.
fn argv2(a: &str, b: &str) -> (r: Vec<String>)
    ensures
        r.deep_view() == seq![a@, b@],
{
    let mut r: Vec<String> = Vec::new();
    r.push(String::from_str(a));
    r.push(String::from_str(b));
    proof {
        assert(r.deep_view() =~= seq![a@, b@]);
    }
    r
}

/// Builds a three-token argument list.
fn argv3(a: &str, b: &str, c: &str) -> (r: Vec<String>)
    ensures
        r.deep_view() == seq![a@, b@, c@],
{
    let mut r: Vec<String> = Vec::new();
    r.push(String::from_str(a));
    r.push(String::from_str(b));
    r.push(String::from_str(c));
    proof {
        assert(r.deep_view() =~= seq![a@, b@, c@]);
    }
    r
}

/// Builds a four-token argument list.
fn argv4(a: &str, b: &str, c: &str, d: &str) -> (r: Vec<String>)
    ensures
        r.deep_view() == seq![a@, b@, c@, d@],
{
    let mut r: Vec<String> = Vec::new();
    r.push(String::from_str(a));
    r.push(String::from_str(b));
    r.push(String::from_str(c));
    r.push(String::from_str(d));
    proof {
        assert(r.deep_view() =~= seq![a@, b@, c@, d@]);
    }
    r
}

/// Builds a five-token argument list.
fn argv5(a: &str, b: &str, c: &str, d: &str, e: &str) -> (r: Vec<String>)
    ensures
        r.deep_view() == seq![a@, b@, c@, d@, e@],
{
    let mut r: Vec<String> = Vec::new();
    r.push(String::from_str(a));
    r.push(String::from_str(b));
    r.push(String::from_str(c));
    r.push(String::from_str(d));
    r.push(String::from_str(e));
    proof {
        assert(r.deep_view() =~= seq![a@, b@, c@, d@, e@]);
    }
    r
}

/// Plans the given action on the given platform: the action's own platform
/// gate, then the exact plan `plan_of` describes.
pub fn plan_action(action: CommandAction, platform: Platform) -> (r: Result<
    ActionPlan,
    UnsupportedPlatform,
>)
    ensures
        plan_view(r) == plan_of(action, platform),
{
    match action {
        CommandAction::Ip => Ok(
            ActionPlan::Fetch {
                url: String::from_str("https://hatter.ink/ip/ip.jsonp"),
                kind: RemoteKind::Ip,
            },
        ),
        CommandAction::Time => Ok(
            ActionPlan::Fetch {
                url: String::from_str("https://hatter.ink/time/time.jsonp"),
                kind: RemoteKind::Time,
            },
        ),
        CommandAction::Cal => Ok(ActionPlan::Run { args: argv2("cal", "-3") }),
        CommandAction::Route => Ok(ActionPlan::Run { args: argv2("netstat", "-nr") }),
        CommandAction::Network => match platform {
            Platform::MacOS => Ok(
                ActionPlan::Run { args: argv2("networksetup", "-listallhardwareports") },
            ),
            _ => Err(UnsupportedPlatform::OnlyMacos),
        },
        CommandAction::ListJava => match platform {
            Platform::MacOS => Ok(ActionPlan::Run { args: argv2("/usr/libexec/java_home", "-V") }),
            _ => Err(UnsupportedPlatform::OnlyMacos),
        },
        CommandAction::ListenTcp => match platform {
            Platform::Linux => Ok(ActionPlan::Run { args: argv2("netstat", "-ltnp") }),
            Platform::MacOS => Ok(
                ActionPlan::Run { args: argv5("lsof", "-iTCP", "-sTCP:LISTEN", "-n", "-P") },
            ),
            Platform::Other => Err(UnsupportedPlatform::NotLinuxOrMacos),
        },
        CommandAction::ListenUdp => match platform {
            Platform::Linux => Ok(ActionPlan::Run { args: argv2("netstat", "-lunp") }),
            Platform::MacOS => Ok(ActionPlan::Run { args: argv4("lsof", "-iUDP", "-n", "-P") }),
            Platform::Other => Err(UnsupportedPlatform::NotLinuxOrMacos),
        },
        CommandAction::InstallBrew => match platform {
            Platform::MacOS => Ok(
                ActionPlan::Run {
                    args: argv3(
                        "/usr/bin/ruby",
                        "-e",
                        r#""$(curl -fsSL https://raw.githubusercontent.com/Homebrew/install/master/install)""#,
                    ),
                },
            ),
            _ => Err(UnsupportedPlatform::OnlyMacos),
        },
        CommandAction::InstallJenv => match platform {
            Platform::MacOS => Ok(
                ActionPlan::Run { args: argv3("sh", "-c", "curl -L -s get.jenv.io | bash") },
            ),
            _ => Err(UnsupportedPlatform::OnlyMacos),
        },
        CommandAction::InstallPorts => match platform {
            Platform::MacOS => Ok(
                ActionPlan::Print {
                    message: String::from_str(
                        "Please access: https://www.macports.org/install.php",
                    ),
                },
            ),
            _ => Err(UnsupportedPlatform::OnlyMacos),
        },
        CommandAction::InstallSdkman => match platform {
            Platform::MacOS => Ok(
                ActionPlan::Run {
                    args: argv3("sh", "-c", r#""curl -s "https://get.sdkman.io" | bash""#),
                },
            ),
            _ => Err(UnsupportedPlatform::OnlyMacos),
        },
        CommandAction::InstallDart => match platform {
            Platform::MacOS => Ok(
                ActionPlan::Print {
                    message: String::from_str(
                        "Please run command:\n$ brew tap dart-lang/dart\n$ brew install dart",
                    ),
                },
            ),
            _ => Err(UnsupportedPlatform::OnlyMacos),
        },
        CommandAction::WifiInfo => match platform {
            Platform::MacOS => Ok(
                ActionPlan::Run {
                    args: argv2(
                        "/System/Library/PrivateFrameworks/Apple80211.framework/Versions/Current/Resources/airport",
                        "-I",
                    ),
                },
            ),
            _ => Err(UnsupportedPlatform::OnlyMacos),
        },
        CommandAction::WifiScan => match platform {
            Platform::MacOS => Ok(
                ActionPlan::Run {
                    args: argv2(
                        "/System/Library/PrivateFrameworks/Apple80211.framework/Versions/Current/Resources/airport",
                        "-s",
                    ),
                },
            ),
            _ => Err(UnsupportedPlatform::OnlyMacos),
        },
    }
}

/// Finds the first descriptor with the given name, with the guarantee that
/// no earlier descriptor carries it.
pub fn find_command(cmds: &Vec<CommandInfo>, name: &String) -> (r: Option<usize>)
    ensures
        match r {
            Some(i) => i < cmds@.len() && cmds@[i as int]@.name == name@ && forall|j: int|
                0 <= j < i ==> (#[trigger] cmds@[j])@.name != name@,
            None => forall|j: int| 0 <= j < cmds@.len() ==> (#[trigger] cmds@[j])@.name != name@,
        },
{
    let mut i: usize = 0;
    while i < cmds.len()
        invariant
            i <= cmds@.len(),
            forall|j: int| 0 <= j < i ==> (#[trigger] cmds@[j])@.name != name@,
        decreases cmds@.len() - i,
    {
        if cmds[i].name.eq(name) {
            return Some(i);
        }
        i = i + 1;
    }
    None
}

/// Whether some registry entry carries the given name.
pub open spec fn is_registered(name: Seq<char>) -> bool {
    exists|i: int| 0 <= i < registry().len() && registry()[i].name == name
}

/// The index of the registry entry with the given name (unique, by the
/// registry invariant).
pub open spec fn registered_index(name: Seq<char>) -> int {
    choose|i: int| 0 <= i < registry().len() && registry()[i].name == name
}

pub open spec fn usage_hint_line() -> Seq<char> {
    "Use show --help print usage."@
}

/// The failure line for a name no descriptor carries.
pub open spec fn unknown_line_of(name: Seq<char>) -> Seq<char> {
    "Unknown command: "@ + name
}

/// The verbose echo of the selected command name.
pub open spec fn command_echo_of(name: Seq<char>) -> Seq<char> {
    "Command: "@ + name
}

/// The verbose echo of an OS command line: the tokens joined by blanks.
pub open spec fn run_preamble_of(args: Seq<Seq<char>>) -> Seq<char> {
    "Run command: "@ + join_with(args, " "@)
}

/// Builds the verbose echo of an OS command line.
pub fn run_preamble(args: &Vec<String>) -> (r: String)
    ensures
        r@ == run_preamble_of(args.deep_view()),
{
    let mut r = String::from_str("Run command: ");
    let joined = join_strings(args, " ");
    r.append(joined.as_str());
    r
}

/// The listing: one line per registry entry, in registry order.
pub open spec fn listing_spec() -> Seq<Seq<char>> {
    Seq::new(registry().len(), |i: int| line_of(registry()[i]))
}

/// The mathematical image of a directive.
#[verifier::ext_equal]
pub enum DirectiveSpec {
    ShowVersion,
    UsageHint { line: Seq<char> },
    ListAll { lines: Seq<Seq<char>> },
    UnknownCommand { line: Seq<char> },
    Unsupported { message: Seq<char> },
    Fetch { url: Seq<char>, kind: RemoteKind },
    Execute { args: Seq<Seq<char>>, echo: Option<Seq<char>> },
    Announce { message: Seq<char> },
}

/// The one thing the caller must do for an invocation.
pub enum Directive {
    /// Print the version banner and stop, successfully.
    ShowVersion,
    /// No command was given: print the hint line and stop, successfully.
    UsageHint { line: String },
    /// The sentinel was given: print the lines and stop, successfully.
    ListAll { lines: Vec<String> },
    /// The name is not registered: print the line and stop, successfully.
    UnknownCommand { line: String },
    /// The platform gate refused: print the message and fail.
    Unsupported { message: String },
    /// Fetch the URL and report what the body holds.
    Fetch { url: String, kind: RemoteKind },
    /// Run the OS command, after the echo line when one is given.
    Execute { args: Vec<String>, echo: Option<String> },
    /// Print the fixed message and stop, successfully.
    Announce { message: String },
}

impl View for Directive {
    type V = DirectiveSpec;

    open spec fn view(&self) -> DirectiveSpec {
        match self {
            Directive::ShowVersion => DirectiveSpec::ShowVersion,
            Directive::UsageHint { line } => DirectiveSpec::UsageHint { line: line@ },
            Directive::ListAll { lines } => DirectiveSpec::ListAll { lines: lines.deep_view() },
            Directive::UnknownCommand { line } => DirectiveSpec::UnknownCommand { line: line@ },
            Directive::Unsupported { message } => DirectiveSpec::Unsupported { message: message@ },
            Directive::Fetch { url, kind } => DirectiveSpec::Fetch { url: url@, kind: *kind },
            Directive::Execute { args, echo } => DirectiveSpec::Execute {
                args: args.deep_view(),
                echo: match echo {
                    Some(e) => Some(e@),
                    None => None,
                },
            },
            Directive::Announce { message } => DirectiveSpec::Announce { message: message@ },
        }
    }
}

/// A directive that by itself ends the run in failure.
pub open spec fn directive_fatal(d: DirectiveSpec) -> bool {
    d is Unsupported
}

impl Directive {
    /// Whether this directive by itself ends the run in failure.
    pub fn is_fatal(&self) -> (r: bool)
        ensures
            r == directive_fatal(self@),
    {
        match self {
            Directive::Unsupported { .. } => true,
            _ => false,
        }
    }
}

/// The whole decision for one invocation: the verbose command echo, then
/// the directive.
pub struct Decision {
    pub echo: Option<String>,
    pub directive: Directive,
}

/// The mathematical image of a decision.
#[verifier::ext_equal]
pub struct DecisionSpec {
    pub echo: Option<Seq<char>>,
    pub directive: DirectiveSpec,
}

impl View for Decision {
    type V = DecisionSpec;

    open spec fn view(&self) -> DecisionSpec {
        DecisionSpec {
            echo: match self.echo {
                Some(ref e) => Some(e@),
                None => None,
            },
            directive: self.directive@,
        }
    }
}

/// The verbose echo the dispatcher prints before dispatching: only when a
/// command was given and the verbose flag is set.
pub open spec fn echo_of(o: OptionsSpec) -> Option<Seq<char>> {
    if !o.version && o.cmd.len() > 0 && o.verbose {
        Some(command_echo_of(o.cmd))
    } else {
        None
    }
}

/// What the dispatcher does for the given options on the given platform:
/// the version banner wins, an empty name gives the usage hint, the
/// sentinel lists everything, an unregistered name is unknown, and a
/// registered name is planned through its action's platform gate.
pub open spec fn decide_spec(o: OptionsSpec, p: Platform) -> DirectiveSpec {
    if o.version {
        DirectiveSpec::ShowVersion
    } else if o.cmd.len() == 0 {
        DirectiveSpec::UsageHint { line: usage_hint_line() }
    } else if o.cmd == sentinel() {
        DirectiveSpec::ListAll { lines: listing_spec() }
    } else if !is_registered(o.cmd) {
        DirectiveSpec::UnknownCommand { line: unknown_line_of(o.cmd) }
    } else {
        match plan_of(registry()[registered_index(o.cmd)].action, p) {
            Err(e) => DirectiveSpec::Unsupported { message: unsupported_message(e) },
            Ok(plan) => match plan {
                PlanSpec::Fetch { url, kind } => DirectiveSpec::Fetch { url, kind },
                PlanSpec::Run { args } => DirectiveSpec::Execute {
                    args,
                    echo: if o.verbose {
                        Some(run_preamble_of(args))
                    } else {
                        None
                    },
                },
                PlanSpec::Print { message } => DirectiveSpec::Announce { message },
            },
        }
    }
}

/// Decides what the given invocation does on the given platform, exactly as
/// `decide_spec` and `echo_of` describe it.
pub fn decide(options: &Options, platform: Platform) -> (r: Decision)
    ensures
        r@ == (DecisionSpec {
            echo: echo_of(options@),
            directive: decide_spec(options@, platform),
        }),
{
    if options.version {
        return Decision { echo: None, directive: Directive::ShowVersion };
    }
    if options.cmd.as_str().is_empty() {
        return Decision {
            echo: None,
            directive: Directive::UsageHint {
                line: String::from_str("Use show --help print usage."),
            },
        };
    }
    let echo: Option<String> = if options.verbose {
        let mut e = String::from_str("Command: ");
        e.append(options.cmd.as_str());
        Some(e)
    } else {
        None
    };
    let cmds = commands();
    if options.cmd.eq(&String::from_str(":::")) {
        let lines = listing(&cmds);
        proof {
            assert(lines.deep_view() =~= listing_spec());
        }
        return Decision { echo, directive: Directive::ListAll { lines } };
    }
    match find_command(&cmds, &options.cmd) {
        None => {
            proof {
                assert(!is_registered(options.cmd@)) by {
                    if is_registered(options.cmd@) {
                        let k = choose|k: int|
                            0 <= k < registry().len() && registry()[k].name == options.cmd@;
                        assert(cmds@[k]@ == registry()[k]);
                        assert(cmds@[k]@.name == options.cmd@);
                    }
                }
            }
            let mut line = String::from_str("Unknown command: ");
            line.append(options.cmd.as_str());
            Decision { echo, directive: Directive::UnknownCommand { line } }
        },
        Some(i) => {
            proof {
                lemma_registry_well_formed();
                assert(cmds@[i as int]@ == registry()[i as int]);
                assert(registry()[i as int].name == options.cmd@);
                assert(is_registered(options.cmd@));
                let k = registered_index(options.cmd@);
                assert(0 <= k < registry().len() && registry()[k].name == options.cmd@);
                assert(k == i as int);
            }
            let action = cmds[i].action;
            match plan_action(action, platform) {
                Err(e) => {
                    let message = e.message();
                    Decision { echo, directive: Directive::Unsupported { message } }
                },
                Ok(plan) => match plan {
                    ActionPlan::Fetch { url, kind } => Decision {
                        echo,
                        directive: Directive::Fetch { url, kind },
                    },
                    ActionPlan::Run { args } => {
                        let run_echo: Option<String> = if options.verbose {
                            Some(run_preamble(&args))
                        } else {
                            None
                        };
                        Decision { echo, directive: Directive::Execute { args, echo: run_echo } }
                    },
                    ActionPlan::Print { message } => Decision {
                        echo,
                        directive: Directive::Announce { message },
                    },
                },
            }
        },
    }
}

/// Decides the given invocation on the platform the process runs on. Which
/// platform that is depends on the machine, so the decision is promised
/// only to match one platform's dispatch.
pub fn decide_here(options: &Options) -> (r: Decision)
    ensures
        exists|p: Platform|
            r@ == (DecisionSpec {
                echo: echo_of(options@),
                directive: #[trigger] decide_spec(options@, p),
            }),
{
    let platform = current_platform();
    let r = decide(options, platform);
    proof {
        assert(r@ == (DecisionSpec {
            echo: echo_of(options@),
            directive: decide_spec(options@, platform),
        }));
    }
    r
}

/// For every registered command and every platform among the two declared
/// tags, the action's own runtime gate agrees with the descriptor's
/// declared support set; a refusal carries the fixed macOS message.
pub proof fn lemma_platform_gate(i: int, p: Platform)
    requires
        0 <= i < registry().len(),
        p is Linux || p is MacOS,
    ensures
        plan_of(registry()[i].action, p) is Ok <==> platform_supported(
            p,
            registry()[i].support_os,
        ),
        !platform_supported(p, registry()[i].support_os) ==> plan_of(registry()[i].action, p)
            == Err::<PlanSpec, UnsupportedPlatform>(UnsupportedPlatform::OnlyMacos),
{
    let tags = registry()[i].support_os;
    if i == 0 || i == 1 || i == 2 || i == 3 || i == 6 || i == 7 {
        assert(tags =~= linux_and_macos());
        if p is Linux {
            assert(platform_has_tag(p, tags[0]));
        } else {
            assert(platform_has_tag(p, tags[1]));
        }
        assert(platform_supported(p, tags));
        assert(plan_of(registry()[i].action, p) is Ok);
    } else {
        assert(i == 4 || i == 5 || i == 8 || i == 9 || i == 10 || i == 11 || i == 12 || i == 13
            || i == 14);
        assert(tags =~= macos_only());
        if p is MacOS {
            assert(platform_has_tag(p, tags[0]));
            assert(platform_supported(p, tags));
            assert(plan_of(registry()[i].action, p) is Ok);
        } else {
            assert(!platform_supported(p, tags)) by {
                if platform_supported(p, tags) {
                    let k = choose|k: int| 0 <= k < tags.len() && platform_has_tag(p, tags[k]);
                    assert(k == 0);
                }
            }
            assert(plan_of(registry()[i].action, p) == Err::<PlanSpec, UnsupportedPlatform>(
                UnsupportedPlatform::OnlyMacos,
            ));
        }
    }
}

/// Dispatching a registered command name never fails the lookup: on a
/// platform the descriptor supports, the decision is the command's own
/// action (a fetch, an OS command, or a fixed message), so a failure can
/// come only from carrying that plan out.
pub proof fn lemma_registered_supported_dispatches(o: OptionsSpec, p: Platform, i: int)
    requires
        !o.version,
        0 <= i < registry().len(),
        o.cmd == registry()[i].name,
        p is Linux || p is MacOS,
        platform_supported(p, registry()[i].support_os),
    ensures
        decide_spec(o, p) is Fetch || decide_spec(o, p) is Execute || decide_spec(o, p)
            is Announce,
{
    lemma_registry_well_formed();
    assert(o.cmd.len() > 0);
    assert(o.cmd != sentinel());
    assert(is_registered(o.cmd));
    let k = registered_index(o.cmd);
    assert(0 <= k < registry().len() && registry()[k].name == o.cmd);
    assert(k == i);
    lemma_platform_gate(i, p);
    assert(plan_of(registry()[i].action, p) is Ok);
}

/// Dispatching a registered command on a platform its descriptor does not
/// support is refused by the action's own gate, with the fixed message,
/// before any plan — so before any fetch or OS command — exists.
pub proof fn lemma_unsupported_platform_gates(o: OptionsSpec, p: Platform, i: int)
    requires
        !o.version,
        0 <= i < registry().len(),
        o.cmd == registry()[i].name,
        p is Linux || p is MacOS,
        !platform_supported(p, registry()[i].support_os),
    ensures
        decide_spec(o, p) == (DirectiveSpec::Unsupported { message: msg_only_macos() }),
        directive_fatal(decide_spec(o, p)),
{
    lemma_registry_well_formed();
    assert(o.cmd.len() > 0);
    assert(o.cmd != sentinel());
    assert(is_registered(o.cmd));
    let k = registered_index(o.cmd);
    assert(0 <= k < registry().len() && registry()[k].name == o.cmd);
    assert(k == i);
    lemma_platform_gate(i, p);
}

/// The sentinel lists exactly one line per registry entry, in registry
/// order, and nothing else: no plan, no fetch, no OS command, no failure.
pub proof fn lemma_sentinel_lists_all(o: OptionsSpec, p: Platform)
    requires
        !o.version,
        o.cmd == sentinel(),
    ensures
        decide_spec(o, p) == (DirectiveSpec::ListAll { lines: listing_spec() }),
        listing_spec().len() == registry().len(),
        forall|i: int|
            0 <= i < registry().len() ==> #[trigger] listing_spec()[i] == line_of(registry()[i]),
        !directive_fatal(decide_spec(o, p)),
{
    reveal_strlit(":::");
    assert(sentinel().len() == 3);
}

/// A name no descriptor carries is reported as unknown, and the run still
/// ends successfully.
pub proof fn lemma_unknown_command(o: OptionsSpec, p: Platform)
    requires
        !o.version,
        o.cmd.len() > 0,
        o.cmd != sentinel(),
        !is_registered(o.cmd),
    ensures
        decide_spec(o, p) == (DirectiveSpec::UnknownCommand { line: unknown_line_of(o.cmd) }),
        !directive_fatal(decide_spec(o, p)),
{
}

/// When the decision is to run an OS command, the full command line is
/// echoed exactly when verbose mode is on.
pub proof fn lemma_verbose_run_echo(o: OptionsSpec, p: Platform)
    ensures
        decide_spec(o, p) matches DirectiveSpec::Execute { args, echo } ==> echo == (
        if o.verbose {
            Some(run_preamble_of(args))
        } else {
            None::<Seq<char>>
        }),
{
}

} // verus!
