//! The invocation context: the parsed command line. The tool takes one
//! optional positional token (the command name) and three flags: version,
//! verbose, and help.
use vstd::prelude::*;
use vstd::string::StringExecFns;

verus! {

/// The parsed command line: the version flag, the verbose flag, and the
/// selected command name (empty when none was given).
pub struct Options {
    pub version: bool,
    pub verbose: bool,
    pub cmd: String,
}

/// The mathematical image of `Options`.
#[verifier::ext_equal]
pub struct OptionsSpec {
    pub version: bool,
    pub verbose: bool,
    pub cmd: Seq<char>,
}

impl View for Options {
    type V = OptionsSpec;

    open spec fn view(&self) -> OptionsSpec {
        OptionsSpec { version: self.version, verbose: self.verbose, cmd: self.cmd@ }
    }
}

/// Why a command line was rejected.
#[derive(Debug)]
pub enum ArgError {
    /// A token that looks like an option but is none of the known flags.
    UnknownOption(String),
    /// A second positional token after the command name.
    ExtraArgument(String),
    /// `-h` or `--help`: the caller should print usage and stop.
    HelpRequested,
}

/// The mathematical image of `ArgError`.
pub enum ArgErrorSpec {
    UnknownOption(Seq<char>),
    ExtraArgument(Seq<char>),
    HelpRequested,
}

impl View for ArgError {
    type V = ArgErrorSpec;

    open spec fn view(&self) -> ArgErrorSpec {
        match self {
            ArgError::UnknownOption(s) => ArgErrorSpec::UnknownOption(s@),
            ArgError::ExtraArgument(s) => ArgErrorSpec::ExtraArgument(s@),
            ArgError::HelpRequested => ArgErrorSpec::HelpRequested,
        }
    }
}

/// The parser's running state: the options gathered so far, and whether the
/// positional command token was already taken.
#[verifier::ext_equal]
pub struct ParseState {
    pub version: bool,
    pub verbose: bool,
    pub cmd: Seq<char>,
    pub have_cmd: bool,
}

/// The state parsing starts from: the fields the options already hold, with
/// no positional token taken yet.
pub open spec fn init_state(o: OptionsSpec) -> ParseState {
    ParseState { version: o.version, verbose: o.verbose, cmd: o.cmd, have_cmd: false }
}

/// The options a finished parse leaves behind.
pub open spec fn options_of(st: ParseState) -> OptionsSpec {
    OptionsSpec { version: st.version, verbose: st.verbose, cmd: st.cmd }
}

pub open spec fn is_version_flag(a: Seq<char>) -> bool {
    a == "-v"@ || a == "--version"@
}

pub open spec fn is_verbose_flag(a: Seq<char>) -> bool {
    a == "-V"@ || a == "--verbose"@
}

pub open spec fn is_help_flag(a: Seq<char>) -> bool {
    a == "-h"@ || a == "--help"@
}

/// A token that is treated as an option rather than a positional: at least
/// two characters long and starting with `-`.
pub open spec fn is_option_like(a: Seq<char>) -> bool {
    a.len() >= 2 && a[0] == '-'
}

/// What parsing the remaining tokens does to the given state: flags set
/// their field, the first other token becomes the command name, and a help
/// flag, an unknown option, or a second positional stops parsing.
pub open spec fn parse_spec(args: Seq<Seq<char>>, st: ParseState) -> Result<
    ParseState,
    ArgErrorSpec,
>
    decreases args.len(),
{
    if args.len() == 0 {
        Ok(st)
    } else {
        let a = args[0];
        if is_help_flag(a) {
            Err(ArgErrorSpec::HelpRequested)
        } else if is_version_flag(a) {
            parse_spec(args.drop_first(), ParseState { version: true, ..st })
        } else if is_verbose_flag(a) {
            parse_spec(args.drop_first(), ParseState { verbose: true, ..st })
        } else if is_option_like(a) {
            Err(ArgErrorSpec::UnknownOption(a))
        } else if st.have_cmd {
            Err(ArgErrorSpec::ExtraArgument(a))
        } else {
            parse_spec(args.drop_first(), ParseState { cmd: a, have_cmd: true, ..st })
        }
    }
}

/// Dropping the first element of the tokens still to parse steps the index.
proof fn lemma_skip_step<A>(s: Seq<A>, i: int)
    requires
        0 <= i < s.len(),
    ensures
        s.skip(i)[0] == s[i],
        s.skip(i).drop_first() == s.skip(i + 1),
        s.skip(i).len() == s.len() - i,
{
    assert(s.skip(i).drop_first() =~= s.skip(i + 1));
}

impl Options {
    /// Fresh options: no flag set, no command selected.
    pub fn new() -> (r: Options)
        ensures
            r@ == (OptionsSpec { version: false, verbose: false, cmd: Seq::<char>::empty() }),
    {
        let r = Options { version: false, verbose: false, cmd: String::new() };
        proof {
            assert(r@ =~= OptionsSpec { version: false, verbose: false, cmd: Seq::<char>::empty() });
        }
        r
    }

    /// Parses the given tokens (the command line after the program name)
    /// into these options. On an error the options are left unchanged.
    pub fn parse_args(&mut self, args: &Vec<String>) -> (r: Result<(), ArgError>)
        ensures
            match parse_spec(args.deep_view(), init_state(old(self)@)) {
                Ok(st) => r is Ok && final(self)@ == options_of(st),
                Err(e) => (r matches Err(err) && err@ == e) && final(self)@ == old(self)@,
            },
    {
        let init = Options {
            version: self.version,
            verbose: self.verbose,
            cmd: self.cmd.clone(),
        };
        match Options::parse_from(args, &init) {
            Ok(o) => {
                *self = o;
                Ok(())
            },
            Err(e) => Err(e),
        }
    }

    /// Parses the given tokens, starting from the given options.
    fn parse_from(args: &Vec<String>, init: &Options) -> (r: Result<Options, ArgError>)
        ensures
            match parse_spec(args.deep_view(), init_state(init@)) {
                Ok(st) => r matches Ok(o) && o@ == options_of(st),
                Err(e) => r matches Err(err) && err@ == e,
            },
    {
        let ghost all = args.deep_view();
        let ghost st0 = init_state(init@);
        let mut version = init.version;
        let mut verbose = init.verbose;
        let mut cmd = init.cmd.clone();
        let mut have_cmd = false;
        let mut i: usize = 0;
        proof {
            assert(all.skip(0) =~= all);
            assert(ParseState { version, verbose, cmd: cmd@, have_cmd } =~= st0);
        }
        while i < args.len()
            invariant
                i <= all.len(),
                all == args.deep_view(),
                st0 == init_state(init@),
                parse_spec(all, st0) == parse_spec(
                    all.skip(i as int),
                    ParseState { version, verbose, cmd: cmd@, have_cmd },
                ),
            decreases args.len() - i,
        {
            let ghost st_here = ParseState { version, verbose, cmd: cmd@, have_cmd };
            proof {
                lemma_skip_step(all, i as int);
                assert(all[i as int] == args@[i as int]@);
            }
            let a = &args[i];
            proof {
                assert(a@ == all.skip(i as int)[0]);
            }
            if a.eq(&String::from_str("-h")) || a.eq(&String::from_str("--help")) {
                proof {
                    assert(parse_spec(all, st0) == Err::<ParseState, ArgErrorSpec>(
                        ArgErrorSpec::HelpRequested,
                    ));
                }
                return Err(ArgError::HelpRequested);
            } else if a.eq(&String::from_str("-v")) || a.eq(&String::from_str("--version")) {
                version = true;
            } else if a.eq(&String::from_str("-V")) || a.eq(&String::from_str("--verbose")) {
                verbose = true;
            } else {
                let len = a.as_str().unicode_len();
                if len >= 2 && a.as_str().get_char(0) == '-' {
                    return Err(ArgError::UnknownOption(a.clone()));
                } else if have_cmd {
                    return Err(ArgError::ExtraArgument(a.clone()));
                } else {
                    cmd = a.clone();
                    have_cmd = true;
                }
            }
            i = i + 1;
        }
        proof {
            assert(all.skip(all.len() as int) =~= Seq::<Seq<char>>::empty());
        }
        Ok(Options { version, verbose, cmd })
    }

    /// Parses the given tokens into fresh options.
    pub fn parse_args_static(args: &Vec<String>) -> (r: Result<Options, ArgError>)
        ensures
            match parse_spec(
                args.deep_view(),
                ParseState {
                    version: false,
                    verbose: false,
                    cmd: Seq::<char>::empty(),
                    have_cmd: false,
                },
            ) {
                Ok(st) => r matches Ok(o) && o@ == options_of(st),
                Err(e) => r matches Err(err) && err@ == e,
            },
    {
        let mut opt = Options::new();
        let r = opt.parse_args(args);
        match r {
            Ok(_) => Ok(opt),
            Err(e) => Err(e),
        }
    }
}

} // verus!
