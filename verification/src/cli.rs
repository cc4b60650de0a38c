//! The service's command line.
//!
//! Arguments are read left to right: `--help` or `-h` asks for the usage
//! text, `--config <path>` names the configuration file, anything else is
//! skipped. The first of these that appears decides; `--config` without a
//! following argument names nothing.

use vstd::prelude::*;
use vstd::string::StringExecFns;

verus! {

/// What the command line asks for.
#[derive(Debug, Clone, PartialEq, Eq)]
pub enum CommandLine {
    /// Print the usage text and exit.
    Help,
    /// Load the configuration from this path.
    Config(String),
    /// Load the configuration from the default path.
    Default,
}

/// The meaning of a command line, over the characters of its arguments.
pub enum CommandLineSpec {
    Help,
    Config(Seq<char>),
    Default,
}

impl CommandLine {
    pub open spec fn spec_meaning(&self) -> CommandLineSpec {
        match self {
            CommandLine::Help => CommandLineSpec::Help,
            CommandLine::Config(p) => CommandLineSpec::Config(p@),
            CommandLine::Default => CommandLineSpec::Default,
        }
    }
}

/// The meaning of the arguments from position `i` on.
pub open spec fn parse_from(args: Seq<Seq<char>>, i: int) -> CommandLineSpec
    decreases args.len() - i,
{
    if i < 0 || i >= args.len() {
        CommandLineSpec::Default
    } else if args[i] == "--help"@ || args[i] == "-h"@ {
        CommandLineSpec::Help
    } else if args[i] == "--config"@ {
        if i + 1 < args.len() {
            CommandLineSpec::Config(args[i + 1])
        } else {
            CommandLineSpec::Default
        }
    } else {
        parse_from(args, i + 1)
    }
}

/// The characters of each argument.
pub open spec fn arg_chars(args: Seq<String>) -> Seq<Seq<char>> {
    args.map_values(|s: String| s@)
}

/// The meaning of the arguments that follow the program name.
pub fn parse_command_line(args: &[String]) -> (c: CommandLine)
    ensures
        c.spec_meaning() == parse_from(arg_chars(args@), 0),
{
    let help = <String as StringExecFns>::from_str("--help");
    let short_help = <String as StringExecFns>::from_str("-h");
    let config = <String as StringExecFns>::from_str("--config");
    let ghost a = arg_chars(args@);
    let mut i: usize = 0;
    while i < args.len()
        invariant
            0 <= i <= args@.len(),
            a == arg_chars(args@),
            a.len() == args@.len(),
            help@ == "--help"@,
            short_help@ == "-h"@,
            config@ == "--config"@,
            parse_from(a, 0) == parse_from(a, i as int),
        decreases args@.len() - i,
    {
        assert(a[i as int] == args@[i as int]@);
        if args[i] == help || args[i] == short_help {
            return CommandLine::Help;
        }
        if args[i] == config {
            if i + 1 < args.len() {
                let path = args[i + 1].clone();
                assert(a[i + 1] == args@[i + 1]@);
                return CommandLine::Config(path);
            }
            return CommandLine::Default;
        }
        i = i + 1;
    }
    CommandLine::Default
}

} // verus!
