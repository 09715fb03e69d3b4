//! Command-line options of the build driver.

use vstd::prelude::*;
use crate::text::{owned, text_eq};

verus! {

/// Install prefix used when none is given.
pub const DEFAULT_PREFIX: &'static str = "/los/";

/// System root used when none is given.
pub const DEFAULT_SYSROOT: &'static str = "/";

/// Why a command line was refused.
#[derive(Debug, Clone, PartialEq, Eq)]
pub enum Error {
    TwoCommands,
    TwoSysroots,
    TwoPrefixes,
    InvalidCommand(String),
    NoSysrootAfterOption,
    NoPrefixAfterOption,
}

/// The mathematical form of [`Error`].
pub enum ArgFault {
    TwoCommands,
    TwoSysroots,
    TwoPrefixes,
    InvalidCommand(Seq<char>),
    NoSysrootAfterOption,
    NoPrefixAfterOption,
}

impl View for Error {
    type V = ArgFault;

    open spec fn view(&self) -> ArgFault {
        match self {
            Error::TwoCommands => ArgFault::TwoCommands,
            Error::TwoSysroots => ArgFault::TwoSysroots,
            Error::TwoPrefixes => ArgFault::TwoPrefixes,
            Error::InvalidCommand(s) => ArgFault::InvalidCommand(s@),
            Error::NoSysrootAfterOption => ArgFault::NoSysrootAfterOption,
            Error::NoPrefixAfterOption => ArgFault::NoPrefixAfterOption,
        }
    }
}

/// What the driver is asked to do.
#[derive(Debug, Clone, Copy, PartialEq, Eq, Structural)]
pub enum Command {
    Build,
    Install,
    Clean,
}

/// The command that a word names, if any.
pub open spec fn command_named(s: Seq<char>) -> Option<Command> {
    if s == "clean"@ {
        Some(Command::Clean)
    } else if s == "build"@ {
        Some(Command::Build)
    } else if s == "install"@ {
        Some(Command::Install)
    } else {
        None
    }
}

/// The word that names a command.
pub open spec fn command_word(c: Command) -> Seq<char> {
    match c {
        Command::Build => "build"@,
        Command::Install => "install"@,
        Command::Clean => "clean"@,
    }
}

impl Command {
    /// Reads a command word.
    pub fn parse(string: &str) -> (r: Result<Self, Error>)
        ensures
            match command_named(string@) {
                Some(c) => r == Ok::<Command, Error>(c),
                None => r is Err && r->Err_0@ == ArgFault::InvalidCommand(string@),
            },
    {
        if text_eq(string, "clean") {
            Ok(Command::Clean)
        } else if text_eq(string, "build") {
            Ok(Command::Build)
        } else if text_eq(string, "install") {
            Ok(Command::Install)
        } else {
            Err(Error::InvalidCommand(owned(string)))
        }
    }

    /// The word that names the command.
    pub fn name(&self) -> (r: &'static str)
        ensures
            r@ == command_word(*self),
            command_named(r@) == Some(*self),
    {
        proof {
            reveal_strlit("clean");
            reveal_strlit("build");
            reveal_strlit("install");
            assert("build"@[0] != "clean"@[0]);
            assert("install"@.len() != "clean"@.len());
            assert("install"@.len() != "build"@.len());
        }
        match self {
            Command::Build => "build",
            Command::Install => "install",
            Command::Clean => "clean",
        }
    }
}

/// The options of one run.
pub struct Options {
    command: Command,
    verbose: bool,
    quiet: bool,
    sysroot: String,
    prefix: String,
}

/// The mathematical form of [`Options`].
pub struct OptionsView {
    pub command: Command,
    pub verbose: bool,
    pub quiet: bool,
    pub sysroot: Seq<char>,
    pub prefix: Seq<char>,
}

impl View for Options {
    type V = OptionsView;

    closed spec fn view(&self) -> OptionsView {
        OptionsView {
            command: self.command,
            verbose: self.verbose,
            quiet: self.quiet,
            sysroot: self.sysroot@,
            prefix: self.prefix@,
        }
    }
}

/// What has been read of a command line so far.
pub struct ArgState {
    pub command: Option<Command>,
    pub verbose: bool,
    pub quiet: bool,
    pub sysroot: Option<Seq<char>>,
    pub prefix: Option<Seq<char>>,
}

pub open spec fn texts(v: Seq<String>) -> Seq<Seq<char>> {
    v.map_values(|s: String| s@)
}

pub open spec fn initial_arg_state() -> ArgState {
    ArgState { command: None, verbose: false, quiet: false, sysroot: None, prefix: None }
}

/// The options that a finished scan stands for, with the defaults filled in.
pub open spec fn settled(st: ArgState) -> OptionsView {
    OptionsView {
        command: match st.command {
            Some(c) => c,
            None => Command::Build,
        },
        verbose: st.verbose,
        quiet: st.quiet,
        sysroot: match st.sysroot {
            Some(s) => s,
            None => DEFAULT_SYSROOT@,
        },
        prefix: match st.prefix {
            Some(p) => p,
            None => DEFAULT_PREFIX@,
        },
    }
}

/// Reads the arguments from index `i` on, in state `st`.
pub open spec fn scan_arguments(args: Seq<Seq<char>>, i: int, st: ArgState) -> Result<
    OptionsView,
    ArgFault,
>
    decreases args.len() - i,
{
    if i < 0 || i >= args.len() {
        Ok(settled(st))
    } else {
        let a = args[i];
        if a == "-v"@ || a == "--verbose"@ {
            scan_arguments(
                args,
                i + 1,
                ArgState { command: st.command, verbose: true, quiet: st.quiet, sysroot: st.sysroot, prefix: st.prefix },
            )
        } else if a == "-q"@ || a == "--quiet"@ {
            scan_arguments(
                args,
                i + 1,
                ArgState { command: st.command, verbose: st.verbose, quiet: true, sysroot: st.sysroot, prefix: st.prefix },
            )
        } else if a == "--sysroot"@ {
            if i + 1 >= args.len() {
                Err(ArgFault::NoSysrootAfterOption)
            } else if st.sysroot is Some {
                Err(ArgFault::TwoSysroots)
            } else {
                scan_arguments(
                    args,
                    i + 2,
                    ArgState { command: st.command, verbose: st.verbose, quiet: st.quiet, sysroot: Some(args[i + 1]), prefix: st.prefix },
                )
            }
        } else if a == "--prefix"@ {
            if i + 1 >= args.len() {
                Err(ArgFault::NoPrefixAfterOption)
            } else if st.prefix is Some {
                Err(ArgFault::TwoPrefixes)
            } else {
                scan_arguments(
                    args,
                    i + 2,
                    ArgState { command: st.command, verbose: st.verbose, quiet: st.quiet, sysroot: st.sysroot, prefix: Some(args[i + 1]) },
                )
            }
        } else {
            match command_named(a) {
                None => Err(ArgFault::InvalidCommand(a)),
                Some(c) => if st.command is Some {
                    Err(ArgFault::TwoCommands)
                } else {
                    scan_arguments(
                        args,
                        i + 1,
                        ArgState { command: Some(c), verbose: st.verbose, quiet: st.quiet, sysroot: st.sysroot, prefix: st.prefix },
                    )
                },
            }
        }
    }
}

/// The outcome of reading a whole command line; its first word names the program.
pub open spec fn parsed_arguments(args: Seq<Seq<char>>) -> Result<OptionsView, ArgFault> {
    scan_arguments(args, 1, initial_arg_state())
}

/// Reads a command line, whose first word names the program.
pub fn parse_arguments(arguments: Vec<String>) -> (r: Result<Options, Error>)
    ensures
        match parsed_arguments(texts(arguments@)) {
            Ok(o) => r is Ok && r->Ok_0@ == o,
            Err(f) => r is Err && r->Err_0@ == f,
        },
{
    let ghost args = texts(arguments@);
    let n = arguments.len();
    let mut command: Option<Command> = None;
    let mut verbose = false;
    let mut quiet = false;
    let mut sysroot: Option<String> = None;
    let mut prefix: Option<String> = None;
    let mut i: usize = 1;
    while i < n
        invariant
            n == arguments@.len(),
            args == texts(arguments@),
            1 <= i,
            scan_arguments(
                args,
                i as int,
                ArgState {
                    command,
                    verbose,
                    quiet,
                    sysroot: match sysroot { Some(s) => Some(s@), None => None },
                    prefix: match prefix { Some(s) => Some(s@), None => None },
                },
            ) == parsed_arguments(args),
        decreases n - i,
    {
        let argument = arguments[i].as_str();
        assert(argument@ == args[i as int]);
        if text_eq(argument, "-v") || text_eq(argument, "--verbose") {
            verbose = true;
            i = i + 1;
        } else if text_eq(argument, "-q") || text_eq(argument, "--quiet") {
            quiet = true;
            i = i + 1;
        } else if text_eq(argument, "--sysroot") {
            if i + 1 >= n {
                return Err(Error::NoSysrootAfterOption);
            }
            if sysroot.is_some() {
                return Err(Error::TwoSysroots);
            }
            assert(arguments[i + 1 as int]@ == args[i + 1]);
            sysroot = Some(arguments[i + 1].clone());
            i = i + 2;
        } else if text_eq(argument, "--prefix") {
            if i + 1 >= n {
                return Err(Error::NoPrefixAfterOption);
            }
            if prefix.is_some() {
                return Err(Error::TwoPrefixes);
            }
            assert(arguments[i + 1 as int]@ == args[i + 1]);
            prefix = Some(arguments[i + 1].clone());
            i = i + 2;
        } else {
            let new_command = Command::parse(argument)?;
            if command.is_some() {
                return Err(Error::TwoCommands);
            }
            command = Some(new_command);
            i = i + 1;
        }
    }
    let options = Options {
        command: match command {
            Some(c) => c,
            None => Command::Build,
        },
        verbose,
        quiet,
        sysroot: match sysroot {
            Some(s) => s,
            None => owned(DEFAULT_SYSROOT),
        },
        prefix: match prefix {
            Some(p) => p,
            None => owned(DEFAULT_PREFIX),
        },
    };
    Ok(options)
}

impl Options {
    pub fn verbose(&self) -> (r: bool)
        ensures
            r == self@.verbose,
    {
        self.verbose
    }

    pub fn quiet(&self) -> (r: bool)
        ensures
            r == self@.quiet,
    {
        self.quiet
    }

    pub fn command(&self) -> (r: &Command)
        ensures
            *r == self@.command,
    {
        &self.command
    }

    pub fn sysroot(&self) -> (r: &String)
        ensures
            r@ == self@.sysroot,
    {
        &self.sysroot
    }

    pub fn prefix(&self) -> (r: &String)
        ensures
            r@ == self@.prefix,
    {
        &self.prefix
    }
}

} // verus!
