//! Resolving the command line into what to count and where to read from.
use vstd::prelude::*;

verus! {

/// What to count.
#[derive(Debug, Clone, Copy, PartialEq, Eq, Structural)]
pub enum Flag {
    /// Lines, words and bytes together.
    Default,
    /// Bytes.
    Size,
    /// Lines.
    Line,
    /// Words.
    Word,
    /// Unicode scalar values.
    Char,
}

/// The mode that a flag token selects, for the four tokens `-l`, `-c`, `-w`
/// and `-m`.
pub open spec fn flag_token(s: Seq<char>) -> Option<Flag> {
    if s == seq!['-', 'l'] {
        Some(Flag::Line)
    } else if s == seq!['-', 'c'] {
        Some(Flag::Size)
    } else if s == seq!['-', 'w'] {
        Some(Flag::Word)
    } else if s == seq!['-', 'm'] {
        Some(Flag::Char)
    } else {
        None
    }
}

/// The mode that a token names: one of the four flag tokens, or the empty
/// token for the default mode.
pub open spec fn mode_of(s: Seq<char>) -> Option<Flag> {
    if s.len() == 0 {
        Some(Flag::Default)
    } else {
        flag_token(s)
    }
}

impl Flag {
    /// Reads a mode from a token: `-l`, `-c`, `-w`, `-m`, or the empty token
    /// for the default mode.
    pub fn from_str(s: &str) -> (r: Option<Flag>)
        ensures
            r == mode_of(s@),
    {
        let n = s.unicode_len();
        if n == 0 {
            return Some(Flag::Default);
        }
        if n != 2 {
            proof {
                assert(s@.len() != seq!['-', 'l'].len());
            }
            return None;
        }
        let dash = s.get_char(0);
        let letter = s.get_char(1);
        let mode = if dash != '-' {
            None
        } else if letter == 'l' {
            Some(Flag::Line)
        } else if letter == 'c' {
            Some(Flag::Size)
        } else if letter == 'w' {
            Some(Flag::Word)
        } else if letter == 'm' {
            Some(Flag::Char)
        } else {
            None
        };
        proof {
            assert(s@ =~= seq![dash, letter]);
        }
        mode
    }
}

/// Error of a command line with no argument after the program name.
pub const NOT_ENOUGH_ARGUMENTS: &'static str = "Not enough arguments";

/// Error of a command line whose flag, before a file path, is not one of the
/// four flag tokens.
pub const UNRECOGNIZED_FLAG: &'static str = "Flag not recognized";

/// Error of a command line with more than two arguments after the program
/// name.
pub const TOO_MANY_ARGUMENTS: &'static str = "Too many arguments";

/// A resolved invocation: what to count, and where to read the text from.
#[derive(Debug)]
pub struct Config {
    file_path: String,
    command: Flag,
    is_stdin: bool,
}

/// What a `Config` holds: the path of the file to read (empty when reading
/// standard input), which is also the label printed after the counts, the
/// mode, and whether to read standard input.
pub struct ConfigView {
    pub path: Seq<char>,
    pub mode: Flag,
    pub from_stdin: bool,
}

impl ConfigView {
    /// Standard input is read only for a flag given alone, so it comes with
    /// an empty path and a mode other than the default one.
    pub open spec fn wf(self) -> bool {
        self.from_stdin ==> self.path.len() == 0 && self.mode != Flag::Default
    }
}

impl View for Config {
    type V = ConfigView;

    closed spec fn view(&self) -> ConfigView {
        ConfigView { path: self.file_path@, mode: self.command, from_stdin: self.is_stdin }
    }
}

impl Config {
    /// Resolves the command line `args`, whose first element is the program
    /// name: a flag alone reads standard input in that mode; a path alone
    /// reads that file in the default mode; a flag and a path read that file
    /// in that mode.
    pub fn build(args: &[String]) -> (r: Result<Config, &'static str>)
        ensures
            args@.len() < 2 ==> r == Err::<Config, &'static str>(NOT_ENOUGH_ARGUMENTS),
            args@.len() == 2 ==> r is Ok && r->Ok_0@ == (match flag_token(args@[1]@) {
                Some(mode) => ConfigView { path: Seq::empty(), mode, from_stdin: true },
                None => ConfigView { path: args@[1]@, mode: Flag::Default, from_stdin: false },
            }),
            args@.len() == 3 ==> (match flag_token(args@[1]@) {
                Some(mode) => r is Ok && r->Ok_0@ == (ConfigView {
                    path: args@[2]@,
                    mode,
                    from_stdin: false,
                }),
                None => r == Err::<Config, &'static str>(UNRECOGNIZED_FLAG),
            }),
            args@.len() > 3 ==> r == Err::<Config, &'static str>(TOO_MANY_ARGUMENTS),
            r is Ok ==> r->Ok_0@.wf(),
    {
        if args.len() < 2 {
            return Err(NOT_ENOUGH_ARGUMENTS);
        }
        if args.len() == 2 {
            let argument = args[1].as_str();
            if !argument.is_empty() {
                if let Some(flag) = Flag::from_str(argument) {
                    return Ok(Config { file_path: String::new(), command: flag, is_stdin: true });
                }
            }
            return Ok(Config {
                file_path: args[1].clone(),
                command: Flag::Default,
                is_stdin: false,
            });
        }
        if args.len() == 3 {
            let flag = args[1].as_str();
            if !flag.is_empty() {
                if let Some(command) = Flag::from_str(flag) {
                    return Ok(Config { file_path: args[2].clone(), command, is_stdin: false });
                }
            }
            Err(UNRECOGNIZED_FLAG)
        } else {
            Err(TOO_MANY_ARGUMENTS)
        }
    }

    /// The path of the file to read, empty when reading standard input; it
    /// is also the label printed after the counts.
    pub fn file_path(&self) -> (r: &str)
        ensures
            r@ == self@.path,
    {
        self.file_path.as_str()
    }

    /// What to count.
    pub fn command(&self) -> (r: Flag)
        ensures
            r == self@.mode,
    {
        self.command
    }

    /// Whether the text is read from standard input.
    pub fn is_stdin(&self) -> (r: bool)
        ensures
            r == self@.from_stdin,
    {
        self.is_stdin
    }
}

} // verus!
