//! The command and flag vocabulary of the surrounding tool, and the
//! parsing of flags out of an argument list. Discovery and execution
//! are left to implementors of the two traits; the library only
//! dispatches.

use vstd::prelude::*;
use vstd::string::StrSliceExecFns;

verus! {

/// One command-line flag. `Interface` and `File` carry the word that
/// follows them.
pub enum Flag {
    Help,
    Interface(String),
    Watch,
    Details,
    File(String),
}

/// The argument words that select the help flag.
pub open spec fn is_help_arg(a: Seq<char>) -> bool {
    a == "-h"@ || a == "--help"@
}

/// The argument words that select the interface flag.
pub open spec fn is_interface_arg(a: Seq<char>) -> bool {
    a == "-i"@ || a == "--interface"@
}

/// The argument words that select the details flag.
pub open spec fn is_details_arg(a: Seq<char>) -> bool {
    a == "-d"@ || a == "--details"@
}

/// The argument words that select the watch flag.
pub open spec fn is_watch_arg(a: Seq<char>) -> bool {
    a == "-w"@ || a == "--watch"@
}

/// The argument words that parse to a flag at all.
pub open spec fn is_flag_arg(a: Seq<char>) -> bool {
    is_help_arg(a) || is_interface_arg(a) || is_details_arg(a) || is_watch_arg(a)
}

/// The views of an argument list.
pub open spec fn arg_views(args: Seq<String>) -> Seq<Seq<char>> {
    Seq::new(args.len(), |i: int| args[i]@)
}

/// `f` is the flag that position `i` of `args` parses to; an interface
/// flag carries the following word.
pub open spec fn flag_matches_arg(f: Flag, args: Seq<Seq<char>>, i: int) -> bool {
    if is_help_arg(args[i]) {
        f is Help
    } else if is_interface_arg(args[i]) {
        f matches Flag::Interface(s) && s@ == args[i + 1]
    } else if is_details_arg(args[i]) {
        f is Details
    } else if is_watch_arg(args[i]) {
        f is Watch
    } else {
        false
    }
}

/// `flags` is exactly the sequence of flags parsed, in order, from the
/// first `n` argument words.
pub open spec fn flags_match(args: Seq<Seq<char>>, n: int, flags: Seq<Flag>) -> bool
    decreases n,
{
    if n <= 0 {
        flags.len() == 0
    } else if is_flag_arg(args[n - 1]) {
        &&& flags.len() > 0
        &&& flags_match(args, n - 1, flags.drop_last())
        &&& flag_matches_arg(flags.last(), args, n - 1)
    } else {
        flags_match(args, n - 1, flags)
    }
}

/// How many of the first `n` argument words parse to a flag.
pub open spec fn flag_count(args: Seq<Seq<char>>, n: int) -> int
    decreases n,
{
    if n <= 0 {
        0
    } else {
        flag_count(args, n - 1) + if is_flag_arg(args[n - 1]) {
            1int
        } else {
            0int
        }
    }
}

/// A parse that matches yields one flag per flag word.
proof fn lemma_flags_match_count(args: Seq<Seq<char>>, n: int, flags: Seq<Flag>)
    requires
        flags_match(args, n, flags),
    ensures
        flags.len() == flag_count(args, n),
    decreases n,
{
    if n > 0 {
        if is_flag_arg(args[n - 1]) {
            lemma_flags_match_count(args, n - 1, flags.drop_last());
        } else {
            lemma_flags_match_count(args, n - 1, flags);
        }
    }
}

/// The word starts with '-'.
pub open spec fn starts_dash(a: Seq<char>) -> bool {
    a.len() > 0 && a[0] == '-'
}

/// The first position at or after `i` whose word starts with '-', or
/// the length when none does.
pub open spec fn first_dash(args: Seq<Seq<char>>, i: int) -> int
    decreases args.len() - i when 0 <= i <= args.len()
{
    if i >= args.len() {
        args.len() as int
    } else if starts_dash(args[i]) {
        i
    } else {
        first_dash(args, i + 1)
    }
}

impl Flag {
    /// An equal copy of the flag.
    pub fn duplicate(&self) -> (r: Flag)
        ensures
            r == *self,
    {
        match self {
            Flag::Help => Flag::Help,
            Flag::Interface(s) => Flag::Interface(s.clone()),
            Flag::Watch => Flag::Watch,
            Flag::Details => Flag::Details,
            Flag::File(s) => Flag::File(s.clone()),
        }
    }

    /// The flags the tool offers on its help screen, in display order.
    pub fn all() -> (r: Vec<Flag>)
        ensures
            r@.len() == 4,
            r@[0] is Help,
            r@[1] matches Flag::Interface(s) && s@.len() == 0,
            r@[2] is Watch,
            r@[3] is Details,
    {
        let mut flags: Vec<Flag> = Vec::new();
        flags.push(Flag::Help);
        flags.push(Flag::Interface(String::new()));
        flags.push(Flag::Watch);
        flags.push(Flag::Details);
        flags
    }

    /// The short and long spelling of a flag's word.
    pub fn get_flag_usage(flag: &Flag) -> (r: (&'static str, &'static str))
        ensures
            flag is Help ==> r.0@ == "h"@ && r.1@ == "help"@,
            flag is Interface ==> r.0@ == "i"@ && r.1@ == "interface"@,
            flag is Watch ==> r.0@ == "w"@ && r.1@ == "watch"@,
            flag is Details ==> r.0@ == "d"@ && r.1@ == "details"@,
            flag is File ==> r.0@ == "f"@ && r.1@ == "file"@,
    {
        match flag {
            Flag::Help => ("h", "help"),
            Flag::Interface(_) => ("i", "interface"),
            Flag::Watch => ("w", "watch"),
            Flag::Details => ("d", "details"),
            Flag::File(_) => ("f", "file"),
        }
    }

    /// The one-line description of a flag on the help screen.
    pub fn description(flag: &Flag) -> (r: &'static str)
        ensures
            flag is Help ==> r@ == "Display help information"@,
            flag is Interface ==> r@ == "Configure network interface"@,
            flag is Watch ==> r@ == "Monitor network packets"@,
            flag is Details ==> r@ == "Enable detailed output"@,
            flag is File ==> r@ == "Specify a file to save output"@,
    {
        match flag {
            Flag::Help => "Display help information",
            Flag::Interface(_) => "Configure network interface",
            Flag::Watch => "Monitor network packets",
            Flag::Details => "Enable detailed output",
            Flag::File(_) => "Specify a file to save output",
        }
    }
}

/// A command: the flag that selects what runs, every flag given, and
/// the raw argument words they came from.
pub struct Command {
    pub main_flag: Flag,
    pub flags: Vec<Flag>,
    pub args: Vec<String>,
}

/// A discovery finds which command should be run.
pub trait CommandDiscovery {
    fn discover_command(&self) -> Option<Command>;
}

/// An executor provides the execution of each command.
pub trait CommandExecutor {
    fn execute_help(&self) -> Result<(), String>;

    fn execute_interface(&self, command: &Command) -> Result<(), String>;

    fn execute_watch(&self, command: &Command) -> Result<(), String>;

    fn execute_file(&self, command: &Command) -> Result<(), String>;
}

impl Command {
    /// A command over the given flags, without argument words; the
    /// first flag selects what runs.
    pub fn new(flags: Vec<Flag>) -> (r: Command)
        requires
            flags@.len() > 0,
        ensures
            r.main_flag == flags@[0],
            r.flags == flags,
            r.args@.len() == 0,
    {
        let main_flag = flags[0].duplicate();
        Command { main_flag, flags, args: Vec::new() }
    }

    /// A command over the given flags and the argument words they were
    /// parsed from.
    pub fn with_args(flags: Vec<Flag>, args: Vec<String>) -> (r: Command)
        requires
            flags@.len() > 0,
        ensures
            r.main_flag == flags@[0],
            r.flags == flags,
            r.args == args,
    {
        let main_flag = flags[0].duplicate();
        Command { main_flag, flags, args }
    }

    /// Asks a discovery for the command to run.
    pub fn discover<T: CommandDiscovery>(discovery: &T) -> Option<Command> {
        discovery.discover_command()
    }

    /// Dispatches to the executor's action for the main flag.
    pub fn execute<T: CommandExecutor>(&self, executor: &T) -> Result<(), String> {
        match self.main_flag {
            Flag::Help => executor.execute_help(),
            Flag::Interface(_) => executor.execute_interface(self),
            Flag::Watch => executor.execute_watch(self),
            Flag::Details => executor.execute_watch(self),
            Flag::File(_) => executor.execute_file(self),
        }
    }
}

/// Whether one argument word equals a literal.
fn arg_eq(a: &String, lit: &str) -> (r: bool)
    ensures
        r == (a@ == lit@),
{
    let s: String = lit.to_owned();
    *a == s
}

/// Whether one argument word starts with '-'.
fn arg_starts_dash(a: &String) -> (r: bool)
    ensures
        r == starts_dash(a@),
{
    let s = a.as_str();
    if s.unicode_len() > 0 {
        s.get_char(0) == '-'
    } else {
        false
    }
}

/// Parses the flags out of an argument list, in order. Words that are
/// no flag are skipped; an interface flag takes the following word as
/// the interface name, so an interface word must not come last.
pub fn flags_from_args(args: &Vec<String>) -> (r: Option<Vec<Flag>>)
    requires
        forall|i: int|
            0 <= i < args@.len() && is_interface_arg(#[trigger] args@[i]@) ==> i + 1 < args@.len(),
    ensures
        r matches Some(flags) && flags_match(arg_views(args@), args@.len() as int, flags@),
{
    let n = args.len();
    let mut flags: Vec<Flag> = Vec::new();
    let mut idx: usize = 0;
    while idx < n
        invariant
            n == args@.len(),
            idx <= n,
            flags_match(arg_views(args@), idx as int, flags@),
            forall|i: int|
                0 <= i < args@.len() && is_interface_arg(#[trigger] args@[i]@) ==> i + 1
                    < args@.len(),
        decreases n - idx,
    {
        let ghost old_flags = flags@;
        let a = &args[idx];
        if arg_eq(a, "-h") || arg_eq(a, "--help") {
            flags.push(Flag::Help);
        } else if arg_eq(a, "-i") || arg_eq(a, "--interface") {
            assert(idx + 1 < n);
            let name = args[idx + 1].clone();
            flags.push(Flag::Interface(name));
        } else if arg_eq(a, "-d") || arg_eq(a, "--details") {
            flags.push(Flag::Details);
        } else if arg_eq(a, "-w") || arg_eq(a, "--watch") {
            flags.push(Flag::Watch);
        }
        proof {
            let views = arg_views(args@);
            assert(views[idx as int] == args@[idx as int]@);
            if is_flag_arg(views[idx as int]) {
                assert(flags@.drop_last() =~= old_flags);
            }
        }
        idx += 1;
    }
    Some(flags)
}

/// Finds the first '-'-word of the argument list, parses flags from
/// there to the end, and builds the command they select; an argument
/// list without a '-'-word selects no command. The '-'-words must hold
/// at least one recognized flag, and an interface word must not come
/// last, as `flags_from_args` asks.
pub fn command_from_args(args: &Vec<String>) -> (r: Option<Command>)
    requires
        forall|i: int|
            0 <= i < args@.len() && is_interface_arg(#[trigger] args@[i]@) ==> i + 1 < args@.len(),
        first_dash(arg_views(args@), 0) < args@.len() ==> flag_count(
            arg_views(args@).skip(first_dash(arg_views(args@), 0)),
            args@.len() - first_dash(arg_views(args@), 0),
        ) > 0,
    ensures
        first_dash(arg_views(args@), 0) == args@.len() ==> r is None,
        first_dash(arg_views(args@), 0) < args@.len() ==> (r matches Some(cmd) && {
            let fd = first_dash(arg_views(args@), 0);
            &&& cmd.args@ == args@.subrange(fd, args@.len() as int)
            &&& flags_match(arg_views(cmd.args@), args@.len() - fd, cmd.flags@)
            &&& cmd.flags@.len() > 0
            &&& cmd.main_flag == cmd.flags@[0]
        }),
{
    let n = args.len();
    let ghost views = arg_views(args@);
    let mut pos: usize = 0;
    while pos < n
        invariant
            n == args@.len(),
            views == arg_views(args@),
            pos <= n,
            first_dash(views, pos as int) == first_dash(views, 0),
        ensures
            pos <= n,
            pos < n ==> first_dash(views, 0) == pos,
            pos == n ==> first_dash(views, 0) == n,
        decreases n - pos,
    {
        if arg_starts_dash(&args[pos]) {
            proof {
                assert(starts_dash(views[pos as int]));
                assert(first_dash(views, pos as int) == pos);
            }
            break ;
        }
        pos += 1;
    }
    if pos >= n {
        return None;
    }
    assert(first_dash(views, 0) == pos);
    // copy the words from the first '-'-word to the end
    let mut cmd_args: Vec<String> = Vec::new();
    let mut j = pos;
    while j < n
        invariant
            n == args@.len(),
            pos <= j <= n,
            cmd_args@ =~= args@.subrange(pos as int, j as int),
        decreases n - j,
    {
        cmd_args.push(args[j].clone());
        proof {
            assert(cmd_args@ =~= args@.subrange(pos as int, j + 1));
        }
        j += 1;
    }
    proof {
        assert(cmd_args@ =~= args@.subrange(pos as int, n as int));
        assert(arg_views(cmd_args@) =~= views.skip(pos as int));
        assert(forall|i: int|
            0 <= i < cmd_args@.len() && is_interface_arg(#[trigger] cmd_args@[i]@) ==> i + 1
                < cmd_args@.len()) by {
            assert(forall|i: int|
                0 <= i < cmd_args@.len() ==> #[trigger] cmd_args@[i]@ == args@[i + pos]@);
        };
    }
    let parsed = flags_from_args(&cmd_args);
    match parsed {
        Some(flags) => {
            proof {
                lemma_flags_match_count(arg_views(cmd_args@), cmd_args@.len() as int, flags@);
            }
            assert(flags@.len() > 0);
            Some(Command::with_args(flags, cmd_args))
        },
        None => None,
    }
}

/// Whether the details flag was given: it is what selects payload hex
/// dumps in the decoded trace.
pub fn has_details(flags: &Vec<Flag>) -> (r: bool)
    ensures
        r == exists|i: int| 0 <= i < flags@.len() && flags@[i] is Details,
{
    let n = flags.len();
    let mut idx: usize = 0;
    while idx < n
        invariant
            n == flags@.len(),
            idx <= n,
            forall|i: int| 0 <= i < idx ==> !(flags@[i] is Details),
        decreases n - idx,
    {
        let found = match flags[idx] {
            Flag::Details => true,
            _ => false,
        };
        if found {
            assert(flags@[idx as int] is Details);
            return true;
        }
        idx += 1;
    }
    false
}

} // verus!
