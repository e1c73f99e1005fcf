//! The command line of the runtime: which command is asked for, and with what.
use vstd::prelude::*;
use vstd::string::*;
use crate::text::str_eq;

verus! {

/// The usage text of the runtime.
pub const HELP: &'static str = "kapsule OCI runtime

USAGE:
  kapsule <command> <container-id> [arguments]

COMMANDS:
  create <id> <bundle>   Create a container
  start <id>            Start a created container
  state <id>            Get the state of a container
  kill <id> <signal>    Send a signal to a container
  delete <id>           Delete a container
  pause <id>            Pause a container
  resume <id>           Resume a paused container

OPTIONS:
  --help, -h            Show this help
  --version, -v         Show version
";

/// The signal sent by `kill` when the one given is not a number.
pub const DEFAULT_SIGNAL: u32 = 15;

/// A runtime command with its arguments.
#[derive(Debug)]
pub enum Command {
    Create { id: String, bundle: String },
    Start { id: String },
    State { id: String },
    Kill { id: String, signal: u32 },
    Delete { id: String },
    Pause { id: String },
    Resume { id: String },
}

/// The mathematical model of a command.
pub enum CommandView {
    Create { id: Seq<char>, bundle: Seq<char> },
    Start { id: Seq<char> },
    State { id: Seq<char> },
    Kill { id: Seq<char>, signal: u32 },
    Delete { id: Seq<char> },
    Pause { id: Seq<char> },
    Resume { id: Seq<char> },
}

impl View for Command {
    type V = CommandView;

    open spec fn view(&self) -> CommandView {
        match self {
            Command::Create { id, bundle } => CommandView::Create { id: id@, bundle: bundle@ },
            Command::Start { id } => CommandView::Start { id: id@ },
            Command::State { id } => CommandView::State { id: id@ },
            Command::Kill { id, signal } => CommandView::Kill { id: id@, signal: *signal },
            Command::Delete { id } => CommandView::Delete { id: id@ },
            Command::Pause { id } => CommandView::Pause { id: id@ },
            Command::Resume { id } => CommandView::Resume { id: id@ },
        }
    }
}

/// The container that a command is about.
pub open spec fn command_id(c: CommandView) -> Seq<char> {
    match c {
        CommandView::Create { id, .. } => id,
        CommandView::Start { id } => id,
        CommandView::State { id } => id,
        CommandView::Kill { id, .. } => id,
        CommandView::Delete { id } => id,
        CommandView::Pause { id } => id,
        CommandView::Resume { id } => id,
    }
}

impl Command {
    /// The container that the command is about.
    pub fn id(&self) -> (r: &String)
        ensures
            r@ == command_id(self@),
    {
        match self {
            Command::Create { id, .. } => id,
            Command::Start { id } => id,
            Command::State { id } => id,
            Command::Kill { id, .. } => id,
            Command::Delete { id } => id,
            Command::Pause { id } => id,
            Command::Resume { id } => id,
        }
    }
}

/// The name of a command, without its arguments.
#[derive(Debug, Clone, Copy, PartialEq, Eq, Structural)]
pub enum CommandKind {
    Create,
    Start,
    State,
    Kill,
    Delete,
    Pause,
    Resume,
}

/// The command that a word names, if any.
pub open spec fn kind_of_name(s: Seq<char>) -> Option<CommandKind> {
    if s == "create"@ {
        Some(CommandKind::Create)
    } else if s == "start"@ {
        Some(CommandKind::Start)
    } else if s == "state"@ {
        Some(CommandKind::State)
    } else if s == "kill"@ {
        Some(CommandKind::Kill)
    } else if s == "delete"@ {
        Some(CommandKind::Delete)
    } else if s == "pause"@ {
        Some(CommandKind::Pause)
    } else if s == "resume"@ {
        Some(CommandKind::Resume)
    } else {
        None
    }
}

/// How many words, program name included, a command line needs for the command.
pub open spec fn required_words(k: CommandKind) -> nat {
    match k {
        CommandKind::Create => 4,
        CommandKind::Kill => 4,
        _ => 3,
    }
}

/// What is said when a command lacks arguments.
pub open spec fn usage_text(k: CommandKind) -> Seq<char> {
    match k {
        CommandKind::Create => "create requires <id> <bundle>"@,
        CommandKind::Start => "start requires <id>"@,
        CommandKind::State => "state requires <id>"@,
        CommandKind::Kill => "kill requires <id> <signal>"@,
        CommandKind::Delete => "delete requires <id>"@,
        CommandKind::Pause => "pause requires <id>"@,
        CommandKind::Resume => "resume requires <id>"@,
    }
}

impl CommandKind {
    pub fn from_name(s: &str) -> (r: Option<CommandKind>)
        ensures
            r == kind_of_name(s@),
    {
        if str_eq(s, "create") {
            Some(CommandKind::Create)
        } else if str_eq(s, "start") {
            Some(CommandKind::Start)
        } else if str_eq(s, "state") {
            Some(CommandKind::State)
        } else if str_eq(s, "kill") {
            Some(CommandKind::Kill)
        } else if str_eq(s, "delete") {
            Some(CommandKind::Delete)
        } else if str_eq(s, "pause") {
            Some(CommandKind::Pause)
        } else if str_eq(s, "resume") {
            Some(CommandKind::Resume)
        } else {
            None
        }
    }

    pub fn required_words(&self) -> (r: usize)
        ensures
            r == required_words(*self),
    {
        match self {
            CommandKind::Create => 4,
            CommandKind::Kill => 4,
            _ => 3,
        }
    }

    pub fn usage(&self) -> (r: &'static str)
        ensures
            r@ == usage_text(*self),
    {
        match self {
            CommandKind::Create => "create requires <id> <bundle>",
            CommandKind::Start => "start requires <id>",
            CommandKind::State => "state requires <id>",
            CommandKind::Kill => "kill requires <id> <signal>",
            CommandKind::Delete => "delete requires <id>",
            CommandKind::Pause => "pause requires <id>",
            CommandKind::Resume => "resume requires <id>",
        }
    }
}

/// Why a command line was refused.
#[derive(Debug)]
pub enum CliError {
    NoCommand,
    MissingArguments(CommandKind),
    UnknownCommand(String),
}

/// The mathematical model of a refusal.
pub enum CliErrorView {
    NoCommand,
    MissingArguments(CommandKind),
    UnknownCommand(Seq<char>),
}

impl View for CliError {
    type V = CliErrorView;

    open spec fn view(&self) -> CliErrorView {
        match self {
            CliError::NoCommand => CliErrorView::NoCommand,
            CliError::MissingArguments(k) => CliErrorView::MissingArguments(*k),
            CliError::UnknownCommand(s) => CliErrorView::UnknownCommand(s@),
        }
    }
}

/// The text that reports a refusal.
pub open spec fn cli_error_text(e: CliErrorView) -> Seq<char> {
    match e {
        CliErrorView::NoCommand => "no command specified"@,
        CliErrorView::MissingArguments(k) => usage_text(k),
        CliErrorView::UnknownCommand(w) => "unknown command: "@ + w + "\n\n"@ + HELP@,
    }
}

impl CliError {
    pub fn message(&self) -> (r: String)
        ensures
            r@ == cli_error_text(self@),
    {
        match self {
            CliError::NoCommand => String::from_str("no command specified"),
            CliError::MissingArguments(k) => String::from_str(k.usage()),
            CliError::UnknownCommand(w) => {
                let mut r = String::from_str("unknown command: ");
                r.append(w.as_str());
                r.append("\n\n");
                r.append(HELP);
                r
            },
        }
    }
}

/// An ASCII decimal digit.
pub open spec fn is_digit(c: char) -> bool {
    '0' <= c && c <= '9'
}

/// The number that a digit stands for.
pub open spec fn digit_value(c: char) -> int {
    (c as int) - ('0' as int)
}

/// The number that a string of digits stands for, most significant first.
pub open spec fn decimal_value(s: Seq<char>) -> int
    decreases s.len(),
{
    if s.len() == 0 {
        0
    } else {
        decimal_value(s.drop_last()) * 10 + digit_value(s.last())
    }
}

/// Every character of `s` is a digit.
pub open spec fn all_digits(s: Seq<char>) -> bool {
    forall|i: int| 0 <= i < s.len() ==> is_digit(#[trigger] s[i])
}

/// The unsigned 32-bit number that `s` writes in decimal: an optional `+`,
/// then one or more digits, with a value that fits.
pub open spec fn spec_parse_u32(s: Seq<char>) -> Option<u32> {
    let digits = if s.len() > 0 && s[0] == '+' {
        s.skip(1)
    } else {
        s
    };
    if digits.len() > 0 && all_digits(digits) && decimal_value(digits) <= u32::MAX {
        Some(decimal_value(digits) as u32)
    } else {
        None
    }
}

proof fn lemma_decimal_value_nonneg(s: Seq<char>)
    requires
        all_digits(s),
    ensures
        decimal_value(s) >= 0,
    decreases s.len(),
{
    if s.len() > 0 {
        assert(is_digit(s[s.len() - 1]));
        lemma_decimal_value_nonneg(s.drop_last());
    }
}

/// Reads an unsigned 32-bit number written in decimal.
pub fn parse_u32(s: &str) -> (r: Option<u32>)
    ensures
        r == spec_parse_u32(s@),
{
    let n = s.unicode_len();
    let start: usize = if n > 0 && s.get_char(0) == '+' {
        1
    } else {
        0
    };
    let ghost digits = if s@.len() > 0 && s@[0] == '+' {
        s@.skip(1)
    } else {
        s@
    };
    assert(digits =~= s@.subrange(start as int, n as int));
    if start >= n {
        return None;
    }
    let mut acc: u64 = 0;
    let mut over = false;
    let mut i: usize = start;
    while i < n
        invariant
            n == s@.len(),
            start <= i <= n,
            digits =~= s@.subrange(start as int, n as int),
            digits == (if s@.len() > 0 && s@[0] == '+' {
                s@.skip(1)
            } else {
                s@
            }),
            all_digits(s@.subrange(start as int, i as int)),
            over ==> decimal_value(s@.subrange(start as int, i as int)) > u32::MAX,
            !over ==> acc == decimal_value(s@.subrange(start as int, i as int)) && acc <= u32::MAX,
        decreases n - i,
    {
        let c = s.get_char(i);
        if !('0' <= c && c <= '9') {
            proof {
                assert(digits[i - start] == c);
                assert(!is_digit(digits[i - start]));
                assert(!all_digits(digits));
            }
            return None;
        }
        let ghost prefix = s@.subrange(start as int, i as int);
        let ghost next_prefix = s@.subrange(start as int, i + 1);
        proof {
            assert(next_prefix.drop_last() =~= prefix);
            assert(next_prefix.last() == c);
            assert(all_digits(next_prefix));
            lemma_decimal_value_nonneg(prefix);
        }
        let d: u64 = ((c as u32) - ('0' as u32)) as u64;
        if !over {
            let next = acc * 10 + d;
            if next > 0xffff_ffffu64 {
                over = true;
            } else {
                acc = next;
            }
        } else {
            proof {
                assert(decimal_value(next_prefix) == decimal_value(prefix) * 10 + digit_value(c));
                assert(decimal_value(prefix) * 10 >= decimal_value(prefix)) by (nonlinear_arith)
                    requires
                        decimal_value(prefix) >= 0,
                ;
            }
        }
        i += 1;
    }
    assert(s@.subrange(start as int, n as int) =~= digits);
    if over {
        None
    } else {
        Some(acc as u32)
    }
}

/// The command that a command line asks for, or why it is refused.
pub open spec fn spec_parse_args(args: Seq<Seq<char>>) -> Result<CommandView, CliErrorView> {
    if args.len() < 2 {
        Err(CliErrorView::NoCommand)
    } else {
        match kind_of_name(args[1]) {
            None => Err(CliErrorView::UnknownCommand(args[1])),
            Some(k) => if args.len() < required_words(k) {
                Err(CliErrorView::MissingArguments(k))
            } else {
                Ok(
                    match k {
                        CommandKind::Create => CommandView::Create { id: args[2], bundle: args[3] },
                        CommandKind::Start => CommandView::Start { id: args[2] },
                        CommandKind::State => CommandView::State { id: args[2] },
                        CommandKind::Kill => CommandView::Kill {
                            id: args[2],
                            signal: match spec_parse_u32(args[3]) {
                                Some(v) => v,
                                None => DEFAULT_SIGNAL,
                            },
                        },
                        CommandKind::Delete => CommandView::Delete { id: args[2] },
                        CommandKind::Pause => CommandView::Pause { id: args[2] },
                        CommandKind::Resume => CommandView::Resume { id: args[2] },
                    },
                )
            },
        }
    }
}

/// The model of a parse result.
pub open spec fn parse_result_view(r: Result<Command, CliError>) -> Result<CommandView, CliErrorView> {
    match r {
        Ok(c) => Ok(c@),
        Err(e) => Err(e@),
    }
}

/// Reads a command from the command line `args`, whose first word is the program.
pub fn parse_args(args: &Vec<String>) -> (r: Result<Command, CliError>)
    ensures
        parse_result_view(r) == spec_parse_args(args.deep_view()),
{
    let ghost a = args.deep_view();
    if args.len() < 2 {
        return Err(CliError::NoCommand);
    }
    assert(a[1] == args[1]@);
    let kind = match CommandKind::from_name(args[1].as_str()) {
        None => return Err(CliError::UnknownCommand(args[1].clone())),
        Some(k) => k,
    };
    if args.len() < kind.required_words() {
        return Err(CliError::MissingArguments(kind));
    }
    assert(a[2] == args[2]@);
    let id = args[2].clone();
    match kind {
        CommandKind::Create => {
            assert(a[3] == args[3]@);
            Ok(Command::Create { id, bundle: args[3].clone() })
        },
        CommandKind::Start => Ok(Command::Start { id }),
        CommandKind::State => Ok(Command::State { id }),
        CommandKind::Kill => {
            assert(a[3] == args[3]@);
            let signal = match parse_u32(args[3].as_str()) {
                Some(v) => v,
                None => DEFAULT_SIGNAL,
            };
            Ok(Command::Kill { id, signal })
        },
        CommandKind::Delete => Ok(Command::Delete { id }),
        CommandKind::Pause => Ok(Command::Pause { id }),
        CommandKind::Resume => Ok(Command::Resume { id }),
    }
}

/// What the runtime is asked to do by its whole command line.
#[derive(Debug)]
pub enum Invocation {
    ShowVersion,
    ShowHelp,
    Run(Command),
}

/// The mathematical model of an invocation.
pub enum InvocationView {
    ShowVersion,
    ShowHelp,
    Run(CommandView),
}

impl View for Invocation {
    type V = InvocationView;

    open spec fn view(&self) -> InvocationView {
        match self {
            Invocation::ShowVersion => InvocationView::ShowVersion,
            Invocation::ShowHelp => InvocationView::ShowHelp,
            Invocation::Run(c) => InvocationView::Run(c@),
        }
    }
}

/// Some word of the command line is one of the two given flags.
pub open spec fn has_flag(args: Seq<Seq<char>>, long: Seq<char>, short: Seq<char>) -> bool {
    exists|i: int| 0 <= i < args.len() && (args[i] == long || args[i] == short)
}

/// What a whole command line asks for: the version and help flags win over
/// any command, wherever they stand.
pub open spec fn spec_interpret(args: Seq<Seq<char>>) -> Result<InvocationView, CliErrorView> {
    if has_flag(args, "--version"@, "-v"@) {
        Ok(InvocationView::ShowVersion)
    } else if has_flag(args, "--help"@, "-h"@) {
        Ok(InvocationView::ShowHelp)
    } else {
        match spec_parse_args(args) {
            Ok(c) => Ok(InvocationView::Run(c)),
            Err(e) => Err(e),
        }
    }
}

/// The model of an interpretation result.
pub open spec fn invocation_result_view(r: Result<Invocation, CliError>) -> Result<
    InvocationView,
    CliErrorView,
> {
    match r {
        Ok(i) => Ok(i@),
        Err(e) => Err(e@),
    }
}

/// Whether some word of `args` is `long` or `short`.
pub fn has_flag_arg(args: &Vec<String>, long: &str, short: &str) -> (r: bool)
    ensures
        r == has_flag(args.deep_view(), long@, short@),
{
    let ghost a = args.deep_view();
    let mut i: usize = 0;
    while i < args.len()
        invariant
            i <= args.len(),
            a == args.deep_view(),
            forall|j: int| 0 <= j < i ==> !(a[j] == long@ || a[j] == short@),
        decreases args.len() - i,
    {
        assert(a[i as int] == args[i as int]@);
        if str_eq(args[i].as_str(), long) || str_eq(args[i].as_str(), short) {
            return true;
        }
        i += 1;
    }
    false
}

/// Reads what the whole command line `args` asks for.
pub fn interpret_args(args: &Vec<String>) -> (r: Result<Invocation, CliError>)
    ensures
        invocation_result_view(r) == spec_interpret(args.deep_view()),
{
    if has_flag_arg(args, "--version", "-v") {
        return Ok(Invocation::ShowVersion);
    }
    if has_flag_arg(args, "--help", "-h") {
        return Ok(Invocation::ShowHelp);
    }
    match parse_args(args) {
        Ok(c) => Ok(Invocation::Run(c)),
        Err(e) => Err(e),
    }
}

/// The words after the program name of a command line that asks for `c`;
/// `signal_word` is the word given for `kill`'s signal.
pub open spec fn command_words(c: CommandView, signal_word: Seq<char>) -> Seq<Seq<char>> {
    match c {
        CommandView::Create { id, bundle } => seq!["create"@, id, bundle],
        CommandView::Start { id } => seq!["start"@, id],
        CommandView::State { id } => seq!["state"@, id],
        CommandView::Kill { id, .. } => seq!["kill"@, id, signal_word],
        CommandView::Delete { id } => seq!["delete"@, id],
        CommandView::Pause { id } => seq!["pause"@, id],
        CommandView::Resume { id } => seq!["resume"@, id],
    }
}

/// A command line made of a command's name and its arguments reads back as
/// that command, whatever the program is called.
pub proof fn lemma_command_line_round_trip(
    program: Seq<char>,
    c: CommandView,
    signal_word: Seq<char>,
)
    requires
        c is Kill ==> spec_parse_u32(signal_word) == Some(c->Kill_signal),
    ensures
        spec_parse_args(seq![program] + command_words(c, signal_word)) == Ok::<
            CommandView,
            CliErrorView,
        >(c),
{
    reveal_strlit("create");
    reveal_strlit("start");
    reveal_strlit("state");
    reveal_strlit("kill");
    reveal_strlit("delete");
    reveal_strlit("pause");
    reveal_strlit("resume");
    assert("create"@[0] == 'c' && "start"@[0] == 's' && "state"@[0] == 's' && "kill"@[0] == 'k'
        && "delete"@[0] == 'd' && "pause"@[0] == 'p' && "resume"@[0] == 'r');
    assert("start"@[3] == 'r' && "state"@[3] == 't');
    let args = seq![program] + command_words(c, signal_word);
    assert(args[1] == command_words(c, signal_word)[0]);
    assert(args.len() == 1 + command_words(c, signal_word).len());
    if command_words(c, signal_word).len() > 1 {
        assert(args[2] == command_words(c, signal_word)[1]);
    }
    if command_words(c, signal_word).len() > 2 {
        assert(args[3] == command_words(c, signal_word)[2]);
    }
}

/// How a command line is refused: with no word after the program, as having
/// no command; with a first word that names no command, as unknown, naming
/// that word; with a command that lacks words (`create` and `kill` need two
/// after it, the others one), as missing its arguments. Every other command
/// line is read, with the word after the command as the container; a `kill`
/// whose signal is not a number sends the default signal.
pub proof fn lemma_command_line_refusals(args: Seq<Seq<char>>)
    ensures
        (spec_parse_args(args) == Err::<CommandView, CliErrorView>(CliErrorView::NoCommand)) <==> args.len() < 2,
        args.len() >= 2 && kind_of_name(args[1]) is None ==> spec_parse_args(args) == Err::<
            CommandView,
            CliErrorView,
        >(CliErrorView::UnknownCommand(args[1])),
        args.len() == 2 && kind_of_name(args[1]) is Some ==> spec_parse_args(args) == Err::<
            CommandView,
            CliErrorView,
        >(CliErrorView::MissingArguments(kind_of_name(args[1])->Some_0)),
        args.len() == 3 && args[1] == "create"@ ==> spec_parse_args(args) == Err::<
            CommandView,
            CliErrorView,
        >(CliErrorView::MissingArguments(CommandKind::Create)),
        args.len() == 3 && args[1] == "kill"@ ==> spec_parse_args(args) == Err::<
            CommandView,
            CliErrorView,
        >(CliErrorView::MissingArguments(CommandKind::Kill)),
        spec_parse_args(args) is Ok <==> (args.len() >= 2 && kind_of_name(args[1]) is Some && (
        args.len() >= 4 || (args.len() == 3 && args[1] != "create"@ && args[1] != "kill"@))),
        spec_parse_args(args) matches Ok(c) ==> command_id(c) == args[2],
        args.len() >= 4 && args[1] == "kill"@ && spec_parse_u32(args[3]) is None
            ==> spec_parse_args(args) == Ok::<CommandView, CliErrorView>(
            CommandView::Kill { id: args[2], signal: 15 },
        ),
{
    reveal_strlit("create");
    reveal_strlit("start");
    reveal_strlit("state");
    reveal_strlit("kill");
    reveal_strlit("delete");
    reveal_strlit("pause");
    reveal_strlit("resume");
    assert("create"@[0] == 'c' && "start"@[0] == 's' && "state"@[0] == 's' && "kill"@[0] == 'k'
        && "delete"@[0] == 'd' && "pause"@[0] == 'p' && "resume"@[0] == 'r');
    assert("start"@[3] == 'r' && "state"@[3] == 't');
}

/// A version flag anywhere on the command line asks for the version; a help
/// flag anywhere, with no version flag, asks for help; with neither, the
/// command line is read as a command.
pub proof fn lemma_flags_win(args: Seq<Seq<char>>, i: int)
    requires
        0 <= i < args.len(),
    ensures
        args[i] == "--version"@ || args[i] == "-v"@ ==> spec_interpret(args) == Ok::<
            InvocationView,
            CliErrorView,
        >(InvocationView::ShowVersion),
        (args[i] == "--help"@ || args[i] == "-h"@) && (forall|j: int|
            0 <= j < args.len() ==> #[trigger] args[j] != "--version"@ && args[j] != "-v"@)
            ==> spec_interpret(args) == Ok::<InvocationView, CliErrorView>(
            InvocationView::ShowHelp,
        ),
        (forall|j: int|
            0 <= j < args.len() ==> #[trigger] args[j] != "--version"@ && args[j] != "-v"@
                && args[j] != "--help"@ && args[j] != "-h"@) ==> spec_interpret(args) == match spec_parse_args(args) {
            Ok(c) => Ok(InvocationView::Run(c)),
            Err(e) => Err(e),
        },
{
}

} // verus!
