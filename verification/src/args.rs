//! The waiter's command line: from the list of arguments to a plan of what to wait for.

use crate::directive::DirectiveModel;
use crate::directive::WaitDirective;
use crate::number::parse_unsigned;
use crate::number::parsed_unsigned;
use crate::text::chars_of;
use crate::text::same_text;
use vstd::prelude::*;
use vstd::string::*;

verus! {

/// How long to sleep between two attempts.
#[derive(Debug, Clone, Copy, PartialEq, Eq, Structural)]
pub struct RetryPolicy {
    /// The pause in seconds.
    pub seconds: u64,
}

impl Default for RetryPolicy {
    /// One second between attempts.
    fn default() -> (r: RetryPolicy)
        ensures
            r == standard_retry(),
    {
        RetryPolicy { seconds: 1 }
    }
}

/// The retry policy in force where the command line names none: one second.
pub open spec fn standard_retry() -> RetryPolicy {
    RetryPolicy { seconds: 1 }
}

/// An option of the waiter that takes a value.
#[derive(Debug, Clone, Copy, PartialEq, Eq, Structural)]
pub enum Flag {
    File,
    Interface,
    Routing,
    Tcp,
    Command,
    Sleep,
}

/// Why a command line was refused.
#[derive(Debug, Clone, PartialEq, Eq)]
pub enum UsageError {
    /// The option stands last, without its value.
    MissingValue(Flag),
    /// The value of the sleep option is no number of seconds.
    InvalidSleep(String),
    /// The value of the TCP option has no colon, so no port.
    MissingPort(String),
    /// The port of the TCP option is no number up to 65535.
    InvalidPort(String),
    /// The argument is no option of the waiter.
    UnknownOption(String),
}

/// A usage error as a mathematical value.
pub enum UsageErrorModel {
    MissingValue(Flag),
    InvalidSleep(Seq<char>),
    MissingPort(Seq<char>),
    InvalidPort(Seq<char>),
    UnknownOption(Seq<char>),
}

impl View for UsageError {
    type V = UsageErrorModel;

    open spec fn view(&self) -> UsageErrorModel {
        match self {
            UsageError::MissingValue(flag) => UsageErrorModel::MissingValue(*flag),
            UsageError::InvalidSleep(text) => UsageErrorModel::InvalidSleep(text@),
            UsageError::MissingPort(text) => UsageErrorModel::MissingPort(text@),
            UsageError::InvalidPort(text) => UsageErrorModel::InvalidPort(text@),
            UsageError::UnknownOption(text) => UsageErrorModel::UnknownOption(text@),
        }
    }
}

/// One directive together with the retry policy that was in force where it was declared.
#[derive(Debug, Clone, PartialEq, Eq)]
pub struct WaitStep {
    pub directive: WaitDirective,
    pub retry: RetryPolicy,
}

/// A step as a mathematical value.
pub struct StepModel {
    pub directive: DirectiveModel,
    pub retry: RetryPolicy,
}

impl View for WaitStep {
    type V = StepModel;

    open spec fn view(&self) -> StepModel {
        StepModel { directive: self.directive@, retry: self.retry }
    }
}

impl DeepView for WaitStep {
    type V = StepModel;

    open spec fn deep_view(&self) -> StepModel {
        self@
    }
}

/// The command to hand over to once the work is done: a program and its arguments.
#[derive(Debug, Clone, PartialEq, Eq)]
pub struct TrailingCommand {
    pub program: String,
    pub arguments: Vec<String>,
}

/// A trailing command as a mathematical value.
pub struct CommandModel {
    pub program: Seq<char>,
    pub arguments: Seq<Seq<char>>,
}

impl View for TrailingCommand {
    type V = CommandModel;

    open spec fn view(&self) -> CommandModel {
        CommandModel { program: self.program@, arguments: self.arguments.deep_view() }
    }
}

/// What a command line asks for: the steps in the order given, and the trailing command.
#[derive(Debug, Clone, PartialEq, Eq)]
pub struct WaitPlan {
    pub steps: Vec<WaitStep>,
    pub trailing: Option<TrailingCommand>,
}

/// A plan as a mathematical value.
pub struct PlanModel {
    pub steps: Seq<StepModel>,
    pub trailing: Option<CommandModel>,
}

impl View for WaitPlan {
    type V = PlanModel;

    open spec fn view(&self) -> PlanModel {
        PlanModel {
            steps: self.steps.deep_view(),
            trailing: match self.trailing {
                Some(command) => Some(command@),
                None => None,
            },
        }
    }
}

/// The help text of the waiter.
pub const USAGE: &'static str = "Usage: wait [OPTIONS] [-- COMMAND]

Options:
  -f, --file FILE          Wait until the specified file exists
  -i, --if, --intf IFACE   Wait until the specified network interface exists
  -I, --ip IFACE           Wait until the specified interface has IP/routing
  -t, --tcp HOST:PORT      Wait until the specified TCP host:port is reachable
  -c, --cmd COMMAND        Wait until the specified command succeeds
  -s, --sleep SECONDS      Set the sleep duration between retries (default: 1)
  --                       Separate wait options from the command to run";

/// What is reported where the option `flag` stands without its value.
pub open spec fn missing_value_text(flag: Flag) -> Seq<char> {
    match flag {
        Flag::File => "--file requires a file path argument"@,
        Flag::Interface => "--if requires an interface name argument"@,
        Flag::Routing => "--ip requires an interface name argument"@,
        Flag::Tcp => "--tcp requires a host:port argument"@,
        Flag::Command => "--cmd requires a command string argument"@,
        Flag::Sleep => "--sleep requires a duration in seconds"@,
    }
}

/// The report of a usage error. An unknown option is answered with the help text.
pub open spec fn usage_error_text(error: UsageErrorModel) -> Seq<char> {
    match error {
        UsageErrorModel::MissingValue(flag) => missing_value_text(flag),
        UsageErrorModel::InvalidSleep(_) => "Invalid sleep duration"@,
        UsageErrorModel::MissingPort(_) => "--tcp requires a host:port argument"@,
        UsageErrorModel::InvalidPort(_) => "Invalid port number"@,
        UsageErrorModel::UnknownOption(argument) => "Unknown option: "@ + argument + "\n"@
            + USAGE@,
    }
}

impl UsageError {
    /// The report of this error.
    pub fn message(&self) -> (r: String)
        ensures
            r@ == usage_error_text(self@),
    {
        match self {
            UsageError::MissingValue(flag) => String::from_str(
                match flag {
                    Flag::File => "--file requires a file path argument",
                    Flag::Interface => "--if requires an interface name argument",
                    Flag::Routing => "--ip requires an interface name argument",
                    Flag::Tcp => "--tcp requires a host:port argument",
                    Flag::Command => "--cmd requires a command string argument",
                    Flag::Sleep => "--sleep requires a duration in seconds",
                },
            ),
            UsageError::InvalidSleep(_) => String::from_str("Invalid sleep duration"),
            UsageError::MissingPort(_) => String::from_str("--tcp requires a host:port argument"),
            UsageError::InvalidPort(_) => String::from_str("Invalid port number"),
            UsageError::UnknownOption(argument) => {
                let mut r = String::from_str("Unknown option: ");
                r.append(argument.as_str());
                r.append("\n");
                r.append(USAGE);
                r
            },
        }
    }
}

/// The option that `argument` spells, if any.
pub open spec fn flag_of(argument: Seq<char>) -> Option<Flag> {
    if argument == "-f"@ || argument == "--file"@ {
        Some(Flag::File)
    } else if argument == "-i"@ || argument == "--if"@ || argument == "--intf"@ {
        Some(Flag::Interface)
    } else if argument == "-I"@ || argument == "--ip"@ {
        Some(Flag::Routing)
    } else if argument == "-t"@ || argument == "--tcp"@ {
        Some(Flag::Tcp)
    } else if argument == "-c"@ || argument == "--cmd"@ {
        Some(Flag::Command)
    } else if argument == "-s"@ || argument == "--sleep"@ {
        Some(Flag::Sleep)
    } else {
        None
    }
}

/// The option that `argument` spells, if any.
pub fn flag_for(argument: &str) -> (r: Option<Flag>)
    ensures
        r == flag_of(argument@),
{
    if same_text(argument, "-f") || same_text(argument, "--file") {
        Some(Flag::File)
    } else if same_text(argument, "-i") || same_text(argument, "--if") || same_text(
        argument,
        "--intf",
    ) {
        Some(Flag::Interface)
    } else if same_text(argument, "-I") || same_text(argument, "--ip") {
        Some(Flag::Routing)
    } else if same_text(argument, "-t") || same_text(argument, "--tcp") {
        Some(Flag::Tcp)
    } else if same_text(argument, "-c") || same_text(argument, "--cmd") {
        Some(Flag::Command)
    } else if same_text(argument, "-s") || same_text(argument, "--sleep") {
        Some(Flag::Sleep)
    } else {
        None
    }
}

/// The position of the first colon of `s` at or behind `from`; the length of `s` where
/// there is none.
pub open spec fn colon_from(s: Seq<char>, from: int) -> int
    decreases s.len() - from,
{
    if from < 0 || from >= s.len() {
        s.len() as int
    } else if s[from] == ':' {
        from
    } else {
        colon_from(s, from + 1)
    }
}

/// The largest port number.
pub open spec fn max_port() -> nat {
    65535
}

/// The TCP directive that `value` spells. The host is what stands before the first colon;
/// the port is what stands between that colon and the next one, or the end; what follows a
/// second colon is not read.
pub open spec fn endpoint_of(value: Seq<char>) -> Result<DirectiveModel, UsageErrorModel> {
    let host_end = colon_from(value, 0);
    if host_end >= value.len() {
        Err(UsageErrorModel::MissingPort(value))
    } else {
        let port_end = colon_from(value, host_end + 1);
        match parsed_unsigned(value.subrange(host_end + 1, port_end), max_port()) {
            Some(port) => Ok(DirectiveModel::TcpReachable(value.take(host_end), port as u16)),
            None => Err(UsageErrorModel::InvalidPort(value)),
        }
    }
}

/// Finds the first colon of `text` at or behind `from`.
fn find_colon(text: &Vec<char>, from: usize) -> (r: usize)
    requires
        from <= text.len(),
    ensures
        r == colon_from(text@, from as int),
        from <= r <= text.len(),
{
    let mut i: usize = from;
    while i < text.len() && text[i] != ':'
        invariant
            from <= i <= text.len(),
            colon_from(text@, i as int) == colon_from(text@, from as int),
        decreases text.len() - i,
    {
        i += 1;
    }
    i
}

/// Reads the value of the TCP option.
pub fn parse_endpoint(value: &str) -> (r: Result<WaitDirective, UsageError>)
    ensures
        match r {
            Ok(directive) => endpoint_of(value@) == Ok::<DirectiveModel, UsageErrorModel>(
                directive@,
            ),
            Err(error) => endpoint_of(value@) == Err::<DirectiveModel, UsageErrorModel>(error@),
        },
{
    let chars = chars_of(value);
    let host_end = find_colon(&chars, 0);
    if host_end >= chars.len() {
        return Err(UsageError::MissingPort(String::from_str(value)));
    }
    let port_end = find_colon(&chars, host_end + 1);
    let port_text = value.substring_char(host_end + 1, port_end);
    match parse_unsigned(port_text, 65535) {
        Some(port) => {
            let host = value.substring_char(0, host_end);
            Ok(WaitDirective::TcpReachable(String::from_str(host), port as u16))
        },
        None => Err(UsageError::InvalidPort(String::from_str(value))),
    }
}

/// The directive that the option `flag` declares with `value`. The sleep option declares
/// none and is not meant here.
pub open spec fn directive_of(flag: Flag, value: Seq<char>) -> Result<
    DirectiveModel,
    UsageErrorModel,
> {
    match flag {
        Flag::File => Ok(DirectiveModel::FileExists(value)),
        Flag::Interface => Ok(DirectiveModel::InterfaceExists(value)),
        Flag::Routing => Ok(DirectiveModel::InterfaceRouted(value)),
        Flag::Tcp => endpoint_of(value),
        Flag::Command => Ok(DirectiveModel::CommandSucceeds(value)),
        Flag::Sleep => Err(UsageErrorModel::InvalidSleep(value)),
    }
}

/// The trailing command that `words` spell: none where there are no words.
pub open spec fn command_of(words: Seq<Seq<char>>) -> Option<CommandModel> {
    if words.len() == 0 {
        None
    } else {
        Some(CommandModel { program: words[0], arguments: words.skip(1) })
    }
}

/// What the arguments from position `at` on ask for, where `steps` were declared before
/// that position and `retry` is in force there.
///
/// The arguments are read from left to right. `--` ends the options: what follows is the
/// trailing command. Every option takes the next argument as its value, whatever it is.
/// The sleep option sets the retry policy for the directives declared behind it; every
/// other option declares one directive, which keeps the policy in force at that point.
/// The first argument that cannot be read refuses the whole command line.
pub open spec fn parsed_from(
    arguments: Seq<Seq<char>>,
    at: int,
    retry: RetryPolicy,
    steps: Seq<StepModel>,
) -> Result<PlanModel, UsageErrorModel>
    decreases arguments.len() - at,
{
    if at < 0 || at >= arguments.len() {
        Ok(PlanModel { steps, trailing: None })
    } else if arguments[at] == "--"@ {
        Ok(PlanModel { steps, trailing: command_of(arguments.skip(at + 1)) })
    } else {
        match flag_of(arguments[at]) {
            None => Err(UsageErrorModel::UnknownOption(arguments[at])),
            Some(flag) => if at + 1 >= arguments.len() {
                Err(UsageErrorModel::MissingValue(flag))
            } else if flag == Flag::Sleep {
                match parsed_unsigned(arguments[at + 1], u64::MAX as nat) {
                    Some(seconds) => parsed_from(
                        arguments,
                        at + 2,
                        RetryPolicy { seconds: seconds as u64 },
                        steps,
                    ),
                    None => Err(UsageErrorModel::InvalidSleep(arguments[at + 1])),
                }
            } else {
                match directive_of(flag, arguments[at + 1]) {
                    Ok(directive) => parsed_from(
                        arguments,
                        at + 2,
                        retry,
                        steps.push(StepModel { directive, retry }),
                    ),
                    Err(error) => Err(error),
                }
            },
        }
    }
}

/// What the command line `arguments` asks for.
pub open spec fn parsed(arguments: Seq<Seq<char>>) -> Result<PlanModel, UsageErrorModel> {
    parsed_from(arguments, 0, standard_retry(), Seq::empty())
}

/// The directive that the option `flag` declares with `value`.
fn directive_for(flag: Flag, value: &str) -> (r: Result<WaitDirective, UsageError>)
    ensures
        match r {
            Ok(directive) => directive_of(flag, value@) == Ok::<DirectiveModel, UsageErrorModel>(
                directive@,
            ),
            Err(error) => directive_of(flag, value@) == Err::<DirectiveModel, UsageErrorModel>(
                error@,
            ),
        },
{
    match flag {
        Flag::File => Ok(WaitDirective::FileExists(String::from_str(value))),
        Flag::Interface => Ok(WaitDirective::InterfaceExists(String::from_str(value))),
        Flag::Routing => Ok(WaitDirective::InterfaceRouted(String::from_str(value))),
        Flag::Tcp => parse_endpoint(value),
        Flag::Command => Ok(WaitDirective::CommandSucceeds(String::from_str(value))),
        Flag::Sleep => Err(UsageError::InvalidSleep(String::from_str(value))),
    }
}

/// The trailing command spelled by the words of `arguments` from position `from` on.
fn command_for(arguments: &Vec<String>, from: usize) -> (r: Option<TrailingCommand>)
    requires
        from <= arguments.len(),
    ensures
        match r {
            Some(command) => command_of(arguments.deep_view().skip(from as int)) == Some(
                command@,
            ),
            None => command_of(arguments.deep_view().skip(from as int)) is None,
        },
{
    if from >= arguments.len() {
        return None;
    }
    let ghost words = arguments.deep_view().skip(from as int);
    let program = arguments[from].clone();
    let mut rest: Vec<String> = Vec::new();
    let mut i: usize = from + 1;
    while i < arguments.len()
        invariant
            from < i <= arguments.len(),
            rest.deep_view() == arguments.deep_view().subrange(from + 1, i as int),
        decreases arguments.len() - i,
    {
        let ghost before = rest.deep_view();
        rest.push(arguments[i].clone());
        assert(rest.deep_view() =~= before.push(arguments@[i as int]@));
        assert(rest.deep_view() =~= arguments.deep_view().subrange(from + 1, i + 1));
        i += 1;
    }
    assert(rest.deep_view() =~= words.skip(1));
    Some(TrailingCommand { program, arguments: rest })
}

/// Reads the waiter's command line (without the program's own name).
///
/// Nothing is attempted while reading: the result is either the whole plan or the first
/// error, so a command line with an error in it leads to no waiting at all.
pub fn parse_arguments(arguments: &Vec<String>) -> (r: Result<WaitPlan, UsageError>)
    ensures
        match r {
            Ok(plan) => parsed(arguments.deep_view()) == Ok::<PlanModel, UsageErrorModel>(plan@),
            Err(error) => parsed(arguments.deep_view()) == Err::<PlanModel, UsageErrorModel>(
                error@,
            ),
        },
{
    let ghost words = arguments.deep_view();
    let mut steps: Vec<WaitStep> = Vec::new();
    let mut retry = RetryPolicy { seconds: 1 };
    let mut at: usize = 0;
    assert(steps.deep_view() =~= Seq::<StepModel>::empty());
    while at < arguments.len()
        invariant
            at <= arguments.len(),
            words == arguments.deep_view(),
            parsed_from(words, at as int, retry, steps.deep_view()) == parsed(words),
        decreases arguments.len() - at,
    {
        let argument = arguments[at].as_str();
        assert(words[at as int] == argument@);
        if same_text(argument, "--") {
            let trailing = command_for(arguments, at + 1);
            return Ok(WaitPlan { steps, trailing });
        }
        let flag = match flag_for(argument) {
            Some(flag) => flag,
            None => {
                return Err(UsageError::UnknownOption(String::from_str(argument)));
            },
        };
        if at + 1 >= arguments.len() {
            return Err(UsageError::MissingValue(flag));
        }
        let value = arguments[at + 1].as_str();
        assert(words[at + 1] == value@);
        match flag {
            Flag::Sleep => {
                match parse_unsigned(value, u64::MAX) {
                    Some(seconds) => {
                        retry = RetryPolicy { seconds };
                    },
                    None => {
                        return Err(UsageError::InvalidSleep(String::from_str(value)));
                    },
                }
            },
            _ => {
                match directive_for(flag, value) {
                    Ok(directive) => {
                        let ghost before = steps.deep_view();
                        steps.push(WaitStep { directive, retry });
                        assert(steps.deep_view() =~= before.push(
                            StepModel { directive: directive@, retry },
                        ));
                    },
                    Err(error) => {
                        return Err(error);
                    },
                }
            },
        }
        at += 2;
    }
    Ok(WaitPlan { steps, trailing: None })
}

} // verus!
