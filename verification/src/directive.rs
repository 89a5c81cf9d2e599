//! Wait directives: what each one asks the caller to check, how an observation is judged,
//! and what is said while waiting and afterwards.

use crate::number::decimal_digits;
use crate::number::decimal_text;
use crate::route::interface_routed;
use crate::route::routes_interface;
use vstd::prelude::*;
use vstd::string::*;

verus! {

/// One condition to wait for.
#[derive(Debug, Clone, PartialEq, Eq)]
pub enum WaitDirective {
    /// The path exists in the file system.
    FileExists(String),
    /// The network interface of this name exists.
    InterfaceExists(String),
    /// The routing table has an entry for the interface of this name.
    InterfaceRouted(String),
    /// A TCP connection to this host and port can be opened.
    TcpReachable(String, u16),
    /// This shell command exits with status zero.
    CommandSucceeds(String),
}

/// A wait directive as a mathematical value.
pub enum DirectiveModel {
    FileExists(Seq<char>),
    InterfaceExists(Seq<char>),
    InterfaceRouted(Seq<char>),
    TcpReachable(Seq<char>, u16),
    CommandSucceeds(Seq<char>),
}

impl View for WaitDirective {
    type V = DirectiveModel;

    open spec fn view(&self) -> DirectiveModel {
        match self {
            WaitDirective::FileExists(path) => DirectiveModel::FileExists(path@),
            WaitDirective::InterfaceExists(name) => DirectiveModel::InterfaceExists(name@),
            WaitDirective::InterfaceRouted(name) => DirectiveModel::InterfaceRouted(name@),
            WaitDirective::TcpReachable(host, port) => DirectiveModel::TcpReachable(host@, *port),
            WaitDirective::CommandSucceeds(command) => DirectiveModel::CommandSucceeds(command@),
        }
    }
}

/// What the caller has to try in order to evaluate a directive once.
#[derive(Debug, Clone, PartialEq, Eq)]
pub enum Probe {
    /// Ask the file system for the metadata of this path.
    Stat(String),
    /// Read the file at this path as text.
    ReadText(String),
    /// Open a TCP connection to this host and port.
    Connect(String, u16),
    /// Run this program with these arguments and wait for it to end.
    Run(String, Vec<String>),
}

/// A probe as a mathematical value.
pub enum ProbeModel {
    Stat(Seq<char>),
    ReadText(Seq<char>),
    Connect(Seq<char>, u16),
    Run(Seq<char>, Seq<Seq<char>>),
}

impl View for Probe {
    type V = ProbeModel;

    open spec fn view(&self) -> ProbeModel {
        match self {
            Probe::Stat(path) => ProbeModel::Stat(path@),
            Probe::ReadText(path) => ProbeModel::ReadText(path@),
            Probe::Connect(host, port) => ProbeModel::Connect(host@, *port),
            Probe::Run(program, arguments) => ProbeModel::Run(program@, arguments.deep_view()),
        }
    }
}

/// What came of a probe.
#[derive(Debug, Clone, PartialEq, Eq)]
pub enum Observation {
    /// The metadata could be read (`true`) or not.
    Stat(bool),
    /// The text that was read, or `None` where the file could not be read.
    Text(Option<String>),
    /// The connection was opened (`true`) or not.
    Connect(bool),
    /// The exit code of the program, or `None` where it could not be started or did not
    /// end by exiting.
    Exit(Option<i32>),
}

/// An observation as a mathematical value.
pub enum ObservationModel {
    Stat(bool),
    Text(Option<Seq<char>>),
    Connect(bool),
    Exit(Option<i32>),
}

impl View for Observation {
    type V = ObservationModel;

    open spec fn view(&self) -> ObservationModel {
        match self {
            Observation::Stat(found) => ObservationModel::Stat(*found),
            Observation::Text(Some(text)) => ObservationModel::Text(Some(text@)),
            Observation::Text(None) => ObservationModel::Text(None),
            Observation::Connect(open) => ObservationModel::Connect(*open),
            Observation::Exit(code) => ObservationModel::Exit(*code),
        }
    }
}

/// The directory in which the kernel lists the network interfaces.
pub open spec fn interface_directory() -> Seq<char> {
    "/sys/class/net/"@
}

/// The file in which the kernel lists its routes.
pub open spec fn route_table_path() -> Seq<char> {
    "/proc/net/route"@
}

/// The probe that evaluates `directive` once.
pub open spec fn probe_of(directive: DirectiveModel) -> ProbeModel {
    match directive {
        DirectiveModel::FileExists(path) => ProbeModel::Stat(path),
        DirectiveModel::InterfaceExists(name) => ProbeModel::Stat(interface_directory() + name),
        DirectiveModel::InterfaceRouted(_) => ProbeModel::ReadText(route_table_path()),
        DirectiveModel::TcpReachable(host, port) => ProbeModel::Connect(host, port),
        DirectiveModel::CommandSucceeds(command) => ProbeModel::Run("sh"@, seq!["-c"@, command]),
    }
}

/// Whether `observation` shows that `directive` holds. An observation of another kind than
/// the directive's probe shows nothing.
pub open spec fn holds(directive: DirectiveModel, observation: ObservationModel) -> bool {
    match directive {
        DirectiveModel::FileExists(_) => observation == ObservationModel::Stat(true),
        DirectiveModel::InterfaceExists(_) => observation == ObservationModel::Stat(true),
        DirectiveModel::InterfaceRouted(name) => observation matches ObservationModel::Text(
            Some(table),
        ) && routes_interface(table, name),
        DirectiveModel::TcpReachable(_, _) => observation == ObservationModel::Connect(true),
        DirectiveModel::CommandSucceeds(_) => observation == ObservationModel::Exit(Some(0i32)),
    }
}

/// What is said when `directive` does not hold yet.
pub open spec fn waiting_text(directive: DirectiveModel) -> Seq<char> {
    match directive {
        DirectiveModel::FileExists(path) => "Waiting for file: "@ + path + "..."@,
        DirectiveModel::InterfaceExists(name) => "Waiting for interface: "@ + name + "..."@,
        DirectiveModel::InterfaceRouted(name) => "Waiting for IP/routing on interface: "@ + name
            + "..."@,
        DirectiveModel::TcpReachable(host, port) => "Waiting for TCP connection at "@ + host + ":"@
            + decimal_digits(port as nat),
        DirectiveModel::CommandSucceeds(command) => "Command '"@ + command
            + "' failed, retrying..."@,
    }
}

/// What is said once `directive` holds.
pub open spec fn success_text(directive: DirectiveModel) -> Seq<char> {
    match directive {
        DirectiveModel::FileExists(path) => "File '"@ + path + "' exists"@,
        DirectiveModel::InterfaceExists(name) => "Interface '"@ + name + "' exists"@,
        DirectiveModel::InterfaceRouted(name) => "Interface '"@ + name + "' has IP/routing"@,
        DirectiveModel::TcpReachable(host, port) => "TCP connection established at "@ + host
            + ":"@ + decimal_digits(port as nat),
        DirectiveModel::CommandSucceeds(command) => "Command '"@ + command
            + "' executed successfully"@,
    }
}

/// `before`, then `middle`, then `after`.
fn framed(before: &str, middle: &str, after: &str) -> (r: String)
    ensures
        r@ == before@ + middle@ + after@,
{
    let mut r = String::from_str(before);
    r.append(middle);
    r.append(after);
    r
}

/// `before`, then `host`, a colon and `port`.
fn framed_endpoint(before: &str, host: &str, port: u16) -> (r: String)
    ensures
        r@ == before@ + host@ + ":"@ + decimal_digits(port as nat),
{
    let mut r = framed(before, host, ":");
    let digits = decimal_text(port as u64);
    r.append(digits.as_str());
    r
}

impl WaitDirective {
    /// The probe that evaluates this directive once.
    pub fn probe(&self) -> (r: Probe)
        ensures
            r@ == probe_of(self@),
    {
        match self {
            WaitDirective::FileExists(path) => Probe::Stat(path.clone()),
            WaitDirective::InterfaceExists(name) => {
                let mut path = String::from_str("/sys/class/net/");
                path.append(name.as_str());
                Probe::Stat(path)
            },
            WaitDirective::InterfaceRouted(_) => Probe::ReadText(
                String::from_str("/proc/net/route"),
            ),
            WaitDirective::TcpReachable(host, port) => Probe::Connect(host.clone(), *port),
            WaitDirective::CommandSucceeds(command) => {
                let mut arguments: Vec<String> = Vec::new();
                arguments.push(String::from_str("-c"));
                arguments.push(command.clone());
                assert(arguments.deep_view() =~= seq!["-c"@, command@]);
                Probe::Run(String::from_str("sh"), arguments)
            },
        }
    }

    /// Judges one observation: does it show that this directive holds?
    pub fn satisfied_by(&self, observation: &Observation) -> (r: bool)
        ensures
            r == holds(self@, observation@),
    {
        match self {
            WaitDirective::FileExists(_) => match observation {
                Observation::Stat(found) => *found,
                _ => false,
            },
            WaitDirective::InterfaceExists(_) => match observation {
                Observation::Stat(found) => *found,
                _ => false,
            },
            WaitDirective::InterfaceRouted(name) => match observation {
                Observation::Text(Some(table)) => interface_routed(table.as_str(), name.as_str()),
                _ => false,
            },
            WaitDirective::TcpReachable(_, _) => match observation {
                Observation::Connect(open) => *open,
                _ => false,
            },
            WaitDirective::CommandSucceeds(_) => match observation {
                Observation::Exit(Some(code)) => *code == 0,
                _ => false,
            },
        }
    }

    /// What to say when this directive does not hold yet.
    pub fn waiting_message(&self) -> (r: String)
        ensures
            r@ == waiting_text(self@),
    {
        match self {
            WaitDirective::FileExists(path) => framed("Waiting for file: ", path.as_str(), "..."),
            WaitDirective::InterfaceExists(name) => framed(
                "Waiting for interface: ",
                name.as_str(),
                "...",
            ),
            WaitDirective::InterfaceRouted(name) => framed(
                "Waiting for IP/routing on interface: ",
                name.as_str(),
                "...",
            ),
            WaitDirective::TcpReachable(host, port) => framed_endpoint(
                "Waiting for TCP connection at ",
                host.as_str(),
                *port,
            ),
            WaitDirective::CommandSucceeds(command) => framed(
                "Command '",
                command.as_str(),
                "' failed, retrying...",
            ),
        }
    }

    /// What to say once this directive holds.
    pub fn success_message(&self) -> (r: String)
        ensures
            r@ == success_text(self@),
    {
        match self {
            WaitDirective::FileExists(path) => framed("File '", path.as_str(), "' exists"),
            WaitDirective::InterfaceExists(name) => framed(
                "Interface '",
                name.as_str(),
                "' exists",
            ),
            WaitDirective::InterfaceRouted(name) => framed(
                "Interface '",
                name.as_str(),
                "' has IP/routing",
            ),
            WaitDirective::TcpReachable(host, port) => framed_endpoint(
                "TCP connection established at ",
                host.as_str(),
                *port,
            ),
            WaitDirective::CommandSucceeds(command) => framed(
                "Command '",
                command.as_str(),
                "' executed successfully",
            ),
        }
    }
}

} // verus!
