//! What happens once the work is done: nothing more, or the trailing command.

use crate::args::CommandModel;
use crate::args::TrailingCommand;
use vstd::prelude::*;
use vstd::string::*;

verus! {

/// How the trailing command is started.
#[derive(Debug, Clone, Copy, PartialEq, Eq, Structural)]
pub enum LaunchMode {
    /// The command takes the place of the running program, which never returns from it.
    Replace,
    /// The command runs as a child; the program waits and ends with the child's status.
    Child,
}

/// How a run ends.
#[derive(Debug, Clone, PartialEq, Eq)]
pub enum Conclusion {
    /// End with this exit code.
    Exit(i32),
    /// Start this program with these arguments.
    Launch(String, Vec<String>, LaunchMode),
    /// Report this message and end with this exit code, starting nothing.
    Refuse(String, i32),
}

/// A conclusion as a mathematical value.
pub enum ConclusionModel {
    Exit(i32),
    Launch(Seq<char>, Seq<Seq<char>>, LaunchMode),
    Refuse(Seq<char>, i32),
}

impl View for Conclusion {
    type V = ConclusionModel;

    open spec fn view(&self) -> ConclusionModel {
        match self {
            Conclusion::Exit(code) => ConclusionModel::Exit(*code),
            Conclusion::Launch(program, arguments, mode) => ConclusionModel::Launch(
                program@,
                arguments.deep_view(),
                *mode,
            ),
            Conclusion::Refuse(message, code) => ConclusionModel::Refuse(message@, *code),
        }
    }
}

/// What is reported where the program of the trailing command is not on the search path.
pub open spec fn not_found_text(program: Seq<char>) -> Seq<char> {
    "Error: '"@ + program + "' not found"@
}

/// How a run ends after its work succeeded. Without a trailing command it ends with exit
/// code 0. With one, `resolved` says whether its program was found on the executable
/// search path: if so the command is started, if not the run is refused with exit code 1.
pub open spec fn concluded(
    trailing: Option<CommandModel>,
    resolved: bool,
    mode: LaunchMode,
) -> ConclusionModel {
    match trailing {
        None => ConclusionModel::Exit(0),
        Some(command) => if resolved {
            ConclusionModel::Launch(command.program, command.arguments, mode)
        } else {
            ConclusionModel::Refuse(not_found_text(command.program), 1)
        },
    }
}

/// Decides how a run ends after its work succeeded.
pub fn conclude(trailing: &Option<TrailingCommand>, resolved: bool, mode: LaunchMode) -> (r:
    Conclusion)
    ensures
        r@ == concluded(
            match *trailing {
                Some(command) => Some(command@),
                None => None,
            },
            resolved,
            mode,
        ),
{
    match trailing {
        None => Conclusion::Exit(0),
        Some(command) => {
            if resolved {
                Conclusion::Launch(command.program.clone(), command.arguments.clone(), mode)
            } else {
                let mut message = String::from_str("Error: '");
                message.append(command.program.as_str());
                message.append("' not found");
                Conclusion::Refuse(message, 1)
            }
        },
    }
}

/// The exit code to end with after a child ended: the child's own code, or 1 where it has
/// none (it could not be started, or did not end by exiting).
pub open spec fn forwarded_code(status: Option<i32>) -> i32 {
    match status {
        Some(code) => code,
        None => 1,
    }
}

/// The exit code to end with after a child ended.
pub fn forward_exit_code(status: Option<i32>) -> (r: i32)
    ensures
        r == forwarded_code(status),
{
    match status {
        Some(code) => code,
        None => 1,
    }
}

} // verus!
