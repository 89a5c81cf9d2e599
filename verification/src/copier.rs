//! The copier: a tree of files is copied file by file, each through the same fixed run of
//! operations.
//!
//! The copier itself touches no file. It checks what it is told about the two directories,
//! plans one task for each regular file that the caller found, says which operation is due
//! for a task, and takes the caller's reply. The first failure ends the copy: what was
//! written before stays as it is.

use crate::error::CopyError;
use crate::error::error_text;
use crate::error::CopyErrorModel;
use crate::error::FileOperation;
use crate::paths::joined;
use crate::paths::parent;
use crate::paths::path_joined;
use crate::paths::path_parent;
use crate::paths::path_without_prefix;
use crate::paths::without_prefix;
use crate::template::expanded;
use crate::template::find_names;
use crate::template::names_found;
use crate::template::resolutions;
use crate::template::resolve;
use crate::template::substitute;
use crate::template::lemma_same_variables_same_text;
use crate::template::token_of;
use crate::template::value_of;
use crate::template::Environment;
use vstd::prelude::*;
use vstd::string::*;

verus! {

/// What kind of entry the walk over the source tree came upon.
#[derive(Debug, Clone, Copy, PartialEq, Eq, Structural)]
pub enum EntryKind {
    /// A regular file: the only kind that is copied.
    File,
    /// A directory: made at the destination only as far as a file needs it.
    Directory,
    /// A symbolic link: neither followed nor copied.
    Symlink,
    /// Anything else, such as a socket or a device.
    Other,
}

/// How far a task has come.
#[derive(Debug, Clone, Copy, PartialEq, Eq, Structural)]
pub enum CopyStage {
    /// The directories above the destination are to be created.
    Directories,
    /// The permission bits of the source are to be read.
    Permissions,
    /// The content of the source is to be read.
    Content,
    /// The content is to be written to the destination.
    Write,
    /// The permission bits are to be set on the destination.
    Restore,
    /// The file has been copied.
    Done,
    /// An operation failed; the task was given up.
    Failed,
}

/// An operation that the caller is asked to perform.
#[derive(Debug, Clone, PartialEq, Eq)]
pub enum CopyRequest {
    /// Create this directory and all that are missing above it.
    CreateDirectories(String),
    /// Read the permission bits of this file.
    ReadPermissions(String),
    /// Read this file as text.
    ReadContent(String),
    /// Write this text to this file, in place of what it may hold.
    WriteContent(String, String),
    /// Set the permission bits of this file.
    SetPermissions(String, u32),
}

/// A request as a mathematical value.
pub enum RequestModel {
    CreateDirectories(Seq<char>),
    ReadPermissions(Seq<char>),
    ReadContent(Seq<char>),
    WriteContent(Seq<char>, Seq<char>),
    SetPermissions(Seq<char>, u32),
}

impl View for CopyRequest {
    type V = RequestModel;

    open spec fn view(&self) -> RequestModel {
        match self {
            CopyRequest::CreateDirectories(path) => RequestModel::CreateDirectories(path@),
            CopyRequest::ReadPermissions(path) => RequestModel::ReadPermissions(path@),
            CopyRequest::ReadContent(path) => RequestModel::ReadContent(path@),
            CopyRequest::WriteContent(path, text) => RequestModel::WriteContent(path@, text@),
            CopyRequest::SetPermissions(path, mode) => RequestModel::SetPermissions(path@, *mode),
        }
    }
}

/// What came of the operation that was due.
#[derive(Debug, Clone, PartialEq, Eq)]
pub enum CopyReply {
    /// The operation was performed; it has nothing to hand back.
    Done,
    /// The permission bits that were read.
    Permissions(u32),
    /// The text that was read.
    Content(String),
    /// The operation failed.
    Failed,
}

/// A reply as a mathematical value.
pub enum ReplyModel {
    Done,
    Permissions(u32),
    Content(Seq<char>),
    Failed,
}

impl View for CopyReply {
    type V = ReplyModel;

    open spec fn view(&self) -> ReplyModel {
        match self {
            CopyReply::Done => ReplyModel::Done,
            CopyReply::Permissions(mode) => ReplyModel::Permissions(*mode),
            CopyReply::Content(text) => ReplyModel::Content(text@),
            CopyReply::Failed => ReplyModel::Failed,
        }
    }
}

/// The copy of one file as a mathematical value.
pub struct TaskModel {
    /// The path of the source file.
    pub source: Seq<char>,
    /// That path relative to the source directory.
    pub relative: Seq<char>,
    /// The path of the destination file.
    pub destination: Seq<char>,
    /// The directory above the destination file, if there is one.
    pub parent: Option<Seq<char>>,
    /// Whether tokens are replaced.
    pub template: bool,
    /// How far the task has come.
    pub stage: CopyStage,
    /// The permission bits of the source, once they have been read.
    pub mode: u32,
    /// What is to be written, once the source has been read.
    pub content: Seq<char>,
}

/// Why a copy from `source` to `destination` cannot begin, if it cannot: both must be
/// directories, and the source is looked at first.
pub open spec fn roots_refused(
    source: Seq<char>,
    source_is_directory: bool,
    destination: Seq<char>,
    destination_is_directory: bool,
) -> Option<CopyErrorModel> {
    if !source_is_directory {
        Some(CopyErrorModel::NotADirectory(source))
    } else if !destination_is_directory {
        Some(CopyErrorModel::NotADirectory(destination))
    } else {
        None
    }
}

/// The stage at which a task begins: with the directories where there is one above the
/// destination, else with the permissions.
pub open spec fn first_stage(parent: Option<Seq<char>>) -> CopyStage {
    if parent is Some {
        CopyStage::Directories
    } else {
        CopyStage::Permissions
    }
}

/// The task for one entry of the source tree. Only regular files are copied: any other
/// entry gets no task. The destination is the destination directory joined with the path
/// of the entry relative to the source directory; an entry that is not under the source
/// directory is an error.
pub open spec fn planned(
    source_root: Seq<char>,
    destination_root: Seq<char>,
    template: bool,
    entry: Seq<char>,
    kind: EntryKind,
) -> Result<Option<TaskModel>, CopyErrorModel> {
    if kind != EntryKind::File {
        Ok(None)
    } else {
        match path_without_prefix(entry, source_root) {
            None => Err(CopyErrorModel::OutsideSource(entry)),
            Some(relative) => {
                let destination = path_joined(destination_root, relative);
                let parent = path_parent(destination);
                Ok(
                    Some(
                        TaskModel {
                            source: entry,
                            relative,
                            destination,
                            parent,
                            template,
                            stage: first_stage(parent),
                            mode: 0,
                            content: Seq::empty(),
                        },
                    ),
                )
            },
        }
    }
}

/// The operation that is due for `task`, if any.
pub open spec fn due(task: TaskModel) -> Option<RequestModel> {
    match task.stage {
        CopyStage::Directories => match task.parent {
            Some(path) => Some(RequestModel::CreateDirectories(path)),
            None => None,
        },
        CopyStage::Permissions => Some(RequestModel::ReadPermissions(task.source)),
        CopyStage::Content => Some(RequestModel::ReadContent(task.source)),
        CopyStage::Write => Some(RequestModel::WriteContent(task.destination, task.content)),
        CopyStage::Restore => Some(RequestModel::SetPermissions(task.destination, task.mode)),
        CopyStage::Done => None,
        CopyStage::Failed => None,
    }
}

/// The error that ends `task` where the operation that is due fails: it names the operation
/// and the path it was tried on.
pub open spec fn failure_of(task: TaskModel) -> CopyErrorModel {
    match task.stage {
        CopyStage::Directories => CopyErrorModel::Io(
            FileOperation::CreateDirectories,
            match task.parent {
                Some(path) => path,
                None => task.destination,
            },
        ),
        CopyStage::Permissions => CopyErrorModel::Io(FileOperation::ReadPermissions, task.source),
        CopyStage::Content => CopyErrorModel::Io(FileOperation::ReadContent, task.source),
        CopyStage::Write => CopyErrorModel::Io(FileOperation::WriteContent, task.destination),
        _ => CopyErrorModel::Io(FileOperation::SetPermissions, task.destination),
    }
}

/// What is written for a source that holds `text`: the text itself, or, with templating,
/// the text with its tokens replaced.
pub open spec fn written(
    text: Seq<char>,
    template: bool,
    variables: Seq<(Seq<char>, Seq<char>)>,
) -> Result<Seq<char>, CopyErrorModel> {
    if template {
        expanded(text, variables)
    } else {
        Ok(text)
    }
}

/// `task` after the caller's `reply` to the operation that was due. The stages follow one
/// another in a fixed order. A reply that reports failure, or that is not the kind of reply
/// the operation gives, ends the task with an error. Where nothing was due the reply
/// changes nothing.
pub open spec fn progressed(
    task: TaskModel,
    reply: ReplyModel,
    variables: Seq<(Seq<char>, Seq<char>)>,
) -> Result<TaskModel, CopyErrorModel> {
    match task.stage {
        CopyStage::Directories => if reply == ReplyModel::Done {
            Ok(TaskModel { stage: CopyStage::Permissions, ..task })
        } else {
            Err(failure_of(task))
        },
        CopyStage::Permissions => match reply {
            ReplyModel::Permissions(mode) => Ok(
                TaskModel { stage: CopyStage::Content, mode, ..task },
            ),
            _ => Err(failure_of(task)),
        },
        CopyStage::Content => match reply {
            ReplyModel::Content(text) => match written(text, task.template, variables) {
                Ok(content) => Ok(TaskModel { stage: CopyStage::Write, content, ..task }),
                Err(error) => Err(error),
            },
            _ => Err(failure_of(task)),
        },
        CopyStage::Write => if reply == ReplyModel::Done {
            Ok(TaskModel { stage: CopyStage::Restore, ..task })
        } else {
            Err(failure_of(task))
        },
        CopyStage::Restore => if reply == ReplyModel::Done {
            Ok(TaskModel { stage: CopyStage::Done, ..task })
        } else {
            Err(failure_of(task))
        },
        CopyStage::Done => Ok(task),
        CopyStage::Failed => Ok(task),
    }
}

/// What is said when a file is copied.
pub open spec fn copying_text(source: Seq<char>, destination: Seq<char>) -> Seq<char> {
    "Copying '"@ + source + "' to '"@ + destination + "'"@
}

/// What is said when the token of `name` is replaced by `value`.
pub open spec fn replacing_text(
    name: Seq<char>,
    value: Seq<char>,
    destination: Seq<char>,
) -> Seq<char> {
    "Replacing '"@ + token_of(name) + "' with '"@ + value + "' in '"@ + destination + "'"@
}

/// One line for each replacement, in order.
pub open spec fn replacing_lines(
    pairs: Seq<(Seq<char>, Seq<char>)>,
    destination: Seq<char>,
) -> Seq<Seq<char>> {
    Seq::new(pairs.len(), |i: int| replacing_text(pairs[i].0, pairs[i].1, destination))
}

/// What there is to say after `reply` moved `task` on: once the source has been read, that
/// the file is copied, and, with templating, each replacement. Nothing at the other stages.
pub open spec fn lines_of(
    task: TaskModel,
    reply: ReplyModel,
    variables: Seq<(Seq<char>, Seq<char>)>,
) -> Seq<Seq<char>> {
    match reply {
        ReplyModel::Content(text) => if task.stage == CopyStage::Content {
            let first = seq![copying_text(task.source, task.destination)];
            if task.template {
                match names_found(text) {
                    Ok(names) => first + replacing_lines(
                        resolutions(names, variables),
                        task.destination,
                    ),
                    Err(_) => first,
                }
            } else {
                first
            }
        } else {
            Seq::empty()
        },
        _ => Seq::empty(),
    }
}

/// A destination that is no directory stops the copy before it begins: where the source is a
/// directory and the destination is none, the copy is refused with an error that names the
/// destination.
pub proof fn lemma_missing_destination(source: Seq<char>, destination: Seq<char>)
    ensures
        roots_refused(source, true, destination, false) == Some(
            CopyErrorModel::NotADirectory(destination),
        ),
        error_text(CopyErrorModel::NotADirectory(destination)) == "Not a directory: '"@
            + destination + "'"@,
{
}

/// Without templating the copy is exact: what is written is what was read, whatever the
/// variables. So a second run writes what the first one wrote.
pub proof fn lemma_plain_copy_is_exact(
    text: Seq<char>,
    first: Seq<(Seq<char>, Seq<char>)>,
    second: Seq<(Seq<char>, Seq<char>)>,
)
    ensures
        written(text, false, first) == Ok::<Seq<char>, CopyErrorModel>(text),
        written(text, false, first) == written(text, false, second),
{
}

/// With templating a second run writes what the first one wrote, as long as the variables
/// that the text names have kept their values.
pub proof fn lemma_templated_copy_repeats(
    text: Seq<char>,
    first: Seq<(Seq<char>, Seq<char>)>,
    second: Seq<(Seq<char>, Seq<char>)>,
)
    requires
        names_found(text) matches Ok(names) ==> forall|i: int|
            0 <= i < names.len() ==> (#[trigger] names[i] matches Some(name) ==> value_of(
                first,
                name,
            ) == value_of(second, name)),
    ensures
        written(text, true, first) == written(text, true, second),
{
    match names_found(text) {
        Ok(names) => {
            lemma_same_variables_same_text(text, names, first, second);
        },
        Err(_) => {},
    }
}

/// A task that meets no failure runs through its operations in a fixed order and copies
/// faithfully: after the permissions and the text of the source were read, the text that
/// `written` gives is written to the destination, then the permissions that were read are
/// set on it, and the task is done.
pub proof fn lemma_task_runs_in_order(
    task: TaskModel,
    mode: u32,
    text: Seq<char>,
    variables: Seq<(Seq<char>, Seq<char>)>,
)
    requires
        task.stage == first_stage(task.parent),
        written(text, task.template, variables) is Ok,
    ensures
        ({
            let content = written(text, task.template, variables)->Ok_0;
            let ready = if task.parent is Some {
                progressed(task, ReplyModel::Done, variables)->Ok_0
            } else {
                task
            };
            let known = progressed(ready, ReplyModel::Permissions(mode), variables)->Ok_0;
            let read = progressed(known, ReplyModel::Content(text), variables)->Ok_0;
            let stored = progressed(read, ReplyModel::Done, variables)->Ok_0;
            let done = progressed(stored, ReplyModel::Done, variables);
            &&& task.parent matches Some(above) ==> due(task) == Some(
                RequestModel::CreateDirectories(above),
            )
            &&& due(ready) == Some(RequestModel::ReadPermissions(task.source))
            &&& due(known) == Some(RequestModel::ReadContent(task.source))
            &&& due(read) == Some(RequestModel::WriteContent(task.destination, content))
            &&& due(stored) == Some(RequestModel::SetPermissions(task.destination, mode))
            &&& done == Ok::<TaskModel, CopyErrorModel>(
                TaskModel { stage: CopyStage::Done, mode, content, ..task },
            )
            &&& due(done->Ok_0) is None
        }),
{
}

/// A copy that may begin: both directories were found to be directories.
#[derive(Debug)]
pub struct CopyJob {
    source: String,
    destination: String,
    template: bool,
}

impl CopyJob {
    /// The source directory.
    pub closed spec fn source(&self) -> Seq<char> {
        self.source@
    }

    /// The destination directory.
    pub closed spec fn destination(&self) -> Seq<char> {
        self.destination@
    }

    /// Whether tokens are replaced.
    pub closed spec fn template(&self) -> bool {
        self.template
    }

    /// Checks the two directories before anything is walked, read or written. The caller
    /// says of each whether it exists and is a directory. Only a copy that passes this
    /// check exists as a value, and only such a value hands out tasks.
    pub fn begin(
        source: &str,
        source_is_directory: bool,
        destination: &str,
        destination_is_directory: bool,
        template: bool,
    ) -> (r: Result<CopyJob, CopyError>)
        ensures
            match r {
                Ok(job) => {
                    &&& roots_refused(
                        source@,
                        source_is_directory,
                        destination@,
                        destination_is_directory,
                    ) is None
                    &&& job.source() == source@
                    &&& job.destination() == destination@
                    &&& job.template() == template
                },
                Err(error) => roots_refused(
                    source@,
                    source_is_directory,
                    destination@,
                    destination_is_directory,
                ) == Some(error@),
            },
    {
        if !source_is_directory {
            Err(CopyError::NotADirectory(String::from_str(source)))
        } else if !destination_is_directory {
            Err(CopyError::NotADirectory(String::from_str(destination)))
        } else {
            Ok(
                CopyJob {
                    source: String::from_str(source),
                    destination: String::from_str(destination),
                    template,
                },
            )
        }
    }

    /// Plans the copy of one entry that the walk over the source tree came upon.
    pub fn plan(&self, entry: &str, kind: EntryKind) -> (r: Result<Option<CopyTask>, CopyError>)
        ensures
            match r {
                Ok(Some(task)) => planned(
                    self.source(),
                    self.destination(),
                    self.template(),
                    entry@,
                    kind,
                ) == Ok::<Option<TaskModel>, CopyErrorModel>(Some(task@)),
                Ok(None) => planned(
                    self.source(),
                    self.destination(),
                    self.template(),
                    entry@,
                    kind,
                ) == Ok::<Option<TaskModel>, CopyErrorModel>(None),
                Err(error) => planned(
                    self.source(),
                    self.destination(),
                    self.template(),
                    entry@,
                    kind,
                ) == Err::<Option<TaskModel>, CopyErrorModel>(error@),
            },
    {
        match kind {
            EntryKind::File => {},
            _ => {
                return Ok(None);
            },
        }
        let relative = match without_prefix(entry, self.source.as_str()) {
            Some(relative) => relative,
            None => {
                return Err(CopyError::OutsideSource(String::from_str(entry)));
            },
        };
        let destination = joined(self.destination.as_str(), relative.as_str());
        let above = parent(destination.as_str());
        let stage = match above {
            Some(_) => CopyStage::Directories,
            None => CopyStage::Permissions,
        };
        Ok(
            Some(
                CopyTask {
                    source: String::from_str(entry),
                    relative,
                    destination,
                    parent: above,
                    template: self.template,
                    stage,
                    mode: 0,
                    content: String::new(),
                },
            ),
        )
    }
}

/// The copy of one file: its paths, how far it has come, and what was read so far.
#[derive(Debug)]
pub struct CopyTask {
    source: String,
    relative: String,
    destination: String,
    parent: Option<String>,
    template: bool,
    stage: CopyStage,
    mode: u32,
    content: String,
}

impl View for CopyTask {
    type V = TaskModel;

    closed spec fn view(&self) -> TaskModel {
        TaskModel {
            source: self.source@,
            relative: self.relative@,
            destination: self.destination@,
            parent: self.parent.deep_view(),
            template: self.template,
            stage: self.stage,
            mode: self.mode,
            content: self.content@,
        }
    }
}

impl CopyTask {
    /// The path of the source file.
    pub fn source(&self) -> (r: &String)
        ensures
            r@ == self@.source,
    {
        &self.source
    }

    /// The path of the source file relative to the source directory.
    pub fn relative(&self) -> (r: &String)
        ensures
            r@ == self@.relative,
    {
        &self.relative
    }

    /// The path of the destination file.
    pub fn destination(&self) -> (r: &String)
        ensures
            r@ == self@.destination,
    {
        &self.destination
    }

    /// How far the task has come.
    pub fn stage(&self) -> (r: CopyStage)
        ensures
            r == self@.stage,
    {
        self.stage
    }

    /// The operation that is due, if any.
    pub fn request(&self) -> (r: Option<CopyRequest>)
        ensures
            match r {
                Some(request) => due(self@) == Some(request@),
                None => due(self@) is None,
            },
    {
        match self.stage {
            CopyStage::Directories => match &self.parent {
                Some(path) => Some(CopyRequest::CreateDirectories(path.clone())),
                None => None,
            },
            CopyStage::Permissions => Some(CopyRequest::ReadPermissions(self.source.clone())),
            CopyStage::Content => Some(CopyRequest::ReadContent(self.source.clone())),
            CopyStage::Write => Some(
                CopyRequest::WriteContent(self.destination.clone(), self.content.clone()),
            ),
            CopyStage::Restore => Some(
                CopyRequest::SetPermissions(self.destination.clone(), self.mode),
            ),
            CopyStage::Done => None,
            CopyStage::Failed => None,
        }
    }

    /// The error for a failure of the operation that is due.
    fn failure(&self) -> (r: CopyError)
        ensures
            r@ == failure_of(self@),
    {
        match self.stage {
            CopyStage::Directories => CopyError::Io(
                FileOperation::CreateDirectories,
                match &self.parent {
                    Some(path) => path.clone(),
                    None => self.destination.clone(),
                },
            ),
            CopyStage::Permissions => CopyError::Io(
                FileOperation::ReadPermissions,
                self.source.clone(),
            ),
            CopyStage::Content => CopyError::Io(FileOperation::ReadContent, self.source.clone()),
            CopyStage::Write => CopyError::Io(
                FileOperation::WriteContent,
                self.destination.clone(),
            ),
            _ => CopyError::Io(FileOperation::SetPermissions, self.destination.clone()),
        }
    }

    /// The line that says that this file is copied.
    fn copying_line(&self) -> (r: String)
        ensures
            r@ == copying_text(self@.source, self@.destination),
    {
        let mut line = String::from_str("Copying '");
        line.append(self.source.as_str());
        line.append("' to '");
        line.append(self.destination.as_str());
        line.append("'");
        line
    }

    /// The line that says that the token of `name` is replaced by `value`.
    fn replacing_line(&self, name: &str, value: &str) -> (r: String)
        ensures
            r@ == replacing_text(name@, value@, self@.destination),
    {
        let mut line = String::from_str("Replacing '");
        line.append("{{");
        line.append(name);
        line.append("}}");
        line.append("' with '");
        line.append(value);
        line.append("' in '");
        line.append(self.destination.as_str());
        line.append("'");
        assert(line@ =~= replacing_text(name@, value@, self@.destination));
        line
    }

    /// Takes the text of the source: fixes what is to be written and says what was done.
    fn take_content(&mut self, text: String, environment: &Environment) -> (r: Result<
        Vec<String>,
        CopyError,
    >)
        requires
            old(self)@.stage == CopyStage::Content,
        ensures
            match r {
                Ok(lines) => {
                    &&& progressed(old(self)@, ReplyModel::Content(text@), environment@) == Ok::<
                        TaskModel,
                        CopyErrorModel,
                    >(final(self)@)
                    &&& lines.deep_view() == lines_of(
                        old(self)@,
                        ReplyModel::Content(text@),
                        environment@,
                    )
                },
                Err(error) => {
                    &&& progressed(old(self)@, ReplyModel::Content(text@), environment@) == Err::<
                        TaskModel,
                        CopyErrorModel,
                    >(error@)
                    &&& final(self)@ == TaskModel { stage: CopyStage::Failed, ..old(self)@ }
                },
            },
    {
        let mut lines: Vec<String> = Vec::new();
        lines.push(self.copying_line());
        let ghost first = seq![copying_text(self@.source, self@.destination)];
        assert(lines.deep_view() =~= first);
        if !self.template {
            self.content = text;
            self.stage = CopyStage::Write;
            return Ok(lines);
        }
        let names = match find_names(text.as_str()) {
            Ok(names) => names,
            Err(error) => {
                self.stage = CopyStage::Failed;
                return Err(error);
            },
        };
        let pairs = resolve(&names, environment);
        let ghost all = pairs.deep_view();
        let mut i: usize = 0;
        while i < pairs.len()
            invariant
                i <= pairs.len(),
                all == pairs.deep_view(),
                *self == *old(self),
                lines.deep_view() == first + replacing_lines(all, self@.destination).take(
                    i as int,
                ),
            decreases pairs.len() - i,
        {
            let ghost before = lines.deep_view();
            let line = self.replacing_line(pairs[i].0.as_str(), pairs[i].1.as_str());
            lines.push(line);
            assert(all[i as int] == (pairs@[i as int].0@, pairs@[i as int].1@));
            assert(lines.deep_view() =~= before.push(
                replacing_text(all[i as int].0, all[i as int].1, self@.destination),
            ));
            assert(lines.deep_view() =~= first + replacing_lines(all, self@.destination).take(
                i + 1,
            ));
            i += 1;
        }
        assert(replacing_lines(all, self@.destination).take(i as int) =~= replacing_lines(
            all,
            self@.destination,
        ));
        self.content = substitute(text.as_str(), &names, environment);
        self.stage = CopyStage::Write;
        Ok(lines)
    }

    /// Takes the caller's reply to the operation that was due, and moves the task on or
    /// ends it. Returns what there is to say about the step.
    pub fn advance(&mut self, reply: CopyReply, environment: &Environment) -> (r: Result<
        Vec<String>,
        CopyError,
    >)
        ensures
            match r {
                Ok(lines) => {
                    &&& progressed(old(self)@, reply@, environment@) == Ok::<
                        TaskModel,
                        CopyErrorModel,
                    >(final(self)@)
                    &&& lines.deep_view() == lines_of(old(self)@, reply@, environment@)
                },
                Err(error) => {
                    &&& progressed(old(self)@, reply@, environment@) == Err::<
                        TaskModel,
                        CopyErrorModel,
                    >(error@)
                    &&& final(self)@ == TaskModel { stage: CopyStage::Failed, ..old(self)@ }
                },
            },
    {
        let nothing: Vec<String> = Vec::new();
        assert(nothing.deep_view() =~= Seq::<Seq<char>>::empty());
        match self.stage {
            CopyStage::Done => {
                return Ok(nothing);
            },
            CopyStage::Failed => {
                return Ok(nothing);
            },
            CopyStage::Content => {
                match reply {
                    CopyReply::Content(text) => {
                        return self.take_content(text, environment);
                    },
                    _ => {},
                }
            },
            CopyStage::Permissions => {
                match reply {
                    CopyReply::Permissions(mode) => {
                        self.mode = mode;
                        self.stage = CopyStage::Content;
                        return Ok(nothing);
                    },
                    _ => {},
                }
            },
            CopyStage::Directories => {
                match reply {
                    CopyReply::Done => {
                        self.stage = CopyStage::Permissions;
                        return Ok(nothing);
                    },
                    _ => {},
                }
            },
            CopyStage::Write => {
                match reply {
                    CopyReply::Done => {
                        self.stage = CopyStage::Restore;
                        return Ok(nothing);
                    },
                    _ => {},
                }
            },
            CopyStage::Restore => {
                match reply {
                    CopyReply::Done => {
                        self.stage = CopyStage::Done;
                        return Ok(nothing);
                    },
                    _ => {},
                }
            },
        }
        let error = self.failure();
        self.stage = CopyStage::Failed;
        Err(error)
    }
}

} // verus!
