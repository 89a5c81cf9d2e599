use init_tools::copier::CopyJob;
use init_tools::copier::CopyReply;
use init_tools::copier::CopyRequest;
use init_tools::copier::CopyStage;
use init_tools::copier::CopyTask;
use init_tools::copier::EntryKind;
use init_tools::error::CopyError;
use init_tools::error::FileOperation;
use init_tools::template::Environment;

fn environment(pairs: &[(&str, &str)]) -> Environment {
    Environment {
        variables: pairs.iter().map(|(name, value)| (name.to_string(), value.to_string())).collect(),
    }
}

fn job(template: bool) -> CopyJob {
    match CopyJob::begin("src", true, "dst", true, template) {
        Ok(job) => job,
        Err(error) => panic!("{}", error.message()),
    }
}

fn task(job: &CopyJob, entry: &str) -> CopyTask {
    match job.plan(entry, EntryKind::File) {
        Ok(Some(task)) => task,
        Ok(None) => panic!("no task for {}", entry),
        Err(error) => panic!("{}", error.message()),
    }
}

struct Source {
    path: &'static str,
    content: &'static str,
    mode: u32,
}

#[derive(Debug, PartialEq)]
struct Written {
    path: String,
    content: String,
    mode: Option<u32>,
}

struct Disk {
    directories: Vec<String>,
    files: Vec<Written>,
    operations: Vec<String>,
}

fn serve(source: &Source, request: &CopyRequest, disk: &mut Disk) -> CopyReply {
    match request {
        CopyRequest::CreateDirectories(path) => {
            disk.operations.push(format!("mkdir {}", path));
            disk.directories.push(path.clone());
            CopyReply::Done
        }
        CopyRequest::ReadPermissions(path) => {
            assert_eq!(path, source.path);
            disk.operations.push(format!("stat {}", path));
            CopyReply::Permissions(source.mode)
        }
        CopyRequest::ReadContent(path) => {
            assert_eq!(path, source.path);
            disk.operations.push(format!("read {}", path));
            CopyReply::Content(source.content.to_string())
        }
        CopyRequest::WriteContent(path, content) => {
            disk.operations.push(format!("write {}", path));
            disk.files.retain(|file| &file.path != path);
            disk.files.push(Written { path: path.clone(), content: content.clone(), mode: None });
            CopyReply::Done
        }
        CopyRequest::SetPermissions(path, mode) => {
            disk.operations.push(format!("chmod {:o} {}", mode, path));
            for file in disk.files.iter_mut() {
                if &file.path == path {
                    file.mode = Some(*mode);
                }
            }
            CopyReply::Done
        }
    }
}

fn copy_tree(sources: &[Source], template: bool, variables: &Environment, disk: &mut Disk) -> Vec<String> {
    let job = job(template);
    let mut said = Vec::new();
    for source in sources {
        let mut task = task(&job, source.path);
        while let Some(request) = task.request() {
            let reply = serve(source, &request, disk);
            match task.advance(reply, variables) {
                Ok(lines) => said.extend(lines),
                Err(error) => panic!("{}", error.message()),
            }
        }
        assert_eq!(task.stage(), CopyStage::Done);
    }
    said
}

fn two_files() -> Vec<Source> {
    vec![
        Source { path: "src/a.txt", content: "alpha\n", mode: 0o644 },
        Source { path: "src/sub/b.txt", content: "#!/bin/sh\necho {{NAME}}\n", mode: 0o755 },
    ]
}

fn empty_disk() -> Disk {
    Disk { directories: vec![], files: vec![], operations: vec![] }
}

#[test]
fn plain_copy_reproduces_content_and_permissions() {
    let mut disk = empty_disk();
    let said = copy_tree(&two_files(), false, &environment(&[("NAME", "World")]), &mut disk);
    assert_eq!(
        disk.files,
        vec![
            Written { path: "dst/a.txt".to_string(), content: "alpha\n".to_string(), mode: Some(0o644) },
            Written {
                path: "dst/sub/b.txt".to_string(),
                content: "#!/bin/sh\necho {{NAME}}\n".to_string(),
                mode: Some(0o755),
            },
        ]
    );
    assert_eq!(disk.directories, vec!["dst".to_string(), "dst/sub".to_string()]);
    assert_eq!(
        said,
        vec![
            "Copying 'src/a.txt' to 'dst/a.txt'".to_string(),
            "Copying 'src/sub/b.txt' to 'dst/sub/b.txt'".to_string(),
        ]
    );
}

#[test]
fn operations_come_in_a_fixed_order() {
    let mut disk = empty_disk();
    copy_tree(&two_files()[1..], false, &environment(&[]), &mut disk);
    assert_eq!(
        disk.operations,
        vec![
            "mkdir dst/sub".to_string(),
            "stat src/sub/b.txt".to_string(),
            "read src/sub/b.txt".to_string(),
            "write dst/sub/b.txt".to_string(),
            "chmod 755 dst/sub/b.txt".to_string(),
        ]
    );
}

#[test]
fn templated_copy_replaces_tokens_and_says_so() {
    let mut disk = empty_disk();
    let said = copy_tree(&two_files(), true, &environment(&[("NAME", "World")]), &mut disk);
    assert_eq!(
        disk.files,
        vec![
            Written { path: "dst/a.txt".to_string(), content: "alpha\n".to_string(), mode: Some(0o644) },
            Written {
                path: "dst/sub/b.txt".to_string(),
                content: "#!/bin/sh\necho World\n".to_string(),
                mode: Some(0o755),
            },
        ]
    );
    assert_eq!(
        said,
        vec![
            "Copying 'src/a.txt' to 'dst/a.txt'".to_string(),
            "Copying 'src/sub/b.txt' to 'dst/sub/b.txt'".to_string(),
            "Replacing '{{NAME}}' with 'World' in 'dst/sub/b.txt'".to_string(),
        ]
    );
}

#[test]
fn templated_copy_of_the_greeting() {
    let sources = [Source { path: "src/hello", content: "Hello {{NAME}}, {{NAME}}!", mode: 0o600 }];
    let mut disk = empty_disk();
    let said = copy_tree(&sources, true, &environment(&[("NAME", "World")]), &mut disk);
    assert_eq!(
        disk.files,
        vec![Written {
            path: "dst/hello".to_string(),
            content: "Hello World, World!".to_string(),
            mode: Some(0o600),
        }]
    );
    assert_eq!(
        said,
        vec![
            "Copying 'src/hello' to 'dst/hello'".to_string(),
            "Replacing '{{NAME}}' with 'World' in 'dst/hello'".to_string(),
            "Replacing '{{NAME}}' with 'World' in 'dst/hello'".to_string(),
        ]
    );
}

#[test]
fn templated_copy_leaves_an_undefined_token() {
    let sources = [Source { path: "src/t", content: "{{UNSET_VAR}}", mode: 0o644 }];
    let mut disk = empty_disk();
    let said = copy_tree(&sources, true, &environment(&[]), &mut disk);
    assert_eq!(disk.files[0].content, "{{UNSET_VAR}}");
    assert_eq!(said, vec!["Copying 'src/t' to 'dst/t'".to_string()]);
}

#[test]
fn second_run_writes_what_the_first_one_wrote() {
    let variables = environment(&[("NAME", "World")]);
    for template in [false, true] {
        let mut disk = empty_disk();
        copy_tree(&two_files(), template, &variables, &mut disk);
        let first: Vec<(String, String, Option<u32>)> = disk
            .files
            .iter()
            .map(|file| (file.path.clone(), file.content.clone(), file.mode))
            .collect();
        copy_tree(&two_files(), template, &variables, &mut disk);
        let second: Vec<(String, String, Option<u32>)> = disk
            .files
            .iter()
            .map(|file| (file.path.clone(), file.content.clone(), file.mode))
            .collect();
        assert_eq!(first, second);
        assert_eq!(second.len(), 2);
    }
}

#[test]
fn missing_destination_stops_the_copy_before_it_begins() {
    match CopyJob::begin("src", true, "no/such/dir", false, false) {
        Ok(_) => panic!("the copy began"),
        Err(error) => {
            assert_eq!(error, CopyError::NotADirectory("no/such/dir".to_string()));
            assert_eq!(error.message(), "Not a directory: 'no/such/dir'");
        }
    }
}

#[test]
fn missing_source_stops_the_copy_before_it_begins() {
    match CopyJob::begin("nowhere", false, "dst", true, true) {
        Ok(_) => panic!("the copy began"),
        Err(error) => assert_eq!(error, CopyError::NotADirectory("nowhere".to_string())),
    }
}

#[test]
fn source_is_looked_at_before_the_destination() {
    match CopyJob::begin("nowhere", false, "neither", false, false) {
        Ok(_) => panic!("the copy began"),
        Err(error) => assert_eq!(error, CopyError::NotADirectory("nowhere".to_string())),
    }
}

#[test]
fn only_regular_files_get_a_task() {
    let job = job(false);
    for kind in [EntryKind::Directory, EntryKind::Symlink, EntryKind::Other] {
        assert!(matches!(job.plan("src/sub", kind), Ok(None)));
        assert!(matches!(job.plan("elsewhere/x", kind), Ok(None)));
    }
    assert!(matches!(job.plan("src/sub", EntryKind::File), Ok(Some(_))));
}

#[test]
fn task_knows_its_paths() {
    let task = task(&job(false), "src/sub/deep/c.conf");
    assert_eq!(task.source(), "src/sub/deep/c.conf");
    assert_eq!(task.relative(), "sub/deep/c.conf");
    assert_eq!(task.destination(), "dst/sub/deep/c.conf");
    assert_eq!(task.stage(), CopyStage::Directories);
    assert_eq!(task.request(), Some(CopyRequest::CreateDirectories("dst/sub/deep".to_string())));
}

#[test]
fn paths_are_compared_component_by_component() {
    let job = job(false);
    match job.plan("srcfoo/a.txt", EntryKind::File) {
        Err(error) => assert_eq!(error, CopyError::OutsideSource("srcfoo/a.txt".to_string())),
        _ => panic!("a task was planned"),
    }
    let task = task(&job, "src//sub/b.txt");
    assert_eq!(task.relative(), "sub/b.txt");
    assert_eq!(task.destination(), "dst/sub/b.txt");
}

#[test]
fn entry_outside_the_source_is_an_error() {
    match job(false).plan("/etc/passwd", EntryKind::File) {
        Err(error) => {
            assert_eq!(error, CopyError::OutsideSource("/etc/passwd".to_string()));
            assert_eq!(error.message(), "Failed to strip prefix: '/etc/passwd'");
        }
        _ => panic!("a task was planned"),
    }
}

#[test]
fn task_without_a_directory_above_begins_with_the_permissions() {
    let job = match CopyJob::begin("/x", true, "/", true, false) {
        Ok(job) => job,
        Err(error) => panic!("{}", error.message()),
    };
    let task = task(&job, "/x");
    assert_eq!(task.relative(), "");
    assert_eq!(task.destination(), "/");
    assert_eq!(task.stage(), CopyStage::Permissions);
    assert_eq!(task.request(), Some(CopyRequest::ReadPermissions("/x".to_string())));
}

fn advance_to(stage: CopyStage) -> CopyTask {
    let mut task = task(&job(false), "src/sub/b.txt");
    let replies = [
        CopyReply::Done,
        CopyReply::Permissions(0o640),
        CopyReply::Content("text".to_string()),
        CopyReply::Done,
        CopyReply::Done,
    ];
    for reply in replies {
        if task.stage() == stage {
            break;
        }
        assert!(task.advance(reply, &environment(&[])).is_ok());
    }
    assert_eq!(task.stage(), stage);
    task
}

#[test]
fn task_asks_for_each_operation_in_turn() {
    assert_eq!(
        advance_to(CopyStage::Directories).request(),
        Some(CopyRequest::CreateDirectories("dst/sub".to_string()))
    );
    assert_eq!(
        advance_to(CopyStage::Permissions).request(),
        Some(CopyRequest::ReadPermissions("src/sub/b.txt".to_string()))
    );
    assert_eq!(
        advance_to(CopyStage::Content).request(),
        Some(CopyRequest::ReadContent("src/sub/b.txt".to_string()))
    );
    assert_eq!(
        advance_to(CopyStage::Write).request(),
        Some(CopyRequest::WriteContent("dst/sub/b.txt".to_string(), "text".to_string()))
    );
    assert_eq!(
        advance_to(CopyStage::Restore).request(),
        Some(CopyRequest::SetPermissions("dst/sub/b.txt".to_string(), 0o640))
    );
    assert_eq!(advance_to(CopyStage::Done).request(), None);
}

#[test]
fn failed_operation_ends_the_task_with_its_error() {
    let cases = [
        (CopyStage::Directories, FileOperation::CreateDirectories, "dst/sub"),
        (CopyStage::Permissions, FileOperation::ReadPermissions, "src/sub/b.txt"),
        (CopyStage::Content, FileOperation::ReadContent, "src/sub/b.txt"),
        (CopyStage::Write, FileOperation::WriteContent, "dst/sub/b.txt"),
        (CopyStage::Restore, FileOperation::SetPermissions, "dst/sub/b.txt"),
    ];
    for (stage, operation, path) in cases {
        let mut task = advance_to(stage);
        assert_eq!(
            task.advance(CopyReply::Failed, &environment(&[])),
            Err(CopyError::Io(operation, path.to_string()))
        );
        assert_eq!(task.stage(), CopyStage::Failed);
        assert_eq!(task.request(), None);
    }
}

#[test]
fn reply_of_the_wrong_kind_ends_the_task() {
    let cases = [
        (CopyStage::Directories, CopyReply::Permissions(0o644), FileOperation::CreateDirectories, "dst/sub"),
        (CopyStage::Permissions, CopyReply::Done, FileOperation::ReadPermissions, "src/sub/b.txt"),
        (CopyStage::Content, CopyReply::Permissions(0o644), FileOperation::ReadContent, "src/sub/b.txt"),
        (CopyStage::Write, CopyReply::Content("x".to_string()), FileOperation::WriteContent, "dst/sub/b.txt"),
        (CopyStage::Restore, CopyReply::Permissions(0), FileOperation::SetPermissions, "dst/sub/b.txt"),
    ];
    for (stage, reply, operation, path) in cases {
        let mut task = advance_to(stage);
        assert_eq!(
            task.advance(reply, &environment(&[])),
            Err(CopyError::Io(operation, path.to_string()))
        );
        assert_eq!(task.stage(), CopyStage::Failed);
    }
}

#[test]
fn task_that_ended_takes_no_further_reply() {
    let mut done = advance_to(CopyStage::Done);
    assert_eq!(done.advance(CopyReply::Failed, &environment(&[])), Ok(vec![]));
    assert_eq!(done.stage(), CopyStage::Done);
    let mut failed = advance_to(CopyStage::Write);
    assert!(failed.advance(CopyReply::Failed, &environment(&[])).is_err());
    assert_eq!(failed.advance(CopyReply::Done, &environment(&[])), Ok(vec![]));
    assert_eq!(failed.stage(), CopyStage::Failed);
    assert_eq!(failed.request(), None);
}

#[test]
fn failure_leaves_what_was_written_before() {
    let job = job(false);
    let sources = two_files();
    let mut disk = empty_disk();
    copy_tree(&sources[..1], false, &environment(&[]), &mut disk);
    let mut second = task(&job, sources[1].path);
    let request = second.request().unwrap();
    serve(&sources[1], &request, &mut disk);
    assert_eq!(second.advance(CopyReply::Done, &environment(&[])), Ok(vec![]));
    assert_eq!(
        second.advance(CopyReply::Failed, &environment(&[])),
        Err(CopyError::Io(FileOperation::ReadPermissions, "src/sub/b.txt".to_string()))
    );
    assert_eq!(
        disk.files,
        vec![Written { path: "dst/a.txt".to_string(), content: "alpha\n".to_string(), mode: Some(0o644) }]
    );
}
