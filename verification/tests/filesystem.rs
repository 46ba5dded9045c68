use fs_materialize::copy::{
    after_read, copy, effective, set_owner_group, shallow_copy, ReadStep, COPY_BUFFER_SIZE,
};
use fs_materialize::dirs::{
    create_dir, create_dir_mode, read_visible_entries, safe_ensure_dir, DirEntry, DEFAULT_DIR_MODE,
};
use fs_materialize::error::{described, prefixed, ErrorKind, IoError};
use fs_materialize::links::{ensure_symlink, force_symlink};
use fs_materialize::lock::Lock;
use fs_materialize::ops::{steps, unexpected, FileType, FlockMode, Next, Op, Reply, Stat};

fn s(text: &str) -> String {
    text.to_string()
}

fn error(kind: ErrorKind, message: &str) -> IoError {
    IoError { kind, message: s(message) }
}

fn failed(kind: ErrorKind, message: &str) -> Reply {
    Reply::Failed(error(kind, message))
}

fn stat(file_type: FileType, mode: u32, uid: u32, gid: u32) -> Reply {
    Reply::Stat(Stat { file_type, mode, uid, gid })
}

/// Feeds the replies of `script` one by one; gives the requests that were
/// answered and what the operation said last.
fn drive<T>(step: &dyn Fn(&Vec<Reply>) -> Next<T>, script: Vec<Reply>) -> (Vec<Op>, Next<T>) {
    let mut replies: Vec<Reply> = Vec::new();
    let mut asked: Vec<Op> = Vec::new();
    let mut script = script.into_iter();
    loop {
        match step(&replies) {
            Next::Ask(op) => match script.next() {
                Some(reply) => {
                    asked.push(op);
                    replies.push(reply);
                }
                None => return (asked, Next::Ask(op)),
            },
            last => return (asked, last),
        }
    }
}

#[test]
fn failures_are_built_from_their_parts() {
    assert_eq!(IoError::new(ErrorKind::NotFound, "gone"), error(ErrorKind::NotFound, "gone"));
    assert_eq!(IoError::other(s("plain")), error(ErrorKind::Other, "plain"));
    let cause = error(ErrorKind::PermissionDenied, "denied");
    assert_eq!(prefixed("Error: ", &cause), error(ErrorKind::Other, "Error: denied"));
    assert_eq!(described("Path: ", "/x"), error(ErrorKind::Other, "Path: /x"));
    assert_eq!(cause.clone(), cause);
    assert_eq!(unexpected(), error(ErrorKind::InvalidData, "unexpected reply"));
}

#[test]
fn steps_stop_at_the_first_failure() {
    let ops = || vec![Op::Mkdir(s("/a")), Op::Mkdir(s("/b")), Op::Mkdir(s("/c"))];
    assert_eq!(steps(ops(), &vec![], 0), Next::Ask(Op::Mkdir(s("/a"))));
    assert_eq!(steps(ops(), &vec![Reply::Done], 0), Next::Ask(Op::Mkdir(s("/b"))));
    assert_eq!(steps(ops(), &vec![Reply::Done], 1), Next::Ask(Op::Mkdir(s("/a"))));
    assert_eq!(steps(ops(), &vec![Reply::Done], 7), Next::Ask(Op::Mkdir(s("/a"))));
    assert_eq!(
        steps(ops(), &vec![Reply::Done, failed(ErrorKind::Other, "no"), Reply::Done], 0),
        Next::Fail(error(ErrorKind::Other, "no"))
    );
    assert_eq!(steps(ops(), &vec![Reply::Done, Reply::Done, Reply::Flag(false)], 0), Next::Done(()));
    assert_eq!(steps(vec![], &vec![], 0), Next::Done(()));
}

#[test]
fn create_dir_does_nothing_for_a_directory() {
    let (asked, last) = drive(&|r| create_dir("/a/b", true, r), vec![Reply::Flag(true)]);
    assert_eq!(asked, vec![Op::IsDir(s("/a/b"))]);
    assert_eq!(last, Next::Done(()));
}

#[test]
fn create_dir_makes_the_parent_first() {
    let script = vec![Reply::Flag(false), Reply::Done, Reply::Done, Reply::Done];
    let (asked, last) = drive(&|r| create_dir("/a/b/c", true, r), script);
    assert_eq!(
        asked,
        vec![
            Op::IsDir(s("/a/b/c")),
            Op::CreateDir { path: s("/a/b"), recursive: true },
            Op::Mkdir(s("/a/b/c")),
            Op::Chmod { path: s("/a/b/c"), mode: 0o755 },
        ]
    );
    assert_eq!(last, Next::Done(()));
    assert_eq!(DEFAULT_DIR_MODE, 0o755);
}

#[test]
fn create_dir_stops_where_an_ancestor_fails() {
    let script = vec![Reply::Flag(false), failed(ErrorKind::PermissionDenied, "denied")];
    let (asked, last) = drive(&|r| create_dir("/a/b/c", true, r), script);
    assert_eq!(asked.len(), 2);
    assert_eq!(last, Next::Fail(error(ErrorKind::PermissionDenied, "denied")));
}

#[test]
fn create_dir_without_recursion_makes_only_the_path() {
    let script = vec![Reply::Flag(false), Reply::Done, Reply::Done];
    let (asked, last) = drive(&|r| create_dir("/a/b/c", false, r), script);
    assert_eq!(
        asked,
        vec![
            Op::IsDir(s("/a/b/c")),
            Op::Mkdir(s("/a/b/c")),
            Op::Chmod { path: s("/a/b/c"), mode: 0o755 },
        ]
    );
    assert_eq!(last, Next::Done(()));
}

#[test]
fn create_dir_at_the_root_has_no_parent() {
    let (_, last) = drive(&|r| create_dir("/", true, r), vec![Reply::Flag(false)]);
    assert_eq!(last, Next::Ask(Op::Mkdir(s("/"))));
}

#[test]
fn create_dir_of_one_component_needs_no_parent() {
    let script = vec![Reply::Flag(false), Reply::Done, Reply::Done];
    let (asked, last) = drive(&|r| create_dir("newdir", true, r), script);
    assert_eq!(
        asked,
        vec![
            Op::IsDir(s("newdir")),
            Op::Mkdir(s("newdir")),
            Op::Chmod { path: s("newdir"), mode: 0o755 },
        ]
    );
    assert_eq!(last, Next::Done(()));
    let (_, last) = drive(&|r| create_dir("a/b", true, r), vec![Reply::Flag(false)]);
    assert_eq!(last, Next::Ask(Op::CreateDir { path: s("a"), recursive: true }));
}

#[test]
fn create_dir_reports_failures_of_its_own_steps() {
    let script = vec![Reply::Flag(false), failed(ErrorKind::AlreadyExists, "File exists")];
    let (_, last) = drive(&|r| create_dir("/a", false, r), script);
    assert_eq!(last, Next::Fail(error(ErrorKind::AlreadyExists, "File exists")));
    let script = vec![Reply::Flag(false), Reply::Done, failed(ErrorKind::Other, "chmod")];
    let (_, last) = drive(&|r| create_dir("/a", false, r), script);
    assert_eq!(last, Next::Fail(error(ErrorKind::Other, "chmod")));
}

#[test]
fn create_dir_mode_sets_the_given_bits() {
    let script = vec![Reply::Flag(false), Reply::Done, Reply::Done];
    let (asked, last) = drive(&|r| create_dir_mode("/run/x", 0o1777, r), script);
    assert_eq!(
        asked,
        vec![
            Op::IsDir(s("/run/x")),
            Op::Mkdir(s("/run/x")),
            Op::Chmod { path: s("/run/x"), mode: 0o1777 },
        ]
    );
    assert_eq!(last, Next::Done(()));
    let (asked, last) = drive(&|r| create_dir_mode("/run/x", 0o700, r), vec![Reply::Flag(true)]);
    assert_eq!(asked.len(), 1);
    assert_eq!(last, Next::Done(()));
}

#[test]
fn safe_ensure_dir_refuses_a_symlink() {
    let (asked, last) =
        drive(&|r| safe_ensure_dir("/x", r), vec![stat(FileType::Symlink, 0o120777, 0, 0)]);
    assert_eq!(asked, vec![Op::Lstat(s("/x"))]);
    assert_eq!(
        last,
        Next::Fail(error(
            ErrorKind::Other,
            "The `/x` dir can't be a symlink. Please run `unlink /x`"
        ))
    );
}

#[test]
fn safe_ensure_dir_refuses_a_file() {
    let (_, last) =
        drive(&|r| safe_ensure_dir("/x", r), vec![stat(FileType::Regular, 0o100644, 0, 0)]);
    assert_eq!(
        last,
        Next::Fail(error(ErrorKind::Other, "The `/x` must be a directory. Please run `unlink /x`"))
    );
    let (_, last) =
        drive(&|r| safe_ensure_dir("/x", r), vec![stat(FileType::Other, 0o10644, 0, 0)]);
    assert_eq!(
        last,
        Next::Fail(error(ErrorKind::Other, "The `/x` must be a directory. Please run `unlink /x`"))
    );
}

#[test]
fn safe_ensure_dir_keeps_a_directory() {
    let (asked, last) =
        drive(&|r| safe_ensure_dir("/x", r), vec![stat(FileType::Directory, 0o40700, 5, 6)]);
    assert_eq!(asked.len(), 1);
    assert_eq!(last, Next::Done(()));
}

#[test]
fn safe_ensure_dir_creates_what_is_missing() {
    let script = vec![failed(ErrorKind::NotFound, "No such file"), Reply::Done];
    let (asked, last) = drive(&|r| safe_ensure_dir("/x", r), script);
    assert_eq!(
        asked,
        vec![Op::Lstat(s("/x")), Op::CreateDir { path: s("/x"), recursive: false }]
    );
    assert_eq!(last, Next::Done(()));
}

#[test]
fn safe_ensure_dir_explains_failures() {
    let script =
        vec![failed(ErrorKind::NotFound, "No such file"), failed(ErrorKind::Other, "Read-only")];
    let (_, last) = drive(&|r| safe_ensure_dir("/my dir", r), script);
    assert_eq!(last, Next::Fail(error(ErrorKind::Other, "Can't create \"/my dir\": Read-only")));
    let script = vec![failed(ErrorKind::PermissionDenied, "Permission denied")];
    let (_, last) = drive(&|r| safe_ensure_dir("/x", r), script);
    assert_eq!(last, Next::Fail(error(ErrorKind::Other, "Can't stat `/x`: Permission denied")));
    let (_, last) = drive(&|r| safe_ensure_dir("/x", r), vec![Reply::Done]);
    assert_eq!(last, Next::Fail(unexpected()));
}

fn entry(name: Option<&str>, path: &str) -> DirEntry {
    DirEntry { name: name.map(|n| n.to_string()), path: s(path) }
}

#[test]
fn read_visible_entries_drops_dot_names() {
    let entries = vec![
        entry(Some(".git"), "/d/.git"),
        entry(Some("src"), "/d/src"),
        entry(None, "/d/\u{fffd}x"),
        entry(Some("..data"), "/d/..data"),
        entry(Some("a.b"), "/d/a.b"),
        entry(Some("."), "/d/."),
    ];
    assert_eq!(read_visible_entries(&entries), vec![s("/d/src"), s("/d/\u{fffd}x"), s("/d/a.b")]);
    assert_eq!(read_visible_entries(&vec![]), Vec::<String>::new());
    assert_eq!(read_visible_entries(&vec![entry(Some(".x"), "/.x")]), Vec::<String>::new());
}

#[test]
fn ensure_symlink_succeeds_on_a_fresh_link() {
    let (asked, last) = drive(&|r| ensure_symlink("/t", "/l", r), vec![Reply::Done]);
    assert_eq!(asked, vec![Op::Symlink { target: s("/t"), link: s("/l") }]);
    assert_eq!(last, Next::Done(()));
}

#[test]
fn ensure_symlink_accepts_a_link_that_is_right() {
    let exists = || failed(ErrorKind::AlreadyExists, "File exists");
    let (asked, last) =
        drive(&|r| ensure_symlink("/usr/lib", "/l", r), vec![exists(), Reply::Text(s("/usr/lib"))]);
    assert_eq!(
        asked,
        vec![Op::Symlink { target: s("/usr/lib"), link: s("/l") }, Op::ReadLink(s("/l"))]
    );
    assert_eq!(last, Next::Done(()));
    // Paths are compared as paths, not as texts.
    let (_, last) =
        drive(&|r| ensure_symlink("/usr/lib", "/l", r), vec![exists(), Reply::Text(s("/usr//lib/"))]);
    assert_eq!(last, Next::Done(()));
}

#[test]
fn ensure_symlink_fails_on_a_link_that_points_elsewhere() {
    let exists = || failed(ErrorKind::AlreadyExists, "File exists");
    let (asked, last) =
        drive(&|r| ensure_symlink("/usr/lib", "/l", r), vec![exists(), Reply::Text(s("/usr/lib64"))]);
    assert_eq!(asked.len(), 2);
    assert_eq!(last, Next::Fail(error(ErrorKind::AlreadyExists, "File exists")));
}

#[test]
fn ensure_symlink_reports_other_failures_as_they_came() {
    let (asked, last) =
        drive(&|r| ensure_symlink("/t", "/l", r), vec![failed(ErrorKind::PermissionDenied, "no")]);
    assert_eq!(asked.len(), 1);
    assert_eq!(last, Next::Fail(error(ErrorKind::PermissionDenied, "no")));
}

#[test]
fn ensure_symlink_keeps_the_first_failure_where_no_link_is_there() {
    // A regular file or a directory is at the link path: reading it as a
    // link fails, and the failure of the creation is what comes back.
    let script =
        vec![failed(ErrorKind::AlreadyExists, "File exists"), failed(ErrorKind::InvalidInput, "not a link")];
    let (asked, last) = drive(&|r| ensure_symlink("/t", "/l", r), script);
    assert_eq!(asked, vec![Op::Symlink { target: s("/t"), link: s("/l") }, Op::ReadLink(s("/l"))]);
    assert_eq!(last, Next::Fail(error(ErrorKind::AlreadyExists, "File exists")));
    let script = vec![failed(ErrorKind::AlreadyExists, "File exists"), Reply::Flag(true)];
    let (_, last) = drive(&|r| ensure_symlink("/t", "/l", r), script);
    assert_eq!(last, Next::Fail(error(ErrorKind::AlreadyExists, "File exists")));
}

#[test]
fn force_symlink_renames_a_temporary_link() {
    let (asked, last) =
        drive(&|r| force_symlink("/target", "/a/link", r), vec![Reply::Done, Reply::Done]);
    assert_eq!(
        asked,
        vec![
            Op::Symlink { target: s("/target"), link: s("/a/link..vagga.tmp.link~") },
            Op::Rename { from: s("/a/link..vagga.tmp.link~"), to: s("/a/link") },
        ]
    );
    assert_eq!(last, Next::Done(()));
    let (asked, _) = drive(&|r| force_symlink("t", "/a/b.txt", r), vec![Reply::Done]);
    assert_eq!(asked, vec![Op::Symlink { target: s("t"), link: s("/a/b..vagga.tmp.link~") }]);
}

#[test]
fn force_symlink_twice_asks_the_same() {
    let script = || vec![Reply::Done, Reply::Done];
    let first = drive(&|r| force_symlink("/target", "/a/link", r), script());
    let second = drive(&|r| force_symlink("/target", "/a/link", r), script());
    assert_eq!(first, second);
}

#[test]
fn force_symlink_never_renames_after_a_failure() {
    let (asked, last) = drive(
        &|r| force_symlink("/target", "/a/link", r),
        vec![failed(ErrorKind::PermissionDenied, "denied")],
    );
    assert_eq!(asked.len(), 1);
    assert_eq!(last, Next::Fail(error(ErrorKind::PermissionDenied, "denied")));
    let (asked, last) = drive(
        &|r| force_symlink("/target", "/a/link", r),
        vec![Reply::Done, failed(ErrorKind::Other, "busy")],
    );
    assert_eq!(asked.len(), 2);
    assert_eq!(last, Next::Fail(error(ErrorKind::Other, "busy")));
}

#[test]
fn force_symlink_clears_a_stale_temporary_link() {
    // An earlier call was interrupted between its two steps.
    let script = vec![
        failed(ErrorKind::AlreadyExists, "File exists"),
        Reply::Done,
        Reply::Done,
        Reply::Done,
    ];
    let (asked, last) = drive(&|r| force_symlink("/target", "/a/link", r), script);
    assert_eq!(
        asked,
        vec![
            Op::Symlink { target: s("/target"), link: s("/a/link..vagga.tmp.link~") },
            Op::Remove(s("/a/link..vagga.tmp.link~")),
            Op::Symlink { target: s("/target"), link: s("/a/link..vagga.tmp.link~") },
            Op::Rename { from: s("/a/link..vagga.tmp.link~"), to: s("/a/link") },
        ]
    );
    assert_eq!(last, Next::Done(()));
}

#[test]
fn force_symlink_reports_what_keeps_it_from_clearing() {
    let exists = || failed(ErrorKind::AlreadyExists, "File exists");
    let script = vec![exists(), failed(ErrorKind::PermissionDenied, "denied")];
    let (asked, last) = drive(&|r| force_symlink("/target", "/a/link", r), script);
    assert_eq!(asked.len(), 2);
    assert_eq!(last, Next::Fail(error(ErrorKind::PermissionDenied, "denied")));
    let script = vec![exists(), Reply::Done, exists()];
    let (asked, last) = drive(&|r| force_symlink("/target", "/a/link", r), script);
    assert_eq!(asked.len(), 3);
    assert_eq!(last, Next::Fail(error(ErrorKind::AlreadyExists, "File exists")));
    let script = vec![exists(), Reply::Done, Reply::Done, failed(ErrorKind::Other, "busy")];
    let (_, last) = drive(&|r| force_symlink("/target", "/a/link", r), script);
    assert_eq!(last, Next::Fail(error(ErrorKind::Other, "busy")));
}

#[test]
fn force_symlink_never_removes_the_link_itself() {
    // A path without a file name has no temporary name of its own.
    let (asked, last) = drive(
        &|r| force_symlink("/target", "/", r),
        vec![failed(ErrorKind::AlreadyExists, "File exists")],
    );
    assert_eq!(asked, vec![Op::Symlink { target: s("/target"), link: s("/") }]);
    assert_eq!(last, Next::Fail(error(ErrorKind::AlreadyExists, "File exists")));
}

#[test]
fn after_read_decides_by_the_outcome() {
    assert_eq!(after_read(&Ok(0)), ReadStep::Finish);
    assert_eq!(after_read(&Ok(1)), ReadStep::Write(1));
    assert_eq!(after_read(&Ok(COPY_BUFFER_SIZE)), ReadStep::Write(32768));
    assert_eq!(after_read(&Err(error(ErrorKind::Interrupted, "EINTR"))), ReadStep::Retry);
    assert_eq!(
        after_read(&Err(error(ErrorKind::Other, "EIO"))),
        ReadStep::Fail(error(ErrorKind::Other, "EIO"))
    );
}

#[test]
fn copy_streams_and_then_sets_the_mode() {
    let script = vec![Reply::Flag(true), stat(FileType::Regular, 0o100640, 1, 2), Reply::Done];
    let (asked, last) = drive(&|r| copy("/src/f", "/dst/f", r), script);
    assert_eq!(
        asked,
        vec![
            Op::IsFile(s("/src/f")),
            Op::CopyContents { from: s("/src/f"), to: s("/dst/f") },
            Op::Chmod { path: s("/dst/f"), mode: 0o100640 },
        ]
    );
    assert_eq!(last, Next::Done(()));
}

#[test]
fn copy_refuses_what_is_no_regular_file() {
    let (asked, last) = drive(&|r| copy("/src/d", "/dst/d", r), vec![Reply::Flag(false)]);
    assert_eq!(asked.len(), 1);
    assert_eq!(
        last,
        Next::Fail(error(
            ErrorKind::InvalidInput,
            "the source path is not an existing regular file"
        ))
    );
}

#[test]
fn copy_reports_failures() {
    let script = vec![Reply::Flag(true), failed(ErrorKind::NotFound, "gone")];
    let (_, last) = drive(&|r| copy("/a", "/b", r), script);
    assert_eq!(last, Next::Fail(error(ErrorKind::NotFound, "gone")));
    let script =
        vec![Reply::Flag(true), stat(FileType::Regular, 0o644, 0, 0), failed(ErrorKind::Other, "x")];
    let (_, last) = drive(&|r| copy("/a", "/b", r), script);
    assert_eq!(last, Next::Fail(error(ErrorKind::Other, "x")));
    let (_, last) = drive(&|r| copy("/a", "/b", r), vec![Reply::Flag(true), Reply::Done]);
    assert_eq!(last, Next::Fail(unexpected()));
}

#[test]
fn set_owner_group_swallows_failures() {
    let (asked, last) = drive(
        &|r| set_owner_group("/f", 1000, 100, r),
        vec![failed(ErrorKind::PermissionDenied, "Operation not permitted")],
    );
    assert_eq!(asked, vec![Op::Lchown { path: s("/f"), uid: 1000, gid: 100 }]);
    assert_eq!(last, Next::Done(()));
    let (_, last) = drive(&|r| set_owner_group("/f", 0, 0, r), vec![Reply::Done]);
    assert_eq!(last, Next::Done(()));
}

#[test]
fn effective_owner_prefers_the_override() {
    assert_eq!(effective(Some(7), 1000), 7);
    assert_eq!(effective(None, 1000), 1000);
    assert_eq!(effective(Some(0), 1000), 0);
}

#[test]
fn shallow_copy_leaves_an_existing_directory_alone() {
    let script =
        vec![stat(FileType::Directory, 0o40750, 10, 20), stat(FileType::Directory, 0o40700, 0, 0)];
    let (asked, last) = drive(&|r| shallow_copy("/s/d", "/t/d", Some(1), Some(2), r), script);
    assert_eq!(asked, vec![Op::Lstat(s("/s/d")), Op::Lstat(s("/t/d"))]);
    assert_eq!(last, Next::Done(false));
}

#[test]
fn shallow_copy_makes_a_new_directory_like_the_source() {
    let script = vec![
        stat(FileType::Directory, 0o40750, 10, 20),
        failed(ErrorKind::NotFound, "No such file"),
        Reply::Done,
        Reply::Done,
        Reply::Done,
    ];
    let (asked, last) = drive(&|r| shallow_copy("/s/d", "/t/d", None, None, r), script);
    assert_eq!(
        asked,
        vec![
            Op::Lstat(s("/s/d")),
            Op::Lstat(s("/t/d")),
            Op::Mkdir(s("/t/d")),
            Op::Chmod { path: s("/t/d"), mode: 0o40750 },
            Op::SetOwnerGroup { path: s("/t/d"), uid: 10, gid: 20 },
        ]
    );
    assert_eq!(last, Next::Done(false));
}

#[test]
fn shallow_copy_replaces_a_symlink() {
    let script = vec![
        stat(FileType::Symlink, 0o120777, 10, 20),
        Reply::Text(s("../lib/x.so")),
        Reply::Done,
        Reply::Done,
    ];
    let (asked, last) = drive(&|r| shallow_copy("/s/l", "/t/l", Some(0), None, r), script);
    assert_eq!(
        asked,
        vec![
            Op::Lstat(s("/s/l")),
            Op::ReadLink(s("/s/l")),
            Op::ForceSymlink { target: s("../lib/x.so"), link: s("/t/l") },
            Op::SetOwnerGroup { path: s("/t/l"), uid: 0, gid: 20 },
        ]
    );
    assert_eq!(last, Next::Done(true));
}

#[test]
fn shallow_copy_copies_a_file() {
    let script = vec![stat(FileType::Regular, 0o100644, 10, 20), Reply::Done, Reply::Done];
    let (asked, last) = drive(&|r| shallow_copy("/s/f", "/t/f", None, Some(5), r), script);
    assert_eq!(
        asked,
        vec![
            Op::Lstat(s("/s/f")),
            Op::Copy { from: s("/s/f"), to: s("/t/f") },
            Op::SetOwnerGroup { path: s("/t/f"), uid: 10, gid: 5 },
        ]
    );
    assert_eq!(last, Next::Done(true));
}

#[test]
fn shallow_copy_goes_on_without_the_owner() {
    let denied = || failed(ErrorKind::PermissionDenied, "Operation not permitted");
    let script = vec![stat(FileType::Regular, 0o100644, 10, 20), Reply::Done, denied()];
    let (asked, last) = drive(&|r| shallow_copy("/s/f", "/t/f", None, None, r), script);
    assert_eq!(asked.len(), 3);
    assert_eq!(last, Next::Done(true));
    let script = vec![
        stat(FileType::Symlink, 0o120777, 10, 20),
        Reply::Text(s("x")),
        Reply::Done,
        denied(),
    ];
    let (_, last) = drive(&|r| shallow_copy("/s/l", "/t/l", None, None, r), script);
    assert_eq!(last, Next::Done(true));
    let script = vec![
        stat(FileType::Directory, 0o40755, 10, 20),
        failed(ErrorKind::NotFound, "No such file"),
        Reply::Done,
        Reply::Done,
        denied(),
    ];
    let (_, last) = drive(&|r| shallow_copy("/s/d", "/t/d", None, None, r), script);
    assert_eq!(last, Next::Done(false));
}

#[test]
fn shallow_copy_of_a_special_file_is_tried_as_a_file() {
    let script = vec![
        stat(FileType::Other, 0o10644, 0, 0),
        failed(ErrorKind::InvalidInput, "the source path is not an existing regular file"),
    ];
    let (asked, last) = drive(&|r| shallow_copy("/s/p", "/t/p", None, None, r), script);
    assert_eq!(asked[1], Op::Copy { from: s("/s/p"), to: s("/t/p") });
    assert_eq!(
        last,
        Next::Fail(error(
            ErrorKind::InvalidInput,
            "the source path is not an existing regular file"
        ))
    );
}

#[test]
fn shallow_copy_reports_failures() {
    let (_, last) = drive(
        &|r| shallow_copy("/s", "/t", None, None, r),
        vec![failed(ErrorKind::NotFound, "gone")],
    );
    assert_eq!(last, Next::Fail(error(ErrorKind::NotFound, "gone")));
    let script = vec![stat(FileType::Symlink, 0o120777, 0, 0), failed(ErrorKind::Other, "EIO")];
    let (_, last) = drive(&|r| shallow_copy("/s", "/t", None, None, r), script);
    assert_eq!(last, Next::Fail(error(ErrorKind::Other, "EIO")));
    let script = vec![
        stat(FileType::Directory, 0o40755, 0, 0),
        failed(ErrorKind::NotFound, "none"),
        failed(ErrorKind::PermissionDenied, "mkdir"),
    ];
    let (_, last) = drive(&|r| shallow_copy("/s", "/t", None, None, r), script);
    assert_eq!(last, Next::Fail(error(ErrorKind::PermissionDenied, "mkdir")));
    let (_, last) = drive(&|r| shallow_copy("/s", "/t", None, None, r), vec![Reply::Flag(true)]);
    assert_eq!(last, Next::Fail(unexpected()));
}

#[test]
fn lock_is_taken_without_waiting() {
    let (asked, last) = drive(&|r| Lock::exclusive("/run/lock", r), vec![Reply::Done, Reply::Done]);
    assert_eq!(
        asked,
        vec![
            Op::OpenLockFile(s("/run/lock")),
            Op::Flock { path: s("/run/lock"), mode: FlockMode::ExclusiveNonblock },
        ]
    );
    match last {
        Next::Done(lock) => assert_eq!(lock.path(), "/run/lock"),
        other => panic!("unexpected {:?}", other),
    }
}

#[test]
fn second_lock_fails_at_once_and_succeeds_after_release() {
    let (_, first) = drive(&|r| Lock::exclusive("/run/lock", r), vec![Reply::Done, Reply::Done]);
    let held = match first {
        Next::Done(lock) => lock,
        other => panic!("unexpected {:?}", other),
    };
    let busy = failed(ErrorKind::WouldBlock, "Resource temporarily unavailable");
    let (asked, second) = drive(&|r| Lock::exclusive("/run/lock", r), vec![Reply::Done, busy]);
    assert_eq!(asked.len(), 2);
    assert_eq!(
        second,
        Next::Fail(error(ErrorKind::WouldBlock, "Resource temporarily unavailable"))
    );
    let (asked, released) = drive(&|r| held.release(r), vec![failed(ErrorKind::Other, "EBADF")]);
    assert_eq!(asked, vec![Op::Flock { path: s("/run/lock"), mode: FlockMode::Unlock }]);
    assert_eq!(released, Next::Done(()));
    let (_, third) = drive(&|r| Lock::exclusive("/run/lock", r), vec![Reply::Done, Reply::Done]);
    assert!(matches!(third, Next::Done(_)));
}

#[test]
fn lock_file_that_cannot_be_opened_fails() {
    let (asked, last) = drive(
        &|r| Lock::exclusive("/run/lock", r),
        vec![failed(ErrorKind::PermissionDenied, "denied")],
    );
    assert_eq!(asked.len(), 1);
    assert_eq!(last, Next::Fail(error(ErrorKind::PermissionDenied, "denied")));
}
