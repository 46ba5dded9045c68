//! Requests to the operating system, its replies, and the step type.
//!
//! An operation of this crate is called with the replies received so far. It
//! answers with the next request, or with its result once it has seen enough.
//! The driver performs the request, appends the reply and calls again.
//!
//! Every operation is total in the replies. Where a request has nothing to
//! report, any reply but a failure counts as success; a yes-or-no question is
//! answered "no" by any reply but a flag; and where a value is asked for, a
//! reply of another shape ends the operation with [`unexpected_reply`],
//! unless the operation names another failure for it.

use vstd::prelude::*;
use crate::error::{ErrorKind, IoError, IoErrorView};
use crate::gem::Package;
use crate::text::texts;

verus! {

/// What kind of entry a path names.
#[derive(Clone, Copy, Debug, PartialEq, Eq, Structural)]
pub enum FileType {
    Directory,
    Symlink,
    Regular,
    Other,
}

/// Metadata of an entry, read without following a final symlink.
#[derive(Clone, Copy, Debug, PartialEq, Eq, Structural)]
pub struct Stat {
    pub file_type: FileType,
    pub mode: u32,
    pub uid: u32,
    pub gid: u32,
}

/// How an advisory lock on a whole file is taken or given up.
#[derive(Clone, Copy, Debug, PartialEq, Eq, Structural)]
pub enum FlockMode {
    /// Exclusive, failing at once where another holder has the lock.
    ExclusiveNonblock,
    /// Give the lock up.
    Unlock,
}

/// A request to the driver.
#[derive(Debug, PartialEq, Eq)]
#[allow(inconsistent_fields)]
pub enum Op {
    /// Does the path name a directory? Answered by a flag.
    IsDir(String),
    /// Does the path name a regular file? Answered by a flag.
    IsFile(String),
    /// Does the path name anything? Answered by a flag.
    Exists(String),
    /// Metadata of the entry itself, not of what a symlink points at.
    Lstat(String),
    /// The target of a symlink, answered by a text.
    ReadLink(String),
    /// Create one directory.
    Mkdir(String),
    /// Create a directory and every missing ancestor.
    MkdirAll(String),
    /// Set the permission bits of an entry.
    Chmod { path: String, mode: u32 },
    /// Create a symlink at `link` that points at `target`.
    Symlink { target: String, link: String },
    /// Rename `from` onto `to`, replacing what is there.
    Rename { from: String, to: String },
    /// Remove the entry at the path, which is no directory.
    Remove(String),
    /// Set owner and group of the entry itself.
    Lchown { path: String, uid: u32, gid: u32 },
    /// Stream the bytes of `from` into a newly created `to`, consulting
    /// [`crate::copy::after_read`] on every read; answered by the metadata of
    /// `from`.
    CopyContents { from: String, to: String },
    /// Create or truncate the file that a lock is taken on, and keep it open.
    OpenLockFile(String),
    /// Change the advisory lock on the open lock file.
    Flock { path: String, mode: FlockMode },
    /// Make `source` visible at `target`.
    BindMount { source: String, target: String },
    /// Remove the mount at the path.
    Unmount(String),
    /// Run a program with no input and wait for it; answered by its exit.
    Run { program: String, args: Vec<String> },
    /// Run [`crate::dirs::create_dir`] to its end.
    CreateDir { path: String, recursive: bool },
    /// Run [`crate::links::force_symlink`] to its end.
    ForceSymlink { target: String, link: String },
    /// Run [`crate::copy::copy`] to its end.
    Copy { from: String, to: String },
    /// Run [`crate::copy::set_owner_group`] to its end.
    SetOwnerGroup { path: String, uid: u32, gid: u32 },
    /// Run [`crate::tar::unpack_file`] to its end.
    UnpackFile { src: String, tgt: String, includes: Vec<String>, excludes: Vec<String> },
    /// List a directory and run [`crate::dirs::read_visible_entries`] on it;
    /// answered by the paths that are left.
    VisibleEntries(String),
    /// Fetch a remote archive; answered by the path of the local copy.
    Download(String),
    /// Run a command line in the container with `workdir` as its directory
    /// and with the variables `env`, each written `NAME=value`, added to its
    /// environment.
    RunAt { args: Vec<String>, workdir: String, env: Vec<String> },
    /// Run a command line in the container; answered by what it printed.
    Capture { args: Vec<String> },
    /// Is the version, read as a floating-point number, below
    /// `major.minor`? Answered by a flag, or by the failure to read it.
    VersionBelow { version: String, major: u32, minor: u32 },
    /// Register a directory as a cache shared between builds.
    AddCacheDir { path: String, name: String },
    /// Have the distribution install what these features need.
    EnsurePackages(Vec<Package>),
    /// Run [`crate::gem::configure`] to its end.
    GemConfigure,
    /// Find a program and set up a command in the container for it.
    PrepareCommand(String),
    /// Run the command that was set up, with these arguments.
    RunPrepared { program: String, args: Vec<String> },
    /// Run the command that was set up, with these arguments; answered by
    /// what it printed.
    CapturePrepared { program: String, args: Vec<String> },
    /// Read a file as text.
    ReadText(String),
    /// Create a file with these bytes.
    WriteFile { path: String, data: Vec<u8> },
    /// Parse the command line of the image packer; answered by its options,
    /// or by the exit code to end with.
    ParsePackOptions(Vec<String>),
    /// Build a container; answered by the version that was built.
    BuildContainer { name: String, build_mode: String },
    /// Set up the privileged helper for a version of a container, with the
    /// users of that container mapped.
    PrepareWrapper { version: String, container: String },
    /// Run the helper that was set up, in the group `gid` and with no further
    /// groups; answered by its exit code.
    RunWrapper { gid: u32, args: Vec<String> },
}

/// Mathematical model of [`Op`].
#[allow(inconsistent_fields)]
pub ghost enum OpView {
    IsDir(Seq<char>),
    IsFile(Seq<char>),
    Exists(Seq<char>),
    Lstat(Seq<char>),
    ReadLink(Seq<char>),
    Mkdir(Seq<char>),
    MkdirAll(Seq<char>),
    Chmod { path: Seq<char>, mode: u32 },
    Symlink { target: Seq<char>, link: Seq<char> },
    Rename { from: Seq<char>, to: Seq<char> },
    Remove(Seq<char>),
    Lchown { path: Seq<char>, uid: u32, gid: u32 },
    CopyContents { from: Seq<char>, to: Seq<char> },
    OpenLockFile(Seq<char>),
    Flock { path: Seq<char>, mode: FlockMode },
    BindMount { source: Seq<char>, target: Seq<char> },
    Unmount(Seq<char>),
    Run { program: Seq<char>, args: Seq<Seq<char>> },
    CreateDir { path: Seq<char>, recursive: bool },
    ForceSymlink { target: Seq<char>, link: Seq<char> },
    Copy { from: Seq<char>, to: Seq<char> },
    SetOwnerGroup { path: Seq<char>, uid: u32, gid: u32 },
    UnpackFile {
        src: Seq<char>,
        tgt: Seq<char>,
        includes: Seq<Seq<char>>,
        excludes: Seq<Seq<char>>,
    },
    VisibleEntries(Seq<char>),
    Download(Seq<char>),
    RunAt { args: Seq<Seq<char>>, workdir: Seq<char>, env: Seq<Seq<char>> },
    Capture { args: Seq<Seq<char>> },
    VersionBelow { version: Seq<char>, major: u32, minor: u32 },
    AddCacheDir { path: Seq<char>, name: Seq<char> },
    EnsurePackages(Seq<Package>),
    GemConfigure,
    PrepareCommand(Seq<char>),
    RunPrepared { program: Seq<char>, args: Seq<Seq<char>> },
    CapturePrepared { program: Seq<char>, args: Seq<Seq<char>> },
    ReadText(Seq<char>),
    WriteFile { path: Seq<char>, data: Seq<u8> },
    ParsePackOptions(Seq<Seq<char>>),
    BuildContainer { name: Seq<char>, build_mode: Seq<char> },
    PrepareWrapper { version: Seq<char>, container: Seq<char> },
    RunWrapper { gid: u32, args: Seq<Seq<char>> },
}

impl View for Op {
    type V = OpView;

    open spec fn view(&self) -> OpView {
        match self {
            Op::IsDir(p) => OpView::IsDir(p@),
            Op::IsFile(p) => OpView::IsFile(p@),
            Op::Exists(p) => OpView::Exists(p@),
            Op::Lstat(p) => OpView::Lstat(p@),
            Op::ReadLink(p) => OpView::ReadLink(p@),
            Op::Mkdir(p) => OpView::Mkdir(p@),
            Op::MkdirAll(p) => OpView::MkdirAll(p@),
            Op::Chmod { path, mode } => OpView::Chmod { path: path@, mode: *mode },
            Op::Symlink { target, link } => OpView::Symlink { target: target@, link: link@ },
            Op::Rename { from, to } => OpView::Rename { from: from@, to: to@ },
            Op::Remove(p) => OpView::Remove(p@),
            Op::Lchown { path, uid, gid } => OpView::Lchown { path: path@, uid: *uid, gid: *gid },
            Op::CopyContents { from, to } => OpView::CopyContents { from: from@, to: to@ },
            Op::OpenLockFile(p) => OpView::OpenLockFile(p@),
            Op::Flock { path, mode } => OpView::Flock { path: path@, mode: *mode },
            Op::BindMount { source, target } => OpView::BindMount {
                source: source@,
                target: target@,
            },
            Op::Unmount(p) => OpView::Unmount(p@),
            Op::Run { program, args } => OpView::Run { program: program@, args: texts(args@) },
            Op::CreateDir { path, recursive } => OpView::CreateDir {
                path: path@,
                recursive: *recursive,
            },
            Op::ForceSymlink { target, link } => OpView::ForceSymlink {
                target: target@,
                link: link@,
            },
            Op::Copy { from, to } => OpView::Copy { from: from@, to: to@ },
            Op::SetOwnerGroup { path, uid, gid } => OpView::SetOwnerGroup {
                path: path@,
                uid: *uid,
                gid: *gid,
            },
            Op::UnpackFile { src, tgt, includes, excludes } => OpView::UnpackFile {
                src: src@,
                tgt: tgt@,
                includes: texts(includes@),
                excludes: texts(excludes@),
            },
            Op::VisibleEntries(p) => OpView::VisibleEntries(p@),
            Op::Download(p) => OpView::Download(p@),
            Op::RunAt { args, workdir, env } => OpView::RunAt {
                args: texts(args@),
                workdir: workdir@,
                env: texts(env@),
            },
            Op::Capture { args } => OpView::Capture { args: texts(args@) },
            Op::VersionBelow { version, major, minor } => OpView::VersionBelow {
                version: version@,
                major: *major,
                minor: *minor,
            },
            Op::AddCacheDir { path, name } => OpView::AddCacheDir { path: path@, name: name@ },
            Op::EnsurePackages(features) => OpView::EnsurePackages(features@),
            Op::GemConfigure => OpView::GemConfigure,
            Op::PrepareCommand(p) => OpView::PrepareCommand(p@),
            Op::RunPrepared { program, args } => OpView::RunPrepared {
                program: program@,
                args: texts(args@),
            },
            Op::CapturePrepared { program, args } => OpView::CapturePrepared {
                program: program@,
                args: texts(args@),
            },
            Op::ReadText(p) => OpView::ReadText(p@),
            Op::WriteFile { path, data } => OpView::WriteFile { path: path@, data: data@ },
            Op::ParsePackOptions(line) => OpView::ParsePackOptions(texts(line@)),
            Op::BuildContainer { name, build_mode } => OpView::BuildContainer {
                name: name@,
                build_mode: build_mode@,
            },
            Op::PrepareWrapper { version, container } => OpView::PrepareWrapper {
                version: version@,
                container: container@,
            },
            Op::RunWrapper { gid, args } => OpView::RunWrapper { gid: *gid, args: texts(args@) },
        }
    }
}

impl OpView {
    /// Whether the request only reads: performing it changes nothing.
    pub open spec fn is_question(self) -> bool {
        self is IsDir || self is IsFile || self is Exists || self is Lstat || self is ReadLink
            || self is VisibleEntries || self is VersionBelow || self is ReadText
    }
}

/// What a driver reports back after performing a request.
#[derive(Debug, PartialEq, Eq)]
pub enum Reply {
    /// The request succeeded and has nothing to report.
    Done,
    /// The request failed.
    Failed(IoError),
    /// The answer to a yes-or-no question.
    Flag(bool),
    /// The metadata that was asked for.
    Stat(Stat),
    /// A path or another text.
    Text(String),
    /// A list of paths.
    Names(Vec<String>),
    /// How a program ended: whether it succeeded, and its status as a text.
    Exit { success: bool, status: String },
    /// Bytes: what a program printed.
    Data(Vec<u8>),
    /// An exit code.
    Code(i32),
    /// The options of the image packer: the container and how to build it.
    PackOptions { name: String, build_mode: String },
}

/// Mathematical model of [`Reply`].
pub ghost enum ReplyView {
    Done,
    Failed(IoErrorView),
    Flag(bool),
    Stat(Stat),
    Text(Seq<char>),
    Names(Seq<Seq<char>>),
    Exit { success: bool, status: Seq<char> },
    Data(Seq<u8>),
    Code(i32),
    PackOptions { name: Seq<char>, build_mode: Seq<char> },
}

impl View for Reply {
    type V = ReplyView;

    open spec fn view(&self) -> ReplyView {
        match self {
            Reply::Done => ReplyView::Done,
            Reply::Failed(e) => ReplyView::Failed(e@),
            Reply::Flag(b) => ReplyView::Flag(*b),
            Reply::Stat(s) => ReplyView::Stat(*s),
            Reply::Text(t) => ReplyView::Text(t@),
            Reply::Names(n) => ReplyView::Names(texts(n@)),
            Reply::Exit { success, status } => ReplyView::Exit {
                success: *success,
                status: status@,
            },
            Reply::Data(d) => ReplyView::Data(d@),
            Reply::Code(c) => ReplyView::Code(*c),
            Reply::PackOptions { name, build_mode } => ReplyView::PackOptions {
                name: name@,
                build_mode: build_mode@,
            },
        }
    }
}

impl ReplyView {
    /// The answer to a yes-or-no question; any other reply counts as no.
    pub open spec fn flag(self) -> bool {
        self matches ReplyView::Flag(b) && b
    }

    /// The failure that a failed request reported.
    pub open spec fn error(self) -> IoErrorView
        recommends
            self is Failed,
    {
        self->Failed_0
    }
}

impl Reply {
    /// The answer to a yes-or-no question; any other reply counts as no.
    pub fn flag(&self) -> (r: bool)
        ensures
            r == self@.flag(),
    {
        match self {
            Reply::Flag(b) => *b,
            _ => false,
        }
    }
}

/// The replies received so far, as models.
pub open spec fn history(replies: Seq<Reply>) -> Seq<ReplyView> {
    replies.map_values(|r: Reply| r@)
}

/// The models of a list of requests.
pub open spec fn op_views(ops: Seq<Op>) -> Seq<OpView> {
    ops.map_values(|o: Op| o@)
}

/// The failure reported where a reply does not answer the request.
pub open spec fn unexpected_reply() -> IoErrorView {
    IoErrorView { kind: ErrorKind::InvalidData, message: "unexpected reply"@ }
}

/// The failure reported where a reply does not answer the request.
pub fn unexpected() -> (r: IoError)
    ensures
        r@ == unexpected_reply(),
{
    IoError::new(ErrorKind::InvalidData, "unexpected reply")
}

/// What an operation wants next: a request performed, or nothing more.
#[derive(Debug, PartialEq, Eq)]
pub enum Next<T> {
    /// Perform this request and call again with its reply appended.
    Ask(Op),
    /// The operation has succeeded with this value.
    Done(T),
    /// The operation has failed.
    Fail(IoError),
}

/// Mathematical model of [`Next`].
pub ghost enum NextView<V> {
    Ask(OpView),
    Done(V),
    Fail(IoErrorView),
}

impl<T: View> View for Next<T> {
    type V = NextView<T::V>;

    open spec fn view(&self) -> NextView<T::V> {
        match self {
            Next::Ask(op) => NextView::Ask(op@),
            Next::Done(v) => NextView::Done(v@),
            Next::Fail(e) => NextView::Fail(e@),
        }
    }
}

/// What a part of an operation has come to.
#[derive(Debug, PartialEq, Eq)]
pub enum Part<T> {
    /// The part has given this value, and the replies from this index on are
    /// for what follows.
    Ready(T, usize),
    /// The part wants a request performed, or the operation has failed in it.
    Pending(Next<()>),
}

/// Mathematical model of [`Part`].
pub ghost enum PartView<V> {
    Ready(V, int),
    Pending(NextView<()>),
}

impl<T: View> View for Part<T> {
    type V = PartView<T::V>;

    open spec fn view(&self) -> PartView<T::V> {
        match self {
            Part::Ready(v, next) => PartView::Ready(v@, *next as int),
            Part::Pending(next) => PartView::Pending(next@),
        }
    }
}

/// The plan that makes the requests `ops[i..]` in order, request `j` answered
/// by the reply at index `at + j`, and stops at the first that fails.
pub open spec fn steps_from(ops: Seq<OpView>, h: Seq<ReplyView>, at: int, i: int) -> NextView<()>
    decreases ops.len() - i,
{
    if i >= ops.len() {
        NextView::Done(())
    } else if at + i >= h.len() {
        NextView::Ask(ops[i])
    } else {
        match h[at + i] {
            ReplyView::Failed(e) => NextView::Fail(e),
            _ => steps_from(ops, h, at, i + 1),
        }
    }
}

/// The plan that makes the requests `ops` in order, the first answered by the
/// reply at index `at`, and stops at the first that fails.
pub open spec fn steps_plan(ops: Seq<OpView>, h: Seq<ReplyView>, at: int) -> NextView<()> {
    steps_from(ops, h, at, 0)
}

/// Makes the requests `ops` in order, reading their replies from index `at`
/// of `replies`, and stops at the first that fails.
pub fn steps(ops: Vec<Op>, replies: &Vec<Reply>, at: usize) -> (next: Next<()>)
    ensures
        next@ == steps_plan(op_views(ops@), history(replies@), at as int),
{
    let ghost all = op_views(ops@);
    let ghost h = history(replies@);
    let mut rest = ops;
    let n: usize = rest.len();
    let avail: usize = if at <= replies.len() {
        replies.len() - at
    } else {
        0
    };
    let mut i: usize = 0;
    while i < n
        invariant
            i <= n,
            n == rest.len(),
            avail == (if at <= replies.len() { replies.len() - at } else { 0 }),
            rest@ == ops@,
            all == op_views(ops@),
            h == history(replies@),
            steps_plan(all, h, at as int) == steps_from(all, h, at as int, i as int),
        decreases n - i,
    {
        if avail <= i {
            assert(all[i as int] == rest@[i as int]@);
            let op = rest.remove(i);
            return Next::Ask(op);
        }
        assert(h[at + i] == replies@[at + i]@);
        match &replies[at + i] {
            Reply::Failed(e) => {
                return Next::Fail(e.clone());
            },
            _ => {},
        }
        i += 1;
    }
    Next::Done(())
}

} // verus!
