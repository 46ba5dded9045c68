//! Archives: the command line of the extraction tool, extraction of one
//! subtree through a bind mount, and extraction followed by a script.

use vstd::prelude::*;
use crate::error::{described, failure, prefixed, IoError, IoErrorView};
use crate::ops::{
    history, unexpected, unexpected_reply, Next, NextView, Op, OpView, Part, PartView, Reply,
    ReplyView,
};
use crate::path::{
    extension, file_name, join, path_extension, path_file_name, path_join, path_same,
    path_strip_prefix, same_path, strip_prefix,
};
use crate::text::{opt_text, push_all, same_text, starts_with, texts};

verus! {

/// The permission bits forced onto a fresh staging directory.
pub const STAGING_MODE: u32 = 0o755;

/// An archive to unpack into a directory of the container.
#[derive(Debug, PartialEq, Eq)]
pub struct TarInfo {
    /// A path in the working tree, if it begins with a dot; else a URL.
    pub url: String,
    /// The absolute path of the target directory inside the container.
    pub path: String,
    /// The subtree of the archive to extract; `.` or nothing for all of it.
    pub subdir: String,
}

/// Mathematical model of [`TarInfo`].
pub ghost struct TarInfoView {
    pub url: Seq<char>,
    pub path: Seq<char>,
    pub subdir: Seq<char>,
}

impl View for TarInfo {
    type V = TarInfoView;

    open spec fn view(&self) -> TarInfoView {
        TarInfoView { url: self.url@, path: self.path@, subdir: self.subdir@ }
    }
}

/// An archive to unpack and a script to run in what came out of it.
#[derive(Debug, PartialEq, Eq)]
pub struct TarInstallInfo {
    /// A path in the working tree, if it begins with a dot; else a URL.
    pub url: String,
    /// The directory of the archive to run the script in, if it is fixed.
    pub subdir: Option<String>,
    /// The shell script to run.
    pub script: String,
}

/// Mathematical model of [`TarInstallInfo`].
pub ghost struct TarInstallInfoView {
    pub url: Seq<char>,
    pub subdir: Option<Seq<char>>,
    pub script: Seq<char>,
}

impl View for TarInstallInfo {
    type V = TarInstallInfoView;

    open spec fn view(&self) -> TarInstallInfoView {
        TarInstallInfoView { url: self.url@, subdir: opt_text(self.subdir), script: self.script@ }
    }
}

/// The decompression flag that goes with a file extension.
pub open spec fn compression_flag_spec(ext: Option<Seq<char>>) -> Option<Seq<char>> {
    match ext {
        Some(e) => if e == "gz"@ || e == "tgz"@ {
            Some("-z"@)
        } else if e == "bz"@ || e == "tbz"@ {
            Some("-j"@)
        } else if e == "xz"@ || e == "txz"@ {
            Some("-J"@)
        } else {
            None
        },
        None => None,
    }
}

/// The decompression flag that goes with a file extension: gzip for `gz` and
/// `tgz`, bzip2 for `bz` and `tbz`, xz for `xz` and `txz`, none for the rest.
pub fn compression_flag(ext: &Option<String>) -> (r: Option<String>)
    ensures
        opt_text(r) == compression_flag_spec(opt_text(*ext)),
{
    match ext {
        Some(e) => {
            if same_text(e.as_str(), "gz") || same_text(e.as_str(), "tgz") {
                Some(String::from_str("-z"))
            } else if same_text(e.as_str(), "bz") || same_text(e.as_str(), "tbz") {
                Some(String::from_str("-j"))
            } else if same_text(e.as_str(), "xz") || same_text(e.as_str(), "txz") {
                Some(String::from_str("-J"))
            } else {
                None
            }
        },
        None => None,
    }
}

/// The arguments that exclude each of `excludes`.
pub open spec fn exclude_args(excludes: Seq<Seq<char>>) -> Seq<Seq<char>>
    decreases excludes.len(),
{
    if excludes.len() == 0 {
        Seq::empty()
    } else {
        exclude_args(excludes.drop_last()) + seq!["--exclude"@, excludes.last()]
    }
}

/// The decompression flag as a list of arguments.
pub open spec fn flag_args(flag: Option<Seq<char>>) -> Seq<Seq<char>> {
    match flag {
        Some(f) => seq![f],
        None => Seq::empty(),
    }
}

/// The arguments of the extraction tool: extract mode, the archive, the
/// output directory, the inclusions, the exclusions, the decompression flag.
pub open spec fn tar_args(
    src: Seq<char>,
    tgt: Seq<char>,
    includes: Seq<Seq<char>>,
    excludes: Seq<Seq<char>>,
) -> Seq<Seq<char>> {
    seq!["tar"@, "-x"@, "-f"@, src, "-C"@, tgt] + includes + exclude_args(excludes) + flag_args(
        compression_flag_spec(path_extension(src)),
    )
}

/// The plan of [`unpack_file`].
pub open spec fn unpack_file_plan(
    src: Seq<char>,
    tgt: Seq<char>,
    includes: Seq<Seq<char>>,
    excludes: Seq<Seq<char>>,
    h: Seq<ReplyView>,
) -> NextView<()> {
    if h.len() == 0 {
        NextView::Ask(
            OpView::Run {
                program: "/vagga/bin/busybox"@,
                args: tar_args(src, tgt, includes, excludes),
            },
        )
    } else {
        match h[0] {
            ReplyView::Exit { success, status } => if success {
                NextView::Done(())
            } else {
                NextView::Fail(failure("Tar exited with status: "@ + status))
            },
            ReplyView::Failed(e) => NextView::Fail(failure("Error running tar: "@ + e.message)),
            _ => NextView::Fail(unexpected_reply()),
        }
    }
}

/// Builds the arguments of the extraction tool.
fn build_tar_args(src: &str, tgt: &str, includes: &Vec<String>, excludes: &Vec<String>) -> (args:
    Vec<String>)
    ensures
        texts(args@) == tar_args(src@, tgt@, texts(includes@), texts(excludes@)),
{
    let mut args: Vec<String> = Vec::new();
    args.push(String::from_str("tar"));
    args.push(String::from_str("-x"));
    args.push(String::from_str("-f"));
    args.push(String::from_str(src));
    args.push(String::from_str("-C"));
    args.push(String::from_str(tgt));
    let ghost head = seq!["tar"@, "-x"@, "-f"@, src@, "-C"@, tgt@];
    assert(texts(args@) =~= head);
    push_all(&mut args, includes);
    let mut i: usize = 0;
    assert(exclude_args(texts(excludes@.take(0))) =~= Seq::<Seq<char>>::empty());
    assert(texts(args@) =~= head + texts(includes@) + exclude_args(texts(excludes@.take(0))));
    while i < excludes.len()
        invariant
            i <= excludes.len(),
            texts(args@) == head + texts(includes@) + exclude_args(
                texts(excludes@.take(i as int)),
            ),
        decreases excludes.len() - i,
    {
        let ghost before = texts(args@);
        let ghost done = texts(excludes@.take(i as int));
        let ghost more = texts(excludes@.take(i + 1));
        args.push(String::from_str("--exclude"));
        args.push(excludes[i].clone());
        proof {
            assert(more.drop_last() =~= done);
            assert(more.last() == excludes@[i as int]@);
            assert(texts(args@) =~= before + seq!["--exclude"@, excludes@[i as int]@]);
            assert(exclude_args(more) == exclude_args(done) + seq![
                "--exclude"@,
                excludes@[i as int]@,
            ]);
            assert(texts(args@) =~= head + texts(includes@) + exclude_args(more));
        }
        i += 1;
    }
    assert(excludes@.take(excludes.len() as int) =~= excludes@);
    let ghost body = texts(args@);
    let ext = extension(src);
    match compression_flag(&ext) {
        Some(flag) => {
            args.push(flag);
            assert(texts(args@) =~= body + seq![flag@]);
        },
        None => {
            assert(texts(args@) =~= body + Seq::<Seq<char>>::empty());
        },
    }
    args
}

/// Extracts the archive `src` into the directory `tgt` with the extraction
/// tool: only the entries `includes`, if there are any, and none of
/// `excludes`. The decompression flag goes by the extension of `src`. Fails
/// where the tool cannot be started or does not succeed.
pub fn unpack_file(
    src: &str,
    tgt: &str,
    includes: &Vec<String>,
    excludes: &Vec<String>,
    replies: &Vec<Reply>,
) -> (next: Next<()>)
    ensures
        next@ == unpack_file_plan(
            src@,
            tgt@,
            texts(includes@),
            texts(excludes@),
            history(replies@),
        ),
{
    if replies.len() == 0 {
        let args = build_tar_args(src, tgt, includes, excludes);
        return Next::Ask(Op::Run { program: String::from_str("/vagga/bin/busybox"), args });
    }
    match &replies[0] {
        Reply::Exit { success, status } => {
            if *success {
                Next::Done(())
            } else {
                Next::Fail(described("Tar exited with status: ", status.as_str()))
            }
        },
        Reply::Failed(e) => Next::Fail(prefixed("Error running tar: ", e)),
        _ => Next::Fail(unexpected()),
    }
}

/// Whether a location names a file of the working tree: it begins with a dot.
pub open spec fn is_local(url: Seq<char>) -> bool {
    url.len() > 0 && url[0] == '.'
}

/// The plan of [`resolve_source`].
pub open spec fn source_plan(url: Seq<char>, h: Seq<ReplyView>) -> PartView<Seq<char>> {
    if is_local(url) {
        PartView::Ready(path_join("/work"@, url), 0)
    } else if h.len() == 0 {
        PartView::Pending(NextView::Ask(OpView::Download(url)))
    } else {
        match h[0] {
            ReplyView::Text(p) => PartView::Ready(p, 1),
            ReplyView::Failed(e) => PartView::Pending(NextView::Fail(e)),
            _ => PartView::Pending(NextView::Fail(unexpected_reply())),
        }
    }
}

/// Finds the archive of an install step: a location that begins with a dot is
/// a file of the working tree; any other is a URL to download first.
pub fn resolve_source(url: &str, replies: &Vec<Reply>) -> (r: Part<String>)
    ensures
        r@ == source_plan(url@, history(replies@)),
{
    if starts_with(url, '.') {
        return Part::Ready(join("/work", url), 0);
    }
    if replies.len() == 0 {
        return Part::Pending(Next::Ask(Op::Download(String::from_str(url))));
    }
    match &replies[0] {
        Reply::Text(p) => Part::Ready(p.clone(), 1),
        Reply::Failed(e) => Part::Pending(Next::Fail(e.clone())),
        _ => Part::Pending(Next::Fail(unexpected())),
    }
}

/// The failure reported for a target path that does not start at the root.
pub open spec fn not_absolute(path: Seq<char>) -> IoErrorView {
    failure("Target path must be absolute: "@ + path)
}

/// The failure reported for an archive whose path ends in no file name.
pub open spec fn no_file_name(filename: Seq<char>) -> IoErrorView {
    failure("Archive path has no file name: "@ + filename)
}

/// The last part of the staging protocol, from index `at` of the history:
/// mount the target over the staged subtree, extract, unmount whatever the
/// extraction reported, and only then report.
pub open spec fn mount_plan(
    subdir: Seq<char>,
    fpath: Seq<char>,
    filename: Seq<char>,
    tmppath: Seq<char>,
    tmpsub: Seq<char>,
    h: Seq<ReplyView>,
    at: int,
) -> NextView<()> {
    if h.len() <= at {
        NextView::Ask(OpView::BindMount { source: fpath, target: tmpsub })
    } else if h[at] is Failed {
        NextView::Fail(h[at].error())
    } else if h.len() <= at + 1 {
        NextView::Ask(
            OpView::UnpackFile {
                src: filename,
                tgt: tmppath,
                includes: seq![subdir],
                excludes: Seq::empty(),
            },
        )
    } else if h.len() <= at + 2 {
        NextView::Ask(OpView::Unmount(tmpsub))
    } else if h[at + 2] is Failed {
        NextView::Fail(h[at + 2].error())
    } else if h[at + 1] is Failed {
        NextView::Fail(h[at + 1].error())
    } else {
        NextView::Done(())
    }
}

/// The staging protocol, from index `at` of the history: make the staged
/// subtree, make the target if it is missing, then go on as [`mount_plan`].
pub open spec fn staging_plan(
    subdir: Seq<char>,
    fpath: Seq<char>,
    filename: Seq<char>,
    tmppath: Seq<char>,
    tmpsub: Seq<char>,
    h: Seq<ReplyView>,
    at: int,
) -> NextView<()> {
    if h.len() <= at {
        NextView::Ask(OpView::CreateDir { path: tmpsub, recursive: true })
    } else if h[at] is Failed {
        NextView::Fail(failure("Error making dir: "@ + h[at].error().message))
    } else if h.len() <= at + 1 {
        NextView::Ask(OpView::Exists(fpath))
    } else if h[at + 1].flag() {
        mount_plan(subdir, fpath, filename, tmppath, tmpsub, h, at + 2)
    } else if h.len() <= at + 2 {
        NextView::Ask(OpView::CreateDir { path: fpath, recursive: true })
    } else if h[at + 2] is Failed {
        NextView::Fail(failure("Error making dir: "@ + h[at + 2].error().message))
    } else {
        mount_plan(subdir, fpath, filename, tmppath, tmpsub, h, at + 3)
    }
}

/// The plan for an archive at hand, from index `at` of the history: the whole
/// archive, which is the subtree `.` or no subtree at all, goes straight into
/// the target; any other subtree goes through staging.
pub open spec fn place_plan(
    subdir: Seq<char>,
    fpath: Seq<char>,
    filename: Seq<char>,
    h: Seq<ReplyView>,
    at: int,
) -> NextView<()> {
    if subdir.len() == 0 || path_same(subdir, "."@) {
        if h.len() <= at {
            NextView::Ask(
                OpView::UnpackFile {
                    src: filename,
                    tgt: fpath,
                    includes: Seq::empty(),
                    excludes: Seq::empty(),
                },
            )
        } else if h[at] is Failed {
            NextView::Fail(h[at].error())
        } else {
            NextView::Done(())
        }
    } else {
        match path_file_name(filename) {
            None => NextView::Fail(no_file_name(filename)),
            Some(name) => {
                let tmppath = path_join("/vagga/root/tmp"@, name);
                staging_plan(subdir, fpath, filename, tmppath, path_join(tmppath, subdir), h, at)
            },
        }
    }
}

/// The plan of [`tar_command`].
pub open spec fn tar_command_plan(info: TarInfoView, h: Seq<ReplyView>) -> NextView<()> {
    match path_strip_prefix(info.path, "/"@) {
        None => NextView::Fail(not_absolute(info.path)),
        Some(rel) => match source_plan(info.url, h) {
            PartView::Pending(next) => next,
            PartView::Ready(filename, used) => place_plan(
                info.subdir,
                path_join("/vagga/root"@, rel),
                filename,
                h,
                used,
            ),
        },
    }
}

/// Mounts, extracts and unmounts, reading replies from index `at`.
fn mount_and_unpack(
    subdir: &str,
    fpath: String,
    filename: String,
    tmppath: String,
    tmpsub: String,
    replies: &Vec<Reply>,
    at: usize,
) -> (next: Next<()>)
    requires
        at <= replies.len(),
    ensures
        next@ == mount_plan(subdir@, fpath@, filename@, tmppath@, tmpsub@, history(replies@), at as int),
{
    if replies.len() <= at {
        return Next::Ask(Op::BindMount { source: fpath, target: tmpsub });
    }
    match &replies[at] {
        Reply::Failed(e) => {
            return Next::Fail(e.clone());
        },
        _ => {},
    }
    if replies.len() <= at + 1 {
        let mut includes: Vec<String> = Vec::new();
        includes.push(String::from_str(subdir));
        assert(texts(includes@) =~= seq![subdir@]);
        let excludes: Vec<String> = Vec::new();
        assert(texts(excludes@) =~= Seq::<Seq<char>>::empty());
        return Next::Ask(Op::UnpackFile { src: filename, tgt: tmppath, includes, excludes });
    }
    if replies.len() <= at + 2 {
        return Next::Ask(Op::Unmount(tmpsub));
    }
    match &replies[at + 2] {
        Reply::Failed(e) => {
            return Next::Fail(e.clone());
        },
        _ => {},
    }
    match &replies[at + 1] {
        Reply::Failed(e) => Next::Fail(e.clone()),
        _ => Next::Done(()),
    }
}

/// Runs the staging protocol, reading replies from index `at`.
fn stage(
    subdir: &str,
    fpath: String,
    filename: String,
    tmppath: String,
    tmpsub: String,
    replies: &Vec<Reply>,
    at: usize,
) -> (next: Next<()>)
    requires
        at <= replies.len(),
    ensures
        next@ == staging_plan(
            subdir@,
            fpath@,
            filename@,
            tmppath@,
            tmpsub@,
            history(replies@),
            at as int,
        ),
{
    if replies.len() <= at {
        return Next::Ask(Op::CreateDir { path: tmpsub, recursive: true });
    }
    match &replies[at] {
        Reply::Failed(e) => {
            return Next::Fail(prefixed("Error making dir: ", e));
        },
        _ => {},
    }
    if replies.len() <= at + 1 {
        return Next::Ask(Op::Exists(fpath));
    }
    if replies[at + 1].flag() {
        return mount_and_unpack(subdir, fpath, filename, tmppath, tmpsub, replies, at + 2);
    }
    if replies.len() <= at + 2 {
        return Next::Ask(Op::CreateDir { path: fpath, recursive: true });
    }
    match &replies[at + 2] {
        Reply::Failed(e) => {
            return Next::Fail(prefixed("Error making dir: ", e));
        },
        _ => {},
    }
    mount_and_unpack(subdir, fpath, filename, tmppath, tmpsub, replies, at + 3)
}

/// Unpacks an archive into a directory of the container.
///
/// The whole archive (the subtree `.`, or none) is extracted straight into
/// the target, with no inclusions, no staging and no mount. Any other
/// subtree is staged: the target is mounted over the place where
/// the subtree will come out, only that subtree is extracted, and the mount
/// is removed before anything is reported, whatever the extraction did.
pub fn tar_command(info: &TarInfo, replies: &Vec<Reply>) -> (next: Next<()>)
    ensures
        next@ == tar_command_plan(info@, history(replies@)),
{
    let rel = match strip_prefix(info.path.as_str(), "/") {
        Some(rel) => rel,
        None => {
            return Next::Fail(described("Target path must be absolute: ", info.path.as_str()));
        },
    };
    let fpath = join("/vagga/root", rel.as_str());
    let (filename, at) = match resolve_source(info.url.as_str(), replies) {
        Part::Pending(next) => {
            return next;
        },
        Part::Ready(filename, used) => (filename, used),
    };
    if info.subdir.as_str().is_empty() || same_path(info.subdir.as_str(), ".") {
        if replies.len() <= at {
            let includes: Vec<String> = Vec::new();
            let excludes: Vec<String> = Vec::new();
            assert(texts(includes@) =~= Seq::<Seq<char>>::empty());
            return Next::Ask(Op::UnpackFile { src: filename, tgt: fpath, includes, excludes });
        }
        return match &replies[at] {
            Reply::Failed(e) => Next::Fail(e.clone()),
            _ => Next::Done(()),
        };
    }
    let name = match file_name(filename.as_str()) {
        Some(name) => name,
        None => {
            return Next::Fail(described("Archive path has no file name: ", filename.as_str()));
        },
    };
    let tmppath = join("/vagga/root/tmp", name.as_str());
    let tmpsub = join(tmppath.as_str(), info.subdir.as_str());
    stage(info.subdir.as_str(), fpath, filename, tmppath, tmpsub, replies, at)
}

/// The failure reported where an archive left nothing visible behind.
pub open spec fn archive_empty() -> IoErrorView {
    failure("Tar archive was empty"@)
}

/// The failure reported where an archive left several visible entries behind.
pub open spec fn archive_ambiguous() -> IoErrorView {
    failure(
        "Multiple directories was unpacked. If thats expected use `subdir: \".\"` or any other directory"@,
    )
}

/// The one visible entry of a staging directory, or why there is none.
pub open spec fn single_entry_spec(items: Seq<Seq<char>>) -> Result<Seq<char>, IoErrorView> {
    if items.len() == 1 {
        Ok(items[0])
    } else if items.len() == 0 {
        Err(archive_empty())
    } else {
        Err(archive_ambiguous())
    }
}

/// The model of the result of [`single_entry`].
pub open spec fn entry_result(r: Result<String, IoError>) -> Result<Seq<char>, IoErrorView> {
    match r {
        Ok(s) => Ok(s@),
        Err(e) => Err(e@),
    }
}

/// Picks the directory to work in from the visible top-level entries that an
/// archive left behind: there must be exactly one. None is an empty archive;
/// several are ambiguous, and the caller has to name a subdirectory.
pub fn single_entry(items: &Vec<String>) -> (r: Result<String, IoError>)
    ensures
        entry_result(r) == single_entry_spec(texts(items@)),
{
    if items.len() == 1 {
        Ok(items[0].clone())
    } else if items.len() == 0 {
        Err(IoError::other(String::from_str("Tar archive was empty")))
    } else {
        Err(
            IoError::other(
                String::from_str(
                    "Multiple directories was unpacked. If thats expected use `subdir: \".\"` or any other directory",
                ),
            ),
        )
    }
}

/// The failure reported for a working directory outside the container root.
pub open spec fn outside_root(workdir: Seq<char>) -> IoErrorView {
    failure("Working directory is outside of the container: "@ + workdir)
}

/// The end of an install step, from index `at` of the history: the working
/// directory under the staging area becomes the path inside the container,
/// and the script runs there.
pub open spec fn script_plan(
    script: Seq<char>,
    workdir: Seq<char>,
    h: Seq<ReplyView>,
    at: int,
) -> NextView<()> {
    match path_strip_prefix(workdir, "/vagga/root"@) {
        None => NextView::Fail(outside_root(workdir)),
        Some(rel) => if h.len() <= at {
            NextView::Ask(
                OpView::RunAt {
                    args: seq!["/bin/sh"@, "-exc"@, script],
                    workdir: path_join("/"@, rel),
                    env: Seq::empty(),
                },
            )
        } else if h[at] is Failed {
            NextView::Fail(h[at].error())
        } else {
            NextView::Done(())
        },
    }
}

/// An install step with the archive at hand, from index `at` of the history.
pub open spec fn install_plan(
    info: TarInstallInfoView,
    filename: Seq<char>,
    tmppath: Seq<char>,
    h: Seq<ReplyView>,
    at: int,
) -> NextView<()> {
    if h.len() <= at {
        NextView::Ask(OpView::MkdirAll(tmppath))
    } else if h[at] is Failed {
        NextView::Fail(failure("Error making dir: "@ + h[at].error().message))
    } else if h.len() <= at + 1 {
        NextView::Ask(OpView::Chmod { path: tmppath, mode: STAGING_MODE })
    } else if h[at + 1] is Failed {
        NextView::Fail(failure("Error setting permissions: "@ + h[at + 1].error().message))
    } else if h.len() <= at + 2 {
        NextView::Ask(
            OpView::UnpackFile {
                src: filename,
                tgt: tmppath,
                includes: Seq::empty(),
                excludes: Seq::empty(),
            },
        )
    } else if h[at + 2] is Failed {
        NextView::Fail(h[at + 2].error())
    } else {
        match info.subdir {
            Some(sub) => script_plan(info.script, path_join(tmppath, sub), h, at + 3),
            None => if h.len() <= at + 3 {
                NextView::Ask(OpView::VisibleEntries(tmppath))
            } else {
                match h[at + 3] {
                    ReplyView::Names(items) => match single_entry_spec(items) {
                        Ok(dir) => script_plan(info.script, dir, h, at + 4),
                        Err(e) => NextView::Fail(e),
                    },
                    ReplyView::Failed(e) => NextView::Fail(
                        failure("Error reading dir: "@ + e.message),
                    ),
                    _ => NextView::Fail(unexpected_reply()),
                }
            },
        }
    }
}

/// The plan of [`tar_install`].
pub open spec fn tar_install_plan(info: TarInstallInfoView, h: Seq<ReplyView>) -> NextView<()> {
    match source_plan(info.url, h) {
        PartView::Pending(next) => next,
        PartView::Ready(filename, used) => match path_file_name(filename) {
            None => NextView::Fail(no_file_name(filename)),
            Some(name) => install_plan(
                info,
                filename,
                path_join("/vagga/root/tmp"@, name),
                h,
                used,
            ),
        },
    }
}

/// Runs the script in `workdir`, reading the reply from index `at`.
fn run_script(script: &str, workdir: &str, replies: &Vec<Reply>, at: usize) -> (next: Next<()>)
    requires
        at <= replies.len(),
    ensures
        next@ == script_plan(script@, workdir@, history(replies@), at as int),
{
    let rel = match strip_prefix(workdir, "/vagga/root") {
        Some(rel) => rel,
        None => {
            return Next::Fail(described("Working directory is outside of the container: ", workdir));
        },
    };
    if replies.len() <= at {
        let mut args: Vec<String> = Vec::new();
        args.push(String::from_str("/bin/sh"));
        args.push(String::from_str("-exc"));
        args.push(String::from_str(script));
        assert(texts(args@) =~= seq!["/bin/sh"@, "-exc"@, script@]);
        let env: Vec<String> = Vec::new();
        assert(texts(env@) =~= Seq::<Seq<char>>::empty());
        return Next::Ask(Op::RunAt { args, workdir: join("/", rel.as_str()), env });
    }
    match &replies[at] {
        Reply::Failed(e) => Next::Fail(e.clone()),
        _ => Next::Done(()),
    }
}

/// Unpacks an archive into a fresh staging directory and runs a script in it.
///
/// The script runs in the configured subdirectory, if there is one. Without
/// one the archive must have left exactly one visible top-level entry, and
/// the script runs there.
pub fn tar_install(info: &TarInstallInfo, replies: &Vec<Reply>) -> (next: Next<()>)
    ensures
        next@ == tar_install_plan(info@, history(replies@)),
{
    let (filename, at) = match resolve_source(info.url.as_str(), replies) {
        Part::Pending(next) => {
            return next;
        },
        Part::Ready(filename, used) => (filename, used),
    };
    let name = match file_name(filename.as_str()) {
        Some(name) => name,
        None => {
            return Next::Fail(described("Archive path has no file name: ", filename.as_str()));
        },
    };
    let tmppath = join("/vagga/root/tmp", name.as_str());
    if replies.len() <= at {
        return Next::Ask(Op::MkdirAll(tmppath));
    }
    match &replies[at] {
        Reply::Failed(e) => {
            return Next::Fail(prefixed("Error making dir: ", e));
        },
        _ => {},
    }
    if replies.len() <= at + 1 {
        return Next::Ask(Op::Chmod { path: tmppath, mode: STAGING_MODE });
    }
    match &replies[at + 1] {
        Reply::Failed(e) => {
            return Next::Fail(prefixed("Error setting permissions: ", e));
        },
        _ => {},
    }
    if replies.len() <= at + 2 {
        let includes: Vec<String> = Vec::new();
        let excludes: Vec<String> = Vec::new();
        assert(texts(includes@) =~= Seq::<Seq<char>>::empty());
        return Next::Ask(Op::UnpackFile { src: filename, tgt: tmppath, includes, excludes });
    }
    match &replies[at + 2] {
        Reply::Failed(e) => {
            return Next::Fail(e.clone());
        },
        _ => {},
    }
    match &info.subdir {
        Some(sub) => {
            let workdir = join(tmppath.as_str(), sub.as_str());
            run_script(info.script.as_str(), workdir.as_str(), replies, at + 3)
        },
        None => {
            if replies.len() <= at + 3 {
                return Next::Ask(Op::VisibleEntries(tmppath));
            }
            match &replies[at + 3] {
                Reply::Names(items) => match single_entry(items) {
                    Ok(dir) => run_script(info.script.as_str(), dir.as_str(), replies, at + 4),
                    Err(e) => Next::Fail(e),
                },
                Reply::Failed(e) => Next::Fail(prefixed("Error reading dir: ", e)),
                _ => Next::Fail(unexpected()),
            }
        },
    }
}

/// A bind mount never outlives the step that made it. Where the history `h`
/// answers a bind mount with success at index `k`, the request after it is
/// the extraction of the one subtree into the staging directory, the request
/// after that is the unmount of the same mount point, whatever the extraction
/// reported, and no result is given before the unmount has been answered.
pub proof fn unmount_follows_mount(info: TarInfoView, h: Seq<ReplyView>, k: int)
    requires
        0 <= k < h.len(),
        tar_command_plan(info, h.take(k)) is Ask,
        tar_command_plan(info, h.take(k))->Ask_0 is BindMount,
        !(h[k] is Failed),
    ensures
        tar_command_plan(info, h.take(k + 1)) is Ask,
        tar_command_plan(info, h.take(k + 1))->Ask_0 matches OpView::UnpackFile { includes, .. }
            && includes == seq![info.subdir],
        k + 2 <= h.len() ==> tar_command_plan(info, h.take(k + 2)) == NextView::<()>::Ask(
            OpView::Unmount(tar_command_plan(info, h.take(k))->Ask_0->BindMount_target),
        ),
        h.len() <= k + 2 ==> tar_command_plan(info, h) is Ask,
{
    assert(h.take(h.len() as int) =~= h);
}

/// An extraction that failed is reported only after the unmount: where the
/// step ends with the failure of the extraction, the unmount has been asked
/// for and answered before.
pub proof fn failure_is_reported_after_unmount(info: TarInfoView, h: Seq<ReplyView>, k: int)
    requires
        0 <= k,
        k + 3 <= h.len(),
        tar_command_plan(info, h.take(k)) is Ask,
        tar_command_plan(info, h.take(k))->Ask_0 is BindMount,
        !(h[k] is Failed),
        !(h[k + 2] is Failed),
    ensures
        h[k + 1] is Failed ==> tar_command_plan(info, h) == NextView::<()>::Fail(h[k + 1].error()),
        !(h[k + 1] is Failed) ==> tar_command_plan(info, h) == NextView::<()>::Done(()),
{
}

} // verus!
