//! Directories: creation that is a no-op where the directory exists, the
//! strict variant that refuses symlinks, and the visible entries of a listing.

use vstd::prelude::*;
use crate::error::{failure, ErrorKind, IoError, IoErrorView};
use crate::ops::{
    history, op_views, steps, steps_from, steps_plan, unexpected, unexpected_reply, FileType, Next, NextView,
    Op, OpView, Reply, ReplyView,
};
use crate::path::{debug, parent, path_debug, path_parent, path_same, same_path};
use crate::text::{opt_text, starts_with, texts};

verus! {

/// The permission bits of a directory that this crate creates: all for the
/// owner, read and search for group and others.
pub const DEFAULT_DIR_MODE: u32 = 0o755;

/// The requests that make the directory `path` with permission bits `mode`.
pub open spec fn make_dir_ops(path: Seq<char>, mode: u32) -> Seq<OpView> {
    seq![OpView::Mkdir(path), OpView::Chmod { path, mode }]
}

/// Makes the directory `path` with permission bits `mode`, reading replies
/// from index `at`.
fn make_dir(path: &str, mode: u32, replies: &Vec<Reply>, at: usize) -> (next: Next<()>)
    ensures
        next@ == steps_plan(make_dir_ops(path@, mode), history(replies@), at as int),
{
    let mut ops: Vec<Op> = Vec::new();
    ops.push(Op::Mkdir(String::from_str(path)));
    ops.push(Op::Chmod { path: String::from_str(path), mode });
    assert(op_views(ops@) =~= make_dir_ops(path@, mode));
    steps(ops, replies, at)
}

/// Whether a path has a parent to make sure of: one that is another path
/// than itself and not empty. The empty parent of a relative path of one
/// component is the working directory, which is there.
pub open spec fn has_other_parent(path: Seq<char>) -> bool {
    path_parent(path) matches Some(p) && p.len() > 0 && !path_same(p, path)
}

/// The plan of [`create_dir`].
pub open spec fn create_dir_plan(path: Seq<char>, recursive: bool, h: Seq<ReplyView>) -> NextView<
    (),
> {
    if h.len() == 0 {
        NextView::Ask(OpView::IsDir(path))
    } else if h[0].flag() {
        NextView::Done(())
    } else if recursive && has_other_parent(path) {
        if h.len() == 1 {
            NextView::Ask(OpView::CreateDir { path: path_parent(path)->Some_0, recursive: true })
        } else if h[1] is Failed {
            NextView::Fail(h[1].error())
        } else {
            steps_plan(make_dir_ops(path, DEFAULT_DIR_MODE), h, 2)
        }
    } else {
        steps_plan(make_dir_ops(path, DEFAULT_DIR_MODE), h, 1)
    }
}

/// Makes sure that `path` is a directory.
///
/// Nothing is done where it is one already. With `recursive` the parent is
/// made sure of first, in the same way, and a failure there ends the work;
/// a path of one component has the working directory for its parent, which
/// needs nothing. Then exactly `path` is created and given the default
/// permission bits.
pub fn create_dir(path: &str, recursive: bool, replies: &Vec<Reply>) -> (next: Next<()>)
    ensures
        next@ == create_dir_plan(path@, recursive, history(replies@)),
{
    if replies.len() == 0 {
        return Next::Ask(Op::IsDir(String::from_str(path)));
    }
    if replies[0].flag() {
        return Next::Done(());
    }
    if recursive {
        match parent(path) {
            Some(p) => {
                if !p.as_str().is_empty() && !same_path(p.as_str(), path) {
                    if replies.len() == 1 {
                        return Next::Ask(Op::CreateDir { path: p, recursive: true });
                    }
                    match &replies[1] {
                        Reply::Failed(e) => {
                            return Next::Fail(e.clone());
                        },
                        _ => {},
                    }
                    return make_dir(path, DEFAULT_DIR_MODE, replies, 2);
                }
            },
            None => {},
        }
    }
    make_dir(path, DEFAULT_DIR_MODE, replies, 1)
}

/// A directory that exists needs nothing, and a failure while the parent is
/// made ends the work before the path itself is touched.
pub proof fn create_dir_stops_early(path: Seq<char>, recursive: bool, h: Seq<ReplyView>)
    requires
        h.len() >= 1,
    ensures
        h[0].flag() ==> create_dir_plan(path, recursive, h) == NextView::<()>::Done(()),
        !h[0].flag() && recursive && has_other_parent(path) && h.len() >= 2 && h[1] is Failed
            ==> create_dir_plan(path, recursive, h) == NextView::<()>::Fail(h[1].error()),
        !h[0].flag() && !recursive && h.len() == 1 ==> create_dir_plan(path, recursive, h)
            == NextView::<()>::Ask(OpView::Mkdir(path)),
{
    reveal_with_fuel(steps_from, 3);
    assert(make_dir_ops(path, DEFAULT_DIR_MODE).len() == 2);
}

/// The plan of [`create_dir_mode`].
pub open spec fn create_dir_mode_plan(path: Seq<char>, mode: u32, h: Seq<ReplyView>) -> NextView<
    (),
> {
    if h.len() == 0 {
        NextView::Ask(OpView::IsDir(path))
    } else if h[0].flag() {
        NextView::Done(())
    } else {
        steps_plan(make_dir_ops(path, mode), h, 1)
    }
}

/// Makes sure that `path` is a directory: nothing is done where it is one
/// already; else it is created and given the permission bits `mode`.
pub fn create_dir_mode(path: &str, mode: u32, replies: &Vec<Reply>) -> (next: Next<()>)
    ensures
        next@ == create_dir_mode_plan(path@, mode, history(replies@)),
{
    if replies.len() == 0 {
        return Next::Ask(Op::IsDir(String::from_str(path)));
    }
    if replies[0].flag() {
        return Next::Done(());
    }
    make_dir(path, mode, replies, 1)
}

/// The failure of [`safe_ensure_dir`] for a path that is a symlink.
pub open spec fn is_symlink_failure(dir: Seq<char>) -> IoErrorView {
    failure("The `"@ + dir + "` dir can't be a symlink. Please run `unlink "@ + dir + "`"@)
}

/// The failure of [`safe_ensure_dir`] for a path that is no directory.
pub open spec fn not_directory_failure(dir: Seq<char>) -> IoErrorView {
    failure("The `"@ + dir + "` must be a directory. Please run `unlink "@ + dir + "`"@)
}

/// The failure of [`safe_ensure_dir`] for a directory that cannot be made.
pub open spec fn cannot_create_failure(dir: Seq<char>, cause: IoErrorView) -> IoErrorView {
    failure("Can't create "@ + path_debug(dir) + ": "@ + cause.message)
}

/// The failure of [`safe_ensure_dir`] for a path that cannot be examined.
pub open spec fn cannot_stat_failure(dir: Seq<char>, cause: IoErrorView) -> IoErrorView {
    failure("Can't stat `"@ + dir + "`: "@ + cause.message)
}

/// The plan of [`safe_ensure_dir`].
pub open spec fn safe_ensure_dir_plan(dir: Seq<char>, h: Seq<ReplyView>) -> NextView<()> {
    if h.len() == 0 {
        NextView::Ask(OpView::Lstat(dir))
    } else {
        match h[0] {
            ReplyView::Stat(st) => match st.file_type {
                FileType::Symlink => NextView::Fail(is_symlink_failure(dir)),
                FileType::Directory => NextView::Done(()),
                _ => NextView::Fail(not_directory_failure(dir)),
            },
            ReplyView::Failed(e) => if e.kind == ErrorKind::NotFound {
                if h.len() == 1 {
                    NextView::Ask(OpView::CreateDir { path: dir, recursive: false })
                } else if h[1] is Failed {
                    NextView::Fail(cannot_create_failure(dir, h[1].error()))
                } else {
                    NextView::Done(())
                }
            } else {
                NextView::Fail(cannot_stat_failure(dir, e))
            },
            _ => NextView::Fail(unexpected_reply()),
        }
    }
}

/// Builds a message of three or four parts.
fn message(a: &str, b: &str, c: &str, d: &str, e: &str) -> (r: IoError)
    ensures
        r@ == failure(a@ + b@ + c@ + d@ + e@),
{
    let mut m = String::from_str(a);
    m.append(b);
    m.append(c);
    m.append(d);
    m.append(e);
    IoError::other(m)
}

/// Makes sure that `dir` is a directory and no symlink.
///
/// A symlink at `dir` is refused, and so is anything else that is no
/// directory; both messages say how to remove it. Where nothing is at `dir`,
/// the directory is created, without its ancestors, with the default
/// permission bits. A directory that is there is left as it is.
pub fn safe_ensure_dir(dir: &str, replies: &Vec<Reply>) -> (next: Next<()>)
    ensures
        next@ == safe_ensure_dir_plan(dir@, history(replies@)),
{
    if replies.len() == 0 {
        return Next::Ask(Op::Lstat(String::from_str(dir)));
    }
    match &replies[0] {
        Reply::Stat(st) => match st.file_type {
            FileType::Symlink => Next::Fail(
                message("The `", dir, "` dir can't be a symlink. Please run `unlink ", dir, "`"),
            ),
            FileType::Directory => Next::Done(()),
            _ => Next::Fail(
                message("The `", dir, "` must be a directory. Please run `unlink ", dir, "`"),
            ),
        },
        Reply::Failed(e) => {
            if e.kind == ErrorKind::NotFound {
                if replies.len() == 1 {
                    return Next::Ask(
                        Op::CreateDir { path: String::from_str(dir), recursive: false },
                    );
                }
                match &replies[1] {
                    Reply::Failed(cause) => {
                        let quoted = debug(dir);
                        let r = message(
                            "Can't create ",
                            quoted.as_str(),
                            ": ",
                            cause.message.as_str(),
                            "",
                        );
                        proof {
                            reveal_strlit("");
                            assert(r@.message =~= cannot_create_failure(dir@, cause@).message);
                        }
                        Next::Fail(r)
                    },
                    _ => Next::Done(()),
                }
            } else {
                let r = message("Can't stat `", dir, "`: ", e.message.as_str(), "");
                proof {
                    reveal_strlit("");
                    assert(r@.message =~= cannot_stat_failure(dir@, e@).message);
                }
                Next::Fail(r)
            }
        },
        _ => Next::Fail(unexpected()),
    }
}

/// The strict variant never changes what is at the path unless nothing is
/// there: its first request is a question, and the only other request
/// follows a reply that said "not found" and creates exactly the path,
/// without ancestors.
pub proof fn safe_ensure_dir_changes_only_missing(dir: Seq<char>, h: Seq<ReplyView>)
    requires
        safe_ensure_dir_plan(dir, h) is Ask,
    ensures
        h.len() == 0 ==> safe_ensure_dir_plan(dir, h)->Ask_0.is_question(),
        h.len() >= 1 ==> h.len() == 1 && h[0] is Failed && h[0].error().kind
            == ErrorKind::NotFound && safe_ensure_dir_plan(dir, h) == NextView::<()>::Ask(
            OpView::CreateDir { path: dir, recursive: false },
        ),
{
}

/// One entry of a directory listing.
#[derive(Debug, PartialEq, Eq)]
pub struct DirEntry {
    /// The name of the entry, where it is valid text.
    pub name: Option<String>,
    /// The path of the entry.
    pub path: String,
}

/// Mathematical model of [`DirEntry`].
pub ghost struct DirEntryView {
    pub name: Option<Seq<char>>,
    pub path: Seq<char>,
}

impl View for DirEntry {
    type V = DirEntryView;

    open spec fn view(&self) -> DirEntryView {
        DirEntryView { name: opt_text(self.name), path: self.path@ }
    }
}

impl DirEntryView {
    /// Whether the entry is visible: its name does not begin with a dot. An
    /// entry whose name is no valid text is visible.
    pub open spec fn is_visible(self) -> bool {
        !(self.name matches Some(n) && n.len() > 0 && n[0] == '.')
    }
}

/// The models of a list of entries.
pub open spec fn entry_views(entries: Seq<DirEntry>) -> Seq<DirEntryView> {
    entries.map_values(|e: DirEntry| e@)
}

/// The paths of the visible entries, in the order of the listing.
pub open spec fn visible_paths(entries: Seq<DirEntryView>) -> Seq<Seq<char>>
    decreases entries.len(),
{
    if entries.len() == 0 {
        Seq::empty()
    } else if entries.last().is_visible() {
        visible_paths(entries.drop_last()).push(entries.last().path)
    } else {
        visible_paths(entries.drop_last())
    }
}

/// The paths of the visible entries of a directory listing, in its order: the
/// entries whose name does not begin with a dot.
pub fn read_visible_entries(entries: &Vec<DirEntry>) -> (res: Vec<String>)
    ensures
        texts(res@) == visible_paths(entry_views(entries@)),
{
    let mut res: Vec<String> = Vec::new();
    let mut i: usize = 0;
    assert(entry_views(entries@.take(0)) =~= Seq::<DirEntryView>::empty());
    assert(texts(res@) =~= Seq::<Seq<char>>::empty());
    while i < entries.len()
        invariant
            i <= entries.len(),
            texts(res@) == visible_paths(entry_views(entries@.take(i as int))),
        decreases entries.len() - i,
    {
        let entry = &entries[i];
        let ghost done = entry_views(entries@.take(i as int));
        let ghost more = entry_views(entries@.take(i + 1));
        proof {
            assert(more.drop_last() =~= done);
            assert(more.last() == entry@);
        }
        let hidden = match &entry.name {
            Some(n) => starts_with(n.as_str(), '.'),
            None => false,
        };
        if !hidden {
            let ghost before = texts(res@);
            res.push(entry.path.clone());
            assert(texts(res@) =~= before.push(entry.path@));
        }
        i += 1;
    }
    assert(entries@.take(entries.len() as int) =~= entries@);
    res
}

/// Every path that comes out belongs to a visible entry of the listing.
pub proof fn visible_paths_are_visible(entries: Seq<DirEntryView>, k: int)
    requires
        0 <= k < visible_paths(entries).len(),
    ensures
        exists|j: int|
            0 <= j < entries.len() && entries[j].is_visible() && #[trigger] entries[j].path
                == visible_paths(entries)[k],
    decreases entries.len(),
{
    if entries.len() > 0 {
        let rest = entries.drop_last();
        if entries.last().is_visible() && k == visible_paths(rest).len() {
            assert(entries[entries.len() - 1].path == visible_paths(entries)[k]);
        } else {
            visible_paths_are_visible(rest, k);
            let j = choose|j: int|
                0 <= j < rest.len() && rest[j].is_visible() && #[trigger] rest[j].path
                    == visible_paths(rest)[k];
            assert(entries[j] == rest[j]);
        }
    }
}

} // verus!
