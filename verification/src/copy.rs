//! Copies of single entries: file contents with their permission bits,
//! ownership on a best-effort basis, and the shallow copy that merges
//! directories.

use vstd::prelude::*;
use crate::error::{ErrorKind, IoError, IoErrorView};
use crate::ops::{
    history, op_views, steps, steps_from, steps_plan, unexpected, unexpected_reply, FileType,
    Next, NextView, Op, OpView, Reply, ReplyView,
};

verus! {

/// The size of the buffer that file contents are streamed through.
pub const COPY_BUFFER_SIZE: usize = 32768;

/// What to do after one read of the source of a copy.
#[derive(Debug, PartialEq, Eq)]
pub enum ReadStep {
    /// The source is at its end.
    Finish,
    /// Write this many bytes of the buffer, then read again.
    Write(usize),
    /// The read was interrupted: read again.
    Retry,
    /// Give the copy up.
    Fail(IoError),
}

/// Mathematical model of [`ReadStep`].
pub ghost enum ReadStepView {
    Finish,
    Write(usize),
    Retry,
    Fail(IoErrorView),
}

impl View for ReadStep {
    type V = ReadStepView;

    open spec fn view(&self) -> ReadStepView {
        match self {
            ReadStep::Finish => ReadStepView::Finish,
            ReadStep::Write(n) => ReadStepView::Write(*n),
            ReadStep::Retry => ReadStepView::Retry,
            ReadStep::Fail(e) => ReadStepView::Fail(e@),
        }
    }
}

/// What follows one read, by its outcome.
pub open spec fn after_read_spec(outcome: Result<usize, IoError>) -> ReadStepView {
    match outcome {
        Ok(n) => if n == 0 {
            ReadStepView::Finish
        } else {
            ReadStepView::Write(n)
        },
        Err(e) => if e.kind == ErrorKind::Interrupted {
            ReadStepView::Retry
        } else {
            ReadStepView::Fail(e@)
        },
    }
}

/// Decides what follows one read of the source: nothing read ends the copy,
/// bytes read are written, an interrupted read is tried again, and any other
/// failure ends the copy with that failure.
pub fn after_read(outcome: &Result<usize, IoError>) -> (step: ReadStep)
    ensures
        step@ == after_read_spec(*outcome),
{
    match outcome {
        Ok(n) => {
            if *n == 0 {
                ReadStep::Finish
            } else {
                ReadStep::Write(*n)
            }
        },
        Err(e) => {
            if e.kind == ErrorKind::Interrupted {
                ReadStep::Retry
            } else {
                ReadStep::Fail(e.clone())
            }
        },
    }
}

/// The failure of a copy whose source is no regular file.
pub open spec fn not_regular_file() -> IoErrorView {
    IoErrorView {
        kind: ErrorKind::InvalidInput,
        message: "the source path is not an existing regular file"@,
    }
}

/// The plan of [`copy`].
pub open spec fn copy_plan(from: Seq<char>, to: Seq<char>, h: Seq<ReplyView>) -> NextView<()> {
    if h.len() == 0 {
        NextView::Ask(OpView::IsFile(from))
    } else if !h[0].flag() {
        NextView::Fail(not_regular_file())
    } else if h.len() == 1 {
        NextView::Ask(OpView::CopyContents { from, to })
    } else {
        match h[1] {
            ReplyView::Stat(st) => if h.len() == 2 {
                NextView::Ask(OpView::Chmod { path: to, mode: st.mode })
            } else if h[2] is Failed {
                NextView::Fail(h[2].error())
            } else {
                NextView::Done(())
            },
            ReplyView::Failed(e) => NextView::Fail(e),
            _ => NextView::Fail(unexpected_reply()),
        }
    }
}

/// Copies the regular file `from` to a newly created `to`: the bytes first,
/// streamed through a small buffer, then the permission bits of `from`.
/// Fails where `from` is no regular file.
pub fn copy(from: &str, to: &str, replies: &Vec<Reply>) -> (next: Next<()>)
    ensures
        next@ == copy_plan(from@, to@, history(replies@)),
{
    if replies.len() == 0 {
        return Next::Ask(Op::IsFile(String::from_str(from)));
    }
    if !replies[0].flag() {
        return Next::Fail(
            IoError::new(
                ErrorKind::InvalidInput,
                "the source path is not an existing regular file",
            ),
        );
    }
    if replies.len() == 1 {
        return Next::Ask(
            Op::CopyContents { from: String::from_str(from), to: String::from_str(to) },
        );
    }
    match &replies[1] {
        Reply::Stat(st) => {
            if replies.len() == 2 {
                return Next::Ask(Op::Chmod { path: String::from_str(to), mode: st.mode });
            }
            match &replies[2] {
                Reply::Failed(e) => Next::Fail(e.clone()),
                _ => Next::Done(()),
            }
        },
        Reply::Failed(e) => Next::Fail(e.clone()),
        _ => Next::Fail(unexpected()),
    }
}

/// The plan of [`set_owner_group`].
pub open spec fn set_owner_group_plan(path: Seq<char>, uid: u32, gid: u32, h: Seq<ReplyView>)
    -> NextView<()> {
    if h.len() == 0 {
        NextView::Ask(OpView::Lchown { path, uid, gid })
    } else {
        NextView::Done(())
    }
}

/// Sets owner and group of the entry at `path` itself. A failure is not
/// reported: a build without privilege may be unable to change ownership and
/// goes on.
pub fn set_owner_group(path: &str, uid: u32, gid: u32, replies: &Vec<Reply>) -> (next: Next<()>)
    ensures
        next@ == set_owner_group_plan(path@, uid, gid, history(replies@)),
{
    if replies.len() == 0 {
        Next::Ask(Op::Lchown { path: String::from_str(path), uid, gid })
    } else {
        Next::Done(())
    }
}

/// The owner that takes effect: the override, if there is one.
pub open spec fn effective_id(over: Option<u32>, own: u32) -> u32 {
    match over {
        Some(id) => id,
        None => own,
    }
}

/// The owner that takes effect: the override, if there is one.
pub fn effective(over: Option<u32>, own: u32) -> (id: u32)
    ensures
        id == effective_id(over, own),
{
    match over {
        Some(id) => id,
        None => own,
    }
}

/// The plan `next` with `value` for its result.
pub open spec fn with_value(next: NextView<()>, value: bool) -> NextView<bool> {
    match next {
        NextView::Ask(op) => NextView::Ask(op),
        NextView::Done(_) => NextView::Done(value),
        NextView::Fail(e) => NextView::Fail(e),
    }
}

/// The requests that make a new directory `dest` with the given permission
/// bits.
pub open spec fn new_dir_ops(dest: Seq<char>, mode: u32) -> Seq<OpView> {
    seq![OpView::Mkdir(dest), OpView::Chmod { path: dest, mode }]
}

/// The request that puts a symlink to `value` at `dest`.
pub open spec fn link_ops(value: Seq<char>, dest: Seq<char>) -> Seq<OpView> {
    seq![OpView::ForceSymlink { target: value, link: dest }]
}

/// The request that copies the file `src` to `dest`.
pub open spec fn file_ops(src: Seq<char>, dest: Seq<char>) -> Seq<OpView> {
    seq![OpView::Copy { from: src, to: dest }]
}

/// The plan `next`, followed by the request to give `dest` its owner, which
/// is answered at index `at` of the history. Whatever the answer is, it does
/// not fail the plan: ownership is set as far as privilege allows.
pub open spec fn then_owner(
    next: NextView<()>,
    dest: Seq<char>,
    uid: u32,
    gid: u32,
    h: Seq<ReplyView>,
    at: int,
) -> NextView<()> {
    match next {
        NextView::Done(_) => if h.len() <= at {
            NextView::Ask(OpView::SetOwnerGroup { path: dest, uid, gid })
        } else {
            NextView::Done(())
        },
        other => other,
    }
}

/// The plan of [`shallow_copy`].
pub open spec fn shallow_copy_plan(
    src: Seq<char>,
    dest: Seq<char>,
    owner_uid: Option<u32>,
    owner_gid: Option<u32>,
    h: Seq<ReplyView>,
) -> NextView<bool> {
    if h.len() == 0 {
        NextView::Ask(OpView::Lstat(src))
    } else {
        match h[0] {
            ReplyView::Stat(st) => {
                let uid = effective_id(owner_uid, st.uid);
                let gid = effective_id(owner_gid, st.gid);
                match st.file_type {
                    FileType::Directory => if h.len() == 1 {
                        NextView::Ask(OpView::Lstat(dest))
                    } else if !(h[1] is Failed) {
                        NextView::Done(false)
                    } else {
                        with_value(
                            then_owner(
                                steps_plan(new_dir_ops(dest, st.mode), h, 2),
                                dest,
                                uid,
                                gid,
                                h,
                                4,
                            ),
                            false,
                        )
                    },
                    FileType::Symlink => if h.len() == 1 {
                        NextView::Ask(OpView::ReadLink(src))
                    } else {
                        match h[1] {
                            ReplyView::Text(value) => with_value(
                                then_owner(
                                    steps_plan(link_ops(value, dest), h, 2),
                                    dest,
                                    uid,
                                    gid,
                                    h,
                                    3,
                                ),
                                true,
                            ),
                            ReplyView::Failed(e) => NextView::Fail(e),
                            _ => NextView::Fail(unexpected_reply()),
                        }
                    },
                    _ => with_value(
                        then_owner(steps_plan(file_ops(src, dest), h, 1), dest, uid, gid, h, 2),
                        true,
                    ),
                }
            },
            ReplyView::Failed(e) => NextView::Fail(e),
            _ => NextView::Fail(unexpected_reply()),
        }
    }
}

/// Follows the plan `next` with the request to give `dest` its owner, read
/// from index `at`.
fn give_owner(next: Next<()>, dest: &str, uid: u32, gid: u32, replies: &Vec<Reply>, at: usize) -> (r:
    Next<()>)
    ensures
        r@ == then_owner(next@, dest@, uid, gid, history(replies@), at as int),
{
    match next {
        Next::Done(_) => {
            if replies.len() <= at {
                Next::Ask(Op::SetOwnerGroup { path: String::from_str(dest), uid, gid })
            } else {
                Next::Done(())
            }
        },
        Next::Ask(op) => Next::Ask(op),
        Next::Fail(e) => Next::Fail(e),
    }
}

/// Gives the plan `next` the result `value`.
fn finish(next: Next<()>, value: bool) -> (r: Next<bool>)
    ensures
        r@ == with_value(next@, value),
{
    match next {
        Next::Ask(op) => Next::Ask(op),
        Next::Done(_) => Next::Done(value),
        Next::Fail(e) => Next::Fail(e),
    }
}

/// Copies the one entry `src` to `dest`, and says whether it was a leaf.
///
/// A directory is made at `dest` with the permission bits and the owner of
/// `src` only where nothing is at `dest` yet; a directory that is there
/// already is left exactly as it is, so that trees from several steps merge.
/// The result is then `false`. A symlink is put in place of whatever is at
/// `dest`, and a file is copied with its contents and permission bits; both
/// then get their owner, and the result is `true`. The owner is that of
/// `src` unless `owner_uid` or `owner_gid` overrides it. Ownership is set as
/// far as privilege allows: a failure to set it never fails the copy.
pub fn shallow_copy(
    src: &str,
    dest: &str,
    owner_uid: Option<u32>,
    owner_gid: Option<u32>,
    replies: &Vec<Reply>,
) -> (next: Next<bool>)
    ensures
        next@ == shallow_copy_plan(src@, dest@, owner_uid, owner_gid, history(replies@)),
{
    if replies.len() == 0 {
        return Next::Ask(Op::Lstat(String::from_str(src)));
    }
    let st = match &replies[0] {
        Reply::Stat(st) => *st,
        Reply::Failed(e) => {
            return Next::Fail(e.clone());
        },
        _ => {
            return Next::Fail(unexpected());
        },
    };
    let uid = effective(owner_uid, st.uid);
    let gid = effective(owner_gid, st.gid);
    let mut ops: Vec<Op> = Vec::new();
    match st.file_type {
        FileType::Directory => {
            if replies.len() == 1 {
                return Next::Ask(Op::Lstat(String::from_str(dest)));
            }
            match &replies[1] {
                Reply::Failed(_) => {},
                _ => {
                    return Next::Done(false);
                },
            }
            ops.push(Op::Mkdir(String::from_str(dest)));
            ops.push(Op::Chmod { path: String::from_str(dest), mode: st.mode });
            assert(op_views(ops@) =~= new_dir_ops(dest@, st.mode));
            finish(give_owner(steps(ops, replies, 2), dest, uid, gid, replies, 4), false)
        },
        FileType::Symlink => {
            if replies.len() == 1 {
                return Next::Ask(Op::ReadLink(String::from_str(src)));
            }
            let value = match &replies[1] {
                Reply::Text(value) => value,
                Reply::Failed(e) => {
                    return Next::Fail(e.clone());
                },
                _ => {
                    return Next::Fail(unexpected());
                },
            };
            ops.push(Op::ForceSymlink { target: value.clone(), link: String::from_str(dest) });
            assert(op_views(ops@) =~= link_ops(value@, dest@));
            finish(give_owner(steps(ops, replies, 2), dest, uid, gid, replies, 3), true)
        },
        _ => {
            ops.push(Op::Copy { from: String::from_str(src), to: String::from_str(dest) });
            assert(op_views(ops@) =~= file_ops(src@, dest@));
            finish(give_owner(steps(ops, replies, 1), dest, uid, gid, replies, 2), true)
        },
    }
}

/// A directory that is already at the destination is left untouched: the copy
/// asks two questions, changes nothing, and says that the entry is no leaf.
pub proof fn existing_directory_is_untouched(
    src: Seq<char>,
    dest: Seq<char>,
    owner_uid: Option<u32>,
    owner_gid: Option<u32>,
    h: Seq<ReplyView>,
)
    requires
        h.len() >= 2,
        h[0] matches ReplyView::Stat(st) && st.file_type == FileType::Directory,
        !(h[1] is Failed),
    ensures
        shallow_copy_plan(src, dest, owner_uid, owner_gid, h.take(0)) == NextView::<bool>::Ask(
            OpView::Lstat(src),
        ),
        shallow_copy_plan(src, dest, owner_uid, owner_gid, h.take(1)) == NextView::<bool>::Ask(
            OpView::Lstat(dest),
        ),
        shallow_copy_plan(src, dest, owner_uid, owner_gid, h) == NextView::<bool>::Done(false),
{
}

/// A file is copied and then given the owner that takes effect, and the
/// copy says that the entry is a leaf whatever came of the owner. Without an
/// override the owner is that of the source.
pub proof fn file_takes_mode_and_owner(
    src: Seq<char>,
    dest: Seq<char>,
    owner_uid: Option<u32>,
    owner_gid: Option<u32>,
    h: Seq<ReplyView>,
)
    requires
        h.len() >= 3,
        h[0] matches ReplyView::Stat(st) && st.file_type == FileType::Regular,
        !(h[1] is Failed),
    ensures
        shallow_copy_plan(src, dest, owner_uid, owner_gid, h.take(1)) == NextView::<bool>::Ask(
            OpView::Copy { from: src, to: dest },
        ),
        shallow_copy_plan(src, dest, owner_uid, owner_gid, h.take(2)) == NextView::<bool>::Ask(
            OpView::SetOwnerGroup {
                path: dest,
                uid: effective_id(owner_uid, h[0]->Stat_0.uid),
                gid: effective_id(owner_gid, h[0]->Stat_0.gid),
            },
        ),
        shallow_copy_plan(src, dest, owner_uid, owner_gid, h) == NextView::<bool>::Done(true),
        effective_id(None, h[0]->Stat_0.uid) == h[0]->Stat_0.uid,
{
    reveal_with_fuel(steps_from, 3);
    assert(file_ops(src, dest).len() == 1);
    assert(h.take(1)[0] == h[0]);
    assert(h.take(2)[0] == h[0]);
    assert(h.take(2)[1] == h[1]);
}

/// A symlink is put in place of whatever is at the destination, with the
/// target of the source, and then given the owner that takes effect; the
/// copy says that the entry is a leaf whatever came of the owner.
pub proof fn link_takes_target_and_owner(
    src: Seq<char>,
    dest: Seq<char>,
    owner_uid: Option<u32>,
    owner_gid: Option<u32>,
    h: Seq<ReplyView>,
)
    requires
        h.len() >= 4,
        h[0] matches ReplyView::Stat(st) && st.file_type == FileType::Symlink,
        h[1] is Text,
        !(h[2] is Failed),
    ensures
        shallow_copy_plan(src, dest, owner_uid, owner_gid, h.take(1)) == NextView::<bool>::Ask(
            OpView::ReadLink(src),
        ),
        shallow_copy_plan(src, dest, owner_uid, owner_gid, h.take(2)) == NextView::<bool>::Ask(
            OpView::ForceSymlink { target: h[1]->Text_0, link: dest },
        ),
        shallow_copy_plan(src, dest, owner_uid, owner_gid, h.take(3)) == NextView::<bool>::Ask(
            OpView::SetOwnerGroup {
                path: dest,
                uid: effective_id(owner_uid, h[0]->Stat_0.uid),
                gid: effective_id(owner_gid, h[0]->Stat_0.gid),
            },
        ),
        shallow_copy_plan(src, dest, owner_uid, owner_gid, h) == NextView::<bool>::Done(true),
{
    reveal_with_fuel(steps_from, 3);
    assert(link_ops(h[1]->Text_0, dest).len() == 1);
    assert(h.take(1)[0] == h[0]);
    assert(h.take(2)[0] == h[0]);
    assert(h.take(2)[1] == h[1]);
    assert(h.take(3)[0] == h[0]);
    assert(h.take(3)[1] == h[1]);
    assert(h.take(3)[2] == h[2]);
}

/// A failure to set the owner never fails the copy: no failure that the
/// copy ends with is the reply to a request for the owner.
pub proof fn owner_failure_never_fails_the_copy(
    src: Seq<char>,
    dest: Seq<char>,
    owner_uid: Option<u32>,
    owner_gid: Option<u32>,
    h: Seq<ReplyView>,
    k: int,
)
    requires
        0 <= k < h.len(),
        shallow_copy_plan(src, dest, owner_uid, owner_gid, h.take(k)) is Ask,
        shallow_copy_plan(src, dest, owner_uid, owner_gid, h.take(k))->Ask_0 is SetOwnerGroup,
    ensures
        shallow_copy_plan(src, dest, owner_uid, owner_gid, h) is Done,
{
    reveal_with_fuel(steps_from, 4);
    let t = h.take(k);
    let st = h[0]->Stat_0;
    assert(k >= 1);
    assert(t[0] == h[0]);
    assert(new_dir_ops(dest, st.mode).len() == 2);
    assert(file_ops(src, dest).len() == 1);
    if k >= 2 {
        assert(t[1] == h[1]);
        assert(link_ops(h[1]->Text_0, dest).len() == 1);
    }
    if k >= 3 {
        assert(t[2] == h[2]);
    }
    if k >= 4 {
        assert(t[3] == h[3]);
    }
}

/// A copied file gets the permission bits of its source: the bits that are
/// set on the destination are those that came back with the contents.
pub proof fn copy_gives_the_mode_of_the_source(from: Seq<char>, to: Seq<char>, h: Seq<ReplyView>)
    requires
        copy_plan(from, to, h) is Ask,
        copy_plan(from, to, h)->Ask_0 is Chmod,
    ensures
        h.len() == 2,
        h[1] is Stat,
        copy_plan(from, to, h) == NextView::<()>::Ask(
            OpView::Chmod { path: to, mode: h[1]->Stat_0.mode },
        ),
{
}

/// Ownership is set on a best-effort basis: whatever the reply, the result
/// is success.
pub proof fn owner_failure_is_swallowed(path: Seq<char>, uid: u32, gid: u32, h: Seq<ReplyView>)
    ensures
        !(set_owner_group_plan(path, uid, gid, h) is Fail),
        h.len() >= 1 ==> set_owner_group_plan(path, uid, gid, h) == NextView::<()>::Done(()),
{
}

} // verus!
