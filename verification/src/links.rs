//! Symlinks: creation that tolerates a link that is already right, and
//! replacement that never leaves the link missing.

use vstd::prelude::*;
use crate::error::ErrorKind;
use crate::ops::{history, Next, NextView, Op, OpView, Reply, ReplyView};
use crate::path::{path_same, path_with_extension, same_path, with_extension};
use crate::text::same_text;

verus! {

/// The plan of [`ensure_symlink`].
pub open spec fn ensure_symlink_plan(target: Seq<char>, link: Seq<char>, h: Seq<ReplyView>)
    -> NextView<()> {
    if h.len() == 0 {
        NextView::Ask(OpView::Symlink { target, link })
    } else if !(h[0] is Failed) {
        NextView::Done(())
    } else if h[0].error().kind != ErrorKind::AlreadyExists {
        NextView::Fail(h[0].error())
    } else if h.len() == 1 {
        NextView::Ask(OpView::ReadLink(link))
    } else if h[1] matches ReplyView::Text(found) && path_same(found, target) {
        NextView::Done(())
    } else {
        NextView::Fail(h[0].error())
    }
}

/// Creates a symlink at `link` that points at `target`.
///
/// Where something is at `link` already, what is there is read as a link:
/// a link that points at `target` is success. Anything else, be it a link
/// that points elsewhere or an entry that is no link at all, is the failure
/// of the creation, unchanged. Every other failure of the creation is
/// reported as it came.
pub fn ensure_symlink(target: &str, link: &str, replies: &Vec<Reply>) -> (next: Next<()>)
    ensures
        next@ == ensure_symlink_plan(target@, link@, history(replies@)),
{
    if replies.len() == 0 {
        return Next::Ask(
            Op::Symlink { target: String::from_str(target), link: String::from_str(link) },
        );
    }
    let first = match &replies[0] {
        Reply::Failed(e) => e,
        _ => {
            return Next::Done(());
        },
    };
    if first.kind != ErrorKind::AlreadyExists {
        return Next::Fail(first.clone());
    }
    if replies.len() == 1 {
        return Next::Ask(Op::ReadLink(String::from_str(link)));
    }
    match &replies[1] {
        Reply::Text(found) => {
            if same_path(found.as_str(), target) {
                Next::Done(())
            } else {
                Next::Fail(first.clone())
            }
        },
        _ => Next::Fail(first.clone()),
    }
}

/// Creating a link where something is already succeeds only on a link that
/// points at the target. In every other case, whatever came back when the
/// entry was read as a link, the result is the failure of the creation.
/// Nothing but the creation was tried: the only other request is the
/// question where the link points.
pub proof fn existing_link_is_kept(target: Seq<char>, link: Seq<char>, h: Seq<ReplyView>)
    requires
        h.len() >= 2,
        h[0] is Failed,
        h[0].error().kind == ErrorKind::AlreadyExists,
    ensures
        ensure_symlink_plan(target, link, h.take(0)) == NextView::<()>::Ask(
            OpView::Symlink { target, link },
        ),
        ensure_symlink_plan(target, link, h.take(1)) == NextView::<()>::Ask(OpView::ReadLink(link)),
        (h[1] is Text && path_same(h[1]->Text_0, target)) ==> ensure_symlink_plan(target, link, h)
            == NextView::<()>::Done(()),
        !(h[1] is Text && path_same(h[1]->Text_0, target)) ==> ensure_symlink_plan(
            target,
            link,
            h,
        ) == NextView::<()>::Fail(h[0].error()),
{
}

/// Once the creation has failed nothing is changed any more: the one request
/// that may follow is a question.
pub proof fn failed_creation_changes_nothing(target: Seq<char>, link: Seq<char>, h: Seq<ReplyView>)
    requires
        h.len() >= 1,
        ensure_symlink_plan(target, link, h) is Ask,
    ensures
        h.len() == 1,
        h[0] is Failed,
        ensure_symlink_plan(target, link, h)->Ask_0.is_question(),
{
}

/// The name under which [`force_symlink`] first creates the link.
pub open spec fn temporary_link(link: Seq<char>) -> Seq<char> {
    path_with_extension(link, ".vagga.tmp.link~"@)
}

/// The end of [`force_symlink`], from index `at` of the history: the
/// temporary link is renamed onto the link.
pub open spec fn rename_plan(tmp: Seq<char>, link: Seq<char>, h: Seq<ReplyView>, at: int)
    -> NextView<()> {
    if h.len() <= at {
        NextView::Ask(OpView::Rename { from: tmp, to: link })
    } else if h[at] is Failed {
        NextView::Fail(h[at].error())
    } else {
        NextView::Done(())
    }
}

/// The plan of [`force_symlink`].
pub open spec fn force_symlink_plan(target: Seq<char>, link: Seq<char>, h: Seq<ReplyView>)
    -> NextView<()> {
    let tmp = temporary_link(link);
    if h.len() == 0 {
        NextView::Ask(OpView::Symlink { target, link: tmp })
    } else if !(h[0] is Failed) {
        rename_plan(tmp, link, h, 1)
    } else if h[0].error().kind != ErrorKind::AlreadyExists || tmp == link {
        NextView::Fail(h[0].error())
    } else if h.len() == 1 {
        NextView::Ask(OpView::Remove(tmp))
    } else if h[1] is Failed {
        NextView::Fail(h[1].error())
    } else if h.len() == 2 {
        NextView::Ask(OpView::Symlink { target, link: tmp })
    } else if h[2] is Failed {
        NextView::Fail(h[2].error())
    } else {
        rename_plan(tmp, link, h, 3)
    }
}

/// Renames the temporary link onto the link, reading the reply from index
/// `at`.
fn rename_onto(tmp: String, link: &str, replies: &Vec<Reply>, at: usize) -> (next: Next<()>)
    requires
        at <= replies.len(),
    ensures
        next@ == rename_plan(tmp@, link@, history(replies@), at as int),
{
    if replies.len() <= at {
        return Next::Ask(Op::Rename { from: tmp, to: String::from_str(link) });
    }
    match &replies[at] {
        Reply::Failed(e) => Next::Fail(e.clone()),
        _ => Next::Done(()),
    }
}

/// Makes `link` point at `target` whatever is there.
///
/// The link is created under a temporary name beside `link` and then renamed
/// onto it, so that `link` is replaced in one step and is never missing. An
/// entry that an interrupted call left behind under the temporary name is
/// removed, and the link is created again.
pub fn force_symlink(target: &str, link: &str, replies: &Vec<Reply>) -> (next: Next<()>)
    ensures
        next@ == force_symlink_plan(target@, link@, history(replies@)),
{
    proof {
        reveal_strlit(".vagga.tmp.link~");
    }
    let tmp = with_extension(link, ".vagga.tmp.link~");
    if replies.len() == 0 {
        return Next::Ask(Op::Symlink { target: String::from_str(target), link: tmp });
    }
    let first = match &replies[0] {
        Reply::Failed(e) => e,
        _ => {
            return rename_onto(tmp, link, replies, 1);
        },
    };
    if first.kind != ErrorKind::AlreadyExists || same_text(tmp.as_str(), link) {
        return Next::Fail(first.clone());
    }
    if replies.len() == 1 {
        return Next::Ask(Op::Remove(tmp));
    }
    match &replies[1] {
        Reply::Failed(e) => {
            return Next::Fail(e.clone());
        },
        _ => {},
    }
    if replies.len() == 2 {
        return Next::Ask(Op::Symlink { target: String::from_str(target), link: tmp });
    }
    match &replies[2] {
        Reply::Failed(e) => {
            return Next::Fail(e.clone());
        },
        _ => {},
    }
    rename_onto(tmp, link, replies, 3)
}

/// The only request of [`force_symlink`] that names `link` itself is the
/// rename onto it, and it follows a creation of the temporary link that did
/// not fail: the link is never removed, and a failure before the rename
/// leaves it as it was. What is created and what is removed is the temporary
/// name, and it is removed only where it is another name than the link.
pub proof fn link_changes_only_by_rename(target: Seq<char>, link: Seq<char>, h: Seq<ReplyView>)
    ensures
        match force_symlink_plan(target, link, h) {
            NextView::Ask(OpView::Symlink { target: t, link: l }) => t == target && l
                == temporary_link(link) && (h.len() == 0 || h.len() == 2),
            NextView::Ask(OpView::Remove(p)) => p == temporary_link(link) && p != link && h.len()
                == 1 && h[0] is Failed && h[0].error().kind == ErrorKind::AlreadyExists,
            NextView::Ask(OpView::Rename { from, to }) => from == temporary_link(link) && to
                == link && h.len() >= 1 && !(h[h.len() - 1] is Failed),
            NextView::Ask(_) => false,
            NextView::Done(_) => h.len() >= 2,
            NextView::Fail(e) => exists|i: int| 0 <= i < h.len() && h[i] is Failed && e == h[i].error(),
        },
{
}

/// An entry left behind under the temporary name does not stand in the way:
/// it is removed, the temporary link is created again and renamed onto the
/// link, and where none of that fails the result is success.
pub proof fn stale_temporary_link_is_cleared(target: Seq<char>, link: Seq<char>, h: Seq<ReplyView>)
    requires
        h.len() >= 4,
        h[0] is Failed,
        h[0].error().kind == ErrorKind::AlreadyExists,
        temporary_link(link) != link,
        !(h[1] is Failed),
        !(h[2] is Failed),
        !(h[3] is Failed),
    ensures
        force_symlink_plan(target, link, h.take(1)) == NextView::<()>::Ask(
            OpView::Remove(temporary_link(link)),
        ),
        force_symlink_plan(target, link, h.take(2)) == NextView::<()>::Ask(
            OpView::Symlink { target, link: temporary_link(link) },
        ),
        force_symlink_plan(target, link, h.take(3)) == NextView::<()>::Ask(
            OpView::Rename { from: temporary_link(link), to: link },
        ),
        force_symlink_plan(target, link, h) == NextView::<()>::Done(()),
{
}

} // verus!
