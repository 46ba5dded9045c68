//! An exclusive advisory lock on a file, taken without waiting.

use vstd::prelude::*;
use crate::ops::{history, FlockMode, Next, NextView, Op, OpView, Reply, ReplyView};

verus! {

/// A held exclusive lock on the file at a path.
///
/// A value of this type exists only while the lock is held: taking the lock
/// makes it, and the driver gives the lock up when it lets the value go.
#[derive(Debug, PartialEq, Eq)]
pub struct Lock {
    path: String,
}

impl View for Lock {
    type V = Seq<char>;

    /// The path of the locked file.
    closed spec fn view(&self) -> Seq<char> {
        self.path@
    }
}

/// The plan of [`Lock::exclusive`].
pub open spec fn exclusive_plan(path: Seq<char>, h: Seq<ReplyView>) -> NextView<Seq<char>> {
    if h.len() == 0 {
        NextView::Ask(OpView::OpenLockFile(path))
    } else if h[0] is Failed {
        NextView::Fail(h[0].error())
    } else if h.len() == 1 {
        NextView::Ask(OpView::Flock { path, mode: FlockMode::ExclusiveNonblock })
    } else if h[1] is Failed {
        NextView::Fail(h[1].error())
    } else {
        NextView::Done(path)
    }
}

/// The plan of [`Lock::release`].
pub open spec fn release_plan(path: Seq<char>, h: Seq<ReplyView>) -> NextView<()> {
    if h.len() == 0 {
        NextView::Ask(OpView::Flock { path, mode: FlockMode::Unlock })
    } else {
        NextView::Done(())
    }
}

impl Lock {
    /// Takes the exclusive lock on the file at `path`, creating the file
    /// where it is missing. The lock is asked for without waiting: where
    /// another holder has it, the failure comes back at once and is reported
    /// as it came, and nothing is tried again.
    pub fn exclusive(path: &str, replies: &Vec<Reply>) -> (next: Next<Lock>)
        ensures
            next@ == exclusive_plan(path@, history(replies@)),
    {
        if replies.len() == 0 {
            return Next::Ask(Op::OpenLockFile(String::from_str(path)));
        }
        match &replies[0] {
            Reply::Failed(e) => {
                return Next::Fail(e.clone());
            },
            _ => {},
        }
        if replies.len() == 1 {
            return Next::Ask(
                Op::Flock { path: String::from_str(path), mode: FlockMode::ExclusiveNonblock },
            );
        }
        match &replies[1] {
            Reply::Failed(e) => Next::Fail(e.clone()),
            _ => Next::Done(Lock { path: String::from_str(path) }),
        }
    }

    /// The path of the locked file.
    pub fn path(&self) -> (p: &str)
        ensures
            p@ == self@,
    {
        self.path.as_str()
    }

    /// Gives the lock up. A failure to do so is not reported.
    pub fn release(&self, replies: &Vec<Reply>) -> (next: Next<()>)
        ensures
            next@ == release_plan(self@, history(replies@)),
    {
        if replies.len() == 0 {
            Next::Ask(Op::Flock { path: self.path.clone(), mode: FlockMode::Unlock })
        } else {
            Next::Done(())
        }
    }
}

/// Taking the lock never waits and never tries twice: the one request for the
/// lock is made in the mode that fails at once, and a failure of it ends the
/// operation with that failure.
pub proof fn contended_lock_fails_at_once(path: Seq<char>, h: Seq<ReplyView>)
    ensures
        exclusive_plan(path, h) matches NextView::Ask(OpView::Flock { mode, .. }) ==> mode
            == FlockMode::ExclusiveNonblock && h.len() == 1,
        h.len() >= 2 && !(h[0] is Failed) && h[1] is Failed ==> exclusive_plan(path, h)
            == NextView::<Seq<char>>::Fail(h[1].error()),
        h.len() >= 2 && !(h[0] is Failed) && !(h[1] is Failed) ==> exclusive_plan(path, h)
            == NextView::<Seq<char>>::Done(path),
{
}

/// Giving the lock up asks for one unlock and reports success whatever the
/// reply was.
pub proof fn release_never_fails(path: Seq<char>, h: Seq<ReplyView>)
    ensures
        !(release_plan(path, h) is Fail),
        h.len() >= 1 ==> release_plan(path, h) == NextView::<()>::Done(()),
{
}

} // verus!
