//! Finding a command along a search path.

use vstd::prelude::*;
use crate::error::{failure, IoError, IoErrorView};
use crate::ops::{history, Next, NextView, Op, OpView, Reply, ReplyView};
use crate::path::{is_absolute, is_absolute_spec, join, path_join};
use crate::text::{contains, debug_text, split, split_spec, text_debug, texts};

verus! {

/// The places to look for `cmd`: under each absolute directory of `dirs`, in
/// their order. Directories that are not absolute are passed over.
pub open spec fn candidates(dirs: Seq<Seq<char>>, cmd: Seq<char>) -> Seq<Seq<char>>
    decreases dirs.len(),
{
    if dirs.len() == 0 {
        Seq::empty()
    } else if is_absolute_spec(dirs.last()) {
        candidates(dirs.drop_last(), cmd).push(path_join(dirs.last(), cmd))
    } else {
        candidates(dirs.drop_last(), cmd)
    }
}

/// The failure of [`find_cmd`] where no directory holds the command.
pub open spec fn not_found(cmd: Seq<char>, paths: Seq<char>) -> IoErrorView {
    failure("Command "@ + cmd + " not found in "@ + text_debug(paths))
}

/// The failure of [`find_cmd`] where there is no search path.
pub open spec fn no_search_path(cmd: Seq<char>) -> IoErrorView {
    failure("Command "@ + cmd + " is not absolute and no PATH set"@)
}

/// The search through `places` from place `i` on: the first that exists is
/// the result.
pub open spec fn search_from(
    places: Seq<Seq<char>>,
    cmd: Seq<char>,
    paths: Seq<char>,
    h: Seq<ReplyView>,
    i: int,
) -> NextView<Seq<char>>
    decreases places.len() - i,
{
    if i >= places.len() {
        NextView::Fail(not_found(cmd, paths))
    } else if i >= h.len() {
        NextView::Ask(OpView::Exists(places[i]))
    } else if h[i].flag() {
        NextView::Done(places[i])
    } else {
        search_from(places, cmd, paths, h, i + 1)
    }
}

/// The plan of [`find_cmd`].
pub open spec fn find_cmd_plan(cmd: Seq<char>, search_path: Option<Seq<char>>, h: Seq<ReplyView>)
    -> NextView<Seq<char>> {
    if cmd.contains('/') {
        NextView::Done(cmd)
    } else {
        match search_path {
            None => NextView::Fail(no_search_path(cmd)),
            Some(paths) => search_from(candidates(split_spec(paths, ':'), cmd), cmd, paths, h, 0),
        }
    }
}

/// The places to look for `cmd` under the directories `dirs`.
fn places_of(dirs: &Vec<String>, cmd: &str) -> (places: Vec<String>)
    ensures
        texts(places@) == candidates(texts(dirs@), cmd@),
{
    let mut places: Vec<String> = Vec::new();
    let mut i: usize = 0;
    assert(texts(dirs@.take(0)) =~= Seq::<Seq<char>>::empty());
    assert(texts(places@) =~= Seq::<Seq<char>>::empty());
    while i < dirs.len()
        invariant
            i <= dirs.len(),
            texts(places@) == candidates(texts(dirs@.take(i as int)), cmd@),
        decreases dirs.len() - i,
    {
        let ghost done = texts(dirs@.take(i as int));
        let ghost more = texts(dirs@.take(i + 1));
        proof {
            assert(more.drop_last() =~= done);
            assert(more.last() == dirs@[i as int]@);
        }
        if is_absolute(dirs[i].as_str()) {
            let ghost before = texts(places@);
            let place = join(dirs[i].as_str(), cmd);
            places.push(place);
            assert(texts(places@) =~= before.push(place@));
        }
        i += 1;
    }
    assert(dirs@.take(dirs.len() as int) =~= dirs@);
    places
}

/// Finds the program that a command names.
///
/// A command with a slash in it is the path of the program. Any other is
/// looked for under each absolute directory of the search path, a list of
/// directories with colons between them, and the first place that exists is
/// the result. It is a failure to have no search path, or to find nothing.
pub fn find_cmd(cmd: &str, search_path: Option<&str>, replies: &Vec<Reply>) -> (next: Next<String>)
    ensures
        next@ == find_cmd_plan(
            cmd@,
            match search_path {
                Some(p) => Some(p@),
                None => None,
            },
            history(replies@),
        ),
{
    if contains(cmd, '/') {
        return Next::Done(String::from_str(cmd));
    }
    let paths = match search_path {
        Some(paths) => paths,
        None => {
            let mut m = String::from_str("Command ");
            m.append(cmd);
            m.append(" is not absolute and no PATH set");
            return Next::Fail(IoError::other(m));
        },
    };
    let dirs = split(paths, ':');
    let mut places = places_of(&dirs, cmd);
    let ghost all = texts(places@);
    let ghost h = history(replies@);
    let n: usize = places.len();
    let mut i: usize = 0;
    while i < n
        invariant
            i <= n,
            n == places.len(),
            all == texts(places@),
            h == history(replies@),
            search_path == Some(paths),
            find_cmd_plan(cmd@, Some(paths@), h) == search_from(all, cmd@, paths@, h, i as int),
        decreases n - i,
    {
        if replies.len() <= i {
            assert(all[i as int] == places@[i as int]@);
            let place = places.remove(i);
            return Next::Ask(Op::Exists(place));
        }
        assert(h[i as int] == replies@[i as int]@);
        if replies[i].flag() {
            assert(all[i as int] == places@[i as int]@);
            let place = places.remove(i);
            return Next::Done(place);
        }
        i += 1;
    }
    let quoted = debug_text(paths);
    let mut m = String::from_str("Command ");
    m.append(cmd);
    m.append(" not found in ");
    m.append(quoted.as_str());
    Next::Fail(IoError::other(m))
}

/// A command that is found stands under an absolute directory of the search
/// path: the result is the command itself, if it holds a slash, or one of the
/// places to look.
pub proof fn found_under_search_path(
    cmd: Seq<char>,
    search_path: Option<Seq<char>>,
    h: Seq<ReplyView>,
)
    requires
        find_cmd_plan(cmd, search_path, h) is Done,
        !cmd.contains('/'),
    ensures
        search_path is Some,
        candidates(split_spec(search_path->Some_0, ':'), cmd).contains(
            find_cmd_plan(cmd, search_path, h)->Done_0,
        ),
{
    let paths = search_path->Some_0;
    search_finds_a_place(candidates(split_spec(paths, ':'), cmd), cmd, paths, h, 0);
}

/// A search that succeeds gives one of the places.
proof fn search_finds_a_place(
    places: Seq<Seq<char>>,
    cmd: Seq<char>,
    paths: Seq<char>,
    h: Seq<ReplyView>,
    i: int,
)
    requires
        0 <= i,
        search_from(places, cmd, paths, h, i) is Done,
    ensures
        places.contains(search_from(places, cmd, paths, h, i)->Done_0),
    decreases places.len() - i,
{
    if i < places.len() && i < h.len() {
        if h[i].flag() {
            assert(places[i] == search_from(places, cmd, paths, h, i)->Done_0);
        } else {
            search_finds_a_place(places, cmd, paths, h, i + 1);
        }
    }
}

} // verus!
