//! Packing an image: the container is built, and the privileged helper packs
//! it.

use vstd::prelude::*;
use crate::error::{failure, prefixed};
use crate::ops::{
    history, unexpected, unexpected_reply, Next, NextView, Op, OpView, Reply, ReplyView,
};
use crate::text::{push_all, push_text, texts};

verus! {

/// The command line that the options are parsed from.
pub open spec fn pack_command_line(args: Seq<Seq<char>>) -> Seq<Seq<char>> {
    seq!["vagga _pack_image"@] + args
}

/// The arguments of the helper.
pub open spec fn pack_helper_args(args: Seq<Seq<char>>) -> Seq<Seq<char>> {
    seq!["_pack_image"@] + args
}

/// The plan of [`pack_command`].
pub open spec fn pack_command_plan(args: Seq<Seq<char>>, h: Seq<ReplyView>) -> NextView<i32> {
    if h.len() == 0 {
        NextView::Ask(OpView::ParsePackOptions(pack_command_line(args)))
    } else {
        match h[0] {
            ReplyView::Code(code) => NextView::Done(code),
            ReplyView::PackOptions { name, build_mode } => if h.len() == 1 {
                NextView::Ask(OpView::BuildContainer { name, build_mode })
            } else {
                match h[1] {
                    ReplyView::Text(version) => if h.len() == 2 {
                        NextView::Ask(OpView::PrepareWrapper { version, container: name })
                    } else if h[2] is Failed {
                        NextView::Fail(h[2].error())
                    } else if h.len() == 3 {
                        NextView::Ask(OpView::RunWrapper { gid: 0, args: pack_helper_args(args) })
                    } else {
                        match h[3] {
                            ReplyView::Code(code) => NextView::Done(code),
                            ReplyView::Failed(e) => NextView::Fail(
                                failure(
                                    "Error running `vagga_wrapperr _pack_image`: "@ + e.message,
                                ),
                            ),
                            _ => NextView::Fail(unexpected_reply()),
                        }
                    },
                    ReplyView::Failed(e) => NextView::Fail(e),
                    _ => NextView::Fail(unexpected_reply()),
                }
            },
            ReplyView::Failed(e) => NextView::Fail(e),
            _ => NextView::Fail(unexpected_reply()),
        }
    }
}

/// Packs the image of a container.
///
/// The arguments are parsed; where the parser ends the command, its exit
/// code is the result. Else the container is built, the privileged helper is
/// set up for the version that was built and run in the group 0 with the
/// same arguments, and its exit code is the result.
pub fn pack_command(args: &Vec<String>, replies: &Vec<Reply>) -> (next: Next<i32>)
    ensures
        next@ == pack_command_plan(texts(args@), history(replies@)),
{
    if replies.len() == 0 {
        let mut line: Vec<String> = Vec::new();
        push_text(&mut line, "vagga _pack_image");
        push_all(&mut line, args);
        assert(texts(line@) =~= pack_command_line(texts(args@)));
        return Next::Ask(Op::ParsePackOptions(line));
    }
    let (name, build_mode) = match &replies[0] {
        Reply::Code(code) => {
            return Next::Done(*code);
        },
        Reply::PackOptions { name, build_mode } => (name, build_mode),
        Reply::Failed(e) => {
            return Next::Fail(e.clone());
        },
        _ => {
            return Next::Fail(unexpected());
        },
    };
    if replies.len() == 1 {
        return Next::Ask(
            Op::BuildContainer { name: name.clone(), build_mode: build_mode.clone() },
        );
    }
    let version = match &replies[1] {
        Reply::Text(version) => version,
        Reply::Failed(e) => {
            return Next::Fail(e.clone());
        },
        _ => {
            return Next::Fail(unexpected());
        },
    };
    if replies.len() == 2 {
        return Next::Ask(
            Op::PrepareWrapper { version: version.clone(), container: name.clone() },
        );
    }
    match &replies[2] {
        Reply::Failed(e) => {
            return Next::Fail(e.clone());
        },
        _ => {},
    }
    if replies.len() == 3 {
        let mut helper: Vec<String> = Vec::new();
        push_text(&mut helper, "_pack_image");
        push_all(&mut helper, args);
        assert(texts(helper@) =~= pack_helper_args(texts(args@)));
        return Next::Ask(Op::RunWrapper { gid: 0, args: helper });
    }
    match &replies[3] {
        Reply::Code(code) => Next::Done(*code),
        Reply::Failed(e) => Next::Fail(
            prefixed("Error running `vagga_wrapperr _pack_image`: ", e),
        ),
        _ => Next::Fail(unexpected()),
    }
}

} // verus!
