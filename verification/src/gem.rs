//! Installing Ruby gems: the features a step needs and its command lines.

use vstd::prelude::*;
use vstd::utf8::{decode_utf8, valid_utf8};
use crate::error::{described, failure, prefixed, IoError, IoErrorView};
use crate::ops::{
    history, unexpected, unexpected_reply, Next, NextView, Op, OpView, Part, PartView, Reply,
    ReplyView,
};
use crate::path::{debug, join, path_debug, path_join};
use crate::pattern::{compile, group, is_match, regex_compiles, regex_group, regex_matches};
use crate::text::{decode, opt_text, push_all, push_text, same_text, text_trim, texts, trim, utf8_error};

verus! {

/// A feature that the distribution can be asked to provide.
#[derive(Clone, Copy, Debug, PartialEq, Eq, Structural)]
pub enum Package {
    BuildEssential,
    Ruby,
    RubyDev,
    Bundler,
    Git,
}

/// How gems are installed in a container.
#[derive(Debug, PartialEq, Eq)]
pub struct GemSettings {
    /// Whether to install Ruby itself.
    pub install_ruby: bool,
    /// The gem tool to use in place of the default one.
    pub gem_exe: Option<String>,
    /// Whether to update the gem tool before its first use.
    pub update_gem: bool,
}

/// Mathematical model of [`GemSettings`].
pub ghost struct GemSettingsView {
    pub install_ruby: bool,
    pub gem_exe: Option<Seq<char>>,
    pub update_gem: bool,
}

impl View for GemSettings {
    type V = GemSettingsView;

    open spec fn view(&self) -> GemSettingsView {
        GemSettingsView {
            install_ruby: self.install_ruby,
            gem_exe: opt_text(self.gem_exe),
            update_gem: self.update_gem,
        }
    }
}

impl Default for GemSettings {
    /// Ruby is installed, the default gem tool is used, and it is updated.
    fn default() -> (r: Self)
        ensures
            r@ == (GemSettingsView { install_ruby: true, gem_exe: None, update_gem: true }),
    {
        GemSettings { install_ruby: true, gem_exe: None, update_gem: true }
    }
}

/// The gems of a Gemfile to install with bundler.
#[derive(Debug, PartialEq, Eq)]
pub struct GemBundleInfo {
    /// The Gemfile, relative to the working tree.
    pub gemfile: String,
    /// The groups to leave out.
    pub without: Vec<String>,
    /// The trust policy to install under, if any.
    pub trust_policy: Option<String>,
}

/// Mathematical model of [`GemBundleInfo`].
pub ghost struct GemBundleInfoView {
    pub gemfile: Seq<char>,
    pub without: Seq<Seq<char>>,
    pub trust_policy: Option<Seq<char>>,
}

impl View for GemBundleInfo {
    type V = GemBundleInfoView;

    open spec fn view(&self) -> GemBundleInfoView {
        GemBundleInfoView {
            gemfile: self.gemfile@,
            without: texts(self.without@),
            trust_policy: opt_text(self.trust_policy),
        }
    }
}

/// The gem tool that is used where the settings name none.
pub const DEFAULT_GEM_EXE: &'static str = "/usr/bin/gem";

/// Where programs of gems are put.
pub const BIN_DIR: &'static str = "/usr/local/bin";

/// Finds the first two numbers of a version at the start of a text.
pub const GEM_VERSION_PATTERN: &'static str = "^(\\d+?\\.\\d+?)\\.";

/// Finds a gem that is taken from a git repository in a Gemfile.
pub const GIT_SOURCE_PATTERN: &'static str =
    "(git .*? do)|(:(git|github|gist|bitbucket) =>)|(git_source\\(.*?\\))";

/// The major version of the gem tool from which on `--no-document` exists.
pub const NO_DOCUMENT_SINCE_MAJOR: u32 = 2;

/// The minor version of the gem tool from which on `--no-document` exists.
pub const NO_DOCUMENT_SINCE_MINOR: u32 = 0;

/// The gem tool of the settings.
pub open spec fn gem_exe_of(settings: GemSettingsView) -> Seq<char> {
    match settings.gem_exe {
        Some(exe) => exe,
        None => DEFAULT_GEM_EXE@,
    }
}

/// The gem tool of the settings.
fn gem_exe(settings: &GemSettings) -> (exe: String)
    ensures
        exe@ == gem_exe_of(settings@),
{
    match &settings.gem_exe {
        Some(exe) => exe.clone(),
        None => String::from_str(DEFAULT_GEM_EXE),
    }
}

/// The failure reported for a pattern that `regex` does not accept.
pub open spec fn invalid_regex() -> IoErrorView {
    failure("Invalid regex"@)
}

/// The flags that keep the gem tool from building documentation: the two old
/// ones for a tool that predates `--no-document`.
pub open spec fn no_doc_flags(legacy: bool) -> Seq<Seq<char>> {
    if legacy {
        seq!["--no-rdoc"@, "--no-ri"@]
    } else {
        seq!["--no-document"@]
    }
}

/// Appends the flags that keep the gem tool from building documentation.
fn push_no_doc_flags(args: &mut Vec<String>, legacy: bool)
    ensures
        texts(final(args)@) == texts(old(args)@) + no_doc_flags(legacy),
{
    if legacy {
        push_text(args, "--no-rdoc");
        push_text(args, "--no-ri");
        assert(texts(args@) =~= texts(old(args)@) + no_doc_flags(legacy));
    } else {
        push_text(args, "--no-document");
        assert(texts(args@) =~= texts(old(args)@) + no_doc_flags(legacy));
    }
}

/// The part that finds the version of the gem tool, from index `at`: the
/// tool prints it, and the first two numbers of what it prints are taken.
pub open spec fn gem_version_part(settings: GemSettingsView, h: Seq<ReplyView>, at: int)
    -> PartView<Seq<char>> {
    if h.len() <= at {
        PartView::Pending(
            NextView::Ask(OpView::Capture { args: seq![gem_exe_of(settings), "--version"@] }),
        )
    } else {
        match h[at] {
            ReplyView::Data(bytes) => if !valid_utf8(bytes) {
                PartView::Pending(
                    NextView::Fail(
                        failure(
                            "Error getting gem version: Error parsing gem version: "@ + utf8_error(
                                bytes,
                            ),
                        ),
                    ),
                )
            } else if !regex_compiles(GEM_VERSION_PATTERN@) {
                PartView::Pending(NextView::Fail(invalid_regex()))
            } else {
                match regex_group(GEM_VERSION_PATTERN@, decode_utf8(bytes), 1) {
                    Some(version) => PartView::Ready(version, at + 1),
                    None => PartView::Pending(
                        NextView::Fail(failure("Gem version was not found"@)),
                    ),
                }
            },
            ReplyView::Failed(e) => PartView::Pending(
                NextView::Fail(failure("Error getting gem version: "@ + e.message)),
            ),
            _ => PartView::Pending(NextView::Fail(unexpected_reply())),
        }
    }
}

/// Finds the version of the gem tool, reading replies from index `at`.
fn gem_version(settings: &GemSettings, replies: &Vec<Reply>, at: usize) -> (r: Part<String>)
    requires
        at <= replies.len(),
    ensures
        r@ == gem_version_part(settings@, history(replies@), at as int),
        r matches Part::Ready(_, next) ==> at <= next <= replies.len(),
{
    if replies.len() <= at {
        let mut args: Vec<String> = Vec::new();
        args.push(gem_exe(settings));
        push_text(&mut args, "--version");
        assert(texts(args@) =~= seq![gem_exe_of(settings@), "--version"@]);
        return Part::Pending(Next::Ask(Op::Capture { args }));
    }
    match &replies[at] {
        Reply::Data(bytes) => {
            let text = match decode(bytes) {
                Ok(text) => text,
                Err(e) => {
                    return Part::Pending(
                        Next::Fail(
                            described(
                                "Error getting gem version: Error parsing gem version: ",
                                e.as_str(),
                            ),
                        ),
                    );
                },
            };
            let re = match compile(GEM_VERSION_PATTERN) {
                Some(re) => re,
                None => {
                    return Part::Pending(Next::Fail(IoError::other(String::from_str("Invalid regex"))));
                },
            };
            match group(&re, text.as_str(), 1) {
                Some(version) => Part::Ready(version, at + 1),
                None => Part::Pending(
                    Next::Fail(IoError::other(String::from_str("Gem version was not found"))),
                ),
            }
        },
        Reply::Failed(e) => Part::Pending(Next::Fail(prefixed("Error getting gem version: ", e))),
        _ => Part::Pending(Next::Fail(unexpected())),
    }
}

/// The part that finds out whether the gem tool predates `--no-document`,
/// from index `at`: its version is found and compared.
pub open spec fn legacy_part(settings: GemSettingsView, h: Seq<ReplyView>, at: int) -> PartView<
    bool,
> {
    match gem_version_part(settings, h, at) {
        PartView::Pending(next) => PartView::Pending(next),
        PartView::Ready(version, i) => if h.len() <= i {
            PartView::Pending(
                NextView::Ask(
                    OpView::VersionBelow {
                        version,
                        major: NO_DOCUMENT_SINCE_MAJOR,
                        minor: NO_DOCUMENT_SINCE_MINOR,
                    },
                ),
            )
        } else {
            match h[i] {
                ReplyView::Flag(below) => PartView::Ready(below, i + 1),
                ReplyView::Failed(e) => PartView::Pending(
                    NextView::Fail(failure("Erro parsing gem version: "@ + e.message)),
                ),
                _ => PartView::Pending(NextView::Fail(unexpected_reply())),
            }
        },
    }
}

/// Finds out whether the gem tool predates `--no-document`, reading replies
/// from index `at`.
fn legacy(settings: &GemSettings, replies: &Vec<Reply>, at: usize) -> (r: Part<bool>)
    requires
        at <= replies.len(),
    ensures
        r@ == legacy_part(settings@, history(replies@), at as int),
        r matches Part::Ready(_, next) ==> at <= next <= replies.len(),
{
    let (version, i) = match gem_version(settings, replies, at) {
        Part::Pending(next) => {
            return Part::Pending(next);
        },
        Part::Ready(version, i) => (version, i),
    };
    if replies.len() <= i {
        return Part::Pending(
            Next::Ask(
                Op::VersionBelow {
                    version,
                    major: NO_DOCUMENT_SINCE_MAJOR,
                    minor: NO_DOCUMENT_SINCE_MINOR,
                },
            ),
        );
    }
    match &replies[i] {
        Reply::Flag(below) => Part::Ready(*below, i + 1),
        Reply::Failed(e) => Part::Pending(Next::Fail(prefixed("Erro parsing gem version: ", e))),
        _ => Part::Pending(Next::Fail(unexpected())),
    }
}

/// The part that chooses the flags against documentation, from index `at`: a
/// gem tool that is kept up to date has `--no-document`; of any other the
/// version decides.
pub open spec fn no_doc_part(settings: GemSettingsView, h: Seq<ReplyView>, at: int) -> PartView<
    bool,
> {
    if settings.update_gem {
        PartView::Ready(false, at)
    } else {
        legacy_part(settings, h, at)
    }
}

/// Chooses the flags against documentation, reading replies from index `at`;
/// gives whether they are the old ones.
fn no_doc_args(settings: &GemSettings, replies: &Vec<Reply>, at: usize) -> (r: Part<bool>)
    requires
        at <= replies.len(),
    ensures
        r@ == no_doc_part(settings@, history(replies@), at as int),
        r matches Part::Ready(_, next) ==> at <= next <= replies.len(),
{
    if settings.update_gem {
        Part::Ready(false, at)
    } else {
        legacy(settings, replies, at)
    }
}

/// The part that finds the directory where the gem tool keeps downloaded
/// gems, from index `at`.
pub open spec fn gem_cache_dir_part(settings: GemSettingsView, h: Seq<ReplyView>, at: int)
    -> PartView<Seq<char>> {
    if h.len() <= at {
        PartView::Pending(
            NextView::Ask(
                OpView::Capture { args: seq![gem_exe_of(settings), "env"@, "gemdir"@] },
            ),
        )
    } else {
        match h[at] {
            ReplyView::Data(bytes) => if !valid_utf8(bytes) {
                PartView::Pending(
                    NextView::Fail(failure("Error getting gem dir: "@ + utf8_error(bytes))),
                )
            } else {
                PartView::Ready(path_join(text_trim(decode_utf8(bytes)), "cache"@), at + 1)
            },
            ReplyView::Failed(e) => PartView::Pending(NextView::Fail(e)),
            _ => PartView::Pending(NextView::Fail(unexpected_reply())),
        }
    }
}

/// Finds the directory where the gem tool keeps downloaded gems, reading
/// replies from index `at`.
fn gem_cache_dir(settings: &GemSettings, replies: &Vec<Reply>, at: usize) -> (r: Part<String>)
    requires
        at <= replies.len(),
    ensures
        r@ == gem_cache_dir_part(settings@, history(replies@), at as int),
        r matches Part::Ready(_, next) ==> at <= next <= replies.len(),
{
    if replies.len() <= at {
        let mut args: Vec<String> = Vec::new();
        args.push(gem_exe(settings));
        push_text(&mut args, "env");
        push_text(&mut args, "gemdir");
        assert(texts(args@) =~= seq![gem_exe_of(settings@), "env"@, "gemdir"@]);
        return Part::Pending(Next::Ask(Op::Capture { args }));
    }
    match &replies[at] {
        Reply::Data(bytes) => match decode(bytes) {
            Ok(text) => {
                let dir = trim(text.as_str());
                Part::Ready(join(dir.as_str(), "cache"), at + 1)
            },
            Err(e) => Part::Pending(Next::Fail(described("Error getting gem dir: ", e.as_str()))),
        },
        Reply::Failed(e) => Part::Pending(Next::Fail(e.clone())),
        _ => Part::Pending(Next::Fail(unexpected())),
    }
}

/// The end of [`configure`], from index `at`: the cache of the gem tool is
/// found and registered as a cache shared between builds.
pub open spec fn register_cache_plan(settings: GemSettingsView, h: Seq<ReplyView>, at: int)
    -> NextView<()> {
    match gem_cache_dir_part(settings, h, at) {
        PartView::Pending(next) => next,
        PartView::Ready(dir, i) => if h.len() <= i {
            NextView::Ask(OpView::AddCacheDir { path: dir, name: "gems-cache"@ })
        } else if h[i] is Failed {
            NextView::Fail(h[i].error())
        } else {
            NextView::Done(())
        },
    }
}

/// The command line that updates the gem tool.
pub open spec fn update_args(legacy: bool) -> Seq<Seq<char>> {
    seq![DEFAULT_GEM_EXE@, "update"@, "--system"@] + no_doc_flags(legacy)
}

/// The plan of [`configure`].
pub open spec fn configure_plan(settings: GemSettingsView, h: Seq<ReplyView>) -> NextView<()> {
    if settings.gem_exe is None && settings.update_gem {
        match legacy_part(settings, h, 0) {
            PartView::Pending(next) => next,
            PartView::Ready(legacy, i) => if h.len() <= i {
                NextView::Ask(
                    OpView::RunAt {
                        args: update_args(legacy),
                        workdir: "/work"@,
                        env: seq!["REALLY_GEM_UPDATE_SYSTEM=1"@],
                    },
                )
            } else if h[i] is Failed {
                NextView::Fail(h[i].error())
            } else {
                register_cache_plan(settings, h, i + 1)
            },
        }
    } else {
        register_cache_plan(settings, h, 0)
    }
}

/// Finds and registers the cache of the gem tool, reading replies from index
/// `at`.
fn register_cache(settings: &GemSettings, replies: &Vec<Reply>, at: usize) -> (next: Next<()>)
    requires
        at <= replies.len(),
    ensures
        next@ == register_cache_plan(settings@, history(replies@), at as int),
{
    let (dir, i) = match gem_cache_dir(settings, replies, at) {
        Part::Pending(next) => {
            return next;
        },
        Part::Ready(dir, i) => (dir, i),
    };
    if replies.len() <= i {
        return Next::Ask(Op::AddCacheDir { path: dir, name: String::from_str("gems-cache") });
    }
    match &replies[i] {
        Reply::Failed(e) => Next::Fail(e.clone()),
        _ => Next::Done(()),
    }
}

/// Prepares the gem tool for a step: the default tool is updated first,
/// unless the settings say otherwise, and the directory where the tool keeps
/// downloaded gems is registered as a cache shared between builds.
pub fn configure(settings: &GemSettings, replies: &Vec<Reply>) -> (next: Next<()>)
    ensures
        next@ == configure_plan(settings@, history(replies@)),
{
    if settings.gem_exe.is_none() && settings.update_gem {
        let (old, i) = match legacy(settings, replies, 0) {
            Part::Pending(next) => {
                return next;
            },
            Part::Ready(old, i) => (old, i),
        };
        if replies.len() <= i {
            let mut args: Vec<String> = Vec::new();
            push_text(&mut args, DEFAULT_GEM_EXE);
            push_text(&mut args, "update");
            push_text(&mut args, "--system");
            push_no_doc_flags(&mut args, old);
            assert(texts(args@) =~= update_args(old));
            let mut env: Vec<String> = Vec::new();
            push_text(&mut env, "REALLY_GEM_UPDATE_SYSTEM=1");
            assert(texts(env@) =~= seq!["REALLY_GEM_UPDATE_SYSTEM=1"@]);
            return Next::Ask(Op::RunAt { args, workdir: String::from_str("/work"), env });
        }
        match &replies[i] {
            Reply::Failed(e) => {
                return Next::Fail(e.clone());
            },
            _ => {},
        }
        return register_cache(settings, replies, i + 1);
    }
    register_cache(settings, replies, 0)
}

/// The failure reported for a Gemfile that cannot be read.
pub open spec fn gemfile_unreadable(path: Seq<char>, cause: IoErrorView) -> IoErrorView {
    failure("Error reading Gemfile ("@ + path_debug(path) + "): "@ + cause.message)
}

/// The part that finds out whether a Gemfile takes gems from git, from index
/// `at`.
pub open spec fn requires_git_part(gemfile: Seq<char>, h: Seq<ReplyView>, at: int) -> PartView<
    bool,
> {
    if !regex_compiles(GIT_SOURCE_PATTERN@) {
        PartView::Pending(NextView::Fail(invalid_regex()))
    } else if h.len() <= at {
        PartView::Pending(NextView::Ask(OpView::ReadText(path_join("/work"@, gemfile))))
    } else {
        match h[at] {
            ReplyView::Text(data) => PartView::Ready(
                regex_matches(GIT_SOURCE_PATTERN@, data),
                at + 1,
            ),
            ReplyView::Failed(e) => PartView::Pending(
                NextView::Fail(gemfile_unreadable(path_join("/work"@, gemfile), e)),
            ),
            _ => PartView::Pending(NextView::Fail(unexpected_reply())),
        }
    }
}

/// Finds out whether a Gemfile takes gems from git, reading replies from
/// index `at`.
fn requires_git(gemfile: &str, replies: &Vec<Reply>, at: usize) -> (r: Part<bool>)
    requires
        at <= replies.len(),
    ensures
        r@ == requires_git_part(gemfile@, history(replies@), at as int),
        r matches Part::Ready(_, next) ==> at <= next <= replies.len(),
{
    let path = join("/work", gemfile);
    let re = match compile(GIT_SOURCE_PATTERN) {
        Some(re) => re,
        None => {
            return Part::Pending(Next::Fail(IoError::other(String::from_str("Invalid regex"))));
        },
    };
    if replies.len() <= at {
        return Part::Pending(Next::Ask(Op::ReadText(path)));
    }
    match &replies[at] {
        Reply::Text(data) => Part::Ready(is_match(&re, data.as_str()), at + 1),
        Reply::Failed(e) => {
            let quoted = debug(path.as_str());
            let mut m = String::from_str("Error reading Gemfile (");
            m.append(quoted.as_str());
            m.append("): ");
            m.append(e.message.as_str());
            Part::Pending(Next::Fail(IoError::other(m)))
        },
        _ => Part::Pending(Next::Fail(unexpected())),
    }
}

/// The features that every gem step needs: a compiler, Ruby with its headers
/// unless the settings leave Ruby out, and bundler.
pub open spec fn base_features(install_ruby: bool) -> Seq<Package> {
    if install_ruby {
        seq![Package::BuildEssential, Package::Ruby, Package::RubyDev, Package::Bundler]
    } else {
        seq![Package::BuildEssential, Package::Bundler]
    }
}

/// The part that collects the features of a step, from index `at`: the base
/// features, and git where the Gemfile of the step takes gems from git.
pub open spec fn scan_features_part(
    settings: GemSettingsView,
    gemfile: Option<Seq<char>>,
    h: Seq<ReplyView>,
    at: int,
) -> PartView<Seq<Package>> {
    match gemfile {
        None => PartView::Ready(base_features(settings.install_ruby), at),
        Some(file) => match requires_git_part(file, h, at) {
            PartView::Pending(next) => PartView::Pending(next),
            PartView::Ready(git, i) => PartView::Ready(
                if git {
                    base_features(settings.install_ruby).push(Package::Git)
                } else {
                    base_features(settings.install_ruby)
                },
                i,
            ),
        },
    }
}

/// Collects the features of a step, reading replies from index `at`.
fn scan_features(
    settings: &GemSettings,
    gemfile: Option<&str>,
    replies: &Vec<Reply>,
    at: usize,
) -> (r: Part<Vec<Package>>)
    requires
        at <= replies.len(),
    ensures
        r@ == scan_features_part(
            settings@,
            match gemfile {
                Some(f) => Some(f@),
                None => None,
            },
            history(replies@),
            at as int,
        ),
        r matches Part::Ready(_, next) ==> at <= next <= replies.len(),
{
    let mut res: Vec<Package> = Vec::new();
    res.push(Package::BuildEssential);
    if settings.install_ruby {
        res.push(Package::Ruby);
        res.push(Package::RubyDev);
    }
    res.push(Package::Bundler);
    assert(res@ =~= base_features(settings.install_ruby));
    match gemfile {
        None => Part::Ready(res, at),
        Some(file) => match requires_git(file, replies, at) {
            Part::Pending(next) => Part::Pending(next),
            Part::Ready(git, i) => {
                if git {
                    res.push(Package::Git);
                }
                Part::Ready(res, i)
            },
        },
    }
}

/// The part that every install step begins with, from index 0: the features
/// are collected and asked of the distribution, and the gem tool is prepared.
pub open spec fn prepare_part(
    settings: GemSettingsView,
    gemfile: Option<Seq<char>>,
    h: Seq<ReplyView>,
) -> PartView<()> {
    match scan_features_part(settings, gemfile, h, 0) {
        PartView::Pending(next) => PartView::Pending(next),
        PartView::Ready(features, i) => if h.len() <= i {
            PartView::Pending(NextView::Ask(OpView::EnsurePackages(features)))
        } else if h[i] is Failed {
            PartView::Pending(NextView::Fail(h[i].error()))
        } else if h.len() <= i + 1 {
            PartView::Pending(NextView::Ask(OpView::GemConfigure))
        } else if h[i + 1] is Failed {
            PartView::Pending(NextView::Fail(h[i + 1].error()))
        } else {
            PartView::Ready((), i + 2)
        },
    }
}

/// Begins an install step.
fn prepare(settings: &GemSettings, gemfile: Option<&str>, replies: &Vec<Reply>) -> (r: Part<()>)
    ensures
        r@ == prepare_part(
            settings@,
            match gemfile {
                Some(f) => Some(f@),
                None => None,
            },
            history(replies@),
        ),
        r matches Part::Ready(_, next) ==> next <= replies.len(),
{
    let (features, i) = match scan_features(settings, gemfile, replies, 0) {
        Part::Pending(next) => {
            return Part::Pending(next);
        },
        Part::Ready(features, i) => (features, i),
    };
    if replies.len() <= i {
        return Part::Pending(Next::Ask(Op::EnsurePackages(features)));
    }
    match &replies[i] {
        Reply::Failed(e) => {
            return Part::Pending(Next::Fail(e.clone()));
        },
        _ => {},
    }
    if replies.len() <= i + 1 {
        return Part::Pending(Next::Ask(Op::GemConfigure));
    }
    match &replies[i + 1] {
        Reply::Failed(e) => Part::Pending(Next::Fail(e.clone())),
        _ => Part::Ready((), i + 2),
    }
}

/// The end of a step that runs the gem tool, from index `at`: the command is
/// set up, the flags against documentation are chosen, and the command runs
/// with `head`, those flags and `tail` for its arguments.
pub open spec fn run_gem_plan(
    settings: GemSettingsView,
    head: Seq<Seq<char>>,
    tail: Seq<Seq<char>>,
    h: Seq<ReplyView>,
    at: int,
) -> NextView<()> {
    if h.len() <= at {
        NextView::Ask(OpView::PrepareCommand(gem_exe_of(settings)))
    } else if h[at] is Failed {
        NextView::Fail(h[at].error())
    } else {
        match no_doc_part(settings, h, at + 1) {
            PartView::Pending(next) => next,
            PartView::Ready(legacy, i) => if h.len() <= i {
                NextView::Ask(
                    OpView::RunPrepared {
                        program: gem_exe_of(settings),
                        args: head + no_doc_flags(legacy) + tail,
                    },
                )
            } else if h[i] is Failed {
                NextView::Fail(h[i].error())
            } else {
                NextView::Done(())
            },
        }
    }
}

/// Runs the gem tool with `head`, the flags against documentation and `tail`
/// for its arguments, reading replies from index `at`.
fn run_gem(
    settings: &GemSettings,
    head: Vec<String>,
    tail: &Vec<String>,
    replies: &Vec<Reply>,
    at: usize,
) -> (next: Next<()>)
    requires
        at <= replies.len(),
    ensures
        next@ == run_gem_plan(settings@, texts(head@), texts(tail@), history(replies@), at as int),
{
    if replies.len() <= at {
        return Next::Ask(Op::PrepareCommand(gem_exe(settings)));
    }
    match &replies[at] {
        Reply::Failed(e) => {
            return Next::Fail(e.clone());
        },
        _ => {},
    }
    let (old, i) = match no_doc_args(settings, replies, at + 1) {
        Part::Pending(next) => {
            return next;
        },
        Part::Ready(old, i) => (old, i),
    };
    if replies.len() <= i {
        let mut args = head;
        push_no_doc_flags(&mut args, old);
        push_all(&mut args, tail);
        return Next::Ask(Op::RunPrepared { program: gem_exe(settings), args });
    }
    match &replies[i] {
        Reply::Failed(e) => Next::Fail(e.clone()),
        _ => Next::Done(()),
    }
}

/// The plan of [`install`].
pub open spec fn install_plan(settings: GemSettingsView, pkgs: Seq<Seq<char>>, h: Seq<ReplyView>)
    -> NextView<()> {
    match prepare_part(settings, None, h) {
        PartView::Pending(next) => next,
        PartView::Ready(_, i) => if pkgs.len() == 0 {
            NextView::Done(())
        } else {
            run_gem_plan(settings, seq!["install"@, "--bindir"@, BIN_DIR@], pkgs, h, i)
        },
    }
}

/// Installs gems: the features that gems need are asked of the distribution,
/// the gem tool is prepared, and the gems `pkgs`, if there are any, are
/// installed without their documentation.
pub fn install(settings: &GemSettings, pkgs: &Vec<String>, replies: &Vec<Reply>) -> (next: Next<()>)
    ensures
        next@ == install_plan(settings@, texts(pkgs@), history(replies@)),
{
    let i = match prepare(settings, None, replies) {
        Part::Pending(next) => {
            return next;
        },
        Part::Ready(_, i) => i,
    };
    if pkgs.len() == 0 {
        assert(texts(pkgs@).len() == 0);
        return Next::Done(());
    }
    assert(texts(pkgs@).len() != 0);
    let mut head: Vec<String> = Vec::new();
    push_text(&mut head, "install");
    push_text(&mut head, "--bindir");
    push_text(&mut head, BIN_DIR);
    assert(texts(head@) =~= seq!["install"@, "--bindir"@, BIN_DIR@]);
    run_gem(settings, head, pkgs, replies, i)
}

/// The plan of [`setup_bundler`].
pub open spec fn setup_bundler_plan(settings: GemSettingsView, h: Seq<ReplyView>) -> NextView<()> {
    if h.len() == 0 {
        NextView::Ask(OpView::GemConfigure)
    } else if h[0] is Failed {
        NextView::Fail(h[0].error())
    } else {
        run_gem_plan(settings, seq!["install"@, "bundler"@], Seq::empty(), h, 1)
    }
}

/// Installs bundler with the gem tool, without its documentation, after the
/// gem tool has been prepared.
pub fn setup_bundler(settings: &GemSettings, replies: &Vec<Reply>) -> (next: Next<()>)
    ensures
        next@ == setup_bundler_plan(settings@, history(replies@)),
{
    if replies.len() == 0 {
        return Next::Ask(Op::GemConfigure);
    }
    match &replies[0] {
        Reply::Failed(e) => {
            return Next::Fail(e.clone());
        },
        _ => {},
    }
    let mut head: Vec<String> = Vec::new();
    push_text(&mut head, "install");
    push_text(&mut head, "bundler");
    assert(texts(head@) =~= seq!["install"@, "bundler"@]);
    let tail: Vec<String> = Vec::new();
    assert(texts(tail@) =~= Seq::<Seq<char>>::empty());
    run_gem(settings, head, &tail, replies, 1)
}

/// Whether a text names a trust policy that bundler knows.
pub open spec fn valid_trust_policy(policy: Seq<char>) -> bool {
    policy == "LowSecurity"@ || policy == "MediumSecurity"@ || policy == "HighSecurity"@
}

/// The failure reported for a trust policy that bundler does not know.
pub open spec fn invalid_trust_policy(policy: Seq<char>) -> IoErrorView {
    failure(
        "Value of 'GemBundle.trust_policy' must be 'LowSecurity', 'MediumSecurity' or 'HighSecurity', '"@
            + policy + "' given"@,
    )
}

/// The groups to leave out, as arguments.
pub open spec fn without_args(without: Seq<Seq<char>>) -> Seq<Seq<char>> {
    if without.len() == 0 {
        Seq::empty()
    } else {
        seq!["--without"@] + without
    }
}

/// The trust policy, as arguments.
pub open spec fn trust_policy_args(policy: Option<Seq<char>>) -> Seq<Seq<char>> {
    match policy {
        Some(p) => seq!["--trust-policy"@, p],
        None => Seq::empty(),
    }
}

/// The arguments of bundler for a Gemfile.
pub open spec fn bundle_args(info: GemBundleInfoView) -> Seq<Seq<char>> {
    seq!["install"@, "--system"@, "--binstubs"@, BIN_DIR@, "--gemfile"@, info.gemfile]
        + without_args(info.without) + trust_policy_args(info.trust_policy)
}

/// The plan of [`bundle`].
pub open spec fn bundle_plan(settings: GemSettingsView, info: GemBundleInfoView, h: Seq<ReplyView>)
    -> NextView<()> {
    match prepare_part(settings, Some(info.gemfile), h) {
        PartView::Pending(next) => next,
        PartView::Ready(_, i) => if h.len() <= i {
            NextView::Ask(OpView::PrepareCommand("bundle"@))
        } else if h[i] is Failed {
            NextView::Fail(h[i].error())
        } else if info.trust_policy is Some && !valid_trust_policy(info.trust_policy->Some_0) {
            NextView::Fail(invalid_trust_policy(info.trust_policy->Some_0))
        } else if h.len() <= i + 1 {
            NextView::Ask(OpView::RunPrepared { program: "bundle"@, args: bundle_args(info) })
        } else if h[i + 1] is Failed {
            NextView::Fail(h[i + 1].error())
        } else {
            NextView::Done(())
        },
    }
}

/// Installs the gems of a Gemfile with bundler: the features that the
/// Gemfile needs are asked of the distribution, the gem tool is prepared, and
/// bundler installs system-wide, leaving out the groups `without`. A trust
/// policy must be one that bundler knows.
pub fn bundle(settings: &GemSettings, info: &GemBundleInfo, replies: &Vec<Reply>) -> (next: Next<
    (),
>)
    ensures
        next@ == bundle_plan(settings@, info@, history(replies@)),
{
    let i = match prepare(settings, Some(info.gemfile.as_str()), replies) {
        Part::Pending(next) => {
            return next;
        },
        Part::Ready(_, i) => i,
    };
    if replies.len() <= i {
        return Next::Ask(Op::PrepareCommand(String::from_str("bundle")));
    }
    match &replies[i] {
        Reply::Failed(e) => {
            return Next::Fail(e.clone());
        },
        _ => {},
    }
    let mut args: Vec<String> = Vec::new();
    push_text(&mut args, "install");
    push_text(&mut args, "--system");
    push_text(&mut args, "--binstubs");
    push_text(&mut args, BIN_DIR);
    push_text(&mut args, "--gemfile");
    push_text(&mut args, info.gemfile.as_str());
    let ghost head = seq!["install"@, "--system"@, "--binstubs"@, BIN_DIR@, "--gemfile"@, info.gemfile@];
    assert(texts(args@) =~= head);
    if info.without.len() != 0 {
        push_text(&mut args, "--without");
        push_all(&mut args, &info.without);
        assert(texts(info.without@).len() != 0);
        assert(texts(args@) =~= head + without_args(texts(info.without@)));
    } else {
        assert(texts(info.without@).len() == 0);
        assert(texts(args@) =~= head + without_args(texts(info.without@)));
    }
    let ghost body = texts(args@);
    match &info.trust_policy {
        Some(policy) => {
            let p = policy.as_str();
            if !(same_text(p, "LowSecurity") || same_text(p, "MediumSecurity") || same_text(
                p,
                "HighSecurity",
            )) {
                let mut m = String::from_str(
                    "Value of 'GemBundle.trust_policy' must be 'LowSecurity', 'MediumSecurity' or 'HighSecurity', '",
                );
                m.append(p);
                m.append("' given");
                return Next::Fail(IoError::other(m));
            }
            push_text(&mut args, "--trust-policy");
            push_text(&mut args, p);
            assert(texts(args@) =~= body + trust_policy_args(opt_text(info.trust_policy)));
        },
        None => {
            assert(texts(args@) =~= body + trust_policy_args(opt_text(info.trust_policy)));
        },
    }
    if replies.len() <= i + 1 {
        return Next::Ask(Op::RunPrepared { program: String::from_str("bundle"), args });
    }
    match &replies[i + 1] {
        Reply::Failed(e) => Next::Fail(e.clone()),
        _ => Next::Done(()),
    }
}

/// The plan of [`list`].
pub open spec fn list_plan(settings: GemSettingsView, h: Seq<ReplyView>) -> NextView<()> {
    if h.len() == 0 {
        NextView::Ask(OpView::PrepareCommand(gem_exe_of(settings)))
    } else if h[0] is Failed {
        NextView::Fail(h[0].error())
    } else if h.len() == 1 {
        NextView::Ask(
            OpView::CapturePrepared {
                program: gem_exe_of(settings),
                args: seq!["list"@, "--local"@],
            },
        )
    } else {
        match h[1] {
            ReplyView::Data(out) => if h.len() == 2 {
                NextView::Ask(
                    OpView::WriteFile { path: "/vagga/container/gems-list.txt"@, data: out },
                )
            } else if h[2] is Failed {
                NextView::Fail(
                    failure("Error dumping gems package list: "@ + h[2].error().message),
                )
            } else {
                NextView::Done(())
            },
            ReplyView::Failed(e) => NextView::Fail(e),
            _ => NextView::Fail(unexpected_reply()),
        }
    }
}

/// Writes the list of the installed gems, as the gem tool prints it, into the
/// container's record of packages.
pub fn list(settings: &GemSettings, replies: &Vec<Reply>) -> (next: Next<()>)
    ensures
        next@ == list_plan(settings@, history(replies@)),
{
    if replies.len() == 0 {
        return Next::Ask(Op::PrepareCommand(gem_exe(settings)));
    }
    match &replies[0] {
        Reply::Failed(e) => {
            return Next::Fail(e.clone());
        },
        _ => {},
    }
    if replies.len() == 1 {
        let mut args: Vec<String> = Vec::new();
        push_text(&mut args, "list");
        push_text(&mut args, "--local");
        assert(texts(args@) =~= seq!["list"@, "--local"@]);
        return Next::Ask(Op::CapturePrepared { program: gem_exe(settings), args });
    }
    match &replies[1] {
        Reply::Data(out) => {
            if replies.len() == 2 {
                return Next::Ask(
                    Op::WriteFile {
                        path: String::from_str("/vagga/container/gems-list.txt"),
                        data: out.clone(),
                    },
                );
            }
            match &replies[2] {
                Reply::Failed(e) => Next::Fail(prefixed("Error dumping gems package list: ", e)),
                _ => Next::Done(()),
            }
        },
        Reply::Failed(e) => Next::Fail(e.clone()),
        _ => Next::Fail(unexpected()),
    }
}

} // verus!
