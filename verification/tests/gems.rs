use fs_materialize::error::{ErrorKind, IoError};
use fs_materialize::gem::{
    bundle, configure, install, list, setup_bundler, GemBundleInfo, GemSettings, Package, BIN_DIR,
    DEFAULT_GEM_EXE,
};
use fs_materialize::ops::{Next, Op, Reply};
use fs_materialize::pack::pack_command;

fn s(text: &str) -> String {
    text.to_string()
}

fn strings(items: &[&str]) -> Vec<String> {
    items.iter().map(|x| x.to_string()).collect()
}

fn other(message: &str) -> IoError {
    IoError { kind: ErrorKind::Other, message: s(message) }
}

fn fail(message: &str) -> Reply {
    Reply::Failed(other(message))
}

fn data(text: &str) -> Reply {
    Reply::Data(text.as_bytes().to_vec())
}

/// Feeds the replies of `script` one by one; gives the requests that were
/// answered and what the operation said last.
fn drive<T>(step: &dyn Fn(&Vec<Reply>) -> Next<T>, script: Vec<Reply>) -> (Vec<Op>, Next<T>) {
    let mut replies: Vec<Reply> = Vec::new();
    let mut asked: Vec<Op> = Vec::new();
    let mut script = script.into_iter();
    loop {
        match step(&replies) {
            Next::Ask(op) => match script.next() {
                Some(reply) => {
                    asked.push(op);
                    replies.push(reply);
                }
                None => return (asked, Next::Ask(op)),
            },
            last => return (asked, last),
        }
    }
}

fn settings(install_ruby: bool, gem_exe: Option<&str>, update_gem: bool) -> GemSettings {
    GemSettings { install_ruby, gem_exe: gem_exe.map(|x| x.to_string()), update_gem }
}

#[test]
fn default_settings_install_and_update() {
    assert_eq!(GemSettings::default(), settings(true, None, true));
    assert_eq!(DEFAULT_GEM_EXE, "/usr/bin/gem");
    assert_eq!(BIN_DIR, "/usr/local/bin");
}

#[test]
fn configure_updates_the_default_tool() {
    let conf = GemSettings::default();
    let script = vec![
        data("2.4.5\n"),
        Reply::Flag(false),
        Reply::Done,
        data("/usr/lib/ruby/gems/2.3.0\n"),
        Reply::Done,
    ];
    let (asked, last) = drive(&|r| configure(&conf, r), script);
    assert_eq!(
        asked,
        vec![
            Op::Capture { args: strings(&["/usr/bin/gem", "--version"]) },
            Op::VersionBelow { version: s("2.4"), major: 2, minor: 0 },
            Op::RunAt {
                args: strings(&["/usr/bin/gem", "update", "--system", "--no-document"]),
                workdir: s("/work"),
                env: strings(&["REALLY_GEM_UPDATE_SYSTEM=1"]),
            },
            Op::Capture { args: strings(&["/usr/bin/gem", "env", "gemdir"]) },
            Op::AddCacheDir { path: s("/usr/lib/ruby/gems/2.3.0/cache"), name: s("gems-cache") },
        ]
    );
    assert_eq!(last, Next::Done(()));
}

#[test]
fn configure_uses_old_flags_for_an_old_tool() {
    let conf = GemSettings::default();
    let (asked, last) = drive(&|r| configure(&conf, r), vec![data("1.8.23\n"), Reply::Flag(true)]);
    assert_eq!(asked[1], Op::VersionBelow { version: s("1.8"), major: 2, minor: 0 });
    assert_eq!(
        last,
        Next::Ask(Op::RunAt {
            args: strings(&["/usr/bin/gem", "update", "--system", "--no-rdoc", "--no-ri"]),
            workdir: s("/work"),
            env: strings(&["REALLY_GEM_UPDATE_SYSTEM=1"]),
        })
    );
}

#[test]
fn configure_leaves_a_custom_tool_alone() {
    let conf = settings(true, Some("/opt/ruby/bin/gem"), true);
    let (asked, last) = drive(&|r| configure(&conf, r), vec![data("  /opt/ruby/gems \n")]);
    assert_eq!(asked, vec![Op::Capture { args: strings(&["/opt/ruby/bin/gem", "env", "gemdir"]) }]);
    assert_eq!(
        last,
        Next::Ask(Op::AddCacheDir { path: s("/opt/ruby/gems/cache"), name: s("gems-cache") })
    );
    let conf = settings(true, None, false);
    let (asked, _) = drive(&|r| configure(&conf, r), vec![data("/var/lib/gems\n")]);
    assert_eq!(asked, vec![Op::Capture { args: strings(&["/usr/bin/gem", "env", "gemdir"]) }]);
}

#[test]
fn configure_reads_the_first_two_numbers_of_the_version() {
    let conf = GemSettings::default();
    let (_, last) = drive(&|r| configure(&conf, r), vec![data("10.12.3")]);
    assert_eq!(last, Next::Ask(Op::VersionBelow { version: s("10.12"), major: 2, minor: 0 }));
    let (_, last) = drive(&|r| configure(&conf, r), vec![data("2.4")]);
    assert_eq!(last, Next::Fail(other("Gem version was not found")));
    let (_, last) = drive(&|r| configure(&conf, r), vec![data("gem 2.4.5")]);
    assert_eq!(last, Next::Fail(other("Gem version was not found")));
}

#[test]
fn configure_explains_failures() {
    let conf = GemSettings::default();
    let (_, last) = drive(&|r| configure(&conf, r), vec![fail("Command failed")]);
    assert_eq!(last, Next::Fail(other("Error getting gem version: Command failed")));
    let bad = String::from_utf8(vec![0xff]).unwrap_err().to_string();
    let (_, last) = drive(&|r| configure(&conf, r), vec![Reply::Data(vec![0xff])]);
    assert_eq!(
        last,
        Next::Fail(other(&format!(
            "Error getting gem version: Error parsing gem version: {}",
            bad
        )))
    );
    let (_, last) = drive(&|r| configure(&conf, r), vec![data("2.4.5"), fail("invalid float")]);
    assert_eq!(last, Next::Fail(other("Erro parsing gem version: invalid float")));
    let (_, last) =
        drive(&|r| configure(&conf, r), vec![data("2.4.5"), Reply::Flag(false), fail("exit 1")]);
    assert_eq!(last, Next::Fail(other("exit 1")));
    let custom = settings(true, Some("/g"), false);
    let (_, last) = drive(&|r| configure(&custom, r), vec![fail("no gem")]);
    assert_eq!(last, Next::Fail(other("no gem")));
    let (_, last) = drive(&|r| configure(&custom, r), vec![Reply::Data(vec![0xff])]);
    assert_eq!(last, Next::Fail(other(&format!("Error getting gem dir: {}", bad))));
    let (_, last) = drive(&|r| configure(&custom, r), vec![data("/d"), fail("full")]);
    assert_eq!(last, Next::Fail(other("full")));
}

#[test]
fn install_asks_for_features_and_installs() {
    let conf = GemSettings::default();
    let pkgs = strings(&["rake", "rspec"]);
    let script = vec![Reply::Done, Reply::Done, Reply::Done, Reply::Done];
    let (asked, last) = drive(&|r| install(&conf, &pkgs, r), script);
    assert_eq!(
        asked,
        vec![
            Op::EnsurePackages(vec![
                Package::BuildEssential,
                Package::Ruby,
                Package::RubyDev,
                Package::Bundler,
            ]),
            Op::GemConfigure,
            Op::PrepareCommand(s("/usr/bin/gem")),
            Op::RunPrepared {
                program: s("/usr/bin/gem"),
                args: strings(&[
                    "install",
                    "--bindir",
                    "/usr/local/bin",
                    "--no-document",
                    "rake",
                    "rspec",
                ]),
            },
        ]
    );
    assert_eq!(last, Next::Done(()));
}

#[test]
fn install_without_gems_only_prepares() {
    let conf = settings(false, None, true);
    let (asked, last) = drive(&|r| install(&conf, &vec![], r), vec![Reply::Done, Reply::Done]);
    assert_eq!(
        asked,
        vec![
            Op::EnsurePackages(vec![Package::BuildEssential, Package::Bundler]),
            Op::GemConfigure,
        ]
    );
    assert_eq!(last, Next::Done(()));
}

#[test]
fn install_checks_the_version_of_a_tool_that_is_not_updated() {
    let conf = settings(true, Some("/opt/gem"), false);
    let pkgs = strings(&["rake"]);
    let script = vec![Reply::Done, Reply::Done, Reply::Done, data("1.9.1"), Reply::Flag(true)];
    let (asked, last) = drive(&|r| install(&conf, &pkgs, r), script);
    assert_eq!(asked[2], Op::PrepareCommand(s("/opt/gem")));
    assert_eq!(asked[3], Op::Capture { args: strings(&["/opt/gem", "--version"]) });
    assert_eq!(asked[4], Op::VersionBelow { version: s("1.9"), major: 2, minor: 0 });
    assert_eq!(
        last,
        Next::Ask(Op::RunPrepared {
            program: s("/opt/gem"),
            args: strings(&["install", "--bindir", "/usr/local/bin", "--no-rdoc", "--no-ri", "rake"]),
        })
    );
}

#[test]
fn install_stops_at_the_first_failure() {
    let conf = GemSettings::default();
    let pkgs = strings(&["rake"]);
    let (asked, last) = drive(&|r| install(&conf, &pkgs, r), vec![fail("no packages")]);
    assert_eq!(asked.len(), 1);
    assert_eq!(last, Next::Fail(other("no packages")));
    let (_, last) = drive(&|r| install(&conf, &pkgs, r), vec![Reply::Done, fail("configure")]);
    assert_eq!(last, Next::Fail(other("configure")));
    let script = vec![Reply::Done, Reply::Done, fail("Command gem not found")];
    let (_, last) = drive(&|r| install(&conf, &pkgs, r), script);
    assert_eq!(last, Next::Fail(other("Command gem not found")));
    let script = vec![Reply::Done, Reply::Done, Reply::Done, fail("exit 1")];
    let (_, last) = drive(&|r| install(&conf, &pkgs, r), script);
    assert_eq!(last, Next::Fail(other("exit 1")));
}

fn bundle_info(without: &[&str], trust_policy: Option<&str>) -> GemBundleInfo {
    GemBundleInfo {
        gemfile: s("Gemfile"),
        without: strings(without),
        trust_policy: trust_policy.map(|x| x.to_string()),
    }
}

#[test]
fn bundle_needs_git_for_gems_from_git() {
    let conf = GemSettings::default();
    let info = bundle_info(&[], None);
    let (asked, last) = drive(
        &|r| bundle(&conf, &info, r),
        vec![Reply::Text(s("gem 'x', :git => 'https://example.com/x.git'\n"))],
    );
    assert_eq!(asked, vec![Op::ReadText(s("/work/Gemfile"))]);
    assert_eq!(
        last,
        Next::Ask(Op::EnsurePackages(vec![
            Package::BuildEssential,
            Package::Ruby,
            Package::RubyDev,
            Package::Bundler,
            Package::Git,
        ]))
    );
    for text in ["git 'https://example.com' do\nend", "git_source(:x) { }", "gem 'a', :github => 'b'"] {
        let (_, last) = drive(&|r| bundle(&conf, &info, r), vec![Reply::Text(s(text))]);
        assert!(matches!(last, Next::Ask(Op::EnsurePackages(f)) if f.contains(&Package::Git)));
    }
    let (_, last) =
        drive(&|r| bundle(&conf, &info, r), vec![Reply::Text(s("gem 'rails', '4.2'\n"))]);
    assert_eq!(
        last,
        Next::Ask(Op::EnsurePackages(vec![
            Package::BuildEssential,
            Package::Ruby,
            Package::RubyDev,
            Package::Bundler,
        ]))
    );
}

#[test]
fn bundle_builds_the_command_line() {
    let conf = settings(false, None, true);
    let info = bundle_info(&["development", "test"], Some("HighSecurity"));
    let script = vec![Reply::Text(s("gem 'rails'")), Reply::Done, Reply::Done, Reply::Done, Reply::Done];
    let (asked, last) = drive(&|r| bundle(&conf, &info, r), script);
    assert_eq!(
        asked,
        vec![
            Op::ReadText(s("/work/Gemfile")),
            Op::EnsurePackages(vec![Package::BuildEssential, Package::Bundler]),
            Op::GemConfigure,
            Op::PrepareCommand(s("bundle")),
            Op::RunPrepared {
                program: s("bundle"),
                args: strings(&[
                    "install",
                    "--system",
                    "--binstubs",
                    "/usr/local/bin",
                    "--gemfile",
                    "Gemfile",
                    "--without",
                    "development",
                    "test",
                    "--trust-policy",
                    "HighSecurity",
                ]),
            },
        ]
    );
    assert_eq!(last, Next::Done(()));
    let plain = bundle_info(&[], None);
    let script = vec![Reply::Text(s("")), Reply::Done, Reply::Done, Reply::Done];
    let (_, last) = drive(&|r| bundle(&conf, &plain, r), script);
    assert_eq!(
        last,
        Next::Ask(Op::RunPrepared {
            program: s("bundle"),
            args: strings(&["install", "--system", "--binstubs", "/usr/local/bin", "--gemfile", "Gemfile"]),
        })
    );
}

#[test]
fn bundle_refuses_an_unknown_trust_policy() {
    let conf = GemSettings::default();
    let info = bundle_info(&[], Some("NoSecurity"));
    let script = vec![Reply::Text(s("")), Reply::Done, Reply::Done, Reply::Done];
    let (asked, last) = drive(&|r| bundle(&conf, &info, r), script);
    assert_eq!(asked.len(), 4);
    assert_eq!(
        last,
        Next::Fail(other(
            "Value of 'GemBundle.trust_policy' must be 'LowSecurity', 'MediumSecurity' or 'HighSecurity', 'NoSecurity' given"
        ))
    );
    for policy in ["LowSecurity", "MediumSecurity", "HighSecurity"] {
        let info = bundle_info(&[], Some(policy));
        let script = vec![Reply::Text(s("")), Reply::Done, Reply::Done, Reply::Done];
        let (_, last) = drive(&|r| bundle(&conf, &info, r), script);
        assert!(matches!(last, Next::Ask(Op::RunPrepared { .. })));
    }
}

#[test]
fn bundle_explains_an_unreadable_gemfile() {
    let conf = GemSettings::default();
    let info = bundle_info(&[], None);
    let (_, last) = drive(&|r| bundle(&conf, &info, r), vec![fail("No such file or directory")]);
    assert_eq!(
        last,
        Next::Fail(other("Error reading Gemfile (\"/work/Gemfile\"): No such file or directory"))
    );
}

#[test]
fn setup_bundler_installs_bundler() {
    let conf = GemSettings::default();
    let (asked, last) =
        drive(&|r| setup_bundler(&conf, r), vec![Reply::Done, Reply::Done, Reply::Done]);
    assert_eq!(
        asked,
        vec![
            Op::GemConfigure,
            Op::PrepareCommand(s("/usr/bin/gem")),
            Op::RunPrepared {
                program: s("/usr/bin/gem"),
                args: strings(&["install", "bundler", "--no-document"]),
            },
        ]
    );
    assert_eq!(last, Next::Done(()));
    let (_, last) = drive(&|r| setup_bundler(&conf, r), vec![fail("configure failed")]);
    assert_eq!(last, Next::Fail(other("configure failed")));
}

#[test]
fn list_records_what_the_tool_prints() {
    let conf = settings(true, Some("/opt/gem"), true);
    let script = vec![Reply::Done, data("rake (10.0)\n"), Reply::Done];
    let (asked, last) = drive(&|r| list(&conf, r), script);
    assert_eq!(
        asked,
        vec![
            Op::PrepareCommand(s("/opt/gem")),
            Op::CapturePrepared { program: s("/opt/gem"), args: strings(&["list", "--local"]) },
            Op::WriteFile {
                path: s("/vagga/container/gems-list.txt"),
                data: b"rake (10.0)\n".to_vec(),
            },
        ]
    );
    assert_eq!(last, Next::Done(()));
    let script = vec![Reply::Done, data("x"), fail("disk full")];
    let (_, last) = drive(&|r| list(&conf, r), script);
    assert_eq!(last, Next::Fail(other("Error dumping gems package list: disk full")));
    let (_, last) = drive(&|r| list(&conf, r), vec![Reply::Done, fail("exit 1")]);
    assert_eq!(last, Next::Fail(other("exit 1")));
}

#[test]
fn pack_command_builds_and_runs_the_helper() {
    let args = strings(&["--file", "image.tar", "web"]);
    let script = vec![
        Reply::PackOptions { name: s("web"), build_mode: s("Normal") },
        Reply::Text(s("web.1a2b3c4d")),
        Reply::Done,
        Reply::Code(0),
    ];
    let (asked, last) = drive(&|r| pack_command(&args, r), script);
    assert_eq!(
        asked,
        vec![
            Op::ParsePackOptions(strings(&["vagga _pack_image", "--file", "image.tar", "web"])),
            Op::BuildContainer { name: s("web"), build_mode: s("Normal") },
            Op::PrepareWrapper { version: s("web.1a2b3c4d"), container: s("web") },
            Op::RunWrapper { gid: 0, args: strings(&["_pack_image", "--file", "image.tar", "web"]) },
        ]
    );
    assert_eq!(last, Next::Done(0));
}

#[test]
fn pack_command_ends_with_the_code_of_the_parser() {
    let args = strings(&["--help"]);
    let (asked, last) = drive(&|r| pack_command(&args, r), vec![Reply::Code(2)]);
    assert_eq!(asked.len(), 1);
    assert_eq!(last, Next::Done(2));
}

#[test]
fn pack_command_reports_failures() {
    let args = strings(&["web"]);
    let options = || Reply::PackOptions { name: s("web"), build_mode: s("Normal") };
    let (_, last) = drive(&|r| pack_command(&args, r), vec![options(), fail("build failed")]);
    assert_eq!(last, Next::Fail(other("build failed")));
    let script = vec![options(), Reply::Text(s("v")), fail("no such user")];
    let (_, last) = drive(&|r| pack_command(&args, r), script);
    assert_eq!(last, Next::Fail(other("no such user")));
    let script = vec![options(), Reply::Text(s("v")), Reply::Done, fail("ENOENT")];
    let (_, last) = drive(&|r| pack_command(&args, r), script);
    assert_eq!(last, Next::Fail(other("Error running `vagga_wrapperr _pack_image`: ENOENT")));
    let script = vec![options(), Reply::Text(s("v")), Reply::Done, Reply::Code(137)];
    let (_, last) = drive(&|r| pack_command(&args, r), script);
    assert_eq!(last, Next::Done(137));
}
