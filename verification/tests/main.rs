use oxide::cmd::{Effect, Outcome, Progress, Stage};
use oxide::cmd_org::SubCommand as OrgCommand;
use oxide::config::new_blank_config;
use oxide::config_from_env::{EnvConfig, Environment};
use oxide::context::Context;
use oxide::error::{Error, ErrorKind};
use oxide::iostreams::IoStreams;
use oxide::update::{settled, ReleaseInfo};
use oxide::{do_main, finish, handle_update, relay, resume, run_cmd, Opts, SubCommand};

fn strings(items: &[&str]) -> Vec<String> {
    items.iter().map(|s| s.to_string()).collect()
}

fn blank(io: IoStreams) -> Context {
    let mut env = Environment::new();
    env.set_var("OXIDE_HOST".to_string(), "api.oxide.test".to_string());
    env.set_var("OXIDE_TOKEN".to_string(), "secret".to_string());
    Context { config: EnvConfig::inherit_env(new_blank_config(), env), io, debug: false }
}

fn stdout(ctx: &Context) -> String {
    String::from_utf8(ctx.io.out.clone()).unwrap()
}

fn stderr(ctx: &Context) -> String {
    String::from_utf8(ctx.io.err_out.clone()).unwrap()
}

/// What the first step asks for.
#[derive(Debug, PartialEq)]
enum Want {
    Run(&'static str, Vec<String>),
    Spawn(&'static str, Vec<String>),
}

struct TestItem {
    name: String,
    args: Vec<String>,
    want: Want,
    want_out: String,
    want_code: i32,
}

#[test]
fn test_main() {
    let tests: Vec<TestItem> = vec![
        TestItem {
            name: "existing command".to_string(),
            args: vec!["oxide".to_string(), "completion".to_string()],
            want: Want::Run("completion", strings(&[])),
            want_out: "".to_string(),
            want_code: 0,
        },
        TestItem {
            name: "existing command with args".to_string(),
            args: vec![
                "oxide".to_string(),
                "completion".to_string(),
                "-s".to_string(),
                "zsh".to_string(),
            ],
            want: Want::Run("completion", strings(&["-s", "zsh"])),
            want_out: "".to_string(),
            want_code: 0,
        },
        TestItem {
            name: "add an alias".to_string(),
            args: vec![
                "oxide".to_string(),
                "alias".to_string(),
                "set".to_string(),
                "foo".to_string(),
                "completion -s zsh".to_string(),
            ],
            want: Want::Run("alias", strings(&["set", "foo", "completion -s zsh"])),
            want_out: "".to_string(),
            want_code: 0,
        },
        TestItem {
            name: "add a shell alias".to_string(),
            args: vec![
                "oxide".to_string(),
                "alias".to_string(),
                "set".to_string(),
                "-s".to_string(),
                "bar".to_string(),
                "which bash".to_string(),
            ],
            want: Want::Run("alias", strings(&["set", "-s", "bar", "which bash"])),
            want_out: "".to_string(),
            want_code: 0,
        },
        TestItem {
            name: "list our aliases".to_string(),
            args: vec!["oxide".to_string(), "alias".to_string(), "list".to_string()],
            want: Want::Run("alias", strings(&["list"])),
            want_out: "".to_string(),
            want_code: 0,
        },
        TestItem {
            name: "call alias".to_string(),
            args: vec!["oxide".to_string(), "foo".to_string()],
            want: Want::Run("completion", strings(&["-s", "zsh"])),
            want_out: "".to_string(),
            want_code: 0,
        },
        TestItem {
            name: "call alias with different binary name".to_string(),
            args: vec!["/bin/thing/oxide".to_string(), "foo".to_string()],
            want: Want::Run("completion", strings(&["-s", "zsh"])),
            want_out: "".to_string(),
            want_code: 0,
        },
        TestItem {
            name: "call shell alias".to_string(),
            args: vec!["oxide".to_string(), "bar".to_string()],
            want: Want::Spawn("sh", strings(&["-c", "which bash"])),
            want_out: "/bash".to_string(),
            want_code: 0,
        },
    ];

    let mut config = EnvConfig::inherit_env(new_blank_config(), Environment::new());
    // What the alias command, which runs outside the library, persists.
    config.set_alias("foo".to_string(), "completion -s zsh".to_string(), false).unwrap();
    config.set_alias("bar".to_string(), "which bash".to_string(), true).unwrap();
    assert_eq!(config.config.aliases.get("foo"), Some("completion -s zsh".to_string()));
    assert_eq!(config.config.aliases.get("bar"), Some("!which bash".to_string()));

    for t in tests {
        let mut io = IoStreams::test();
        io.stdout_tty = false;
        io.color_enabled = false;
        let mut ctx = Context { config, io, debug: false };

        let first = do_main(t.args, &mut ctx);
        assert!(stdout(&ctx).is_empty(), "test {}", t.name);
        let result = match first {
            Ok(Progress::Pending { effect, stage }) => {
                let outcome = match effect {
                    Effect::Run { command, args } => {
                        assert_eq!(Want::Run(command.leak(), args), t.want, "test {}", t.name);
                        Outcome::Done
                    }
                    Effect::Spawn { program, args } => {
                        assert_eq!(Want::Spawn(program.leak(), args), t.want, "test {}", t.name);
                        Outcome::Child {
                            code: Some(0),
                            stdout: b"/usr/bin/bash\n".to_vec(),
                            stderr: vec![],
                        }
                    }
                    other => panic!("test {}: unexpected effect {:?}", t.name, other),
                };
                resume(stage, outcome, &mut ctx)
            }
            other => other,
        };

        assert!(
            stdout(&ctx).contains(&t.want_out),
            "test {} ->\nstdout: {}\nwant: {}",
            t.name,
            stdout(&ctx),
            t.want_out
        );
        match result {
            Ok(Progress::Finished(code)) => {
                assert_eq!(code, t.want_code, "test {}", t.name);
                assert_eq!(stdout(&ctx).is_empty(), t.want_out.is_empty(), "test {}", t.name);
                assert!(stderr(&ctx).is_empty(), "test {}", t.name);
            }
            other => panic!("test {} -> {:?}", t.name, other),
        }
        config = ctx.config;
    }
}

#[test]
fn an_alias_does_what_its_expansion_does() {
    let mut direct = blank(IoStreams::test());
    let mut aliased = blank(IoStreams::test());
    aliased.config.set_alias("foo".to_string(), "completion -s zsh".to_string(), false).unwrap();
    let a = do_main(strings(&["oxide", "completion", "-s", "zsh"]), &mut direct).unwrap();
    let b = do_main(strings(&["oxide", "foo"]), &mut aliased).unwrap();
    assert_eq!(format!("{:?}", a), format!("{:?}", b));
    match b {
        Progress::Pending { effect: Effect::Run { command, args }, stage: Stage::Ran } => {
            assert_eq!(command, "completion");
            assert_eq!(args, strings(&["-s", "zsh"]));
        }
        other => panic!("unexpected {:?}", other),
    }
}

#[test]
fn an_alias_keeps_the_trailing_arguments_in_order() {
    let mut ctx = blank(IoStreams::test());
    ctx.config
        .set_alias("ol".to_string(), "organization list --limit".to_string(), false)
        .unwrap();
    match do_main(strings(&["oxide", "ol", "5", "--json"]), &mut ctx) {
        Ok(Progress::Pending {
            effect: Effect::Call { request: oxide::api::Request::ListPage { limit }, json, .. },
            stage: Stage::Listed { json: true },
        }) => {
            assert_eq!(limit, 5);
            assert!(json);
        }
        other => panic!("unexpected {:?}", other),
    }
}

#[test]
fn a_builtin_command_is_never_shadowed() {
    let mut ctx = blank(IoStreams::test());
    // A conflicting alias that was persisted before the rule was enforced.
    ctx.config.config.aliases.insert("completion".to_string(), "!rm -rf /".to_string());
    ctx.config.config.aliases.insert("organization".to_string(), "config list".to_string());
    match do_main(strings(&["oxide", "completion", "-s", "zsh"]), &mut ctx) {
        Ok(Progress::Pending { effect: Effect::Run { command, args }, .. }) => {
            assert_eq!(command, "completion");
            assert_eq!(args, strings(&["-s", "zsh"]));
        }
        other => panic!("unexpected {:?}", other),
    }
    let err = do_main(strings(&["oxide", "organization", "list", "--limit", "0"]), &mut ctx)
        .unwrap_err();
    assert_eq!(err.to_string(), "--limit must be greater than 0");
}

#[test]
fn a_zero_limit_fails_before_any_request() {
    let mut ctx = blank(IoStreams::test());
    let err =
        do_main(strings(&["oxide", "organization", "list", "--limit", "0"]), &mut ctx).unwrap_err();
    assert_eq!(err.kind, ErrorKind::Argument);
    assert_eq!(err.to_string(), "--limit must be greater than 0");
    let code = finish(&mut ctx, Err(err), None, "0.1.0", false, false);
    assert_eq!(code, 1);
    assert_eq!(stdout(&ctx), "");
    assert_eq!(stderr(&ctx), "--limit must be greater than 0\n");
}

#[test]
fn an_unknown_command_is_an_argument_error() {
    let mut ctx = blank(IoStreams::test());
    let err = do_main(strings(&["oxide", "unknowncmd"]), &mut ctx).unwrap_err();
    assert_eq!(err.kind, ErrorKind::Argument);
    assert_eq!(err.to_string(), "unrecognized command 'unknowncmd'");
    assert_eq!(err.exit_code(), 1);
    let err = do_main(strings(&["oxide", "unknowncmd", "organization", "list"]), &mut ctx)
        .unwrap_err();
    assert_eq!(err.to_string(), "unrecognized command 'unknowncmd'");
}

#[test]
fn expansion_goes_one_level_deep() {
    let mut ctx = blank(IoStreams::test());
    ctx.config.set_alias("inner".to_string(), "organization list".to_string(), false).unwrap();
    ctx.config.set_alias("outer".to_string(), "inner --json".to_string(), false).unwrap();
    let err = do_main(strings(&["oxide", "outer"]), &mut ctx).unwrap_err();
    assert_eq!(err.kind, ErrorKind::Argument);
    assert_eq!(err.to_string(), "unrecognized command 'inner'");
}

#[test]
fn an_alias_that_cannot_be_split_is_an_alias_error() {
    let mut ctx = blank(IoStreams::test());
    ctx.config.set_alias("broken".to_string(), "config set 'oops".to_string(), false).unwrap();
    let err = do_main(strings(&["oxide", "broken"]), &mut ctx).unwrap_err();
    assert_eq!(err.kind, ErrorKind::Alias);
    assert_eq!(err.to_string(), "invalid alias expansion: config set 'oops");
}

#[test]
fn an_empty_alias_expands_to_nothing() {
    let mut ctx = blank(IoStreams::test());
    ctx.config.set_alias("nothing".to_string(), "".to_string(), false).unwrap();
    let err = do_main(strings(&["oxide", "nothing"]), &mut ctx).unwrap_err();
    assert_eq!(err.kind, ErrorKind::Argument);
    assert_eq!(err.to_string(), "a command is required");
    match do_main(strings(&["oxide", "nothing", "config", "list"]), &mut ctx) {
        Ok(Progress::Pending { effect: Effect::Run { command, args }, .. }) => {
            assert_eq!(command, "config");
            assert_eq!(args, strings(&["list"]));
        }
        other => panic!("unexpected {:?}", other),
    }
}

#[test]
fn no_arguments_at_all_need_a_command() {
    let mut ctx = blank(IoStreams::test());
    let err = do_main(vec![], &mut ctx).unwrap_err();
    assert_eq!(err.to_string(), "a command is required");
    let err = do_main(strings(&["oxide"]), &mut ctx).unwrap_err();
    assert_eq!(err.to_string(), "a command is required");
}

#[test]
fn a_shell_alias_passes_the_trailing_arguments_on() {
    let mut ctx = blank(IoStreams::test());
    ctx.config.set_alias("say".to_string(), "echo \"$1\" | tr a-z A-Z".to_string(), true).unwrap();
    match do_main(strings(&["oxide", "say", "hello world", "-x"]), &mut ctx) {
        Ok(Progress::Pending { effect: Effect::Spawn { program, args }, stage: Stage::Shell }) => {
            assert_eq!(program, "sh");
            assert_eq!(
                args,
                strings(&["-c", "echo \"$1\" | tr a-z A-Z", "--", "hello world", "-x"])
            );
        }
        other => panic!("unexpected {:?}", other),
    }
}

#[test]
fn the_output_of_the_shell_is_relayed_as_it_is() {
    let mut ctx = blank(IoStreams::test());
    ctx.io.out = b"before".to_vec();
    let child = Outcome::Child {
        code: Some(3),
        stdout: vec![0xff, b'o', b'u', b't', b'\n'],
        stderr: b"warning\n".to_vec(),
    };
    let done = resume(Stage::Shell, child, &mut ctx).unwrap();
    assert!(matches!(done, Progress::Finished(3)));
    assert_eq!(ctx.io.out, vec![b'b', b'e', b'f', b'o', b'r', b'e', 0xff, b'o', b'u', b't', b'\n']);
    assert_eq!(ctx.io.err_out, b"warning\n".to_vec());
}

#[test]
fn a_signal_gives_the_fallback_exit_code() {
    let mut ctx = blank(IoStreams::test());
    let child = Outcome::Child { code: None, stdout: vec![], stderr: vec![] };
    let done = relay(&mut ctx, child).unwrap();
    assert!(matches!(done, Progress::Finished(0)));
    assert_eq!(oxide::SIGNAL_EXIT_CODE, 0);
}

#[test]
fn a_shell_that_does_not_start_is_a_spawn_error() {
    let mut ctx = blank(IoStreams::test());
    let err = resume(Stage::Shell, Outcome::Failed("No such file or directory".to_string()), &mut ctx)
        .unwrap_err();
    assert_eq!(err.kind, ErrorKind::Spawn);
    assert_eq!(err.to_string(), "No such file or directory");
    assert_eq!(err.exit_code(), 1);
    let err = resume(Stage::Shell, Outcome::Done, &mut ctx).unwrap_err();
    assert_eq!(err.kind, ErrorKind::Command);
    assert_eq!(err.to_string(), "unexpected outcome");
}

#[test]
fn a_delegated_command_ends_as_the_caller_says() {
    let mut ctx = blank(IoStreams::test());
    let done = resume(Stage::Ran, Outcome::Done, &mut ctx).unwrap();
    assert!(matches!(done, Progress::Finished(0)));
    let err = resume(Stage::Ran, Outcome::Failed("no such key".to_string()), &mut ctx).unwrap_err();
    assert_eq!(err.kind, ErrorKind::Command);
    assert_eq!(err.to_string(), "no such key");
}

#[test]
fn the_debug_flag_is_set_from_the_command_line() {
    let mut ctx = blank(IoStreams::test());
    do_main(strings(&["oxide", "--debug", "config", "list"]), &mut ctx).unwrap();
    assert!(ctx.debug);
    do_main(strings(&["oxide", "config", "list"]), &mut ctx).unwrap();
    assert!(!ctx.debug);
    do_main(strings(&["oxide", "organization", "list", "-d"]), &mut ctx).unwrap();
    assert!(ctx.debug);
    // A command line that cannot be read leaves the flag as it is.
    do_main(strings(&["oxide", "nonsense"]), &mut ctx).unwrap_err();
    assert!(ctx.debug);
}

#[test]
fn the_environment_can_switch_debugging_on() {
    let mut ctx = blank(IoStreams::test());
    ctx.config.env.set_var("DEBUG".to_string(), "".to_string());
    do_main(strings(&["oxide", "config", "list"]), &mut ctx).unwrap();
    assert!(ctx.debug);
    ctx.config.env.remove_var("DEBUG");
    do_main(strings(&["oxide", "config", "list"]), &mut ctx).unwrap();
    assert!(!ctx.debug);
}

#[test]
fn the_command_tree_is_read_without_aliases() {
    let opts = Opts::parse(&strings(&["-d", "organization", "view", "acme", "--web"])).unwrap();
    assert!(opts.debug);
    match &opts.subcmd {
        SubCommand::Organization(org) => match &org.subcmd {
            OrgCommand::View(view) => {
                assert_eq!(view.organization, "acme");
                assert!(view.web);
                assert!(!view.json);
            }
            other => panic!("unexpected {:?}", other),
        },
        other => panic!("unexpected {:?}", other),
    }
    let mut ctx = blank(IoStreams::test());
    match run_cmd(&opts.subcmd, &mut ctx) {
        Ok(Progress::Pending { effect: Effect::Browse { url }, .. }) => {
            assert_eq!(url, "https://api.oxide.test/acme/acme");
        }
        other => panic!("unexpected {:?}", other),
    }
    let opts = Opts::parse(&strings(&["generate", "--debug", "markdown"])).unwrap();
    assert!(!opts.debug);
    assert!(matches!(&opts.subcmd, SubCommand::Generate(args) if *args == strings(&["--debug", "markdown"])));
    let err = Opts::parse(&strings(&["--verbose", "config"])).unwrap_err();
    assert_eq!(err.to_string(), "unexpected argument '--verbose'");
}

fn release() -> ReleaseInfo {
    ReleaseInfo {
        version: "v0.2.0".to_string(),
        url: "https://github.com/oxidecomputer/cli/releases/tag/v0.2.0".to_string(),
    }
}

#[test]
fn a_newer_release_is_announced_on_standard_error() {
    let mut ctx = blank(IoStreams::test());
    handle_update(&mut ctx, Some(release()), "0.1.0", false, false);
    assert_eq!(stdout(&ctx), "");
    assert_eq!(
        stderr(&ctx),
        "\n\nA new release of oxide is available: 0.1.0 \u{2192} v0.2.0\n\n\
         https://github.com/oxidecomputer/cli/releases/tag/v0.2.0\n\n\n"
    );
}

#[test]
fn homebrew_users_are_told_how_to_upgrade() {
    let mut ctx = blank(IoStreams::test());
    handle_update(&mut ctx, Some(release()), "0.1.0", true, false);
    assert_eq!(
        stderr(&ctx),
        "\n\nA new release of oxide is available: 0.1.0 \u{2192} v0.2.0\n\n\
         To upgrade, run: brew update && brew upgrade oxide\n\
         https://github.com/oxidecomputer/cli/releases/tag/v0.2.0\n\n\n"
    );
}

#[test]
fn a_recent_release_is_held_back_under_homebrew() {
    let mut ctx = blank(IoStreams::test());
    handle_update(&mut ctx, Some(release()), "0.1.0", true, true);
    assert_eq!(stderr(&ctx), "");
    handle_update(&mut ctx, None, "0.1.0", false, false);
    assert_eq!(stderr(&ctx), "");
    handle_update(&mut ctx, Some(release()), "0.1.0", false, true);
    assert!(stderr(&ctx).contains("A new release of oxide is available:"));
}

#[test]
fn the_notice_is_coloured_on_a_colour_terminal() {
    let mut ctx = blank(IoStreams::new(true, true, true));
    handle_update(&mut ctx, Some(release()), "0.1.0", false, false);
    assert_eq!(
        stderr(&ctx),
        "\n\n\u{1b}[33mA new release of oxide is available:\u{1b}[0m \
         \u{1b}[36m0.1.0\u{1b}[0m \u{2192} \u{1b}[35mv0.2.0\u{1b}[0m\n\n\
         \u{1b}[33mhttps://github.com/oxidecomputer/cli/releases/tag/v0.2.0\u{1b}[0m\n\n\n"
    );
}

#[test]
fn a_failed_check_counts_as_no_release() {
    assert!(settled(Err("network unreachable".to_string())).is_none());
    assert!(settled(Ok(None)).is_none());
    assert_eq!(settled(Ok(Some(release()))).unwrap().version, "v0.2.0");
}

#[test]
fn the_notice_follows_the_error_and_leaves_the_exit_code_alone() {
    let mut ctx = blank(IoStreams::test());
    let code = finish(
        &mut ctx,
        Err(Error::command("boom")),
        Some(release()),
        "0.1.0",
        false,
        false,
    );
    assert_eq!(code, 1);
    assert!(stderr(&ctx).starts_with("boom\n\n\nA new release of oxide is available:"));
    let mut quiet = blank(IoStreams::test());
    assert_eq!(finish(&mut quiet, Ok(7), Some(release()), "0.1.0", false, false), 7);
    assert_eq!(finish(&mut quiet, Ok(7), None, "0.1.0", false, false), 7);
    assert_eq!(finish(&mut quiet, Ok(0), Some(release()), "0.1.0", true, true), 0);
}
