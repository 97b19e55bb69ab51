use oxide::api::{Organization, Request, Timestamp};
use oxide::cmd::{Effect, Outcome, Progress, Stage};
use oxide::cmd_org::{
    print_json, print_table, CmdOrganization, CmdOrganizationCreate, CmdOrganizationDelete,
    CmdOrganizationEdit, CmdOrganizationList, CmdOrganizationView, SubCommand,
};
use oxide::config::new_blank_config;
use oxide::config_from_env::{EnvConfig, Environment};
use oxide::context::Context;
use oxide::error::ErrorKind;
use oxide::iostreams::IoStreams;
use oxide::resume;

fn context(host: &str, token: &str) -> Context {
    let mut env = Environment::new();
    env.set_var("OXIDE_HOST".to_string(), host.to_string());
    env.set_var("OXIDE_TOKEN".to_string(), token.to_string());
    let config = EnvConfig::inherit_env(new_blank_config(), env);
    let mut io = IoStreams::test();
    io.color_enabled = false;
    io.never_prompt = true;
    Context { config, io, debug: false }
}

fn interactive(host: &str, token: &str) -> Context {
    let mut ctx = context(host, token);
    ctx.io.never_prompt = false;
    ctx.io.stdin_tty = true;
    ctx.io.stdout_tty = true;
    ctx
}

fn stdout(ctx: &Context) -> String {
    String::from_utf8(ctx.io.out.clone()).unwrap()
}

fn stderr(ctx: &Context) -> String {
    String::from_utf8(ctx.io.err_out.clone()).unwrap()
}

fn at(secs: i64) -> Timestamp {
    Timestamp::new(secs, 0).unwrap()
}

fn acme(created: Option<Timestamp>, modified: Option<Timestamp>) -> Organization {
    Organization {
        id: "123".to_string(),
        name: "acme".to_string(),
        description: "the acme org".to_string(),
        time_created: created,
        time_modified: modified,
    }
}

struct TestItem {
    name: String,
    cmd: SubCommand,
    want_out: String,
    want_err: String,
}

#[test]
fn test_cmd_org() {
    let tests: Vec<TestItem> = vec![
        TestItem {
            name: "create no name".to_string(),
            cmd: SubCommand::Create(CmdOrganizationCreate {
                organization: "".to_string(),
                description: "".to_string(),
            }),
            want_out: "".to_string(),
            want_err: "[organization_name] required in non-interactive mode".to_string(),
        },
        TestItem {
            name: "create no description".to_string(),
            cmd: SubCommand::Create(CmdOrganizationCreate {
                organization: "things".to_string(),
                description: "".to_string(),
            }),
            want_out: "".to_string(),
            want_err: "--description,-D required in non-interactive mode".to_string(),
        },
        TestItem {
            name: "delete no --confirm non-interactive".to_string(),
            cmd: SubCommand::Delete(CmdOrganizationDelete {
                organization: "things".to_string(),
                confirm: false,
            }),
            want_out: "".to_string(),
            want_err: "--confirm required when not running interactively".to_string(),
        },
        TestItem {
            name: "list zero limit".to_string(),
            cmd: SubCommand::List(CmdOrganizationList { limit: 0, paginate: false, json: false }),
            want_out: "".to_string(),
            want_err: "--limit must be greater than 0".to_string(),
        },
        TestItem {
            name: "list --json --paginate".to_string(),
            cmd: SubCommand::List(CmdOrganizationList { limit: 30, paginate: true, json: true }),
            want_out: "[]\n".to_string(),
            want_err: "".to_string(),
        },
    ];

    for t in tests {
        let mut ctx = context("api.oxide.test", "secret");
        let cmd_org = CmdOrganization { subcmd: t.cmd };
        let mut step = cmd_org.run(&mut ctx);
        // The API of the test answers every listing with no organizations.
        if let Ok(Progress::Pending { effect, stage }) = step {
            match effect {
                Effect::Call { request: Request::ListAll, json: true, .. } => {}
                other => panic!("test {}: unexpected effect {:?}", t.name, other),
            }
            step = resume(stage, Outcome::Rendered("[]".to_string()), &mut ctx);
        }
        match step {
            Ok(progress) => {
                assert!(matches!(progress, Progress::Finished(0)), "test {}", t.name);
                assert!(stderr(&ctx).is_empty(), "test {}: {}", t.name, stderr(&ctx));
                if !stdout(&ctx).contains(&t.want_out) {
                    assert_eq!(stdout(&ctx), t.want_out, "test {}: stdout mismatch", t.name);
                }
                assert!(t.want_err.is_empty(), "test {}", t.name);
            }
            Err(err) => {
                assert_eq!(stdout(&ctx), t.want_out, "test {}", t.name);
                if !err.to_string().contains(&t.want_err) {
                    assert_eq!(err.to_string(), t.want_err, "test {}: err mismatch", t.name);
                }
                assert!(!t.want_err.is_empty(), "test {}", t.name);
                assert!(stderr(&ctx).is_empty(), "test {}: {}", t.name, stderr(&ctx));
            }
        }
    }
}

#[test]
fn validation_errors_are_argument_errors() {
    let mut ctx = context("h", "t");
    let list = CmdOrganizationList { limit: 0, paginate: true, json: true };
    let err = list.run(&mut ctx).unwrap_err();
    assert_eq!(err.kind, ErrorKind::Argument);
    assert_eq!(err.exit_code(), 1);
    let edit = CmdOrganizationEdit {
        organization: "acme".to_string(),
        new_name: None,
        new_description: None,
    };
    let err = edit.run(&mut ctx).unwrap_err();
    assert_eq!(err.kind, ErrorKind::Argument);
    assert_eq!(err.to_string(), "nothing to edit");
}

#[test]
fn create_sends_what_the_command_line_gave() {
    let mut ctx = context("api.oxide.test", "secret");
    let create = CmdOrganizationCreate {
        organization: "acme".to_string(),
        description: "makes things".to_string(),
    };
    let (effect, stage) = match create.run(&mut ctx) {
        Ok(Progress::Pending { effect, stage }) => (effect, stage),
        other => panic!("unexpected {:?}", other),
    };
    match effect {
        Effect::Call { client, request: Request::Create { name, description }, json } => {
            assert_eq!(client.host, "api.oxide.test");
            assert_eq!(client.token, "secret");
            assert_eq!(name, "acme");
            assert_eq!(description, "makes things");
            assert!(!json);
        }
        other => panic!("unexpected {:?}", other),
    }
    let done = resume(stage, Outcome::Done, &mut ctx).unwrap();
    assert!(matches!(done, Progress::Finished(0)));
    assert_eq!(stdout(&ctx), "\u{2714} Successfully created organization acme\n");
    assert_eq!(stderr(&ctx), "");
}

#[test]
fn create_asks_for_what_is_missing() {
    let mut ctx = interactive("api.oxide.test", "secret");
    let create =
        CmdOrganizationCreate { organization: "".to_string(), description: "".to_string() };
    let (effect, stage) = match create.run(&mut ctx) {
        Ok(Progress::Pending { effect, stage }) => (effect, stage),
        other => panic!("unexpected {:?}", other),
    };
    assert!(matches!(&effect, Effect::Prompt { text } if text == "Organization name:"));
    let (effect, stage) = match resume(stage, Outcome::Input("acme".to_string()), &mut ctx) {
        Ok(Progress::Pending { effect, stage }) => (effect, stage),
        other => panic!("unexpected {:?}", other),
    };
    assert!(matches!(&effect, Effect::Prompt { text } if text == "Organization description:"));
    let (effect, stage) = match resume(stage, Outcome::Input("makes things".to_string()), &mut ctx)
    {
        Ok(Progress::Pending { effect, stage }) => (effect, stage),
        other => panic!("unexpected {:?}", other),
    };
    match effect {
        Effect::Call { request: Request::Create { name, description }, .. } => {
            assert_eq!(name, "acme");
            assert_eq!(description, "makes things");
        }
        other => panic!("unexpected {:?}", other),
    }
    assert!(matches!(&stage, Stage::Created { name } if name == "acme"));
    assert_eq!(stdout(&ctx), "");
}

#[test]
fn create_with_a_name_does_not_ask_for_a_description() {
    let mut ctx = interactive("api.oxide.test", "secret");
    let create =
        CmdOrganizationCreate { organization: "acme".to_string(), description: "".to_string() };
    match create.run(&mut ctx) {
        Ok(Progress::Pending {
            effect: Effect::Call { request: Request::Create { name, description }, .. },
            ..
        }) => {
            assert_eq!(name, "acme");
            assert_eq!(description, "");
        }
        other => panic!("unexpected {:?}", other),
    }
}

#[test]
fn a_failed_prompt_fails_the_command() {
    let mut ctx = interactive("api.oxide.test", "secret");
    let err = resume(
        Stage::Name { description: "".to_string() },
        Outcome::Failed("read interrupted".to_string()),
        &mut ctx,
    )
    .unwrap_err();
    assert_eq!(err.kind, ErrorKind::Command);
    assert_eq!(err.to_string(), "prompt failed: read interrupted");
    let err = resume(Stage::Name { description: "".to_string() }, Outcome::Done, &mut ctx)
        .unwrap_err();
    assert_eq!(err.to_string(), "unexpected outcome");
}

#[test]
fn commands_need_a_host_and_a_token() {
    let config = EnvConfig::inherit_env(new_blank_config(), Environment::new());
    let mut ctx = Context::new(config, IoStreams::test());
    let list = CmdOrganizationList { limit: 30, paginate: false, json: false };
    let err = list.run(&mut ctx).unwrap_err();
    assert_eq!(err.kind, ErrorKind::Config);
    assert_eq!(err.to_string(), "no host is configured");
    ctx.config.set("host".to_string(), "api.oxide.test".to_string());
    let err = list.run(&mut ctx).unwrap_err();
    assert_eq!(err.kind, ErrorKind::Config);
    assert_eq!(err.to_string(), "no token is configured for the host");
    ctx.config.config.hosts.insert("api.oxide.test".to_string(), "stored".to_string());
    match list.run(&mut ctx) {
        Ok(Progress::Pending {
            effect: Effect::Call { client, request: Request::ListPage { limit }, json },
            ..
        }) => {
            assert_eq!(client.host, "api.oxide.test");
            assert_eq!(client.token, "stored");
            assert_eq!(limit, 30);
            assert!(!json);
        }
        other => panic!("unexpected {:?}", other),
    }
}

#[test]
fn delete_asks_for_confirmation() {
    let mut ctx = interactive("api.oxide.test", "secret");
    let delete = CmdOrganizationDelete { organization: "things".to_string(), confirm: false };
    let (effect, stage) = match delete.run(&mut ctx) {
        Ok(Progress::Pending { effect, stage }) => (effect, stage),
        other => panic!("unexpected {:?}", other),
    };
    match effect {
        Effect::Confirm { text, expected } => {
            assert_eq!(text, "Type things to confirm deletion:");
            assert_eq!(expected, "things");
        }
        other => panic!("unexpected {:?}", other),
    }
    let (effect, stage) = match resume(stage, Outcome::Input(" things\n".to_string()), &mut ctx) {
        Ok(Progress::Pending { effect, stage }) => (effect, stage),
        other => panic!("unexpected {:?}", other),
    };
    assert!(matches!(
        &effect,
        Effect::Call { request: Request::Delete { name }, json: false, .. } if name == "things"
    ));
    let done = resume(stage, Outcome::Done, &mut ctx).unwrap();
    assert!(matches!(done, Progress::Finished(0)));
    assert_eq!(stdout(&ctx), "\u{2714} Deleted organization things\n");
}

#[test]
fn delete_does_not_go_on_without_the_right_confirmation() {
    let mut ctx = interactive("api.oxide.test", "secret");
    let delete = CmdOrganizationDelete { organization: "things".to_string(), confirm: false };
    let stage = match delete.run(&mut ctx) {
        Ok(Progress::Pending { stage, .. }) => stage,
        other => panic!("unexpected {:?}", other),
    };
    let err = resume(stage, Outcome::Input("thing".to_string()), &mut ctx).unwrap_err();
    assert_eq!(err.kind, ErrorKind::Command);
    assert_eq!(err.to_string(), "mismatched confirmation");
    assert_eq!(stdout(&ctx), "");
}

#[test]
fn confirmation_ignores_surrounding_white_space() {
    assert!(CmdOrganizationDelete::confirmation_matches("things", "things"));
    assert!(CmdOrganizationDelete::confirmation_matches("  things \t\n", "things"));
    assert!(!CmdOrganizationDelete::confirmation_matches("  things \t\n", "  things \t\n"));
    assert!(!CmdOrganizationDelete::confirmation_matches("th ings", "things"));
    assert!(!CmdOrganizationDelete::confirmation_matches("", "things"));
}

#[test]
fn delete_with_confirm_sends_the_request_at_once() {
    let mut ctx = context("api.oxide.test", "secret");
    let delete = CmdOrganizationDelete { organization: "things".to_string(), confirm: true };
    match delete.run(&mut ctx) {
        Ok(Progress::Pending {
            effect: Effect::Call { request: Request::Delete { name }, .. },
            stage: Stage::Deleted { organization },
        }) => {
            assert_eq!(name, "things");
            assert_eq!(organization, "things");
        }
        other => panic!("unexpected {:?}", other),
    }
}

#[test]
fn a_failed_request_fails_the_command() {
    let mut ctx = context("api.oxide.test", "secret");
    let err = resume(
        Stage::Deleted { organization: "things".to_string() },
        Outcome::Failed("404 Not Found".to_string()),
        &mut ctx,
    )
    .unwrap_err();
    assert_eq!(err.kind, ErrorKind::Command);
    assert_eq!(err.to_string(), "404 Not Found");
    assert_eq!(stdout(&ctx), "");
    assert_eq!(stderr(&ctx), "");
}

#[test]
fn edit_reports_the_new_name() {
    let mut ctx = context("api.oxide.test", "secret");
    let edit = CmdOrganizationEdit {
        organization: "acme".to_string(),
        new_name: Some("apex".to_string()),
        new_description: None,
    };
    let (effect, stage) = match edit.run(&mut ctx) {
        Ok(Progress::Pending { effect, stage }) => (effect, stage),
        other => panic!("unexpected {:?}", other),
    };
    match effect {
        Effect::Call { request: Request::Update { organization, name, description }, .. } => {
            assert_eq!(organization, "acme");
            assert_eq!(name, "apex");
            assert_eq!(description, "");
        }
        other => panic!("unexpected {:?}", other),
    }
    resume(stage, Outcome::Done, &mut ctx).unwrap();
    assert_eq!(stdout(&ctx), "\u{2714} Successfully edited organization acme -> apex\n");
}

#[test]
fn edit_of_the_description_reports_the_old_name() {
    let mut ctx = context("api.oxide.test", "secret");
    let edit = CmdOrganizationEdit {
        organization: "acme".to_string(),
        new_name: None,
        new_description: Some("new text".to_string()),
    };
    let (effect, stage) = match edit.run(&mut ctx) {
        Ok(Progress::Pending { effect, stage }) => (effect, stage),
        other => panic!("unexpected {:?}", other),
    };
    match effect {
        Effect::Call { request: Request::Update { name, description, .. }, .. } => {
            assert_eq!(name, "");
            assert_eq!(description, "new text");
        }
        other => panic!("unexpected {:?}", other),
    }
    resume(stage, Outcome::Done, &mut ctx).unwrap();
    assert_eq!(stdout(&ctx), "\u{2714} Successfully edited organization acme\n");
}

#[test]
fn list_lays_out_a_table() {
    let mut ctx = context("api.oxide.test", "secret");
    let now = at(1_700_000_000);
    let list = vec![
        acme(Some(at(1_600_000_000)), Some(at(1_700_000_000 - 7200))),
        Organization {
            id: "7".to_string(),
            name: "a-much-longer-name".to_string(),
            description: "".to_string(),
            time_created: Some(at(1_700_000_000 - 5)),
            time_modified: None,
        },
    ];
    let done =
        resume(Stage::Listed { json: false }, Outcome::Organizations { list, now }, &mut ctx)
            .unwrap();
    assert!(matches!(done, Progress::Finished(0)));
    assert_eq!(
        stdout(&ctx),
        "NAME                DESCRTIPTION  UPDATED\n\
         acme                the acme org  2 hours ago\n\
         a-much-longer-name                now\n\n"
    );
}

#[test]
fn list_without_organizations_shows_the_headings() {
    let mut ctx = context("api.oxide.test", "secret");
    let outcome = Outcome::Organizations { list: vec![], now: at(0) };
    resume(Stage::Listed { json: false }, outcome, &mut ctx).unwrap();
    assert_eq!(stdout(&ctx), "NAME  DESCRTIPTION  UPDATED\n\n");
}

#[test]
fn list_row_joins_the_cells_with_tabs() {
    let cs = oxide::colors::ColorScheme::new(false);
    let row = CmdOrganizationList::list_row(&cs, &acme(None, None), "a day ago");
    assert_eq!(row, "acme\tthe acme org\ta day ago\n");
    let cs = oxide::colors::ColorScheme::new(true);
    let row = CmdOrganizationList::list_row(&cs, &acme(None, None), "a day ago");
    assert_eq!(row, "\u{1b}[1macme\u{1b}[0m\tthe acme org\t\u{1b}[38;5;242ma day ago\u{1b}[0m\n");
}

#[test]
fn list_refuses_an_outcome_of_another_kind() {
    let mut ctx = context("api.oxide.test", "secret");
    let err = resume(Stage::Listed { json: false }, Outcome::Rendered("[]".to_string()), &mut ctx)
        .unwrap_err();
    assert_eq!(err.to_string(), "unexpected outcome");
    let outcome = Outcome::Organizations { list: vec![], now: at(0) };
    let err = resume(Stage::Listed { json: true }, outcome, &mut ctx).unwrap_err();
    assert_eq!(err.to_string(), "unexpected outcome");
    assert_eq!(stdout(&ctx), "");
}

#[test]
fn view_lays_out_a_table() {
    let mut ctx = context("api.oxide.test", "secret");
    let view =
        CmdOrganizationView { organization: "acme".to_string(), web: false, json: false };
    let (effect, stage) = match view.run(&mut ctx) {
        Ok(Progress::Pending { effect, stage }) => (effect, stage),
        other => panic!("unexpected {:?}", other),
    };
    assert!(matches!(
        &effect,
        Effect::Call { request: Request::View { name }, json: false, .. } if name == "acme"
    ));
    let now = at(1_700_000_000);
    let item = acme(Some(at(1_700_000_000 - 3 * 86_400)), None);
    resume(stage, Outcome::Organization { item, now }, &mut ctx).unwrap();
    assert_eq!(
        stdout(&ctx),
        "id:           123\n\
         name:         acme\n\
         description:  the acme org\n\
         created:      in 3 days\n\n"
    );
}

#[test]
fn view_shows_both_times() {
    let mut ctx = context("api.oxide.test", "secret");
    let now = at(1_700_000_000);
    let item = acme(Some(at(1_700_000_000 - 400 * 86_400)), Some(at(1_700_000_000 - 60)));
    resume(Stage::Viewed { json: false }, Outcome::Organization { item, now }, &mut ctx).unwrap();
    assert_eq!(
        stdout(&ctx),
        "id:           123\n\
         name:         acme\n\
         description:  the acme org\n\
         created:      in a year\n\
         modified:     in a minute\n\n"
    );
}

#[test]
fn view_as_json_prints_what_was_rendered() {
    let mut ctx = context("api.oxide.test", "secret");
    let view = CmdOrganizationView { organization: "acme".to_string(), web: false, json: true };
    let (effect, stage) = match view.run(&mut ctx) {
        Ok(Progress::Pending { effect, stage }) => (effect, stage),
        other => panic!("unexpected {:?}", other),
    };
    assert!(matches!(&effect, Effect::Call { json: true, .. }));
    resume(stage, Outcome::Rendered("{\n  \"name\": \"acme\"\n}".to_string()), &mut ctx).unwrap();
    assert_eq!(stdout(&ctx), "{\n  \"name\": \"acme\"\n}\n");
}

#[test]
fn view_on_the_web_opens_the_browser() {
    let mut ctx = context("api.oxide.test", "secret");
    let view = CmdOrganizationView { organization: "acme".to_string(), web: true, json: false };
    let (effect, stage) = match view.run(&mut ctx) {
        Ok(Progress::Pending { effect, stage }) => (effect, stage),
        other => panic!("unexpected {:?}", other),
    };
    assert!(matches!(&effect, Effect::Browse { url } if url == "https://api.oxide.test/acme/acme"));
    assert!(matches!(stage, Stage::Browsed));
    let done = resume(Stage::Browsed, Outcome::Done, &mut ctx).unwrap();
    assert!(matches!(done, Progress::Finished(0)));
    assert_eq!(stdout(&ctx), "");
}

#[test]
fn print_table_without_a_table_fails() {
    let mut ctx = context("h", "t");
    let err = print_table(&mut ctx, None).unwrap_err();
    assert_eq!(err.kind, ErrorKind::Command);
    assert_eq!(err.to_string(), "the table could not be laid out");
    assert_eq!(stdout(&ctx), "");
    let done = print_table(&mut ctx, Some("a  b\n".to_string())).unwrap();
    assert!(matches!(done, Progress::Finished(0)));
    assert_eq!(stdout(&ctx), "a  b\n\n");
    let done = print_json(&mut ctx, "[]".to_string());
    assert!(matches!(done, Progress::Finished(0)));
    assert_eq!(stdout(&ctx), "a  b\n\n[]\n");
}

#[test]
fn timestamps_have_bounds() {
    assert!(Timestamp::new(0, 999_999_999).is_some());
    assert!(Timestamp::new(0, 1_000_000_000).is_none());
    assert!(Timestamp::new(4_000_000_000_000_000, 0).is_some());
    assert!(Timestamp::new(4_000_000_000_000_001, 0).is_none());
    assert!(Timestamp::new(-4_000_000_000_000_001, 0).is_none());
    let t = Timestamp::new(12, 34).unwrap();
    assert_eq!(t.epoch_seconds(), 12);
    assert_eq!(t.subsec_nanos(), 34);
}

#[test]
fn whole_seconds_round_toward_zero() {
    let a = Timestamp::new(100, 900_000_000).unwrap();
    let b = Timestamp::new(90, 0).unwrap();
    assert_eq!(a.seconds_since(&b), 10);
    assert_eq!(b.seconds_since(&a), -10);
    let c = Timestamp::new(100, 0).unwrap();
    let d = Timestamp::new(89, 500_000_000).unwrap();
    assert_eq!(c.seconds_since(&d), 10);
    assert_eq!(d.seconds_since(&c), -10);
    assert_eq!(c.seconds_since(&c), 0);
    let e = Timestamp::new(100, 1).unwrap();
    assert_eq!(e.seconds_since(&c), 0);
    assert_eq!(c.seconds_since(&e), 0);
}
