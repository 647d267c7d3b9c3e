use attic_tokens::Args;
use attic_tokens::command::CommandError;
use attic_tokens::command::InvocationPlan;
use attic_tokens::command::generate_command;
use attic_tokens::command::plan_invocation;
use attic_tokens::load_configuration;

fn args_for(name: &str, dry_run: bool) -> Args {
    Args {
        dry_run,
        program: "atticadm".to_owned(),
        validity: "2 years".to_owned(),
        file: "/etc/attic-users.toml".to_owned(),
        name: name.to_owned(),
    }
}

#[test]
fn alice_gets_the_documented_argument_list() {
    let config = load_configuration("[alice]\n\"alice-*\" = [\"push\", \"pull\"]\n").unwrap();
    let (user, cmd) = generate_command(&config, &args_for("alice", false)).unwrap();
    assert_eq!(user, "alice");
    assert_eq!(cmd.program, "atticadm");
    assert_eq!(
        cmd.args,
        vec![
            "make-token",
            "--sub",
            "alice",
            "--validity",
            "2 years",
            "--push",
            "alice-*",
            "--pull",
            "alice-*",
        ]
    );
}

#[test]
fn rule_and_permission_order_is_preserved() {
    let config = load_configuration(
        "[dev]\n\"a-*\" = [\"pull\", \"push\"]\n\"b-*\" = [\"delete\"]\n",
    )
    .unwrap();
    let (_, cmd) = generate_command(&config, &args_for("dev", false)).unwrap();
    assert_eq!(
        cmd.args,
        vec![
            "make-token",
            "--sub",
            "dev",
            "--validity",
            "2 years",
            "--pull",
            "a-*",
            "--push",
            "a-*",
            "--delete",
            "b-*",
        ]
    );
}

#[test]
fn generation_is_deterministic() {
    let config = load_configuration("[alice]\n\"alice-*\" = [\"use\"]\n").unwrap();
    let first = generate_command(&config, &args_for("alice", false)).unwrap();
    let second = generate_command(&config, &args_for("alice", false)).unwrap();
    assert_eq!(first, second);
}

#[test]
fn unknown_user_is_a_hard_error_naming_the_user() {
    let config = load_configuration("[alice]\n\"alice-*\" = [\"push\"]\n").unwrap();
    let r = generate_command(&config, &args_for("carol", false));
    assert_eq!(r, Err(CommandError::UnknownUser("carol".to_owned())));
}

#[test]
fn dry_run_plans_to_print_and_never_to_execute() {
    let config = load_configuration("[alice]\n\"alice-*\" = [\"push\"]\n").unwrap();
    let (_, cmd) = generate_command(&config, &args_for("alice", true)).unwrap();
    let rendered = cmd.render();
    match plan_invocation(true, cmd) {
        InvocationPlan::DryRun(line) => {
            assert_eq!(line, rendered);
            assert_eq!(line, "atticadm make-token --sub alice --validity 2 years --push alice-*");
        }
        InvocationPlan::Execute(_) => panic!("dry run must not plan an execution"),
    }
}

#[test]
fn live_mode_plans_to_execute_the_command_unchanged() {
    let config = load_configuration("[alice]\n\"alice-*\" = [\"push\"]\n").unwrap();
    let (_, cmd) = generate_command(&config, &args_for("alice", false)).unwrap();
    let expected = cmd.clone();
    match plan_invocation(false, cmd) {
        InvocationPlan::DryRun(_) => panic!("live mode must not plan a dry run"),
        InvocationPlan::Execute(c) => assert_eq!(c, expected),
    }
}
