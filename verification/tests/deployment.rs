use yral_auth::hosts::host_list;
use yral_auth::plan::{steps_of, Step, Task};
use yral_auth::run::{image_tag, Action, Failure, Reply, Run};
use yral_auth::secrets::{secret_envs, secret_keys, SkippedSecret};

const SECRET: &str = "it's secret";

/// The reply of an environment in which everything is set and every program succeeds.
fn good_reply(action: &Action) -> Reply {
    match action {
        Action::Run(_) | Action::RunWithInput(_, _) | Action::Capture(_) | Action::Sleep(_) => {
            Reply::Done
        }
        Action::Measure(_) => Reply::Size(1),
        Action::ReadEnv(key) => Reply::Value(Some(format!("value of {}", key))),
        Action::ReadSecrets(keys) => {
            Reply::Secrets(keys.iter().map(|_| Some(SECRET.to_string())).collect())
        }
        Action::Finish | Action::Abort => panic!("the run is over"),
    }
}

fn start(task: Task, hosts: &str) -> Run {
    match Run::start(task, None, Some(hosts.to_string())) {
        Ok(run) => run,
        Err(failure) => panic!("{:?}", failure),
    }
}

fn give(run: &mut Run, reply: Reply) {
    assert!(run.accepts(&reply));
    run.advance(reply);
}

/// Runs to the end with good replies, and gives the steps and the actions.
fn complete(run: &mut Run) -> (Vec<Step>, Vec<Action>) {
    let mut steps = vec![];
    let mut actions = vec![];
    while let Some(step) = run.due() {
        let action = run.action();
        give(run, good_reply(&action));
        steps.push(step);
        actions.push(action);
    }
    (steps, actions)
}

/// Moves a run up to a step with good replies.
fn reach(run: &mut Run, step: Step) {
    while run.due() != Some(step) {
        let action = run.action();
        give(run, good_reply(&action));
    }
}

fn host_steps(host: usize) -> Vec<Step> {
    vec![
        Step::SyncFiles(host),
        Step::ReadToken,
        Step::ReadUsername,
        Step::PullImage(host),
        Step::StopServices(host),
        Step::ReadSecrets,
        Step::StartServices(host),
        Step::Wait,
        Step::ShowStatus(host),
        Step::CheckHealth(host),
    ]
}

fn build_steps() -> Vec<Step> {
    vec![Step::BuildLeptos, Step::CheckBinary, Step::BuildImage]
}

fn push_steps() -> Vec<Step> {
    vec![Step::ReadUsername, Step::ReadToken, Step::Login, Step::PushImage]
}

#[test]
fn deploy() {
    let mut run = start(Task::Deploy, "10.0.0.1 10.0.0.2");
    assert_eq!(run.tag(), "latest");
    assert_eq!(run.hosts(), &vec!["10.0.0.1", "10.0.0.2"]);
    let (steps, actions) = complete(&mut run);
    let expected: Vec<Step> =
        [build_steps(), push_steps(), host_steps(0), host_steps(1)].concat();
    assert_eq!(steps, expected);
    assert_eq!(run.action(), Action::Finish);
    assert_eq!(run.failure(), None);
    match &actions[5] {
        Action::RunWithInput(command, input) => {
            assert_eq!(command.args[3], "value of GHCR_USERNAME");
            assert_eq!(input, "value of GHCR_TOKEN");
        }
        other => panic!("{:?}", other),
    }
    match &actions[10] {
        Action::Run(command) => {
            assert_eq!(command.args[2], "yral-auth-manager@10.0.0.1");
            assert!(command.args[3].contains("echo 'value of GHCR_TOKEN' | docker login"));
        }
        other => panic!("{:?}", other),
    }
    match &actions[23] {
        Action::Run(command) => {
            assert_eq!(command.args[2], "yral-auth-manager@10.0.0.2");
            assert!(command.args[3].contains(" COOKIE_KEY='it'\\''s secret' "));
        }
        other => panic!("{:?}", other),
    }
    assert_eq!(actions[24], Action::Sleep(10));
}

#[test]
fn build_only() {
    let mut run = match Run::start(Task::BuildOnly, None, None) {
        Ok(run) => run,
        Err(failure) => panic!("{:?}", failure),
    };
    assert_eq!(run.tag(), "latest");
    assert!(run.hosts().is_empty());
    let (steps, actions) = complete(&mut run);
    assert_eq!(steps, build_steps());
    assert_eq!(
        actions[1],
        Action::Measure("target/x86_64-unknown-linux-musl/release/yral-auth".to_string())
    );
    assert_eq!(run.action(), Action::Finish);
}

#[test]
fn deploy_only() {
    let mut run = start(Task::DeployOnly, "10.0.0.1");
    let (steps, _) = complete(&mut run);
    assert_eq!(steps, host_steps(0));
    assert_eq!(run.action(), Action::Finish);
}

#[test]
fn tag_defaults_to_latest() {
    assert_eq!(image_tag(None), "latest");
    assert_eq!(image_tag(Some("v7".to_string())), "v7");
}

#[test]
fn given_tag_is_used() {
    let run = Run::start(Task::BuildOnly, Some("v7".to_string()), None);
    match run {
        Ok(mut run) => {
            assert_eq!(run.tag(), "v7");
            reach(&mut run, Step::BuildImage);
            match run.action() {
                Action::Run(command) => {
                    assert_eq!(command.args[4], "ghcr.io/dolr-ai/yral-auth:v7")
                }
                other => panic!("{:?}", other),
            }
        }
        Err(failure) => panic!("{:?}", failure),
    }
}

#[test]
fn deploying_needs_hosts() {
    for task in [Task::Deploy, Task::DeployOnly] {
        match Run::start(task, None, None) {
            Ok(_) => panic!("there are no hosts"),
            Err(failure) => {
                assert_eq!(failure, Failure::MissingEnv("HETZNER_HOSTS".to_string()));
                assert_eq!(failure.message(), "HETZNER_HOSTS is not set");
            }
        }
    }
}

#[test]
fn empty_host_list_deploys_nowhere() {
    let run = start(Task::DeployOnly, " ");
    assert_eq!(run.action(), Action::Finish);
}

#[test]
fn empty_binary_stops_the_run() {
    let mut run = start(Task::Deploy, "h");
    reach(&mut run, Step::CheckBinary);
    give(&mut run, Reply::Size(0));
    assert_eq!(run.action(), Action::Abort);
    assert_eq!(run.failure(), Some(&Failure::EmptyBinary));
    assert_eq!(
        Failure::EmptyBinary.message(),
        "binary is empty — musl cross-compile may have failed"
    );
    assert_eq!(run.due(), None);
}

#[test]
fn failing_program_stops_the_run() {
    let mut run = start(Task::Deploy, "a b");
    reach(&mut run, Step::StopServices(0));
    give(&mut run, Reply::Failed("ssh: no route".to_string()));
    assert_eq!(run.action(), Action::Abort);
    let failure = Failure::ProgramFailed("ssh: no route".to_string());
    assert_eq!(run.failure(), Some(&failure));
    assert_eq!(failure.message(), "ssh: no route");
    assert!(!run.accepts(&Reply::Done));
    assert!(!run.accepts(&Reply::Failed("again".to_string())));
}

#[test]
fn missing_credentials_stop_the_run() {
    let mut run = start(Task::Deploy, "a");
    reach(&mut run, Step::ReadUsername);
    give(&mut run, Reply::Value(None));
    assert_eq!(run.failure(), Some(&Failure::MissingEnv("GHCR_USERNAME".to_string())));

    let mut run = start(Task::DeployOnly, "a");
    reach(&mut run, Step::ReadToken);
    give(&mut run, Reply::Value(None));
    assert_eq!(run.failure(), Some(&Failure::MissingEnv("GHCR_TOKEN".to_string())));
}

#[test]
fn missing_secrets_are_skipped() {
    let mut run = start(Task::DeployOnly, "a");
    reach(&mut run, Step::ReadSecrets);
    let values: Vec<Option<String>> = (0..secret_keys().len()).map(|_| None).collect();
    give(&mut run, Reply::Secrets(values));
    assert_eq!(run.skipped().len(), 11);
    match run.action() {
        Action::Run(command) => assert!(command.args[3].ends_with(" IMAGE_TAG=latest docker compose up -d")),
        other => panic!("{:?}", other),
    }
}

#[test]
fn replies_have_to_fit() {
    let mut run = start(Task::Deploy, "a");
    assert!(run.accepts(&Reply::Done));
    assert!(!run.accepts(&Reply::Size(1)));
    reach(&mut run, Step::CheckBinary);
    assert!(!run.accepts(&Reply::Done));
    reach(&mut run, Step::ReadToken);
    assert!(run.accepts(&Reply::Value(None)));
    assert!(!run.accepts(&Reply::Failed("no".to_string())));
    reach(&mut run, Step::ReadSecrets);
    assert!(!run.accepts(&Reply::Secrets(vec![])));
    reach(&mut run, Step::Wait);
    assert!(!run.accepts(&Reply::Failed("no".to_string())));
}

#[test]
fn full_plan_is_build_push_and_rollout() {
    for hosts in 0..4 {
        let expected: Vec<Step> = [
            steps_of(Task::BuildOnly, hosts),
            push_steps(),
            steps_of(Task::DeployOnly, hosts),
        ]
        .concat();
        assert_eq!(steps_of(Task::Deploy, hosts), expected);
        assert_eq!(steps_of(Task::DeployOnly, hosts).len(), 10 * hosts);
    }
}

#[test]
fn host_lists() {
    assert_eq!(host_list("10.0.0.1 10.0.0.2"), vec!["10.0.0.1", "10.0.0.2"]);
    assert_eq!(host_list("  a   b "), vec!["a", "b"]);
    assert_eq!(host_list("one"), vec!["one"]);
    assert!(host_list("").is_empty());
    assert!(host_list("   ").is_empty());
}

#[test]
fn secrets_are_named_in_order() {
    assert_eq!(
        secret_keys(),
        vec![
            "COOKIE_KEY",
            "GOOGLE_CLIENT_SECRET",
            "JWT_EC_PEM",
            "CLIENT_JWT_ED_PEM",
            "APPLE_AUTH_KEY_PEM",
            "WHATSAPP_API_KEY",
            "DRAGONFLY_REDIS_STORE_PASSWORD",
            "DRAGONFLY_REDIS_STORE_HOSTS",
            "DRAGONFLY_REDIS_STORE_CA_CERT",
            "DRAGONFLY_REDIS_STORE_CLIENT_CERT",
            "DRAGONFLY_REDIS_STORE_CLIENT_KEY",
        ]
    );
}

#[test]
fn unset_and_empty_secrets_are_left_out() {
    let mut values: Vec<Option<String>> =
        secret_keys().iter().map(|key| Some(format!("<{}>", key))).collect();
    values[4] = None;
    values[5] = Some(String::new());
    let result = secret_envs(&values);
    assert_eq!(result.envs.len(), 9);
    assert_eq!(result.envs[0], ("COOKIE_KEY".to_string(), "<COOKIE_KEY>".to_string()));
    assert_eq!(result.envs[4].0, "DRAGONFLY_REDIS_STORE_PASSWORD");
    assert_eq!(
        result.skipped,
        vec![
            SkippedSecret { key: "APPLE_AUTH_KEY_PEM".to_string(), set: false },
            SkippedSecret { key: "WHATSAPP_API_KEY".to_string(), set: true },
        ]
    );
}
