use yral_auth::commands::{
    build_docker_image_command, build_leptos_command, check_health_script, image_reference,
    on_host_command, pull_image_script, push_docker_image_command, registry_login_command,
    show_status_script, start_services_script, stop_services_script, sync_files_command, Command,
};
use yral_auth::quoting::escape;

fn command(program: &str, args: &[&str]) -> Command {
    Command {
        program: program.to_string(),
        args: args.iter().map(|a| a.to_string()).collect(),
        envs: vec![],
    }
}

#[test]
fn leptos_build() {
    let build = build_leptos_command();
    assert_eq!(build.program, "cargo");
    assert_eq!(
        build.args,
        vec![
            "leptos",
            "build",
            "--release",
            "--lib-features",
            "release-lib",
            "--bin-features",
            "release-bin",
        ]
    );
    let envs: Vec<(&str, &str)> =
        build.envs.iter().map(|(k, v)| (k.as_str(), v.as_str())).collect();
    assert_eq!(
        envs,
        vec![
            ("LEPTOS_BIN_TARGET_TRIPLE", "x86_64-unknown-linux-musl"),
            ("LEPTOS_HASH_FILES", "true"),
            ("LEPTOS_TAILWIND_VERSION", "v4.0.15"),
        ]
    );
}

#[test]
fn image_commands_agree_on_the_image() {
    let full = "ghcr.io/dolr-ai/yral-auth:v1.2";
    assert_eq!(image_reference("v1.2"), full);
    assert_eq!(
        build_docker_image_command("v1.2"),
        command("docker", &["build", "-f", "deploy/Dockerfile", "-t", full, "."])
    );
    assert_eq!(push_docker_image_command("v1.2"), command("docker", &["push", full]));
}

#[test]
fn registry_login_takes_the_token_from_its_input() {
    assert_eq!(
        registry_login_command("octocat"),
        command("docker", &["login", "ghcr.io", "-u", "octocat", "--password-stdin"])
    );
}

#[test]
fn host_commands() {
    assert_eq!(
        sync_files_command("10.0.0.1"),
        command(
            "rsync",
            &[
                "-avz",
                "--delete",
                "./deploy/",
                "yral-auth-manager@10.0.0.1:/home/yral-auth-manager/",
            ]
        )
    );
    assert_eq!(
        on_host_command("10.0.0.1", "true"),
        command(
            "ssh",
            &["-o", "ConnectTimeout=10", "yral-auth-manager@10.0.0.1", "true"]
        )
    );
}

#[test]
fn host_scripts() {
    assert_eq!(
        pull_image_script("v1", "tok", "octocat"),
        "cd /home/yral-auth-manager && echo 'tok' | docker login ghcr.io -u octocat \
         --password-stdin && APP_IMAGE=ghcr.io/dolr-ai/yral-auth IMAGE_TAG=v1 docker compose pull"
    );
    assert_eq!(
        stop_services_script(),
        "cd /home/yral-auth-manager && docker compose down --remove-orphans || true"
    );
    assert_eq!(
        show_status_script(),
        "cd /home/yral-auth-manager && docker compose ps && echo '---' && docker compose logs \
         --tail=20 yral-auth 2>/dev/null || true"
    );
    assert_eq!(
        check_health_script(),
        "curl -sf http://localhost/healthz || echo 'Health check failed'"
    );
}

#[test]
fn start_script_without_secrets() {
    assert_eq!(
        start_services_script("latest", &vec![]),
        "cd /home/yral-auth-manager && APP_IMAGE=ghcr.io/dolr-ai/yral-auth IMAGE_TAG=latest \
         docker compose up -d"
    );
}

#[test]
fn start_script_quotes_the_secrets() {
    let secrets = vec![
        ("COOKIE_KEY".to_string(), "a b$c".to_string()),
        ("JWT_EC_PEM".to_string(), "it's\n'x'".to_string()),
    ];
    assert_eq!(
        start_services_script("v1", &secrets),
        "cd /home/yral-auth-manager && APP_IMAGE=ghcr.io/dolr-ai/yral-auth IMAGE_TAG=v1 \
         COOKIE_KEY='a b$c' JWT_EC_PEM='it'\\''s\n'\\''x'\\''' docker compose up -d"
    );
}

#[test]
fn escaping_writes_quotes_outside_the_quotes() {
    assert_eq!(escape(""), "");
    assert_eq!(escape("plain"), "plain");
    assert_eq!(escape("'"), "'\\''");
    assert_eq!(escape("a'b"), "a'\\''b");
    assert_eq!(escape("''"), "'\\'''\\''");
    assert_eq!(escape("\\ \" é ⚠"), "\\ \" é ⚠");
}

#[test]
fn escaping_matches_replacing() {
    for text in ["", "'", "x'y'z", "no quotes", "'''", "é'ü"] {
        assert_eq!(escape(text), text.replace('\'', "'\\''"));
    }
}

#[test]
fn different_texts_are_escaped_differently() {
    let texts = ["'", "''", "\\'", "'\\''", "a", "a'"];
    for (i, a) in texts.iter().enumerate() {
        for b in &texts[i + 1..] {
            assert_ne!(escape(a), escape(b));
        }
    }
}
