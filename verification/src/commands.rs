//! The programs that a deployment runs, with their arguments.
use crate::quoting;
use vstd::prelude::*;
use vstd::string::*;

verus! {

/// The registry that holds the image.
pub const DOCKER_REGISTRY: &'static str = "ghcr.io";

/// The image's name in the registry.
pub const IMAGE_NAME: &'static str = "dolr-ai/yral-auth";

/// The user that runs the services on a host.
pub const REMOTE_USER: &'static str = "yral-auth-manager";

/// The server's binary, relative to the workspace.
pub const BINARY_PATH: &'static str = "target/x86_64-unknown-linux-musl/release/yral-auth";

/// A program to run in the workspace, with its arguments and the variables that are added to
/// its environment.
#[derive(Debug, PartialEq)]
pub struct Command {
    pub program: String,
    pub args: Vec<String>,
    pub envs: Vec<(String, String)>,
}

/// The mathematical reading of a [`Command`].
#[verifier::ext_equal]
pub struct CommandView {
    pub program: Seq<char>,
    pub args: Seq<Seq<char>>,
    pub envs: Seq<(Seq<char>, Seq<char>)>,
}

impl View for Command {
    type V = CommandView;

    open spec fn view(&self) -> CommandView {
        CommandView {
            program: self.program@,
            args: self.args.deep_view(),
            envs: self.envs.deep_view(),
        }
    }
}

/// A command without variables of its own.
pub open spec fn plain_command(program: Seq<char>, args: Seq<Seq<char>>) -> CommandView {
    CommandView { program, args, envs: Seq::empty() }
}

fn owned(parts: Vec<&str>) -> (strings: Vec<String>)
    ensures
        strings.deep_view() == parts.deep_view(),
{
    let mut strings: Vec<String> = Vec::new();
    for i in 0..parts.len()
        invariant
            strings@.len() == i,
            forall|j: int| 0 <= j < i ==> (#[trigger] strings@[j])@ == parts@[j]@,
    {
        strings.push(parts[i].to_string());
    }
    assert(strings.deep_view() =~= parts.deep_view());
    strings
}

fn command(program: &str, args: Vec<&str>) -> (result: Command)
    ensures
        result@ == plain_command(program@, args.deep_view()),
{
    let envs: Vec<(String, String)> = Vec::new();
    assert(envs.deep_view() =~= Seq::empty());
    Command { program: program.to_string(), args: owned(args), envs }
}

/// The build of the server's binary and of the page's WASM.
pub open spec fn build_leptos() -> CommandView {
    CommandView {
        program: "cargo"@,
        args: seq![
            "leptos"@,
            "build"@,
            "--release"@,
            "--lib-features"@,
            "release-lib"@,
            "--bin-features"@,
            "release-bin"@,
        ],
        envs: seq![
            ("LEPTOS_BIN_TARGET_TRIPLE"@, "x86_64-unknown-linux-musl"@),
            ("LEPTOS_HASH_FILES"@, "true"@),
            ("LEPTOS_TAILWIND_VERSION"@, "v4.0.15"@),
        ],
    }
}

/// Builds the server's binary and the page's WASM.
pub fn build_leptos_command() -> (result: Command)
    ensures
        result@ == build_leptos(),
        result.program@ == "cargo"@,
        result.args.deep_view() == seq![
            "leptos"@,
            "build"@,
            "--release"@,
            "--lib-features"@,
            "release-lib"@,
            "--bin-features"@,
            "release-bin"@,
        ],
        result.envs.deep_view() == seq![
            ("LEPTOS_BIN_TARGET_TRIPLE"@, "x86_64-unknown-linux-musl"@),
            ("LEPTOS_HASH_FILES"@, "true"@),
            ("LEPTOS_TAILWIND_VERSION"@, "v4.0.15"@),
        ],
{
    let mut result = command(
        "cargo",
        vec![
            "leptos",
            "build",
            "--release",
            "--lib-features",
            "release-lib",
            "--bin-features",
            "release-bin",
        ],
    );
    assert(result@.args =~= build_leptos().args);
    let mut envs: Vec<(String, String)> = Vec::new();
    envs.push(("LEPTOS_BIN_TARGET_TRIPLE".to_string(), "x86_64-unknown-linux-musl".to_string()));
    envs.push(("LEPTOS_HASH_FILES".to_string(), "true".to_string()));
    envs.push(("LEPTOS_TAILWIND_VERSION".to_string(), "v4.0.15".to_string()));
    assert(envs.deep_view() =~= build_leptos().envs);
    result.envs = envs;
    result
}

/// The image, without a tag.
pub open spec fn image() -> Seq<char> {
    DOCKER_REGISTRY@ + "/"@ + IMAGE_NAME@
}

/// The image with a tag, as Docker writes it.
pub open spec fn tagged_image(tag: Seq<char>) -> Seq<char> {
    image() + ":"@ + tag
}

/// Gives the full name of the image with the tag `tag`.
pub fn image_reference(tag: &str) -> (result: String)
    ensures
        result@ == tagged_image(tag@),
        result@ == "ghcr.io/dolr-ai/yral-auth:"@ + tag@,
{
    proof {
        the_tagged_image_is_built_and_uploaded(tag@, Seq::empty());
    }
    DOCKER_REGISTRY.to_string().concat("/").concat(IMAGE_NAME).concat(":").concat(tag)
}

/// The build of the image.
pub open spec fn build_docker_image(tag: Seq<char>) -> CommandView {
    plain_command(
        "docker"@,
        seq!["build"@, "-f"@, "deploy/Dockerfile"@, "-t"@, tagged_image(tag), "."@],
    )
}

/// Builds the image under the tag `tag`.
pub fn build_docker_image_command(tag: &str) -> (result: Command)
    ensures
        result@ == build_docker_image(tag@),
        result.program@ == "docker"@,
        result.args.deep_view() == seq![
            "build"@,
            "-f"@,
            "deploy/Dockerfile"@,
            "-t"@,
            "ghcr.io/dolr-ai/yral-auth:"@ + tag@,
            "."@,
        ],
        result.envs.deep_view() == Seq::<(Seq<char>, Seq<char>)>::empty(),
{
    proof {
        the_tagged_image_is_built_and_uploaded(tag@, Seq::empty());
    }
    let full_tag = image_reference(tag);
    let result = command(
        "docker",
        vec!["build", "-f", "deploy/Dockerfile", "-t", full_tag.as_str(), "."],
    );
    assert(result@.args =~= build_docker_image(tag@).args);
    result
}

/// The login to the registry, which reads the token from its input.
pub open spec fn registry_login(username: Seq<char>) -> CommandView {
    plain_command(
        "docker"@,
        seq!["login"@, DOCKER_REGISTRY@, "-u"@, username, "--password-stdin"@],
    )
}

/// Logs in to the registry; the token goes to the program's input.
pub fn registry_login_command(username: &str) -> (result: Command)
    ensures
        result@ == registry_login(username@),
        result.program@ == "docker"@,
        result.args.deep_view() == seq![
            "login"@,
            "ghcr.io"@,
            "-u"@,
            username@,
            "--password-stdin"@,
        ],
        result.envs.deep_view() == Seq::<(Seq<char>, Seq<char>)>::empty(),
{
    let result = command(
        "docker",
        vec!["login", DOCKER_REGISTRY, "-u", username, "--password-stdin"],
    );
    assert(result@.args =~= registry_login(username@).args);
    result
}

/// The upload of the image.
pub open spec fn push_docker_image(tag: Seq<char>) -> CommandView {
    plain_command("docker"@, seq!["push"@, tagged_image(tag)])
}

/// Uploads the image with the tag `tag`.
pub fn push_docker_image_command(tag: &str) -> (result: Command)
    ensures
        result@ == push_docker_image(tag@),
        result.program@ == "docker"@,
        result.args.deep_view() == seq!["push"@, "ghcr.io/dolr-ai/yral-auth:"@ + tag@],
        result.envs.deep_view() == Seq::<(Seq<char>, Seq<char>)>::empty(),
{
    proof {
        the_tagged_image_is_built_and_uploaded(tag@, Seq::empty());
    }
    let full_tag = image_reference(tag);
    let result = command("docker", vec!["push", full_tag.as_str()]);
    assert(result@.args =~= push_docker_image(tag@).args);
    result
}

/// A host, as SSH is told about it.
pub open spec fn remote(host: Seq<char>) -> Seq<char> {
    REMOTE_USER@ + "@"@ + host
}

fn remote_login(host: &str) -> (result: String)
    ensures
        result@ == remote(host@),
{
    REMOTE_USER.to_string().concat("@").concat(host)
}

/// The copy of the deployment's files to a host.
pub open spec fn sync_files(host: Seq<char>) -> CommandView {
    plain_command(
        "rsync"@,
        seq![
            "-avz"@,
            "--delete"@,
            "./deploy/"@,
            remote(host) + ":/home/"@ + REMOTE_USER@ + "/"@,
        ],
    )
}

/// Copies the deployment's files to `host`.
pub fn sync_files_command(host: &str) -> (result: Command)
    ensures
        result@ == sync_files(host@),
        result.program@ == "rsync"@,
        result.args.deep_view() == seq![
            "-avz"@,
            "--delete"@,
            "./deploy/"@,
            "yral-auth-manager@"@ + host@ + ":/home/yral-auth-manager/"@,
        ],
        result.envs.deep_view() == Seq::<(Seq<char>, Seq<char>)>::empty(),
{
    proof {
        the_given_host_is_reached(host@, Seq::empty());
    }
    let target = remote_login(host).concat(":/home/").concat(REMOTE_USER).concat("/");
    let result = command("rsync", vec!["-avz", "--delete", "./deploy/", target.as_str()]);
    assert(result@.args =~= sync_files(host@).args);
    result
}

/// A script that runs on a host.
pub open spec fn on_host(host: Seq<char>, script: Seq<char>) -> CommandView {
    plain_command("ssh"@, seq!["-o"@, "ConnectTimeout=10"@, remote(host), script])
}

/// Runs a script on `host`.
pub fn on_host_command(host: &str, script: &str) -> (result: Command)
    ensures
        result@ == on_host(host@, script@),
        result.program@ == "ssh"@,
        result.args.deep_view() == seq![
            "-o"@,
            "ConnectTimeout=10"@,
            "yral-auth-manager@"@ + host@,
            script@,
        ],
        result.envs.deep_view() == Seq::<(Seq<char>, Seq<char>)>::empty(),
{
    proof {
        the_given_host_is_reached(host@, script@);
    }
    let target = remote_login(host);
    let result = command("ssh", vec!["-o", "ConnectTimeout=10", target.as_str(), script]);
    assert(result@.args =~= on_host(host@, script@).args);
    result
}

/// The start of a script that works in the services' directory.
pub open spec fn in_home() -> Seq<char> {
    "cd /home/"@ + REMOTE_USER@ + " && "@
}

fn home_script() -> (result: String)
    ensures
        result@ == in_home(),
{
    "cd /home/".to_string().concat(REMOTE_USER).concat(" && ")
}

/// The assignments that tell Docker Compose which image to use.
pub open spec fn image_assignments(tag: Seq<char>) -> Seq<char> {
    "APP_IMAGE="@ + image() + " IMAGE_TAG="@ + tag
}

fn image_prefix(tag: &str) -> (result: String)
    ensures
        result@ == image_assignments(tag@),
{
    let image = DOCKER_REGISTRY.to_string().concat("/").concat(IMAGE_NAME);
    "APP_IMAGE=".to_string().concat(image.as_str()).concat(" IMAGE_TAG=").concat(tag)
}

/// The script that logs a host in to the registry and fetches the image.
pub open spec fn pull_image(tag: Seq<char>, token: Seq<char>, username: Seq<char>) -> Seq<char> {
    in_home() + "echo '"@ + token + "' | docker login "@ + DOCKER_REGISTRY@ + " -u "@ + username
        + " --password-stdin && "@ + image_assignments(tag) + " docker compose pull"@
}

/// Gives the script that logs a host in to the registry and fetches the image.
pub fn pull_image_script(tag: &str, token: &str, username: &str) -> (result: String)
    ensures
        result@ == pull_image(tag@, token@, username@),
        result@ == "cd /home/yral-auth-manager && echo '"@ + token@
            + "' | docker login ghcr.io -u "@ + username@
            + " --password-stdin && APP_IMAGE=ghcr.io/dolr-ai/yral-auth IMAGE_TAG="@ + tag@
            + " docker compose pull"@,
{
    proof {
        scripts_hold_what_they_are_given(tag@, token@, username@, Seq::empty());
    }
    home_script().concat("echo '").concat(token).concat("' | docker login ").concat(
        DOCKER_REGISTRY,
    ).concat(" -u ").concat(username).concat(" --password-stdin && ").concat(
        image_prefix(tag).as_str(),
    ).concat(" docker compose pull")
}

/// The script that stops the services.
pub open spec fn stop_services() -> Seq<char> {
    in_home() + "docker compose down --remove-orphans || true"@
}

/// Gives the script that stops the services; it succeeds also where none is running.
pub fn stop_services_script() -> (result: String)
    ensures
        result@ == stop_services(),
        result@ == "cd /home/yral-auth-manager && docker compose down --remove-orphans || true"@,
{
    proof {
        fixed_scripts_are_these();
    }
    home_script().concat("docker compose down --remove-orphans || true")
}

/// One assignment, with a space in front of it.
pub open spec fn assignment(secret: (Seq<char>, Seq<char>)) -> Seq<char> {
    " "@ + secret.0 + "='"@ + quoting::escaped(secret.1) + "'"@
}

/// The assignments of the secrets, in order.
pub open spec fn assignments(secrets: Seq<(Seq<char>, Seq<char>)>) -> Seq<char>
    decreases secrets.len(),
{
    if secrets.len() == 0 {
        Seq::empty()
    } else {
        assignment(secrets[0]) + assignments(secrets.drop_first())
    }
}

/// All assignments in front of the command that starts the services.
pub open spec fn env_prefix(tag: Seq<char>, secrets: Seq<(Seq<char>, Seq<char>)>) -> Seq<char> {
    image_assignments(tag) + assignments(secrets)
}

fn start_prefix(tag: &str, secrets: &Vec<(String, String)>) -> (result: String)
    ensures
        result@ == env_prefix(tag@, secrets.deep_view()),
{
    let mut result = image_prefix(tag);
    let ghost all = secrets.deep_view();
    assert(all.skip(0) =~= all);
    for i in 0..secrets.len()
        invariant
            all == secrets.deep_view(),
            result@ + assignments(all.skip(i as int)) == env_prefix(tag@, all),
    {
        let ghost before = result@;
        let ghost rest = all.skip(i as int);
        let value = quoting::escape(secrets[i].1.as_str());
        let text = " ".to_string().concat(secrets[i].0.as_str()).concat("='").concat(
            value.as_str(),
        ).concat("'");
        assert(rest[0] == (secrets@[i as int].0@, secrets@[i as int].1@));
        assert(rest.drop_first() =~= all.skip(i as int + 1));
        result.append(text.as_str());
        assert(before + (assignment(rest[0]) + assignments(rest.drop_first())) =~= before
            + assignment(rest[0]) + assignments(rest.drop_first()));
    }
    assert(result@ + assignments(all.skip(all.len() as int)) =~= result@);
    result
}

/// The script that starts the services.
pub open spec fn start_services(
    tag: Seq<char>,
    secrets: Seq<(Seq<char>, Seq<char>)>,
) -> Seq<char> {
    in_home() + env_prefix(tag, secrets) + " docker compose up -d"@
}

/// Gives the script that starts the services with the image and the secrets.
pub fn start_services_script(tag: &str, secrets: &Vec<(String, String)>) -> (result: String)
    ensures
        result@ == start_services(tag@, secrets.deep_view()),
        result@ == "cd /home/yral-auth-manager && APP_IMAGE=ghcr.io/dolr-ai/yral-auth IMAGE_TAG="@
            + tag@ + assignments(secrets.deep_view()) + " docker compose up -d"@,
{
    proof {
        scripts_hold_what_they_are_given(tag@, Seq::empty(), Seq::empty(), secrets.deep_view());
    }
    home_script().concat(start_prefix(tag, secrets).as_str()).concat(" docker compose up -d")
}

/// The script that shows the services and their last messages.
pub open spec fn show_status() -> Seq<char> {
    in_home()
        + "docker compose ps && echo '---' && docker compose logs --tail=20 yral-auth 2>/dev/null || true"@
}

/// Gives the script that shows the services and their last messages.
pub fn show_status_script() -> (result: String)
    ensures
        result@ == show_status(),
        result@
            == "cd /home/yral-auth-manager && docker compose ps && echo '---' && docker compose logs --tail=20 yral-auth 2>/dev/null || true"@,
{
    proof {
        fixed_scripts_are_these();
    }
    home_script().concat(
        "docker compose ps && echo '---' && docker compose logs --tail=20 yral-auth 2>/dev/null || true",
    )
}

/// The script that asks the server how it is.
pub open spec fn check_health() -> Seq<char> {
    "curl -sf http://localhost/healthz || echo 'Health check failed'"@
}

/// Gives the script that asks the server how it is; it succeeds in either case.
pub fn check_health_script() -> (result: String)
    ensures
        result@ == check_health(),
        result@ == "curl -sf http://localhost/healthz || echo 'Health check failed'"@,
{
    "curl -sf http://localhost/healthz || echo 'Health check failed'".to_string()
}

/// A secret as an assignment, the way a program finds it in its environment.
pub open spec fn assigned(secret: (Seq<char>, Seq<char>)) -> Seq<char> {
    secret.0 + "="@ + secret.1
}

/// The words of the assignments are the secrets, each as it is.
proof fn lemma_assignments_words(secrets: Seq<(Seq<char>, Seq<char>)>, rest: Seq<char>)
    requires
        forall|i: int| 0 <= i < secrets.len() ==> quoting::plain((#[trigger] secrets[i]).0),
        quoting::ends_word(rest),
        quoting::words(rest) is Some,
    ensures
        quoting::ends_word(assignments(secrets) + rest),
        quoting::words(assignments(secrets) + rest) == Some(
            secrets.map_values(|secret: (Seq<char>, Seq<char>)| assigned(secret))
                + quoting::words(rest)->0,
        ),
    decreases secrets.len(),
{
    let view = |secret: (Seq<char>, Seq<char>)| assigned(secret);
    if secrets.len() == 0 {
        assert(assignments(secrets) + rest =~= rest);
        assert(secrets.map_values(view) + quoting::words(rest)->0 =~= quoting::words(rest)->0);
    } else {
        let (key, value) = secrets[0];
        let others = secrets.drop_first();
        let behind = assignments(others) + rest;
        lemma_assignments_words(others, rest);
        let name = key + "="@;
        let word = name + quoting::quoted(value) + behind;
        assert(assignments(secrets) + rest =~= " "@ + word) by {
            reveal_strlit("='");
            reveal_strlit("=");
            reveal_strlit("'");
            assert("='"@ =~= "="@ + seq!['\'']);
            assert("'"@ =~= seq!['\'']);
        }
        quoting::lemma_skip_space(word);
        assert(quoting::plain(name) && name.len() > 0) by {
            reveal_strlit("=");
        }
        quoting::lemma_read_assignment(name, value, behind);
        assert(quoting::plain_char(name[0]));
        assert(word[0] == name[0]);
        quoting::lemma_first_word(word, name + value, behind);
        assert(secrets.map_values(view) =~= seq![assigned(secrets[0])] + others.map_values(view));
        assert(seq![name + value] + (others.map_values(view) + quoting::words(rest)->0)
            =~= secrets.map_values(view) + quoting::words(rest)->0);
    }
}

/// The words of the image's assignments.
proof fn lemma_image_words(tag: Seq<char>, rest: Seq<char>)
    requires
        quoting::plain(tag),
        quoting::ends_word(rest),
        quoting::words(rest) is Some,
    ensures
        quoting::words(image_assignments(tag) + rest) == Some(
            seq!["APP_IMAGE="@ + image(), "IMAGE_TAG="@ + tag] + quoting::words(rest)->0,
        ),
{
    let first = "APP_IMAGE="@ + image();
    let second = "IMAGE_TAG="@ + tag;
    assert(quoting::plain(first) && first.len() > 0) by {
        reveal_strlit("APP_IMAGE=");
        reveal_strlit("ghcr.io");
        reveal_strlit("/");
        reveal_strlit("dolr-ai/yral-auth");
    }
    assert(quoting::plain(second) && second.len() > 0) by {
        reveal_strlit("IMAGE_TAG=");
    }
    assert(image_assignments(tag) + rest =~= first + (" "@ + (second + rest))) by {
        reveal_strlit(" IMAGE_TAG=");
        reveal_strlit(" ");
        reveal_strlit("IMAGE_TAG=");
        assert(" IMAGE_TAG="@ =~= " "@ + "IMAGE_TAG="@);
    }
    quoting::lemma_plain_word(second, rest);
    quoting::lemma_skip_space(second + rest);
    quoting::lemma_plain_word(first, " "@ + (second + rest));
    assert(seq![first] + (seq![second] + quoting::words(rest)->0) =~= seq![first, second]
        + quoting::words(rest)->0);
}

/// The words of a call of Docker Compose with the arguments `args`.
proof fn lemma_compose_words(args: Seq<char>)
    requires
        quoting::ends_word(args),
        quoting::words(args) is Some,
    ensures
        quoting::ends_word(" docker compose"@ + args),
        quoting::words(" docker compose"@ + args) == Some(
            seq!["docker"@, "compose"@] + quoting::words(args)->0,
        ),
{
    assert(quoting::plain("docker"@) && "docker"@.len() > 0) by {
        reveal_strlit("docker");
    }
    assert(quoting::plain("compose"@) && "compose"@.len() > 0) by {
        reveal_strlit("compose");
    }
    assert(" docker compose"@ + args =~= " "@ + ("docker"@ + (" "@ + ("compose"@ + args)))) by {
        reveal_strlit(" docker compose");
        reveal_strlit("docker");
        reveal_strlit("compose");
        reveal_strlit(" ");
        assert(" docker compose"@ =~= " "@ + "docker"@ + " "@ + "compose"@);
    }
    quoting::lemma_plain_word("compose"@, args);
    quoting::lemma_skip_space("compose"@ + args);
    quoting::lemma_plain_word("docker"@, " "@ + ("compose"@ + args));
    quoting::lemma_skip_space("docker"@ + (" "@ + ("compose"@ + args)));
    assert(seq!["docker"@] + (seq!["compose"@] + quoting::words(args)->0) =~= seq![
        "docker"@,
        "compose"@,
    ] + quoting::words(args)->0);
}

/// A shell that runs the start script finds behind the change of directory one command: Docker
/// Compose, with the image and with every secret exactly as it was given, whatever characters
/// the secrets hold.
pub proof fn services_start_with_the_secrets(
    tag: Seq<char>,
    secrets: Seq<(Seq<char>, Seq<char>)>,
    command_line: Seq<char>,
)
    requires
        quoting::plain(tag),
        forall|i: int| 0 <= i < secrets.len() ==> quoting::plain((#[trigger] secrets[i]).0),
        start_services(tag, secrets) == in_home() + command_line,
    ensures
        quoting::words(command_line) == Some(
            seq!["APP_IMAGE="@ + image(), "IMAGE_TAG="@ + tag] + secrets.map_values(
                |secret: (Seq<char>, Seq<char>)| assigned(secret),
            ) + seq!["docker"@, "compose"@, "up"@, "-d"@],
        ),
{
    let view = |secret: (Seq<char>, Seq<char>)| assigned(secret);
    let head = seq!["APP_IMAGE="@ + image(), "IMAGE_TAG="@ + tag];
    let call = " docker compose up -d"@;
    assert(command_line =~= start_services(tag, secrets).skip(in_home().len() as int));
    assert(command_line =~= image_assignments(tag) + (assignments(secrets) + call));
    assert(quoting::ends_word(call) && quoting::words(call) == Some(
        seq!["docker"@, "compose"@, "up"@, "-d"@],
    )) by {
        reveal_strlit("up");
        reveal_strlit("-d");
        reveal_strlit(" ");
        let none = Seq::<char>::empty();
        let last = " "@ + ("-d"@ + none);
        quoting::lemma_plain_word("-d"@, none);
        quoting::lemma_skip_space("-d"@ + none);
        quoting::lemma_plain_word("up"@, last);
        quoting::lemma_skip_space("up"@ + last);
        lemma_compose_words(" "@ + ("up"@ + last));
        reveal_strlit(" docker compose up -d");
        reveal_strlit(" docker compose");
        assert(call =~= " docker compose"@ + (" "@ + ("up"@ + last)));
        assert(seq!["docker"@, "compose"@] + (seq!["up"@] + (seq!["-d"@] + Seq::empty())) =~= seq![
            "docker"@,
            "compose"@,
            "up"@,
            "-d"@,
        ]);
    }
    lemma_assignments_words(secrets, call);
    lemma_image_words(tag, assignments(secrets) + call);
    assert(head + (secrets.map_values(view) + quoting::words(call)->0) =~= head
        + secrets.map_values(view) + quoting::words(call)->0);
}

/// A shell that runs the pull script hands `echo` exactly the token that was given, as long as the
/// token holds no single quote: the script puts the token between quotes without escaping it.
pub proof fn token_is_read_back(
    tag: Seq<char>,
    token: Seq<char>,
    username: Seq<char>,
    echoed: Seq<char>,
)
    requires
        !token.contains('\''),
        pull_image(tag, token, username) == in_home() + "echo "@ + echoed,
    ensures
        quoting::read_word(echoed, false) matches Some((word, rest)) && word == token,
{
    reveal_strlit("echo ");
    reveal_strlit("echo '");
    reveal_strlit("' | docker login ");
    reveal_strlit(" | docker login ");
    let rest = " | docker login "@ + DOCKER_REGISTRY@ + " -u "@ + username
        + " --password-stdin && "@ + image_assignments(tag) + " docker compose pull"@;
    assert("echo '"@ =~= "echo "@ + seq!['\'']);
    assert("' | docker login "@ =~= seq!['\''] + " | docker login "@);
    quoting::escaping_keeps_text_without_quotes(token);
    assert(echoed =~= (in_home() + "echo "@ + echoed).skip((in_home() + "echo "@).len() as int));
    assert(echoed =~= quoting::quoted(token) + rest);
    quoting::quoting_is_read_back(token, rest);
}

/// The image that is uploaded is the one that was built, and the hosts fetch it by the same name
/// and tag.
pub proof fn one_image_throughout(tag: Seq<char>)
    requires
        quoting::plain(tag),
    ensures
        build_docker_image(tag).args[4] == image() + ":"@ + tag,
        push_docker_image(tag).args[1] == image() + ":"@ + tag,
        quoting::words(image_assignments(tag) + " docker compose pull"@) == Some(
            seq![
                "APP_IMAGE="@ + image(),
                "IMAGE_TAG="@ + tag,
                "docker"@,
                "compose"@,
                "pull"@,
            ],
        ),
{
    let none = Seq::<char>::empty();
    let call = " docker compose pull"@;
    let argument = " "@ + ("pull"@ + none);
    reveal_strlit("pull");
    reveal_strlit(" ");
    quoting::lemma_plain_word("pull"@, none);
    quoting::lemma_skip_space("pull"@ + none);
    lemma_compose_words(argument);
    assert(call =~= " docker compose"@ + argument) by {
        reveal_strlit(" docker compose pull");
        reveal_strlit(" docker compose");
    }
    lemma_image_words(tag, call);
    assert(seq!["APP_IMAGE="@ + image(), "IMAGE_TAG="@ + tag] + (seq!["docker"@, "compose"@] + (
    seq!["pull"@] + Seq::empty())) =~= seq![
        "APP_IMAGE="@ + image(),
        "IMAGE_TAG="@ + tag,
        "docker"@,
        "compose"@,
        "pull"@,
    ]);
}

/// The fixed names, written out.
proof fn lemma_names(host: Seq<char>, tag: Seq<char>)
    ensures
        image() == "ghcr.io/dolr-ai/yral-auth"@,
        tagged_image(tag) == "ghcr.io/dolr-ai/yral-auth:"@ + tag,
        in_home() == "cd /home/yral-auth-manager && "@,
        remote(host) == "yral-auth-manager@"@ + host,
        remote(host) + ":/home/"@ + REMOTE_USER@ + "/"@ == "yral-auth-manager@"@ + host
            + ":/home/yral-auth-manager/"@,
        image_assignments(tag) == "APP_IMAGE=ghcr.io/dolr-ai/yral-auth IMAGE_TAG="@ + tag,
{
    reveal_strlit("ghcr.io");
    reveal_strlit("/");
    reveal_strlit(":");
    reveal_strlit("dolr-ai/yral-auth");
    reveal_strlit("ghcr.io/dolr-ai/yral-auth");
    reveal_strlit("ghcr.io/dolr-ai/yral-auth:");
    assert(image() =~= "ghcr.io/dolr-ai/yral-auth"@);
    assert("ghcr.io/dolr-ai/yral-auth:"@ =~= "ghcr.io/dolr-ai/yral-auth"@ + ":"@);
    reveal_strlit("yral-auth-manager");
    reveal_strlit("cd /home/");
    reveal_strlit(" && ");
    reveal_strlit("cd /home/yral-auth-manager && ");
    assert(in_home() =~= "cd /home/yral-auth-manager && "@);
    reveal_strlit("@");
    reveal_strlit("yral-auth-manager@");
    assert("yral-auth-manager@"@ =~= "yral-auth-manager"@ + "@"@);
    reveal_strlit(":/home/");
    reveal_strlit(":/home/yral-auth-manager/");
    assert(":/home/yral-auth-manager/"@ =~= ":/home/"@ + "yral-auth-manager"@ + "/"@);
    assert(remote(host) + ":/home/"@ + REMOTE_USER@ + "/"@ =~= "yral-auth-manager@"@ + host
        + ":/home/yral-auth-manager/"@);
    reveal_strlit("APP_IMAGE=");
    reveal_strlit(" IMAGE_TAG=");
    reveal_strlit("APP_IMAGE=ghcr.io/dolr-ai/yral-auth IMAGE_TAG=");
    assert("APP_IMAGE=ghcr.io/dolr-ai/yral-auth IMAGE_TAG="@ =~= "APP_IMAGE="@
        + "ghcr.io/dolr-ai/yral-auth"@ + " IMAGE_TAG="@);
}

/// The image is built, and uploaded, under the project's name in the registry and exactly the given
/// tag; the login names exactly the given user.
pub proof fn the_tagged_image_is_built_and_uploaded(tag: Seq<char>, username: Seq<char>)
    ensures
        tagged_image(tag) == "ghcr.io/dolr-ai/yral-auth:"@ + tag,
        build_docker_image(tag) == (CommandView {
            program: "docker"@,
            args: seq![
                "build"@,
                "-f"@,
                "deploy/Dockerfile"@,
                "-t"@,
                "ghcr.io/dolr-ai/yral-auth:"@ + tag,
                "."@,
            ],
            envs: Seq::empty(),
        }),
        push_docker_image(tag) == (CommandView {
            program: "docker"@,
            args: seq!["push"@, "ghcr.io/dolr-ai/yral-auth:"@ + tag],
            envs: Seq::empty(),
        }),
        registry_login(username) == (CommandView {
            program: "docker"@,
            args: seq!["login"@, "ghcr.io"@, "-u"@, username, "--password-stdin"@],
            envs: Seq::empty(),
        }),
{
    lemma_names(Seq::empty(), tag);
}

/// The files go to the given host, and a script runs on the given host, as it is.
pub proof fn the_given_host_is_reached(host: Seq<char>, script: Seq<char>)
    ensures
        sync_files(host) == (CommandView {
            program: "rsync"@,
            args: seq![
                "-avz"@,
                "--delete"@,
                "./deploy/"@,
                "yral-auth-manager@"@ + host + ":/home/yral-auth-manager/"@,
            ],
            envs: Seq::empty(),
        }),
        on_host(host, script) == (CommandView {
            program: "ssh"@,
            args: seq!["-o"@, "ConnectTimeout=10"@, "yral-auth-manager@"@ + host, script],
            envs: Seq::empty(),
        }),
{
    lemma_names(host, Seq::empty());
}

/// The assignments of a list of secrets are those of its front followed by those of its back, and a
/// single secret is assigned under its name, escaped and between single quotes.
pub proof fn assignments_join(
    a: Seq<(Seq<char>, Seq<char>)>,
    b: Seq<(Seq<char>, Seq<char>)>,
    key: Seq<char>,
    value: Seq<char>,
)
    ensures
        assignments(a + b) == assignments(a) + assignments(b),
        assignments(Seq::empty()) == Seq::<char>::empty(),
        assignments(seq![(key, value)]) == " "@ + key + "='"@ + quoting::escaped(value) + "'"@,
    decreases a.len(),
{
    assert(seq![(key, value)].drop_first() =~= Seq::empty());
    assert(assignments(seq![(key, value)].drop_first()) =~= Seq::empty());
    assert(assignments(seq![(key, value)]) =~= assignment((key, value)));
    if a.len() == 0 {
        assert(a + b =~= b);
        assert(assignments(a) + assignments(b) =~= assignments(b));
    } else {
        assert((a + b).drop_first() =~= a.drop_first() + b);
        assignments_join(a.drop_first(), b, key, value);
        assert(assignment(a[0]) + (assignments(a.drop_first()) + assignments(b)) =~= assignments(a)
            + assignments(b));
    }
}

/// What a script that works in the services' directory starts with, to a shell.
proof fn lemma_home_tokens(rest: Seq<char>)
    requires
        quoting::tokens(rest) is Some,
    ensures
        quoting::tokens(in_home() + rest) == Some(
            seq![
                quoting::Token::Word("cd"@),
                quoting::Token::Word("/home/yral-auth-manager"@),
                quoting::Token::Operator("&&"@),
            ] + quoting::tokens(rest)->0,
        ),
{
    lemma_names(Seq::empty(), Seq::empty());
    reveal_strlit("cd");
    reveal_strlit("/home/yral-auth-manager");
    reveal_strlit("&&");
    reveal_strlit(" ");
    reveal_strlit("cd /home/yral-auth-manager && ");
    let behind = " "@ + rest;
    let operator = " "@ + ("&&"@ + behind);
    let place = " "@ + ("/home/yral-auth-manager"@ + operator);
    quoting::lemma_space_token(rest);
    quoting::lemma_operator_token("&&"@, behind);
    quoting::lemma_space_token("&&"@ + behind);
    quoting::lemma_word_token("/home/yral-auth-manager"@, operator);
    quoting::lemma_space_token("/home/yral-auth-manager"@ + operator);
    quoting::lemma_word_token("cd"@, place);
    assert("cd /home/yral-auth-manager && "@ =~= "cd"@ + " "@ + "/home/yral-auth-manager"@ + " "@
        + "&&"@ + " "@);
    assert(in_home() + rest =~= "cd"@ + place);
    assert(quoting::tokens(in_home() + rest)->0 =~= seq![
        quoting::Token::Word("cd"@),
        quoting::Token::Word("/home/yral-auth-manager"@),
        quoting::Token::Operator("&&"@),
    ] + quoting::tokens(rest)->0);
}

/// What the image's assignments are, to a shell.
proof fn lemma_image_tokens(tag: Seq<char>, rest: Seq<char>)
    requires
        quoting::plain(tag),
        quoting::ends_word(rest),
        quoting::tokens(rest) is Some,
    ensures
        quoting::tokens(image_assignments(tag) + rest) == Some(
            seq![
                quoting::Token::Word("APP_IMAGE=ghcr.io/dolr-ai/yral-auth"@),
                quoting::Token::Word("IMAGE_TAG="@ + tag),
            ] + quoting::tokens(rest)->0,
        ),
{
    let first = "APP_IMAGE=ghcr.io/dolr-ai/yral-auth"@;
    let second = "IMAGE_TAG="@ + tag;
    lemma_names(Seq::empty(), tag);
    reveal_strlit("APP_IMAGE=ghcr.io/dolr-ai/yral-auth");
    reveal_strlit("IMAGE_TAG=");
    reveal_strlit(" ");
    reveal_strlit("APP_IMAGE=ghcr.io/dolr-ai/yral-auth IMAGE_TAG=");
    assert("APP_IMAGE=ghcr.io/dolr-ai/yral-auth IMAGE_TAG="@ =~= first + " "@ + "IMAGE_TAG="@);
    assert(image_assignments(tag) + rest =~= first + (" "@ + (second + rest)));
    quoting::lemma_word_token(second, rest);
    quoting::lemma_space_token(second + rest);
    quoting::lemma_word_token(first, " "@ + (second + rest));
    assert(quoting::tokens(image_assignments(tag) + rest)->0 =~= seq![
        quoting::Token::Word(first),
        quoting::Token::Word(second),
    ] + quoting::tokens(rest)->0);
}

/// What a call of Docker Compose is, to a shell.
proof fn lemma_compose_tokens(args: Seq<char>)
    requires
        quoting::ends_word(args),
        quoting::tokens(args) is Some,
    ensures
        quoting::ends_word(" docker compose"@ + args),
        quoting::tokens(" docker compose"@ + args) == Some(
            seq![quoting::Token::Word("docker"@), quoting::Token::Word("compose"@)]
                + quoting::tokens(args)->0,
        ),
{
    reveal_strlit(" docker compose");
    reveal_strlit("docker");
    reveal_strlit("compose");
    reveal_strlit(" ");
    assert(" docker compose"@ =~= " "@ + "docker"@ + " "@ + "compose"@);
    assert(" docker compose"@ + args =~= " "@ + ("docker"@ + (" "@ + ("compose"@ + args))));
    quoting::lemma_word_token("compose"@, args);
    quoting::lemma_space_token("compose"@ + args);
    quoting::lemma_word_token("docker"@, " "@ + ("compose"@ + args));
    quoting::lemma_space_token("docker"@ + (" "@ + ("compose"@ + args)));
    assert(quoting::tokens(" docker compose"@ + args)->0 =~= seq![
        quoting::Token::Word("docker"@),
        quoting::Token::Word("compose"@),
    ] + quoting::tokens(args)->0);
}

/// What the secrets' assignments are, to a shell.
proof fn lemma_assignments_tokens(secrets: Seq<(Seq<char>, Seq<char>)>, rest: Seq<char>)
    requires
        forall|i: int| 0 <= i < secrets.len() ==> quoting::plain((#[trigger] secrets[i]).0),
        quoting::ends_word(rest),
        quoting::tokens(rest) is Some,
    ensures
        quoting::ends_word(assignments(secrets) + rest),
        quoting::tokens(assignments(secrets) + rest) == Some(
            secrets.map_values(
                |secret: (Seq<char>, Seq<char>)|
                    quoting::Token::Word(secret.0 + "="@ + secret.1),
            ) + quoting::tokens(rest)->0,
        ),
    decreases secrets.len(),
{
    let view = |secret: (Seq<char>, Seq<char>)| quoting::Token::Word(secret.0 + "="@ + secret.1);
    if secrets.len() == 0 {
        assert(assignments(secrets) + rest =~= rest);
        assert(secrets.map_values(view) + quoting::tokens(rest)->0 =~= quoting::tokens(rest)->0);
    } else {
        let (key, value) = secrets[0];
        let others = secrets.drop_first();
        let behind = assignments(others) + rest;
        lemma_assignments_tokens(others, rest);
        let name = key + "="@;
        let word = name + quoting::quoted(value) + behind;
        assert(assignments(secrets) + rest =~= " "@ + word) by {
            reveal_strlit("='");
            reveal_strlit("=");
            reveal_strlit("'");
            assert("='"@ =~= "="@ + seq!['\'']);
            assert("'"@ =~= seq!['\'']);
        }
        assert(quoting::plain(name)) by {
            reveal_strlit("=");
        }
        quoting::lemma_space_token(word);
        quoting::lemma_quoted_token(name, value, behind);
        assert(secrets.map_values(view) =~= seq![view(secrets[0])] + others.map_values(view));
        assert(seq![quoting::Token::Word(name + value)] + (others.map_values(view)
            + quoting::tokens(rest)->0) =~= secrets.map_values(view) + quoting::tokens(rest)->0);
    }
}

/// The start script changes into the services' directory and there, if that worked, calls Docker
/// Compose once, with the image, with the given tag and with every secret, in order and exactly as
/// it was given. This is what the host's shell makes of the script, whatever characters the secrets
/// hold.
pub proof fn services_start_in_their_directory(
    tag: Seq<char>,
    secrets: Seq<(Seq<char>, Seq<char>)>,
) -> (command_line: Seq<char>)
    requires
        quoting::plain(tag),
        forall|i: int| 0 <= i < secrets.len() ==> quoting::plain((#[trigger] secrets[i]).0),
    ensures
        start_services(tag, secrets) == "cd /home/yral-auth-manager && "@ + command_line,
        quoting::words(command_line) == Some(
            seq!["APP_IMAGE=ghcr.io/dolr-ai/yral-auth"@, "IMAGE_TAG="@ + tag] + secrets.map_values(
                |secret: (Seq<char>, Seq<char>)| secret.0 + "="@ + secret.1,
            ) + seq!["docker"@, "compose"@, "up"@, "-d"@],
        ),
        quoting::tokens(start_services(tag, secrets)) == Some(
            seq![
                quoting::Token::Word("cd"@),
                quoting::Token::Word("/home/yral-auth-manager"@),
                quoting::Token::Operator("&&"@),
                quoting::Token::Word("APP_IMAGE=ghcr.io/dolr-ai/yral-auth"@),
                quoting::Token::Word("IMAGE_TAG="@ + tag),
            ] + secrets.map_values(
                |secret: (Seq<char>, Seq<char>)|
                    quoting::Token::Word(secret.0 + "="@ + secret.1),
            ) + seq![
                quoting::Token::Word("docker"@),
                quoting::Token::Word("compose"@),
                quoting::Token::Word("up"@),
                quoting::Token::Word("-d"@),
            ],
        ),
{
    let command_line = env_prefix(tag, secrets) + " docker compose up -d"@;
    lemma_names(Seq::empty(), tag);
    assert(start_services(tag, secrets) =~= in_home() + command_line);
    services_start_with_the_secrets(tag, secrets, command_line);
    assert("APP_IMAGE="@ + image() =~= "APP_IMAGE=ghcr.io/dolr-ai/yral-auth"@) by {
        reveal_strlit("APP_IMAGE=");
        reveal_strlit("ghcr.io/dolr-ai/yral-auth");
        reveal_strlit("APP_IMAGE=ghcr.io/dolr-ai/yral-auth");
    }
    assert(secrets.map_values(|secret: (Seq<char>, Seq<char>)| assigned(secret))
        =~= secrets.map_values(|secret: (Seq<char>, Seq<char>)| secret.0 + "="@ + secret.1));
    let view = |secret: (Seq<char>, Seq<char>)| quoting::Token::Word(secret.0 + "="@ + secret.1);
    let call = " docker compose up -d"@;
    let none = Seq::<char>::empty();
    let last = " "@ + ("-d"@ + none);
    reveal_strlit("up");
    reveal_strlit("-d");
    reveal_strlit(" ");
    quoting::lemma_word_token("-d"@, none);
    quoting::lemma_space_token("-d"@ + none);
    quoting::lemma_word_token("up"@, last);
    quoting::lemma_space_token("up"@ + last);
    lemma_compose_tokens(" "@ + ("up"@ + last));
    assert(call =~= " docker compose"@ + (" "@ + ("up"@ + last))) by {
        reveal_strlit(" docker compose up -d");
        reveal_strlit(" docker compose");
    }
    lemma_assignments_tokens(secrets, call);
    lemma_image_tokens(tag, assignments(secrets) + call);
    assert(command_line =~= image_assignments(tag) + (assignments(secrets) + call));
    lemma_home_tokens(command_line);
    assert(quoting::tokens(start_services(tag, secrets))->0 =~= seq![
        quoting::Token::Word("cd"@),
        quoting::Token::Word("/home/yral-auth-manager"@),
        quoting::Token::Operator("&&"@),
        quoting::Token::Word("APP_IMAGE=ghcr.io/dolr-ai/yral-auth"@),
        quoting::Token::Word("IMAGE_TAG="@ + tag),
    ] + secrets.map_values(view) + seq![
        quoting::Token::Word("docker"@),
        quoting::Token::Word("compose"@),
        quoting::Token::Word("up"@),
        quoting::Token::Word("-d"@),
    ]);
    command_line
}

/// What fetching the image is, to a shell.
proof fn lemma_fetch_tokens(tag: Seq<char>)
    requires
        quoting::plain(tag),
    ensures
        quoting::tokens(image_assignments(tag) + " docker compose pull"@) == Some(
            seq![
                quoting::Token::Word("APP_IMAGE=ghcr.io/dolr-ai/yral-auth"@),
                quoting::Token::Word("IMAGE_TAG="@ + tag),
                quoting::Token::Word("docker"@),
                quoting::Token::Word("compose"@),
                quoting::Token::Word("pull"@),
            ],
        ),
{
    let none = Seq::<char>::empty();
    reveal_strlit(" ");
    reveal_strlit("pull");
    let argument = " "@ + ("pull"@ + none);
    let call = " docker compose pull"@;
    quoting::lemma_word_token("pull"@, none);
    quoting::lemma_space_token("pull"@ + none);
    lemma_compose_tokens(argument);
    assert(call =~= " docker compose"@ + argument) by {
        reveal_strlit(" docker compose pull");
        reveal_strlit(" docker compose");
    }
    lemma_image_tokens(tag, call);
    assert(quoting::tokens(image_assignments(tag) + call)->0 =~= seq![
        quoting::Token::Word("APP_IMAGE=ghcr.io/dolr-ai/yral-auth"@),
        quoting::Token::Word("IMAGE_TAG="@ + tag),
        quoting::Token::Word("docker"@),
        quoting::Token::Word("compose"@),
        quoting::Token::Word("pull"@),
    ]);
}

/// What the end of the login is, to a shell.
proof fn lemma_login_end_tokens(rest: Seq<char>)
    requires
        quoting::tokens(rest) is Some,
    ensures
        quoting::ends_word(" --password-stdin && "@ + rest),
        quoting::tokens(" --password-stdin && "@ + rest) == Some(
            seq![quoting::Token::Word("--password-stdin"@), quoting::Token::Operator("&&"@)]
                + quoting::tokens(rest)->0,
        ),
{
    reveal_strlit(" ");
    reveal_strlit("&&");
    reveal_strlit("--password-stdin");
    reveal_strlit(" --password-stdin && ");
    let behind = " "@ + rest;
    quoting::lemma_space_token(rest);
    quoting::lemma_operator_token("&&"@, behind);
    let and = " "@ + ("&&"@ + behind);
    quoting::lemma_space_token("&&"@ + behind);
    quoting::lemma_word_token("--password-stdin"@, and);
    quoting::lemma_space_token("--password-stdin"@ + and);
    assert(" --password-stdin && "@ =~= " "@ + "--password-stdin"@ + " "@ + "&&"@ + " "@);
    assert(" --password-stdin && "@ + rest =~= " "@ + ("--password-stdin"@ + and));
    assert(quoting::tokens(" --password-stdin && "@ + rest)->0 =~= seq![
        quoting::Token::Word("--password-stdin"@),
        quoting::Token::Operator("&&"@),
    ] + quoting::tokens(rest)->0);
}

/// What the login up to the user is, to a shell.
proof fn lemma_login_tokens(username: Seq<char>, rest: Seq<char>)
    requires
        quoting::plain(username),
        username.len() > 0,
        quoting::ends_word(rest),
        quoting::tokens(rest) is Some,
    ensures
        quoting::tokens(DOCKER_REGISTRY@ + " -u "@ + username + rest) == Some(
            seq![
                quoting::Token::Word("ghcr.io"@),
                quoting::Token::Word("-u"@),
                quoting::Token::Word(username),
            ] + quoting::tokens(rest)->0,
        ),
{
    reveal_strlit(" ");
    reveal_strlit("-u");
    reveal_strlit(" -u ");
    reveal_strlit("ghcr.io");
    let user = " "@ + (username + rest);
    quoting::lemma_word_token(username, rest);
    quoting::lemma_space_token(username + rest);
    let flag = " "@ + ("-u"@ + user);
    quoting::lemma_word_token("-u"@, user);
    quoting::lemma_space_token("-u"@ + user);
    quoting::lemma_word_token("ghcr.io"@, flag);
    assert(" -u "@ =~= " "@ + "-u"@ + " "@);
    assert(DOCKER_REGISTRY@ + " -u "@ + username + rest =~= "ghcr.io"@ + flag);
    assert(quoting::tokens("ghcr.io"@ + flag)->0 =~= seq![
        quoting::Token::Word("ghcr.io"@),
        quoting::Token::Word("-u"@),
        quoting::Token::Word(username),
    ] + quoting::tokens(rest)->0);
}

/// What the token's way into the login is, to a shell.
proof fn lemma_echo_tokens(token: Seq<char>, rest: Seq<char>)
    requires
        !token.contains('\''),
        quoting::tokens(rest) is Some,
    ensures
        quoting::tokens("echo '"@ + token + "' | docker login "@ + rest) == Some(
            seq![
                quoting::Token::Word("echo"@),
                quoting::Token::Word(token),
                quoting::Token::Operator("|"@),
                quoting::Token::Word("docker"@),
                quoting::Token::Word("login"@),
            ] + quoting::tokens(rest)->0,
        ),
{
    let none = Seq::<char>::empty();
    reveal_strlit(" ");
    reveal_strlit("|");
    reveal_strlit("login");
    reveal_strlit("docker");
    reveal_strlit("echo");
    reveal_strlit("echo '");
    reveal_strlit("' | docker login ");
    let behind = " "@ + rest;
    quoting::lemma_space_token(rest);
    let login = " "@ + ("login"@ + behind);
    quoting::lemma_word_token("login"@, behind);
    quoting::lemma_space_token("login"@ + behind);
    let docker = " "@ + ("docker"@ + login);
    quoting::lemma_word_token("docker"@, login);
    quoting::lemma_space_token("docker"@ + login);
    let pipe = " "@ + ("|"@ + docker);
    quoting::lemma_operator_token("|"@, docker);
    quoting::lemma_space_token("|"@ + docker);
    let secret = " "@ + (none + quoting::quoted(token) + pipe);
    quoting::lemma_quoted_token(none, token, pipe);
    quoting::lemma_space_token(none + quoting::quoted(token) + pipe);
    assert(none + token =~= token);
    quoting::lemma_word_token("echo"@, secret);
    quoting::escaping_keeps_text_without_quotes(token);
    assert("echo '"@ =~= "echo"@ + " "@ + seq!['\'']);
    assert("' | docker login "@ =~= seq!['\''] + " "@ + "|"@ + " "@ + "docker"@ + " "@ + "login"@
        + " "@);
    assert("echo '"@ + token + "' | docker login "@ + rest =~= "echo"@ + secret);
    assert(quoting::tokens("echo"@ + secret)->0 =~= seq![
        quoting::Token::Word("echo"@),
        quoting::Token::Word(token),
        quoting::Token::Operator("|"@),
        quoting::Token::Word("docker"@),
        quoting::Token::Word("login"@),
    ] + quoting::tokens(rest)->0);
}

/// The pull script changes into the services' directory, logs in to the registry as the given user
/// with the given token on the login's input, and then lets Docker Compose fetch the image with the
/// given tag; each part only if the one before it worked. This is what the host's shell makes of
/// the script. A token with a single quote in it is left out: the script does not escape the token.
pub proof fn pull_script_logs_in_and_fetches(
    tag: Seq<char>,
    token: Seq<char>,
    username: Seq<char>,
)
    requires
        quoting::plain(tag),
        quoting::plain(username),
        username.len() > 0,
        !token.contains('\''),
    ensures
        quoting::tokens(pull_image(tag, token, username)) == Some(
            seq![
                quoting::Token::Word("cd"@),
                quoting::Token::Word("/home/yral-auth-manager"@),
                quoting::Token::Operator("&&"@),
                quoting::Token::Word("echo"@),
                quoting::Token::Word(token),
                quoting::Token::Operator("|"@),
                quoting::Token::Word("docker"@),
                quoting::Token::Word("login"@),
                quoting::Token::Word("ghcr.io"@),
                quoting::Token::Word("-u"@),
                quoting::Token::Word(username),
                quoting::Token::Word("--password-stdin"@),
                quoting::Token::Operator("&&"@),
                quoting::Token::Word("APP_IMAGE=ghcr.io/dolr-ai/yral-auth"@),
                quoting::Token::Word("IMAGE_TAG="@ + tag),
                quoting::Token::Word("docker"@),
                quoting::Token::Word("compose"@),
                quoting::Token::Word("pull"@),
            ],
        ),
{
    let fetch = image_assignments(tag) + " docker compose pull"@;
    let end = " --password-stdin && "@ + fetch;
    let login = DOCKER_REGISTRY@ + " -u "@ + username + end;
    let echo = "echo '"@ + token + "' | docker login "@ + login;
    lemma_fetch_tokens(tag);
    lemma_login_end_tokens(fetch);
    lemma_login_tokens(username, end);
    lemma_echo_tokens(token, login);
    lemma_home_tokens(echo);
    assert(pull_image(tag, token, username) =~= in_home() + echo);
    assert(quoting::tokens(pull_image(tag, token, username))->0 =~= seq![
        quoting::Token::Word("cd"@),
        quoting::Token::Word("/home/yral-auth-manager"@),
        quoting::Token::Operator("&&"@),
        quoting::Token::Word("echo"@),
        quoting::Token::Word(token),
        quoting::Token::Operator("|"@),
        quoting::Token::Word("docker"@),
        quoting::Token::Word("login"@),
        quoting::Token::Word("ghcr.io"@),
        quoting::Token::Word("-u"@),
        quoting::Token::Word(username),
        quoting::Token::Word("--password-stdin"@),
        quoting::Token::Operator("&&"@),
        quoting::Token::Word("APP_IMAGE=ghcr.io/dolr-ai/yral-auth"@),
        quoting::Token::Word("IMAGE_TAG="@ + tag),
        quoting::Token::Word("docker"@),
        quoting::Token::Word("compose"@),
        quoting::Token::Word("pull"@),
    ]);
}

/// The scripts hold what they are given where it belongs, whatever it is: the pull script the token,
/// the user and the tag, the start script the tag and, behind it, the secrets' assignments.
pub proof fn scripts_hold_what_they_are_given(
    tag: Seq<char>,
    token: Seq<char>,
    username: Seq<char>,
    secrets: Seq<(Seq<char>, Seq<char>)>,
)
    ensures
        pull_image(tag, token, username) == "cd /home/yral-auth-manager && echo '"@ + token
            + "' | docker login ghcr.io -u "@ + username
            + " --password-stdin && APP_IMAGE=ghcr.io/dolr-ai/yral-auth IMAGE_TAG="@ + tag
            + " docker compose pull"@,
        start_services(tag, secrets)
            == "cd /home/yral-auth-manager && APP_IMAGE=ghcr.io/dolr-ai/yral-auth IMAGE_TAG="@
            + tag + assignments(secrets) + " docker compose up -d"@,
{
    lemma_names(Seq::empty(), tag);
    let home = "cd /home/yral-auth-manager && "@;
    let assign = "APP_IMAGE=ghcr.io/dolr-ai/yral-auth IMAGE_TAG="@;
    reveal_strlit("cd /home/yral-auth-manager && ");
    reveal_strlit("APP_IMAGE=ghcr.io/dolr-ai/yral-auth IMAGE_TAG=");
    assert("cd /home/yral-auth-manager && echo '"@ =~= home + "echo '"@) by {
        reveal_strlit("cd /home/yral-auth-manager && echo '");
        reveal_strlit("echo '");
    }
    assert("' | docker login ghcr.io -u "@ =~= "' | docker login "@ + "ghcr.io"@ + " -u "@) by {
        reveal_strlit("' | docker login ghcr.io -u ");
        reveal_strlit("' | docker login ");
        reveal_strlit("ghcr.io");
        reveal_strlit(" -u ");
    }
    assert(" --password-stdin && APP_IMAGE=ghcr.io/dolr-ai/yral-auth IMAGE_TAG="@
        =~= " --password-stdin && "@ + assign) by {
        reveal_strlit(" --password-stdin && APP_IMAGE=ghcr.io/dolr-ai/yral-auth IMAGE_TAG=");
        reveal_strlit(" --password-stdin && ");
    }
    assert("cd /home/yral-auth-manager && APP_IMAGE=ghcr.io/dolr-ai/yral-auth IMAGE_TAG="@ =~= home
        + assign) by {
        reveal_strlit(
            "cd /home/yral-auth-manager && APP_IMAGE=ghcr.io/dolr-ai/yral-auth IMAGE_TAG=",
        );
    }
    assert(pull_image(tag, token, username) =~= home + "echo '"@ + token + ("' | docker login "@
        + "ghcr.io"@ + " -u "@) + username + (" --password-stdin && "@ + assign) + tag
        + " docker compose pull"@);
    assert(start_services(tag, secrets) =~= (home + assign) + tag + assignments(secrets)
        + " docker compose up -d"@);
}

/// The scripts that depend on nothing: they stop the services, show them, and ask the server how it
/// is.
pub proof fn fixed_scripts_are_these()
    ensures
        stop_services()
            == "cd /home/yral-auth-manager && docker compose down --remove-orphans || true"@,
        show_status()
            == "cd /home/yral-auth-manager && docker compose ps && echo '---' && docker compose logs --tail=20 yral-auth 2>/dev/null || true"@,
        check_health() == "curl -sf http://localhost/healthz || echo 'Health check failed'"@,
{
    lemma_names(Seq::empty(), Seq::empty());
    reveal_strlit("cd /home/yral-auth-manager && ");
    assert(stop_services()
        =~= "cd /home/yral-auth-manager && docker compose down --remove-orphans || true"@) by {
        reveal_strlit("docker compose down --remove-orphans || true");
        reveal_strlit("cd /home/yral-auth-manager && docker compose down --remove-orphans || true");
    }
    assert(show_status()
        =~= "cd /home/yral-auth-manager && docker compose ps && echo '---' && docker compose logs --tail=20 yral-auth 2>/dev/null || true"@)
        by {
        reveal_strlit(
            "docker compose ps && echo '---' && docker compose logs --tail=20 yral-auth 2>/dev/null || true",
        );
        reveal_strlit(
            "cd /home/yral-auth-manager && docker compose ps && echo '---' && docker compose logs --tail=20 yral-auth 2>/dev/null || true",
        );
    }
}

} // verus!
