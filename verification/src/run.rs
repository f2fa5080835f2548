//! A deployment under way.
//!
//! A [`Run`] says what to do next and is told how that went. It stops for good at the first
//! thing that goes wrong.
use crate::commands;
use crate::commands::{
    build_docker_image_command, build_leptos_command, check_health_script, on_host_command,
    pull_image_script, push_docker_image_command, registry_login_command, show_status_script,
    start_services_script, stop_services_script, sync_files_command, Command, BINARY_PATH,
};
use crate::hosts;
use crate::hosts::host_list;
use crate::plan;
use crate::plan::{steps_of, Step, Task};
use crate::quoting;
use crate::secrets;
use crate::secrets::{secret_envs, secret_keys, SecretEnvs, SkippedSecret};
use vstd::prelude::*;
use vstd::string::*;

verus! {

/// The variable that holds the list of hosts.
pub const HOSTS_KEY: &'static str = "HETZNER_HOSTS";

/// The variable that holds the registry's user name.
pub const USERNAME_KEY: &'static str = "GHCR_USERNAME";

/// The variable that holds the registry's token.
pub const TOKEN_KEY: &'static str = "GHCR_TOKEN";

/// The variable that holds the image's tag.
pub const TAG_KEY: &'static str = "IMAGE_TAG";

/// The tag that is used where none is set.
pub const DEFAULT_TAG: &'static str = "latest";

/// How many seconds the services are given to start.
pub const START_SECONDS: u64 = 10;

/// Why a run stopped.
#[derive(Debug, PartialEq)]
pub enum Failure {
    /// This variable is needed and not set.
    MissingEnv(String),
    /// The build left no binary, or an empty one.
    EmptyBinary,
    /// A program could not be run or did not succeed, for this reason.
    ProgramFailed(String),
}

/// The mathematical reading of a [`Failure`].
pub enum FailureView {
    MissingEnv(Seq<char>),
    EmptyBinary,
    ProgramFailed(Seq<char>),
}

impl DeepView for Failure {
    type V = FailureView;

    open spec fn deep_view(&self) -> FailureView {
        match self {
            Failure::MissingEnv(key) => FailureView::MissingEnv(key@),
            Failure::EmptyBinary => FailureView::EmptyBinary,
            Failure::ProgramFailed(reason) => FailureView::ProgramFailed(reason@),
        }
    }
}

impl FailureView {
    /// The failure in words.
    pub open spec fn message(self) -> Seq<char> {
        match self {
            FailureView::MissingEnv(key) => key + " is not set"@,
            FailureView::EmptyBinary =>
                "binary is empty — musl cross-compile may have failed"@,
            FailureView::ProgramFailed(reason) => reason,
        }
    }
}

impl Failure {
    /// Puts the failure into words.
    pub fn message(&self) -> (text: String)
        ensures
            text@ == self.deep_view().message(),
            self matches Failure::MissingEnv(key) ==> text@ == key@ + " is not set"@,
            self is EmptyBinary ==> text@
                == "binary is empty — musl cross-compile may have failed"@,
            self matches Failure::ProgramFailed(reason) ==> text@ == reason@,
    {
        match self {
            Failure::MissingEnv(key) => key.clone().concat(" is not set"),
            Failure::EmptyBinary =>
                "binary is empty — musl cross-compile may have failed".to_string(),
            Failure::ProgramFailed(reason) => reason.clone(),
        }
    }
}

/// What has to be done next.
#[derive(Debug, PartialEq)]
pub enum Action {
    /// Run a program.
    Run(Command),
    /// Run a program and give it a text to read.
    RunWithInput(Command, String),
    /// Run a program and show what it writes.
    Capture(Command),
    /// Find out the size of a file in the workspace.
    Measure(String),
    /// Read a variable that has to be set.
    ReadEnv(String),
    /// Read variables, set or not.
    ReadSecrets(Vec<String>),
    /// Wait for some seconds.
    Sleep(u64),
    /// Nothing: everything is done.
    Finish,
    /// Nothing: the run has failed.
    Abort,
}

/// The mathematical reading of an [`Action`].
pub enum ActionView {
    Run(commands::CommandView),
    RunWithInput(commands::CommandView, Seq<char>),
    Capture(commands::CommandView),
    Measure(Seq<char>),
    ReadEnv(Seq<char>),
    ReadSecrets(Seq<Seq<char>>),
    Sleep(u64),
    Finish,
    Abort,
}

impl View for Action {
    type V = ActionView;

    open spec fn view(&self) -> ActionView {
        match self {
            Action::Run(command) => ActionView::Run(command@),
            Action::RunWithInput(command, input) => ActionView::RunWithInput(command@, input@),
            Action::Capture(command) => ActionView::Capture(command@),
            Action::Measure(path) => ActionView::Measure(path@),
            Action::ReadEnv(key) => ActionView::ReadEnv(key@),
            Action::ReadSecrets(keys) => ActionView::ReadSecrets(keys.deep_view()),
            Action::Sleep(seconds) => ActionView::Sleep(*seconds),
            Action::Finish => ActionView::Finish,
            Action::Abort => ActionView::Abort,
        }
    }
}

/// How an action went.
#[derive(Debug, PartialEq)]
pub enum Reply {
    /// It succeeded.
    Done,
    /// A program could not be run or did not succeed, for this reason.
    Failed(String),
    /// The file has this many bytes; a file that is not there has none.
    Size(u64),
    /// The variable has this value, where it is set.
    Value(Option<String>),
    /// The variables have these values, where they are set.
    Secrets(Vec<Option<String>>),
}

/// The mathematical reading of a [`Reply`].
pub enum ReplyView {
    Done,
    Failed(Seq<char>),
    Size(u64),
    Value(Option<Seq<char>>),
    Secrets(Seq<Option<Seq<char>>>),
}

impl View for Reply {
    type V = ReplyView;

    open spec fn view(&self) -> ReplyView {
        match self {
            Reply::Done => ReplyView::Done,
            Reply::Failed(reason) => ReplyView::Failed(reason@),
            Reply::Size(size) => ReplyView::Size(*size),
            Reply::Value(value) => ReplyView::Value(value.deep_view()),
            Reply::Secrets(values) => ReplyView::Secrets(values.deep_view()),
        }
    }
}

/// The mathematical reading of a [`Run`].
#[verifier::ext_equal]
pub struct RunView {
    pub task: Task,
    pub tag: Seq<char>,
    pub hosts: Seq<Seq<char>>,
    /// How many steps are done.
    pub position: int,
    /// The registry's user name, as it was read last.
    pub username: Seq<char>,
    /// The registry's token, as it was read last.
    pub token: Seq<char>,
    /// The secrets to pass on, as they were read last.
    pub secrets: Seq<(Seq<char>, Seq<char>)>,
    /// The secrets that were left out then.
    pub skipped: Seq<(Seq<char>, bool)>,
    pub failure: Option<FailureView>,
}

impl RunView {
    /// All steps of the run.
    pub open spec fn steps(self) -> Seq<Step> {
        plan::plan(self.task, self.hosts.len())
    }

    /// What holds of every run.
    pub open spec fn valid(self) -> bool {
        &&& self.hosts.len() <= usize::MAX
        &&& 0 <= self.position <= self.steps().len()
        &&& self.failure is Some ==> self.position < self.steps().len()
        &&& forall|i: int|
            0 <= i < self.secrets.len() ==> quoting::plain((#[trigger] self.secrets[i]).0)
    }

    /// Whether there is something left to do.
    pub open spec fn active(self) -> bool {
        self.failure is None && self.position < self.steps().len()
    }

    /// The step that is due, where there is something left to do.
    pub open spec fn due(self) -> Step {
        self.steps()[self.position]
    }

    /// What has to be done next.
    pub open spec fn action(self) -> ActionView {
        if self.failure is Some {
            ActionView::Abort
        } else if self.position >= self.steps().len() {
            ActionView::Finish
        } else {
            match self.due() {
                Step::BuildLeptos => ActionView::Run(commands::build_leptos()),
                Step::CheckBinary => ActionView::Measure(BINARY_PATH@),
                Step::BuildImage => ActionView::Run(commands::build_docker_image(self.tag)),
                Step::ReadUsername => ActionView::ReadEnv(USERNAME_KEY@),
                Step::ReadToken => ActionView::ReadEnv(TOKEN_KEY@),
                Step::Login => ActionView::RunWithInput(
                    commands::registry_login(self.username),
                    self.token,
                ),
                Step::PushImage => ActionView::Run(commands::push_docker_image(self.tag)),
                Step::SyncFiles(h) => ActionView::Run(commands::sync_files(self.hosts[h as int])),
                Step::PullImage(h) => ActionView::Run(
                    commands::on_host(
                        self.hosts[h as int],
                        commands::pull_image(self.tag, self.token, self.username),
                    ),
                ),
                Step::StopServices(h) => ActionView::Run(
                    commands::on_host(self.hosts[h as int], commands::stop_services()),
                ),
                Step::ReadSecrets => ActionView::ReadSecrets(secrets::secret_names()),
                Step::StartServices(h) => ActionView::Run(
                    commands::on_host(
                        self.hosts[h as int],
                        commands::start_services(self.tag, self.secrets),
                    ),
                ),
                Step::Wait => ActionView::Sleep(START_SECONDS),
                Step::ShowStatus(h) => ActionView::Capture(
                    commands::on_host(self.hosts[h as int], commands::show_status()),
                ),
                Step::CheckHealth(h) => ActionView::Capture(
                    commands::on_host(self.hosts[h as int], commands::check_health()),
                ),
            }
        }
    }

    /// Whether a reply answers the action that is due.
    pub open spec fn accepts(self, reply: ReplyView) -> bool {
        match self.action() {
            ActionView::Run(_) => reply is Done || reply is Failed,
            ActionView::RunWithInput(_, _) => reply is Done || reply is Failed,
            ActionView::Capture(_) => reply is Done || reply is Failed,
            ActionView::Measure(_) => reply is Size,
            ActionView::ReadEnv(_) => reply is Value,
            ActionView::ReadSecrets(keys) => reply matches ReplyView::Secrets(values)
                && values.len() == keys.len(),
            ActionView::Sleep(_) => reply is Done,
            ActionView::Finish => false,
            ActionView::Abort => false,
        }
    }

    /// The run with the step that is due done.
    pub open spec fn moved_on(self) -> RunView {
        RunView { position: self.position + 1, ..self }
    }

    /// The run, stopped for good.
    pub open spec fn failed(self, failure: FailureView) -> RunView {
        RunView { failure: Some(failure), ..self }
    }

    /// The run after a reply that answers the action that is due.
    pub open spec fn after(self, reply: ReplyView) -> RunView {
        match reply {
            ReplyView::Done => self.moved_on(),
            ReplyView::Failed(reason) => self.failed(FailureView::ProgramFailed(reason)),
            ReplyView::Size(size) => if size > 0 {
                self.moved_on()
            } else {
                self.failed(FailureView::EmptyBinary)
            },
            ReplyView::Value(Some(value)) => if self.due() is ReadUsername {
                RunView { username: value, ..self.moved_on() }
            } else {
                RunView { token: value, ..self.moved_on() }
            },
            ReplyView::Value(None) => if self.due() is ReadUsername {
                self.failed(FailureView::MissingEnv(USERNAME_KEY@))
            } else {
                self.failed(FailureView::MissingEnv(TOKEN_KEY@))
            },
            ReplyView::Secrets(values) => RunView {
                secrets: secrets::forwarded(secrets::secret_names(), values),
                skipped: secrets::left_out(secrets::secret_names(), values),
                ..self.moved_on()
            },
        }
    }
}

/// Whether a task deploys to hosts.
pub open spec fn needs_hosts(task: Task) -> bool {
    task is Deploy || task is DeployOnly
}

/// The tag that is used, for the value of its variable, where that is set.
pub open spec fn tag_or_default(value: Option<Seq<char>>) -> Seq<char> {
    match value {
        Some(tag) => tag,
        None => DEFAULT_TAG@,
    }
}

/// Gives the tag that is used, for the value of its variable, where that is set.
pub fn image_tag(value: Option<String>) -> (tag: String)
    ensures
        tag@ == tag_or_default(value.deep_view()),
        value matches Some(t) ==> tag@ == t@,
        value is None ==> tag@ == "latest"@,
{
    match value {
        Some(tag) => tag,
        None => DEFAULT_TAG.to_string(),
    }
}

/// A run at its start, for a list of hosts.
pub open spec fn fresh(task: Task, tag: Option<Seq<char>>, hosts: Seq<Seq<char>>) -> RunView {
    RunView {
        task,
        tag: tag_or_default(tag),
        hosts,
        position: 0,
        username: Seq::empty(),
        token: Seq::empty(),
        secrets: Seq::empty(),
        skipped: Seq::empty(),
        failure: None,
    }
}

/// A deployment under way.
#[derive(Debug)]
pub struct Run {
    task: Task,
    tag: String,
    hosts: Vec<String>,
    steps: Vec<Step>,
    position: usize,
    username: String,
    token: String,
    secrets: SecretEnvs,
    failure: Option<Failure>,
}

impl View for Run {
    type V = RunView;

    closed spec fn view(&self) -> RunView {
        RunView {
            task: self.task,
            tag: self.tag@,
            hosts: self.hosts.deep_view(),
            position: self.position as int,
            username: self.username@,
            token: self.token@,
            secrets: self.secrets.envs.deep_view(),
            skipped: self.secrets.skipped.deep_view(),
            failure: self.failure.deep_view(),
        }
    }
}

impl Run {
    #[verifier::type_invariant]
    spec fn consistent(self) -> bool {
        &&& self.steps@ == plan::plan(self.task, self.hosts@.len())
        &&& self@.valid()
    }

    /// Starts a run. `tag` and `hosts` are the values of the variables that hold the image's tag
    /// and the list of hosts, where they are set. A task that deploys needs the list; a mere
    /// build does not look at it.
    pub fn start(task: Task, tag: Option<String>, hosts: Option<String>) -> (run: Result<
        Run,
        Failure,
    >)
        ensures
            run is Err <==> needs_hosts(task) && hosts is None,
            run is Err <==> task !is BuildOnly && hosts is None,
            run matches Err(failure) ==> (failure matches Failure::MissingEnv(key) && key@
                == "HETZNER_HOSTS"@),
            run matches Ok(r) ==> r@.task == task && r@.position == 0 && r@.failure is None,
            run matches Ok(r) ==> (tag matches Some(t) ==> r@.tag == t@),
            run matches Ok(r) ==> (tag is None ==> r@.tag == "latest"@),
            run matches Ok(r) ==> (task is BuildOnly ==> r@.hosts.len() == 0),
            run matches Ok(r) ==> (task !is BuildOnly ==> r@.hosts == hosts::fields(hosts->0@)),
            run matches Err(failure) ==> failure.deep_view() == FailureView::MissingEnv(
                HOSTS_KEY@,
            ),
            run matches Ok(r) ==> r@.valid(),
            run matches Ok(r) ==> r@ == fresh(
                task,
                tag.deep_view(),
                if needs_hosts(task) {
                    hosts::fields(hosts->0@)
                } else {
                    Seq::empty()
                },
            ),
    {
        let tag = image_tag(tag);
        let list: Vec<String> = match task {
            Task::BuildOnly => Vec::new(),
            _ => match hosts {
                Some(text) => host_list(text.as_str()),
                None => return Err(Failure::MissingEnv(HOSTS_KEY.to_string())),
            },
        };
        let steps = steps_of(task, list.len());
        let secrets = SecretEnvs { envs: Vec::new(), skipped: Vec::new() };
        assert(list.len() <= usize::MAX);
        let run = Run {
            task,
            tag,
            hosts: list,
            steps,
            position: 0,
            username: String::new(),
            token: String::new(),
            secrets,
            failure: None,
        };
        assert(run@.secrets =~= Seq::empty());
        assert(run@.skipped =~= Seq::empty());
        assert(task is BuildOnly ==> run@.hosts =~= Seq::empty());
        Ok(run)
    }

    /// Says whether a reply answers the action that is due.
    pub fn accepts(&self, reply: &Reply) -> (result: bool)
        ensures
            result == self@.accepts(reply@),
    {
        match (self.action(), reply) {
            (Action::Run(_), Reply::Done) => true,
            (Action::Run(_), Reply::Failed(_)) => true,
            (Action::RunWithInput(_, _), Reply::Done) => true,
            (Action::RunWithInput(_, _), Reply::Failed(_)) => true,
            (Action::Capture(_), Reply::Done) => true,
            (Action::Capture(_), Reply::Failed(_)) => true,
            (Action::Measure(_), Reply::Size(_)) => true,
            (Action::ReadEnv(_), Reply::Value(_)) => true,
            (Action::ReadSecrets(keys), Reply::Secrets(values)) => keys.len() == values.len(),
            (Action::Sleep(_), Reply::Done) => true,
            _ => false,
        }
    }

    /// Takes the reply to the action that is due.
    pub fn advance(&mut self, reply: Reply)
        requires
            old(self)@.accepts(reply@),
        ensures
            final(self)@ == old(self)@.after(reply@),
            reply is Done ==> final(self)@ == (RunView {
                position: old(self)@.position + 1,
                ..old(self)@
            }),
            reply matches Reply::Failed(reason) ==> final(self)@ == (RunView {
                failure: Some(FailureView::ProgramFailed(reason@)),
                ..old(self)@
            }),
            reply matches Reply::Size(size) ==> (size > 0 ==> final(self)@ == (RunView {
                position: old(self)@.position + 1,
                ..old(self)@
            })),
            reply matches Reply::Size(size) ==> (size == 0 ==> final(self)@ == (RunView {
                failure: Some(FailureView::EmptyBinary),
                ..old(self)@
            })),
            reply matches Reply::Value(Some(value)) ==> (old(self)@.due() is ReadUsername
                ==> final(self)@ == (RunView {
                username: value@,
                position: old(self)@.position + 1,
                ..old(self)@
            })),
            reply matches Reply::Value(Some(value)) ==> (old(self)@.due() is ReadToken
                ==> final(self)@ == (RunView {
                token: value@,
                position: old(self)@.position + 1,
                ..old(self)@
            })),
            reply matches Reply::Value(None) ==> (old(self)@.due() is ReadUsername
                ==> final(self)@ == (RunView {
                failure: Some(FailureView::MissingEnv("GHCR_USERNAME"@)),
                ..old(self)@
            })),
            reply matches Reply::Value(None) ==> (old(self)@.due() is ReadToken
                ==> final(self)@ == (RunView {
                failure: Some(FailureView::MissingEnv("GHCR_TOKEN"@)),
                ..old(self)@
            })),
            reply matches Reply::Secrets(values) ==> final(self)@ == (RunView {
                secrets: secrets::forwarded(secrets::secret_names(), values.deep_view()),
                skipped: secrets::left_out(secrets::secret_names(), values.deep_view()),
                position: old(self)@.position + 1,
                ..old(self)@
            }),
            final(self)@.valid(),
    {
        proof {
            use_type_invariant(&*self);
        }
        let ghost before = self@;
        assert(self.position < self.steps.len());
        let reads_username = match self.steps[self.position] {
            Step::ReadUsername => true,
            _ => false,
        };
        match reply {
            Reply::Done => {
                self.position = self.position + 1;
            },
            Reply::Failed(reason) => {
                self.failure = Some(Failure::ProgramFailed(reason));
            },
            Reply::Size(size) => {
                if size > 0 {
                    self.position = self.position + 1;
                } else {
                    self.failure = Some(Failure::EmptyBinary);
                }
            },
            Reply::Value(Some(value)) => {
                if reads_username {
                    self.username = value;
                } else {
                    self.token = value;
                }
                self.position = self.position + 1;
            },
            Reply::Value(None) => {
                let key = if reads_username {
                    USERNAME_KEY
                } else {
                    TOKEN_KEY
                };
                self.failure = Some(Failure::MissingEnv(key.to_string()));
            },
            Reply::Secrets(values) => {
                proof {
                    secrets::forwarded_names_are_plain(values.deep_view());
                }
                self.secrets = secret_envs(&values);
                self.position = self.position + 1;
            },
        }
        assert(self@ =~= before.after(reply@));
    }

    /// Says what has to be done next.
    pub fn action(&self) -> (action: Action)
        ensures
            action@ == self@.action(),
            action is Abort <==> self@.failure is Some,
            action is Finish <==> self@.failure is None && self@.position >= plan::plan(
                self@.task,
                self@.hosts.len(),
            ).len(),
            self@.active() ==> match self@.due() {
                Step::BuildLeptos => (action matches Action::Run(c) && c.program@ == "cargo"@
                    && c.args.deep_view() == seq![
                        "leptos"@,
                        "build"@,
                        "--release"@,
                        "--lib-features"@,
                        "release-lib"@,
                        "--bin-features"@,
                        "release-bin"@,
                    ]
                    && c.envs.deep_view() == seq![
                        ("LEPTOS_BIN_TARGET_TRIPLE"@, "x86_64-unknown-linux-musl"@),
                        ("LEPTOS_HASH_FILES"@, "true"@),
                        ("LEPTOS_TAILWIND_VERSION"@, "v4.0.15"@),
                    ]),
                Step::CheckBinary => (action matches Action::Measure(path) && path@
                    == "target/x86_64-unknown-linux-musl/release/yral-auth"@),
                Step::BuildImage => (action matches Action::Run(c) && c.program@ == "docker"@
                && c.args.deep_view() == seq![
                    "build"@,
                    "-f"@,
                    "deploy/Dockerfile"@,
                    "-t"@,
                    "ghcr.io/dolr-ai/yral-auth:"@ + self@.tag,
                    "."@,
                ] && c.envs.deep_view().len() == 0),
                Step::ReadUsername => (action matches Action::ReadEnv(key) && key@
                    == "GHCR_USERNAME"@),
                Step::ReadToken => (action matches Action::ReadEnv(key) && key@ == "GHCR_TOKEN"@),
                Step::Login => (action matches Action::RunWithInput(c, input) && c.program@
                    == "docker"@ && c.args.deep_view() == seq![
                        "login"@,
                        "ghcr.io"@,
                        "-u"@,
                        self@.username,
                        "--password-stdin"@,
                    ]
                    && c.envs.deep_view().len() == 0 && input@ == self@.token),
                Step::PushImage => (action matches Action::Run(c) && c.program@ == "docker"@
                && c.args.deep_view() == seq![
                    "push"@,
                    "ghcr.io/dolr-ai/yral-auth:"@ + self@.tag,
                ] && c.envs.deep_view().len() == 0),
                Step::SyncFiles(h) => (action matches Action::Run(c) && c.program@ == "rsync"@
                && c.args.deep_view() == seq![
                    "-avz"@,
                    "--delete"@,
                    "./deploy/"@,
                    "yral-auth-manager@"@ + self@.hosts[h as int] + ":/home/yral-auth-manager/"@,
                ] && c.envs.deep_view().len() == 0),
                Step::PullImage(h) => (action matches Action::Run(c) && c.program@ == "ssh"@
                && c.args.deep_view() == seq![
                    "-o"@,
                    "ConnectTimeout=10"@,
                    "yral-auth-manager@"@ + self@.hosts[h as int],
                    "cd /home/yral-auth-manager && echo '"@
                        + self@.token
                        + "' | docker login ghcr.io -u "@
                        + self@.username
                        + " --password-stdin && APP_IMAGE=ghcr.io/dolr-ai/yral-auth IMAGE_TAG="@
                        + self@.tag
                        + " docker compose pull"@,
                ] && c.envs.deep_view().len() == 0),
                Step::StopServices(h) => (action matches Action::Run(c) && c.program@ == "ssh"@
                && c.args.deep_view() == seq![
                    "-o"@,
                    "ConnectTimeout=10"@,
                    "yral-auth-manager@"@ + self@.hosts[h as int],
                    "cd /home/yral-auth-manager && docker compose down --remove-orphans || true"@,
                ] && c.envs.deep_view().len() == 0),
                Step::ReadSecrets => (action matches Action::ReadSecrets(keys) && keys.deep_view()
                    == secrets::secret_names()),
                Step::StartServices(h) => (action matches Action::Run(c) && c.program@ == "ssh"@
                && c.args.deep_view() == seq![
                    "-o"@,
                    "ConnectTimeout=10"@,
                    "yral-auth-manager@"@ + self@.hosts[h as int],
                    "cd /home/yral-auth-manager && APP_IMAGE=ghcr.io/dolr-ai/yral-auth IMAGE_TAG="@
                        + self@.tag
                        + commands::assignments(self@.secrets)
                        + " docker compose up -d"@,
                ] && c.envs.deep_view().len() == 0),
                Step::Wait => (action matches Action::Sleep(seconds) && seconds == 10),
                Step::ShowStatus(h) => (action matches Action::Capture(c) && c.program@ == "ssh"@
                && c.args.deep_view() == seq![
                    "-o"@,
                    "ConnectTimeout=10"@,
                    "yral-auth-manager@"@ + self@.hosts[h as int],
                    "cd /home/yral-auth-manager && docker compose ps && echo '---' && docker compose logs --tail=20 yral-auth 2>/dev/null || true"@,
                ] && c.envs.deep_view().len() == 0),
                Step::CheckHealth(h) => (action matches Action::Capture(c) && c.program@ == "ssh"@
                && c.args.deep_view() == seq![
                    "-o"@,
                    "ConnectTimeout=10"@,
                    "yral-auth-manager@"@ + self@.hosts[h as int],
                    "curl -sf http://localhost/healthz || echo 'Health check failed'"@,
                ] && c.envs.deep_view().len() == 0),
            },
    {
        proof {
            use_type_invariant(self);
        }
        if self.failure.is_some() {
            return Action::Abort;
        }
        if self.position >= self.steps.len() {
            return Action::Finish;
        }
        proof {
            plan::steps_stay_on_the_list(self.task, self.hosts.len() as nat, self.position as int);
        }
        let tag = self.tag.as_str();
        match self.steps[self.position] {
            Step::BuildLeptos => Action::Run(build_leptos_command()),
            Step::CheckBinary => Action::Measure(BINARY_PATH.to_string()),
            Step::BuildImage => Action::Run(build_docker_image_command(tag)),
            Step::ReadUsername => Action::ReadEnv(USERNAME_KEY.to_string()),
            Step::ReadToken => Action::ReadEnv(TOKEN_KEY.to_string()),
            Step::Login => Action::RunWithInput(
                registry_login_command(self.username.as_str()),
                self.token.clone(),
            ),
            Step::PushImage => Action::Run(push_docker_image_command(tag)),
            Step::SyncFiles(h) => Action::Run(sync_files_command(self.hosts[h].as_str())),
            Step::PullImage(h) => {
                let script = pull_image_script(tag, self.token.as_str(), self.username.as_str());
                Action::Run(on_host_command(self.hosts[h].as_str(), script.as_str()))
            },
            Step::StopServices(h) => {
                let script = stop_services_script();
                Action::Run(on_host_command(self.hosts[h].as_str(), script.as_str()))
            },
            Step::ReadSecrets => Action::ReadSecrets(secret_keys()),
            Step::StartServices(h) => {
                let script = start_services_script(tag, &self.secrets.envs);
                Action::Run(on_host_command(self.hosts[h].as_str(), script.as_str()))
            },
            Step::Wait => Action::Sleep(START_SECONDS),
            Step::ShowStatus(h) => {
                let script = show_status_script();
                Action::Capture(on_host_command(self.hosts[h].as_str(), script.as_str()))
            },
            Step::CheckHealth(h) => {
                let script = check_health_script();
                Action::Capture(on_host_command(self.hosts[h].as_str(), script.as_str()))
            },
        }
    }

    /// Gives the step that is due, where there is something left to do.
    pub fn due(&self) -> (step: Option<Step>)
        ensures
            step == if self@.active() {
                Some(self@.due())
            } else {
                None
            },
    {
        proof {
            use_type_invariant(self);
        }
        if self.failure.is_none() && self.position < self.steps.len() {
            Some(self.steps[self.position])
        } else {
            None
        }
    }

    /// Gives the image's tag.
    pub fn tag(&self) -> (tag: &str)
        ensures
            tag@ == self@.tag,
    {
        self.tag.as_str()
    }

    /// Gives the hosts to deploy to.
    pub fn hosts(&self) -> (hosts: &Vec<String>)
        ensures
            hosts.deep_view() == self@.hosts,
    {
        &self.hosts
    }

    /// Gives the secrets that were left out when they were read last.
    pub fn skipped(&self) -> (skipped: &Vec<SkippedSecret>)
        ensures
            skipped.deep_view() == self@.skipped,
    {
        &self.secrets.skipped
    }

    /// Gives the reason why the run failed, if it did.
    pub fn failure(&self) -> (failure: Option<&Failure>)
        ensures
            failure.deep_view() == self@.failure,
            failure is None <==> self@.failure is None,
            failure matches Some(Failure::MissingEnv(key)) ==> self@.failure == Some(
                FailureView::MissingEnv(key@),
            ),
            failure matches Some(Failure::EmptyBinary) ==> self@.failure == Some(
                FailureView::EmptyBinary,
            ),
            failure matches Some(Failure::ProgramFailed(reason)) ==> self@.failure == Some(
                FailureView::ProgramFailed(reason@),
            ),
    {
        match &self.failure {
            Some(failure) => Some(failure),
            None => None,
        }
    }
}

impl RunView {
    /// The run after several replies, each to the action that is due then.
    pub open spec fn after_all(self, replies: Seq<ReplyView>) -> RunView
        decreases replies.len(),
    {
        if replies.len() == 0 {
            self
        } else {
            self.after_all(replies.drop_last()).after(replies.last())
        }
    }

    /// Whether each of several replies answers the action that is due then.
    pub open spec fn accepts_all(self, replies: Seq<ReplyView>) -> bool
        decreases replies.len(),
    {
        replies.len() > 0 ==> {
            &&& self.accepts_all(replies.drop_last())
            &&& self.after_all(replies.drop_last()).accepts(replies.last())
        }
    }
}

/// A reply keeps a run valid, and changes neither what it is asked to do, nor the tag, nor the
/// hosts.
pub proof fn replies_keep_the_run_valid(run: RunView, reply: ReplyView)
    requires
        run.valid(),
        run.accepts(reply),
    ensures
        run.after(reply).valid(),
        run.after(reply).task == run.task,
        run.after(reply).tag == run.tag,
        run.after(reply).hosts == run.hosts,
{
    match reply {
        ReplyView::Secrets(values) => secrets::forwarded_names_are_plain(values),
        _ => {},
    }
}

/// Something goes wrong exactly where a program fails, the binary is empty or a credential is not
/// set; secrets that are not set stop nothing.
pub proof fn what_stops_a_run(run: RunView, reply: ReplyView)
    requires
        run.valid(),
        run.accepts(reply),
    ensures
        run.after(reply).failure is Some <==> (reply is Failed || reply == ReplyView::Size(0)
            || reply == ReplyView::Value(None)),
{
}

/// A run that has failed does nothing more: it asks for nothing and takes no reply.
pub proof fn failed_run_is_over(run: RunView, reply: ReplyView)
    requires
        run.failure is Some,
    ensures
        run.action() is Abort,
        !run.accepts(reply),
{
}

/// A run has finished exactly when nothing went wrong and every step is done; then it takes no
/// reply.
pub proof fn finished_run_did_everything(run: RunView, reply: ReplyView)
    requires
        run.valid(),
    ensures
        run.action() is Finish <==> run.failure is None && run.position == run.steps().len(),
        run.action() is Finish ==> !run.accepts(reply),
{
}

/// The steps are done in order, none twice and none left out: as long as nothing goes wrong, each
/// reply moves the run on by one step, and the first thing that goes wrong ends it. So no run takes
/// more replies than it has steps.
pub proof fn steps_are_done_in_order(run: RunView, replies: Seq<ReplyView>)
    requires
        run.valid(),
        run.failure is None,
        run.accepts_all(replies),
    ensures
        run.after_all(replies).valid(),
        run.after_all(replies).steps() == run.steps(),
        run.after_all(replies).failure is None ==> run.after_all(replies).position == run.position
            + replies.len(),
        run.after_all(replies).failure is Some ==> run.after_all(replies).position + 1
            == run.position + replies.len(),
        run.position + replies.len() <= run.steps().len(),
    decreases replies.len(),
{
    if replies.len() > 0 {
        let before = run.after_all(replies.drop_last());
        steps_are_done_in_order(run, replies.drop_last());
        if before.failure is Some {
            failed_run_is_over(before, replies.last());
        } else if before.position == before.steps().len() {
            finished_run_did_everything(before, replies.last());
        }
        replies_keep_the_run_valid(before, replies.last());
    }
}

/// The login to the registry names the user that was read for it, and the token that was read goes
/// to the program's input.
pub proof fn login_uses_what_was_read(
    run: RunView,
    username: Seq<char>,
    token: Seq<char>,
)
    requires
        run.valid(),
        run.active(),
        run.position + 2 < run.steps().len(),
        run.steps()[run.position + 2] is Login,
    ensures
        ({
            let named = run.after(ReplyView::Value(Some(username)));
            let ready = named.after(ReplyView::Value(Some(token)));
            &&& run.accepts(ReplyView::Value(Some(username)))
            &&& named.accepts(ReplyView::Value(Some(token)))
            &&& ready.action() == ActionView::RunWithInput(commands::registry_login(username), token)
        }),
{
    plan::credentials_are_read_first(run.task, run.hosts.len(), run.position + 2);
}

/// A host fetches the image with the token and the user name that were read for it.
pub proof fn pull_uses_what_was_read(
    run: RunView,
    token: Seq<char>,
    username: Seq<char>,
)
    requires
        run.valid(),
        run.active(),
        run.position + 2 < run.steps().len(),
        run.steps()[run.position + 2] is PullImage,
    ensures
        ({
            let host = run.steps()[run.position + 2]->PullImage_0;
            let armed = run.after(ReplyView::Value(Some(token)));
            let ready = armed.after(ReplyView::Value(Some(username)));
            &&& run.accepts(ReplyView::Value(Some(token)))
            &&& armed.accepts(ReplyView::Value(Some(username)))
            &&& ready.action() == ActionView::Run(
                commands::on_host(
                    run.hosts[host as int],
                    commands::pull_image(run.tag, token, username),
                ),
            )
        }),
{
    plan::credentials_are_read_first(run.task, run.hosts.len(), run.position + 2);
}

/// The services on a host start with every secret that is set and not empty, exactly as it stands
/// in the environment: this is what the host's shell makes of the command that it is sent.
pub proof fn secrets_reach_the_services(
    run: RunView,
    values: Seq<Option<Seq<char>>>,
    command_line: Seq<char>,
)
    requires
        run.valid(),
        run.active(),
        quoting::plain(run.tag),
        run.position + 1 < run.steps().len(),
        run.steps()[run.position + 1] is StartServices,
        values.len() == secrets::secret_names().len(),
        commands::start_services(run.tag, secrets::forwarded(secrets::secret_names(), values))
            == commands::in_home() + command_line,
    ensures
        ({
            let host = run.steps()[run.position + 1]->StartServices_0;
            &&& run.accepts(ReplyView::Secrets(values))
            &&& run.after(ReplyView::Secrets(values)).action() == ActionView::Run(
                commands::on_host(run.hosts[host as int], commands::in_home() + command_line),
            )
        }),
        quoting::words(command_line) == Some(
            seq!["APP_IMAGE="@ + commands::image(), "IMAGE_TAG="@ + run.tag] + secrets::forwarded(
                secrets::secret_names(),
                values,
            ).map_values(|secret: (Seq<char>, Seq<char>)| commands::assigned(secret)) + seq![
                "docker"@,
                "compose"@,
                "up"@,
                "-d"@,
            ],
        ),
{
    plan::credentials_are_read_first(run.task, run.hosts.len(), run.position + 1);
    secrets::forwarded_names_are_plain(values);
    commands::services_start_with_the_secrets(
        run.tag,
        secrets::forwarded(secrets::secret_names(), values),
        command_line,
    );
}

/// What each step does, in terms of the run's tag, hosts, credentials and secrets: every command of
/// a run is about the run's own tag, and every step for a host goes to that host of the list.
pub proof fn each_step_does_its_work(run: RunView)
    requires
        run.valid(),
        run.active(),
    ensures
        match run.due() {
            Step::BuildLeptos => run.action() == ActionView::Run(
                commands::CommandView {
                    program: "cargo"@,
                    args: seq![
                        "leptos"@,
                        "build"@,
                        "--release"@,
                        "--lib-features"@,
                        "release-lib"@,
                        "--bin-features"@,
                        "release-bin"@,
                    ],
                    envs: seq![
                        ("LEPTOS_BIN_TARGET_TRIPLE"@, "x86_64-unknown-linux-musl"@),
                        ("LEPTOS_HASH_FILES"@, "true"@),
                        ("LEPTOS_TAILWIND_VERSION"@, "v4.0.15"@),
                    ],
                },
            ),
            Step::CheckBinary => run.action() == ActionView::Measure(
                "target/x86_64-unknown-linux-musl/release/yral-auth"@,
            ),
            Step::BuildImage => run.action() == ActionView::Run(
                commands::CommandView {
                    program: "docker"@,
                    args: seq![
                        "build"@,
                        "-f"@,
                        "deploy/Dockerfile"@,
                        "-t"@,
                        "ghcr.io/dolr-ai/yral-auth:"@ + run.tag,
                        "."@,
                    ],
                    envs: Seq::empty(),
                },
            ),
            Step::ReadUsername => run.action() == ActionView::ReadEnv("GHCR_USERNAME"@),
            Step::ReadToken => run.action() == ActionView::ReadEnv("GHCR_TOKEN"@),
            Step::Login => run.action() == ActionView::RunWithInput(
                commands::CommandView {
                    program: "docker"@,
                    args: seq!["login"@, "ghcr.io"@, "-u"@, run.username, "--password-stdin"@],
                    envs: Seq::empty(),
                },
                run.token,
            ),
            Step::PushImage => run.action() == ActionView::Run(
                commands::CommandView {
                    program: "docker"@,
                    args: seq!["push"@, "ghcr.io/dolr-ai/yral-auth:"@ + run.tag],
                    envs: Seq::empty(),
                },
            ),
            Step::SyncFiles(h) => run.action() == ActionView::Run(
                commands::CommandView {
                    program: "rsync"@,
                    args: seq![
                        "-avz"@,
                        "--delete"@,
                        "./deploy/"@,
                        "yral-auth-manager@"@ + run.hosts[h as int] + ":/home/yral-auth-manager/"@,
                    ],
                    envs: Seq::empty(),
                },
            ),
            Step::PullImage(h) => run.action() == ActionView::Run(
                commands::CommandView {
                    program: "ssh"@,
                    args: seq![
                        "-o"@,
                        "ConnectTimeout=10"@,
                        "yral-auth-manager@"@ + run.hosts[h as int],
                        "cd /home/yral-auth-manager && echo '"@
                            + run.token
                            + "' | docker login ghcr.io -u "@
                            + run.username
                            + " --password-stdin && APP_IMAGE=ghcr.io/dolr-ai/yral-auth IMAGE_TAG="@
                            + run.tag
                            + " docker compose pull"@,
                    ],
                    envs: Seq::empty(),
                },
            ),
            Step::StopServices(h) => run.action() == ActionView::Run(
                commands::CommandView {
                    program: "ssh"@,
                    args: seq![
                        "-o"@,
                        "ConnectTimeout=10"@,
                        "yral-auth-manager@"@ + run.hosts[h as int],
                        "cd /home/yral-auth-manager && docker compose down --remove-orphans || true"@,
                    ],
                    envs: Seq::empty(),
                },
            ),
            Step::ReadSecrets => run.action() == ActionView::ReadSecrets(secrets::secret_names()),
            Step::StartServices(h) => run.action() == ActionView::Run(
                commands::CommandView {
                    program: "ssh"@,
                    args: seq![
                        "-o"@,
                        "ConnectTimeout=10"@,
                        "yral-auth-manager@"@ + run.hosts[h as int],
                        "cd /home/yral-auth-manager && APP_IMAGE=ghcr.io/dolr-ai/yral-auth IMAGE_TAG="@
                            + run.tag
                            + commands::assignments(run.secrets)
                            + " docker compose up -d"@,
                    ],
                    envs: Seq::empty(),
                },
            ),
            Step::Wait => run.action() == ActionView::Sleep(10),
            Step::ShowStatus(h) => run.action() == ActionView::Capture(
                commands::CommandView {
                    program: "ssh"@,
                    args: seq![
                        "-o"@,
                        "ConnectTimeout=10"@,
                        "yral-auth-manager@"@ + run.hosts[h as int],
                        "cd /home/yral-auth-manager && docker compose ps && echo '---' && docker compose logs --tail=20 yral-auth 2>/dev/null || true"@,
                    ],
                    envs: Seq::empty(),
                },
            ),
            Step::CheckHealth(h) => run.action() == ActionView::Capture(
                commands::CommandView {
                    program: "ssh"@,
                    args: seq![
                        "-o"@,
                        "ConnectTimeout=10"@,
                        "yral-auth-manager@"@ + run.hosts[h as int],
                        "curl -sf http://localhost/healthz || echo 'Health check failed'"@,
                    ],
                    envs: Seq::empty(),
                },
            ),
        },
{
    commands::the_tagged_image_is_built_and_uploaded(run.tag, run.username);
    commands::scripts_hold_what_they_are_given(run.tag, run.token, run.username, run.secrets);
    commands::fixed_scripts_are_these();
    match run.due() {
        Step::SyncFiles(h) => {
            commands::the_given_host_is_reached(run.hosts[h as int], Seq::empty());
        },
        Step::PullImage(h) => {
            let script = commands::pull_image(run.tag, run.token, run.username);
            commands::the_given_host_is_reached(run.hosts[h as int], script);
        },
        Step::StopServices(h) => {
            let script = commands::stop_services();
            commands::the_given_host_is_reached(run.hosts[h as int], script);
        },
        Step::StartServices(h) => {
            let script = commands::start_services(run.tag, run.secrets);
            commands::the_given_host_is_reached(run.hosts[h as int], script);
        },
        Step::ShowStatus(h) => {
            let script = commands::show_status();
            commands::the_given_host_is_reached(run.hosts[h as int], script);
        },
        Step::CheckHealth(h) => {
            let script = commands::check_health();
            commands::the_given_host_is_reached(run.hosts[h as int], script);
        },
        _ => {},
    }
}

/// The image that a run uploads is the one that it has built: between the two steps, whatever the
/// replies were, neither the image's name nor its tag changes.
pub proof fn what_was_built_is_uploaded(run: RunView, replies: Seq<ReplyView>)
    requires
        run.valid(),
        run.active(),
        run.due() is BuildImage,
        run.accepts_all(replies),
        run.after_all(replies).active(),
        run.after_all(replies).due() is PushImage,
    ensures
        run.action() matches ActionView::Run(build) && (run.after_all(
            replies,
        ).action() matches ActionView::Run(push) && build.args[4] == push.args[1] && push.args[1]
            == "ghcr.io/dolr-ai/yral-auth:"@ + run.tag),
{
    lemma_tag_stays(run, replies);
    steps_are_done_in_order(run, replies);
    each_step_does_its_work(run);
    each_step_does_its_work(run.after_all(replies));
}

proof fn lemma_tag_stays(run: RunView, replies: Seq<ReplyView>)
    ensures
        run.after_all(replies).tag == run.tag,
        run.after_all(replies).hosts == run.hosts,
        run.after_all(replies).task == run.task,
    decreases replies.len(),
{
    if replies.len() > 0 {
        lemma_tag_stays(run, replies.drop_last());
    }
}

/// The step that is due is the next of the plan for the run's task and hosts, and there is one as
/// long as nothing went wrong and the plan has more.
pub proof fn the_plan_is_followed(run: RunView)
    ensures
        run.active() <==> run.failure is None && run.position < plan::plan(
            run.task,
            run.hosts.len(),
        ).len(),
        run.due() == plan::plan(run.task, run.hosts.len())[run.position],
        run.failure is Some ==> run.action() is Abort,
        run.failure is None && !run.active() ==> run.action() is Finish,
{
}

/// Which replies each step takes: a program succeeds or fails, a file has a size, a variable may or
/// may not be set, and each secret may or may not be set. A run that is over takes none.
pub proof fn each_step_takes_its_replies(run: RunView, reply: ReplyView)
    ensures
        !run.active() ==> !run.accepts(reply),
        run.active() ==> match run.due() {
            Step::CheckBinary => run.accepts(reply) <==> reply is Size,
            Step::ReadUsername => run.accepts(reply) <==> reply is Value,
            Step::ReadToken => run.accepts(reply) <==> reply is Value,
            Step::ReadSecrets => run.accepts(reply) <==> (reply matches ReplyView::Secrets(values)
                && values.len() == 11),
            Step::Wait => run.accepts(reply) <==> reply is Done,
            _ => run.accepts(reply) <==> (reply is Done || reply is Failed),
        },
{
}

/// What each reply does to a run: it moves on by one step and remembers what was read, or it stops
/// for the reason that the reply gives. Everything else stays.
pub proof fn each_reply_has_its_effect(run: RunView, reply: ReplyView)
    requires
        run.accepts(reply),
    ensures
        match reply {
            ReplyView::Done => run.after(reply) == (RunView { position: run.position + 1, ..run }),
            ReplyView::Failed(reason) => run.after(reply) == (RunView {
                failure: Some(FailureView::ProgramFailed(reason)),
                ..run
            }),
            ReplyView::Size(size) => {
                &&& size > 0 ==> run.after(reply) == (RunView { position: run.position + 1, ..run })
                &&& size == 0 ==> run.after(reply) == (RunView {
                    failure: Some(FailureView::EmptyBinary),
                    ..run
                })
            },
            ReplyView::Value(Some(value)) => {
                &&& run.due() is ReadUsername ==> run.after(reply) == (RunView {
                    username: value,
                    position: run.position + 1,
                    ..run
                })
                &&& run.due() is ReadToken ==> run.after(reply) == (RunView {
                    token: value,
                    position: run.position + 1,
                    ..run
                })
            },
            ReplyView::Value(None) => {
                &&& run.due() is ReadUsername ==> run.after(reply) == (RunView {
                    failure: Some(FailureView::MissingEnv("GHCR_USERNAME"@)),
                    ..run
                })
                &&& run.due() is ReadToken ==> run.after(reply) == (RunView {
                    failure: Some(FailureView::MissingEnv("GHCR_TOKEN"@)),
                    ..run
                })
            },
            ReplyView::Secrets(values) => run.after(reply) == (RunView {
                secrets: secrets::forwarded(secrets::secret_names(), values),
                skipped: secrets::left_out(secrets::secret_names(), values),
                position: run.position + 1,
                ..run
            }),
        },
{
}

/// A run starts with the tag that was given, or with `latest`, and with nothing done, read or gone
/// wrong.
pub proof fn a_run_starts_afresh(task: Task, tag: Option<Seq<char>>, hosts: Seq<Seq<char>>)
    ensures
        fresh(task, tag, hosts).task == task,
        fresh(task, tag, hosts).hosts == hosts,
        tag matches Some(t) ==> fresh(task, tag, hosts).tag == t,
        tag is None ==> fresh(task, tag, hosts).tag == "latest"@,
        fresh(task, tag, hosts).position == 0,
        fresh(task, tag, hosts).failure is None,
        fresh(task, tag, hosts).username.len() == 0,
        fresh(task, tag, hosts).token.len() == 0,
        fresh(task, tag, hosts).secrets.len() == 0,
        fresh(task, tag, hosts).skipped.len() == 0,
{
}

/// From the environment to the services: once the secrets are read, the host that is due is sent a
/// script in which its shell finds the change into the services' directory and one call of Docker
/// Compose, with the run's tag and every secret that is set and not empty, in order and as it is.
pub proof fn services_get_what_was_read(run: RunView, values: Seq<Option<Seq<char>>>)
    requires
        run.valid(),
        run.active(),
        quoting::plain(run.tag),
        run.position + 1 < run.steps().len(),
        run.steps()[run.position + 1] is StartServices,
        values.len() == secrets::secret_names().len(),
    ensures
        run.accepts(ReplyView::Secrets(values)),
        run.after(ReplyView::Secrets(values)).action() matches ActionView::Run(command)
            && command.program == "ssh"@ && command.args.len() == 4 && command.args[2]
            == "yral-auth-manager@"@ + run.hosts[run.steps()[run.position
            + 1]->StartServices_0 as int] && quoting::tokens(command.args[3]) == Some(
            seq![
                quoting::Token::Word("cd"@),
                quoting::Token::Word("/home/yral-auth-manager"@),
                quoting::Token::Operator("&&"@),
                quoting::Token::Word("APP_IMAGE=ghcr.io/dolr-ai/yral-auth"@),
                quoting::Token::Word("IMAGE_TAG="@ + run.tag),
            ] + secrets::forwarded(secrets::secret_names(), values).map_values(
                |secret: (Seq<char>, Seq<char>)|
                    quoting::Token::Word(secret.0 + "="@ + secret.1),
            ) + seq![
                quoting::Token::Word("docker"@),
                quoting::Token::Word("compose"@),
                quoting::Token::Word("up"@),
                quoting::Token::Word("-d"@),
            ],
        ),
{
    let passed = secrets::forwarded(secrets::secret_names(), values);
    let host = run.steps()[run.position + 1]->StartServices_0;
    plan::credentials_are_read_first(run.task, run.hosts.len(), run.position + 1);
    secrets::forwarded_names_are_plain(values);
    let command_line = commands::services_start_in_their_directory(run.tag, passed);
    commands::the_given_host_is_reached(
        run.hosts[host as int],
        commands::start_services(run.tag, passed),
    );
}

} // verus!
