//! What a deployment does, step by step.
use vstd::prelude::*;

verus! {

/// What a run is asked to do.
#[derive(Debug, Clone, Copy, PartialEq, Eq, Structural)]
pub enum Task {
    /// Build the image, upload it, and deploy it to every host.
    Deploy,
    /// Build the image, without uploading or deploying it.
    BuildOnly,
    /// Deploy an image that is already in the registry.
    DeployOnly,
}

/// A single step; where a step concerns a host, the number is the host's place in the list.
#[derive(Debug, Clone, Copy, PartialEq, Eq, Structural)]
pub enum Step {
    /// Build the server's binary and the page's WASM.
    BuildLeptos,
    /// See that the build left a binary.
    CheckBinary,
    /// Build the image.
    BuildImage,
    /// Read the registry's user name from the environment.
    ReadUsername,
    /// Read the registry's token from the environment.
    ReadToken,
    /// Log in to the registry.
    Login,
    /// Upload the image.
    PushImage,
    /// Copy the deployment's files to a host.
    SyncFiles(usize),
    /// Let a host fetch the image.
    PullImage(usize),
    /// Stop the services on a host.
    StopServices(usize),
    /// Read the secrets from the environment.
    ReadSecrets,
    /// Start the services on a host, with the image and the secrets.
    StartServices(usize),
    /// Give the services time to start.
    Wait,
    /// Show the services on a host and their last messages.
    ShowStatus(usize),
    /// Ask the server on a host how it is.
    CheckHealth(usize),
}

impl Step {
    /// Whether the step builds something on this machine.
    pub open spec fn builds(self) -> bool {
        self is BuildLeptos || self is CheckBinary || self is BuildImage
    }

    /// The host that the step works on, where it works on one.
    pub open spec fn host(self) -> Option<int> {
        match self {
            Step::SyncFiles(host) => Some(host as int),
            Step::PullImage(host) => Some(host as int),
            Step::StopServices(host) => Some(host as int),
            Step::StartServices(host) => Some(host as int),
            Step::ShowStatus(host) => Some(host as int),
            Step::CheckHealth(host) => Some(host as int),
            _ => None,
        }
    }
}

/// Building the image.
pub open spec fn build_steps() -> Seq<Step> {
    seq![Step::BuildLeptos, Step::CheckBinary, Step::BuildImage]
}

/// Uploading the image.
pub open spec fn push_steps() -> Seq<Step> {
    seq![Step::ReadUsername, Step::ReadToken, Step::Login, Step::PushImage]
}

/// Deploying the image to one host.
pub open spec fn host_steps(host: usize) -> Seq<Step> {
    seq![
        Step::SyncFiles(host),
        Step::ReadToken,
        Step::ReadUsername,
        Step::PullImage(host),
        Step::StopServices(host),
        Step::ReadSecrets,
        Step::StartServices(host),
        Step::Wait,
        Step::ShowStatus(host),
        Step::CheckHealth(host),
    ]
}

/// Deploying the image to the first `hosts` hosts, one after the other.
pub open spec fn rollout(hosts: nat) -> Seq<Step>
    decreases hosts,
{
    if hosts == 0 {
        Seq::empty()
    } else {
        rollout((hosts - 1) as nat) + host_steps((hosts - 1) as usize)
    }
}

/// The steps of a task, for a list of `hosts` hosts.
pub open spec fn plan(task: Task, hosts: nat) -> Seq<Step> {
    match task {
        Task::Deploy => build_steps() + push_steps() + rollout(hosts),
        Task::BuildOnly => build_steps(),
        Task::DeployOnly => rollout(hosts),
    }
}

fn append_build(steps: &mut Vec<Step>)
    ensures
        final(steps)@ == old(steps)@ + build_steps(),
{
    steps.push(Step::BuildLeptos);
    steps.push(Step::CheckBinary);
    steps.push(Step::BuildImage);
    assert(steps@ =~= old(steps)@ + build_steps());
}

fn append_push(steps: &mut Vec<Step>)
    ensures
        final(steps)@ == old(steps)@ + push_steps(),
{
    steps.push(Step::ReadUsername);
    steps.push(Step::ReadToken);
    steps.push(Step::Login);
    steps.push(Step::PushImage);
    assert(steps@ =~= old(steps)@ + push_steps());
}

fn append_rollout(steps: &mut Vec<Step>, hosts: usize)
    ensures
        final(steps)@ == old(steps)@ + rollout(hosts as nat),
{
    let ghost before = steps@;
    assert(before + rollout(0) =~= before);
    for host in 0..hosts
        invariant
            steps@ == before + rollout(host as nat),
    {
        steps.push(Step::SyncFiles(host));
        steps.push(Step::ReadToken);
        steps.push(Step::ReadUsername);
        steps.push(Step::PullImage(host));
        steps.push(Step::StopServices(host));
        steps.push(Step::ReadSecrets);
        steps.push(Step::StartServices(host));
        steps.push(Step::Wait);
        steps.push(Step::ShowStatus(host));
        steps.push(Step::CheckHealth(host));
        assert(steps@ =~= before + (rollout(host as nat) + host_steps(host)));
    }
}

/// Lists the steps of a task, for a list of `hosts` hosts.
pub fn steps_of(task: Task, hosts: usize) -> (steps: Vec<Step>)
    ensures
        steps@ == plan(task, hosts as nat),
{
    let mut steps: Vec<Step> = Vec::new();
    match task {
        Task::Deploy => {
            append_build(&mut steps);
            append_push(&mut steps);
            append_rollout(&mut steps, hosts);
        },
        Task::BuildOnly => {
            append_build(&mut steps);
        },
        Task::DeployOnly => {
            append_rollout(&mut steps, hosts);
        },
    }
    assert(steps@ =~= plan(task, hosts as nat));
    steps
}

/// A full deployment is a build, followed by the upload, followed by the deployment of what was
/// uploaded.
pub proof fn deploy_is_build_push_and_rollout(hosts: nat)
    ensures
        plan(Task::Deploy, hosts) == plan(Task::BuildOnly, hosts) + push_steps() + plan(
            Task::DeployOnly,
            hosts,
        ),
{
}

/// A mere build uploads nothing, touches no host and reads neither credentials nor secrets.
pub proof fn build_only_stays_local(hosts: nat, i: int)
    requires
        0 <= i < plan(Task::BuildOnly, hosts).len(),
    ensures
        plan(Task::BuildOnly, hosts)[i].builds(),
{
}

/// Deploying to a host takes the same steps for every host, and the hosts come one after the
/// other, in the order of the list.
pub proof fn hosts_are_served_in_order(hosts: nat, host: int)
    requires
        0 <= host < hosts <= usize::MAX,
    ensures
        rollout(hosts).len() == 10 * hosts,
        rollout(hosts).subrange(10 * host, 10 * host + 10) == host_steps(host as usize),
    decreases hosts,
{
    let fewer = (hosts - 1) as nat;
    lemma_rollout_len(fewer);
    if host < fewer {
        hosts_are_served_in_order(fewer, host);
        assert(rollout(hosts).subrange(10 * host, 10 * host + 10) =~= rollout(fewer).subrange(
            10 * host,
            10 * host + 10,
        ));
    } else {
        assert(rollout(hosts).subrange(10 * host, 10 * host + 10) =~= host_steps(host as usize));
    }
}

proof fn lemma_rollout_len(hosts: nat)
    ensures
        rollout(hosts).len() == 10 * hosts,
    decreases hosts,
{
    if hosts > 0 {
        lemma_rollout_len((hosts - 1) as nat);
    }
}

/// Whether every step at place `i` finds what it needs read before it.
pub open spec fn reads_come_first(steps: Seq<Step>, i: int) -> bool {
    &&& steps[i] is Login ==> i >= 2 && steps[i - 2] is ReadUsername && steps[i - 1] is ReadToken
    &&& steps[i] is PullImage ==> i >= 2 && steps[i - 2] is ReadToken
        && steps[i - 1] is ReadUsername
    &&& steps[i] is StartServices ==> i >= 1 && steps[i - 1] is ReadSecrets
}

proof fn lemma_rollout(hosts: nat, i: int)
    requires
        hosts <= usize::MAX,
        0 <= i < rollout(hosts).len(),
    ensures
        !rollout(hosts)[i].builds(),
        rollout(hosts)[i] !is Login,
        rollout(hosts)[i] !is PushImage,
        rollout(hosts)[i].host() matches Some(host) ==> 0 <= host < hosts,
        reads_come_first(rollout(hosts), i),
    decreases hosts,
{
    if hosts > 0 {
        let fewer = (hosts - 1) as nat;
        let before = rollout(fewer);
        if i < before.len() {
            lemma_rollout(fewer, i);
        } else {
            let last = host_steps(fewer as usize);
            assert(rollout(hosts)[i] == last[i - before.len()]);
            assert(i - before.len() >= 1 ==> rollout(hosts)[i - 1] == last[i - before.len() - 1]);
            assert(i - before.len() >= 2 ==> rollout(hosts)[i - 2] == last[i - before.len() - 2]);
        }
    }
}

/// Deploying an image that is already in the registry builds nothing and uploads nothing.
pub proof fn deploy_only_uses_what_is_there(hosts: nat, i: int)
    requires
        hosts <= usize::MAX,
        0 <= i < plan(Task::DeployOnly, hosts).len(),
    ensures
        !plan(Task::DeployOnly, hosts)[i].builds(),
        plan(Task::DeployOnly, hosts)[i] !is Login,
        plan(Task::DeployOnly, hosts)[i] !is PushImage,
{
    lemma_rollout(hosts, i);
}

/// No step works on a host outside the list.
pub proof fn steps_stay_on_the_list(task: Task, hosts: nat, i: int)
    requires
        hosts <= usize::MAX,
        0 <= i < plan(task, hosts).len(),
    ensures
        plan(task, hosts)[i].host() matches Some(host) ==> 0 <= host < hosts,
{
    let front = build_steps() + push_steps();
    match task {
        Task::Deploy => if i >= front.len() {
            lemma_rollout(hosts, i - front.len());
        },
        Task::BuildOnly => {},
        Task::DeployOnly => lemma_rollout(hosts, i),
    }
}

/// Credentials and secrets are read immediately before the step that uses them.
pub proof fn credentials_are_read_first(task: Task, hosts: nat, i: int)
    requires
        hosts <= usize::MAX,
        0 <= i < plan(task, hosts).len(),
    ensures
        reads_come_first(plan(task, hosts), i),
{
    let front = build_steps() + push_steps();
    let steps = plan(task, hosts);
    match task {
        Task::Deploy => if i >= front.len() {
            let j = i - front.len();
            lemma_rollout(hosts, j);
            assert(steps[i] == rollout(hosts)[j]);
            assert(j >= 1 ==> steps[i - 1] == rollout(hosts)[j - 1]);
            assert(j >= 2 ==> steps[i - 2] == rollout(hosts)[j - 2]);
        },
        Task::BuildOnly => {},
        Task::DeployOnly => lemma_rollout(hosts, i),
    }
}

/// A build takes exactly these steps.
pub proof fn a_build_takes_these_steps(hosts: nat)
    ensures
        plan(Task::BuildOnly, hosts) == seq![
            Step::BuildLeptos,
            Step::CheckBinary,
            Step::BuildImage,
        ],
{
}

/// The deployment of an uploaded image takes, for each host of the list, exactly these steps: the
/// files are copied, the image is fetched with credentials read for it, the services are stopped,
/// started with secrets read for them, given time, shown and asked how they are.
pub proof fn a_rollout_takes_these_steps(hosts: nat, host: usize)
    requires
        host < hosts <= usize::MAX,
    ensures
        plan(Task::DeployOnly, hosts).len() == 10 * hosts,
        plan(Task::DeployOnly, hosts).subrange(10 * host, 10 * host + 10) == seq![
            Step::SyncFiles(host),
            Step::ReadToken,
            Step::ReadUsername,
            Step::PullImage(host),
            Step::StopServices(host),
            Step::ReadSecrets,
            Step::StartServices(host),
            Step::Wait,
            Step::ShowStatus(host),
            Step::CheckHealth(host),
        ],
{
    hosts_are_served_in_order(hosts, host as int);
}

/// A full deployment takes exactly these steps: it builds, uploads with credentials read for it,
/// and then goes through the hosts.
pub proof fn a_deployment_takes_these_steps(hosts: nat, host: usize)
    requires
        hosts <= usize::MAX,
    ensures
        plan(Task::Deploy, hosts).len() == 7 + 10 * hosts,
        plan(Task::Deploy, hosts).take(7) == seq![
            Step::BuildLeptos,
            Step::CheckBinary,
            Step::BuildImage,
            Step::ReadUsername,
            Step::ReadToken,
            Step::Login,
            Step::PushImage,
        ],
        host < hosts ==> plan(Task::Deploy, hosts).subrange(7 + 10 * host, 17 + 10 * host) == seq![
            Step::SyncFiles(host),
            Step::ReadToken,
            Step::ReadUsername,
            Step::PullImage(host),
            Step::StopServices(host),
            Step::ReadSecrets,
            Step::StartServices(host),
            Step::Wait,
            Step::ShowStatus(host),
            Step::CheckHealth(host),
        ],
{
    lemma_rollout_len(hosts);
    let steps = plan(Task::Deploy, hosts);
    assert(steps.take(7) =~= build_steps() + push_steps());
    assert(steps.take(7) =~= seq![
        Step::BuildLeptos,
        Step::CheckBinary,
        Step::BuildImage,
        Step::ReadUsername,
        Step::ReadToken,
        Step::Login,
        Step::PushImage,
    ]);
    if host < hosts {
        hosts_are_served_in_order(hosts, host as int);
        assert(steps.subrange(7 + 10 * host, 17 + 10 * host) =~= rollout(hosts).subrange(
            10 * host,
            10 * host + 10,
        ));
    }
}

} // verus!
