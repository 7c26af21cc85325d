use vstd::prelude::*;
use vstd::string::StringExecFns;

verus! {

/// The environment handed to one tool invocation: the HOME and PATH values
/// inherited from the caller. Either may be absent, in which case it is
/// simply not forwarded to the child.
#[derive(Debug)]
pub struct EnvVars {
    pub home: Option<String>,
    pub path: Option<String>,
}

/// Mathematical model of [`EnvVars`].
pub struct EnvModel {
    pub home: Option<Seq<char>>,
    pub path: Option<Seq<char>>,
}

impl View for EnvVars {
    type V = EnvModel;

    open spec fn view(&self) -> EnvModel {
        EnvModel { home: self.home.deep_view(), path: self.path.deep_view() }
    }
}

/// One invocation of the package-manager tool: which subcommand to run,
/// the environment to run it under and, for an upgrade, the target package.
/// A descriptor is immutable once constructed.
#[derive(Debug)]
pub enum BrewCommand {
    Update { envs: EnvVars },
    Outdated { envs: EnvVars },
    Upgrade { package_name: String, envs: EnvVars },
    Cleanup { envs: EnvVars },
}

/// The argv a descriptor renders to, one string per slot, subcommand first.
pub open spec fn argv_spec(cmd: BrewCommand) -> Seq<Seq<char>> {
    match cmd {
        BrewCommand::Update { .. } => seq!["update"@],
        BrewCommand::Outdated { .. } => seq!["outdated"@, "--json"@],
        BrewCommand::Upgrade { package_name, .. } => seq!["upgrade"@, package_name@],
        BrewCommand::Cleanup { .. } => seq!["cleanup"@],
    }
}

/// The environment a descriptor renders to: its own, verbatim.
pub open spec fn env_spec(cmd: BrewCommand) -> EnvModel {
    match cmd {
        BrewCommand::Update { envs } => envs@,
        BrewCommand::Outdated { envs } => envs@,
        BrewCommand::Upgrade { package_name: _, envs } => envs@,
        BrewCommand::Cleanup { envs } => envs@,
    }
}

fn clone_opt_string(o: &Option<String>) -> (r: Option<String>)
    ensures
        r.deep_view() == o.deep_view(),
{
    match o {
        Some(s) => Some(s.clone()),
        None => None,
    }
}

impl BrewCommand {
    /// Renders the descriptor to the tool's command line.
    pub fn to_args(&self) -> (r: Vec<String>)
        ensures
            r.deep_view() == argv_spec(*self),
    {
        let mut v: Vec<String> = Vec::new();
        match self {
            BrewCommand::Update { .. } => {
                v.push(String::from_str("update"));
            }
            BrewCommand::Outdated { .. } => {
                v.push(String::from_str("outdated"));
                v.push(String::from_str("--json"));
            }
            BrewCommand::Upgrade { package_name, .. } => {
                v.push(String::from_str("upgrade"));
                v.push(package_name.clone());
            }
            BrewCommand::Cleanup { .. } => {
                v.push(String::from_str("cleanup"));
            }
        }
        proof {
            assert(v.deep_view() =~= argv_spec(*self));
        }
        v
    }

    /// Renders the descriptor's environment, verbatim.
    pub fn to_env(&self) -> (r: EnvVars)
        ensures
            r@ == env_spec(*self),
    {
        let envs = match self {
            BrewCommand::Update { envs } => envs,
            BrewCommand::Outdated { envs } => envs,
            BrewCommand::Upgrade { package_name: _, envs } => envs,
            BrewCommand::Cleanup { envs } => envs,
        };
        EnvVars { home: clone_opt_string(&envs.home), path: clone_opt_string(&envs.path) }
    }
}

/// How one supervised or blocking invocation can fail: the tool itself failed
/// (spawn error, non-zero exit, undecodable output), it asked for human input,
/// or it outlived its time budget.
#[derive(Debug)]
pub enum BrewError {
    ExecutionFailed(String),
    InputRequested,
    Timeout,
}

/// The fixed description each failure kind carries.
pub open spec fn message_spec(e: BrewError) -> Seq<char> {
    match e {
        BrewError::ExecutionFailed(_) => "Error executing the brew command"@,
        BrewError::InputRequested => "Error Input request cannot be fulfilled"@,
        BrewError::Timeout => "Error command takes more than the timeout requested"@,
    }
}

impl BrewError {
    /// A short description of the failure kind, for log lines.
    pub fn message(&self) -> (r: String)
        ensures
            r@ == message_spec(*self),
    {
        match self {
            BrewError::ExecutionFailed(_) => String::from_str("Error executing the brew command"),
            BrewError::InputRequested => String::from_str("Error Input request cannot be fulfilled"),
            BrewError::Timeout => String::from_str(
                "Error command takes more than the timeout requested",
            ),
        }
    }
}

/// Every rendered argv begins with one of the four tool subcommands, and no
/// slot of it is empty, provided an upgrade target is itself non-empty.
pub proof fn lemma_argv_forms(cmd: BrewCommand)
    requires
        cmd matches BrewCommand::Upgrade { package_name, .. } ==> package_name@.len() > 0,
    ensures
        argv_spec(cmd).len() >= 1,
        argv_spec(cmd)[0] == "update"@ || argv_spec(cmd)[0] == "outdated"@ || argv_spec(cmd)[0]
            == "upgrade"@ || argv_spec(cmd)[0] == "cleanup"@,
        forall|i: int| 0 <= i < argv_spec(cmd).len() ==> argv_spec(cmd)[i].len() > 0,
{
    reveal_strlit("update");
    reveal_strlit("outdated");
    reveal_strlit("--json");
    reveal_strlit("upgrade");
    reveal_strlit("cleanup");
}

/// An upgrade descriptor renders to exactly ["upgrade", name]: two slots.
pub proof fn lemma_upgrade_argv(name: String, envs: EnvVars)
    ensures
        ({
            let a = argv_spec(BrewCommand::Upgrade { package_name: name, envs });
            a.len() == 2 && a[0] == "upgrade"@ && a[1] == name@
        }),
{
}

/// argv rendering is a pure function: equal descriptors render equally.
pub proof fn lemma_argv_deterministic(a: BrewCommand, b: BrewCommand)
    requires
        a == b,
    ensures
        argv_spec(a) == argv_spec(b),
{
}

} // verus!
