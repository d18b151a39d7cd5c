//! The environment commands of the command line.
//!
//! What each command does is in [`crate::handling`].

use vstd::prelude::*;
use crate::error::ErrorKind;

verus! {

/// The name by which an environment is addressed.
pub type EnvironmentRef = String;

/// A package specifier as the command line hands it over.
pub type FloxPackage = String;

/// Options that every environment command takes.
#[derive(Clone, Debug, PartialEq, Eq)]
pub struct EnvironmentArgs {
    pub system: Option<String>,
}

/// Where `import` reads the manifest from.
#[derive(Clone, Debug, PartialEq, Eq)]
pub enum ImportFile {
    Stdin,
    Path(String),
}

impl ImportFile {
    /// Reads the source argument of `import`: a lone `-` stands for standard
    /// input, anything else is the path of a file.
    pub fn parse(argument: String) -> (file: ImportFile)
        ensures
            match file {
                ImportFile::Stdin => argument@ == seq!['-'],
                ImportFile::Path(path) => argument@ != seq!['-'] && path@ == argument@,
            },
    {
        let text = argument.as_str();
        if text.unicode_len() == 1 && text.get_char(0) == '-' {
            assert(argument@ =~= seq!['-']);
            ImportFile::Stdin
        } else {
            ImportFile::Path(argument)
        }
    }
}

/// The word `--`, behind which the command line of `activate` holds a
/// command to run.
pub open spec fn separator() -> Seq<char> {
    seq!['-', '-']
}

/// What the words that the command line of `activate` leaves for the command
/// to run say.
///
/// No words, or the separator alone, name no command. Behind the separator
/// the first word is the command and all that follow are its arguments,
/// whatever they begin with. Words that do not begin with the separator are
/// refused.
pub open spec fn run_args_of(words: Seq<Seq<char>>) -> Result<
    Option<(Seq<char>, Seq<Seq<char>>)>,
    ErrorKind,
> {
    if words.len() == 0 {
        Ok(None)
    } else if words[0] != separator() {
        Err(ErrorKind::ValidationError)
    } else if words.len() == 1 {
        Ok(None)
    } else {
        Ok(Some((words[1], words.skip(2))))
    }
}

/// Whether the word is the separator `--`.
pub fn is_separator(word: &str) -> (found: bool)
    ensures
        found == (word@ == separator()),
{
    let found = word.unicode_len() == 2 && word.get_char(0) == '-' && word.get_char(1) == '-';
    proof {
        if found {
            assert(word@ =~= separator());
        }
    }
    found
}

/// Reads the words that the command line of `activate` leaves for the
/// command to run: the separator `--`, the command, and its arguments.
pub fn activate_run_args(words: Vec<String>) -> (run: Result<
    Option<(String, Vec<String>)>,
    ErrorKind,
>)
    ensures
        match run_args_of(words.deep_view()) {
            Ok(Some(expected)) => run matches Ok(Some((command, arguments))) && command@
                == expected.0 && arguments.deep_view() == expected.1,
            Ok(None) => run matches Ok(None),
            Err(kind) => run matches Err(refused) && refused == kind,
        },
{
    if words.len() == 0 {
        return Ok(None);
    }
    assert(words.deep_view()[0] == words@[0]@);
    if !is_separator(words[0].as_str()) {
        return Err(ErrorKind::ValidationError);
    }
    if words.len() == 1 {
        return Ok(None);
    }
    let mut arguments = words;
    let _ = arguments.remove(0);
    let command = arguments.remove(0);
    proof {
        assert(command@ == words.deep_view()[1]);
        assert(arguments.deep_view() =~= words.deep_view().skip(2));
    }
    Ok(Some((command, arguments)))
}

/// What `pull` brings up to date.
#[derive(Clone, Debug, PartialEq, Eq)]
pub enum PullFloxmainOrEnv {
    /// The main branch.
    Main,
    /// One environment's history; with `no_render` no store links are made.
    Env { env: Option<EnvironmentRef>, no_render: bool },
}

/// What `push` sends.
#[derive(Clone, Debug, PartialEq, Eq)]
pub enum PushFloxmainOrEnv {
    /// The main branch.
    Main,
    /// One environment's history.
    Env { env: Option<EnvironmentRef> },
}

/// How `list` prints.
#[derive(Clone, Copy, Debug, PartialEq, Eq, Structural)]
pub enum ListOutput {
    /// With the store paths of the packages.
    OutPath,
    /// As JSON.
    Json,
}

/// The environment commands.
#[derive(Clone, Debug, PartialEq, Eq)]
#[allow(inconsistent_fields)]
pub enum EnvironmentCommands {
    Activate {
        environment_args: EnvironmentArgs,
        environment: Vec<EnvironmentRef>,
        arguments: Option<(String, Vec<String>)>,
    },
    Create { environment_args: EnvironmentArgs, environment: Option<EnvironmentRef> },
    Destroy {
        force: bool,
        origin: bool,
        environment_args: EnvironmentArgs,
        environment: Option<EnvironmentRef>,
    },
    Edit { environment_args: EnvironmentArgs, environment: Option<EnvironmentRef> },
    Export { environment_args: EnvironmentArgs, environment: Option<EnvironmentRef> },
    Generations { environment_args: EnvironmentArgs, environment: Option<EnvironmentRef> },
    Git {
        environment_args: EnvironmentArgs,
        environment: Option<EnvironmentRef>,
        git_arguments: Vec<String>,
    },
    History {
        oneline: bool,
        environment_args: EnvironmentArgs,
        environment: Option<EnvironmentRef>,
    },
    Import {
        environment_args: EnvironmentArgs,
        environment: Option<EnvironmentRef>,
        file: ImportFile,
    },
    Install {
        environment_args: EnvironmentArgs,
        environment: Option<EnvironmentRef>,
        packages: Vec<FloxPackage>,
    },
    List {
        environment_args: EnvironmentArgs,
        environment: Option<EnvironmentRef>,
        json: Option<ListOutput>,
        generation: Option<u32>,
    },
    Push { environment_args: EnvironmentArgs, target: Option<PushFloxmainOrEnv>, force: bool },
    Pull { environment_args: EnvironmentArgs, target: Option<PullFloxmainOrEnv>, force: bool },
    Remove {
        environment_args: EnvironmentArgs,
        environment: Option<EnvironmentRef>,
        packages: Vec<FloxPackage>,
    },
    Rollback {
        environment_args: EnvironmentArgs,
        environment: Option<EnvironmentRef>,
        to: Option<u32>,
    },
    SwitchGeneration {
        environment_args: EnvironmentArgs,
        environment: Option<EnvironmentRef>,
        generation: u32,
    },
    Upgrade {
        environment_args: EnvironmentArgs,
        environment: Option<EnvironmentRef>,
        packages: Vec<FloxPackage>,
    },
    WipeHistory { environment_args: EnvironmentArgs, environment: Option<EnvironmentRef> },
}

/// Which command a value of [`EnvironmentCommands`] is.
#[derive(Clone, Copy, Debug, PartialEq, Eq, Structural)]
pub enum CommandKind {
    Activate,
    Create,
    Destroy,
    Edit,
    Export,
    Generations,
    Git,
    History,
    Import,
    Install,
    List,
    Push,
    Pull,
    Remove,
    Rollback,
    SwitchGeneration,
    Upgrade,
    WipeHistory,
}

impl CommandKind {
    /// The word by which the command line calls the command.
    pub open spec fn spec_name(self) -> Seq<char> {
        match self {
            CommandKind::Activate => "activate"@,
            CommandKind::Create => "create"@,
            CommandKind::Destroy => "destroy"@,
            CommandKind::Edit => "edit"@,
            CommandKind::Export => "export"@,
            CommandKind::Generations => "generations"@,
            CommandKind::Git => "git"@,
            CommandKind::History => "history"@,
            CommandKind::Import => "import"@,
            CommandKind::Install => "install"@,
            CommandKind::List => "list"@,
            CommandKind::Push => "push"@,
            CommandKind::Pull => "pull"@,
            CommandKind::Remove => "remove"@,
            CommandKind::Rollback => "rollback"@,
            CommandKind::SwitchGeneration => "switch-generation"@,
            CommandKind::Upgrade => "upgrade"@,
            CommandKind::WipeHistory => "wipe-history"@,
        }
    }

    /// Whether the command, from its first step to its last, may change an
    /// environment or the main branch, and so needs exclusive access.
    pub open spec fn spec_is_mutating(self) -> bool {
        match self {
            CommandKind::Activate => false,
            CommandKind::Export => false,
            CommandKind::Generations => false,
            CommandKind::Git => false,
            CommandKind::History => false,
            CommandKind::List => false,
            _ => true,
        }
    }

    #[verifier::when_used_as_spec(spec_is_mutating)]
    pub fn is_mutating(self) -> (mutating: bool)
        ensures
            mutating == self.spec_is_mutating(),
    {
        match self {
            CommandKind::Activate => false,
            CommandKind::Export => false,
            CommandKind::Generations => false,
            CommandKind::Git => false,
            CommandKind::History => false,
            CommandKind::List => false,
            _ => true,
        }
    }

    /// The word by which the command line calls the command.
    pub fn name(self) -> (name: &'static str)
        ensures
            name@ == self.spec_name(),
    {
        match self {
            CommandKind::Activate => "activate",
            CommandKind::Create => "create",
            CommandKind::Destroy => "destroy",
            CommandKind::Edit => "edit",
            CommandKind::Export => "export",
            CommandKind::Generations => "generations",
            CommandKind::Git => "git",
            CommandKind::History => "history",
            CommandKind::Import => "import",
            CommandKind::Install => "install",
            CommandKind::List => "list",
            CommandKind::Push => "push",
            CommandKind::Pull => "pull",
            CommandKind::Remove => "remove",
            CommandKind::Rollback => "rollback",
            CommandKind::SwitchGeneration => "switch-generation",
            CommandKind::Upgrade => "upgrade",
            CommandKind::WipeHistory => "wipe-history",
        }
    }
}

impl PushFloxmainOrEnv {
    pub open spec fn spec_environment(&self) -> Option<EnvironmentRef> {
        match self {
            PushFloxmainOrEnv::Main => None,
            PushFloxmainOrEnv::Env { env } => *env,
        }
    }
}

impl PullFloxmainOrEnv {
    pub open spec fn spec_environment(&self) -> Option<EnvironmentRef> {
        match self {
            PullFloxmainOrEnv::Main => None,
            PullFloxmainOrEnv::Env { env, .. } => *env,
        }
    }
}

impl EnvironmentCommands {
    pub open spec fn spec_kind(&self) -> CommandKind {
        match self {
            EnvironmentCommands::Activate { .. } => CommandKind::Activate,
            EnvironmentCommands::Create { .. } => CommandKind::Create,
            EnvironmentCommands::Destroy { .. } => CommandKind::Destroy,
            EnvironmentCommands::Edit { .. } => CommandKind::Edit,
            EnvironmentCommands::Export { .. } => CommandKind::Export,
            EnvironmentCommands::Generations { .. } => CommandKind::Generations,
            EnvironmentCommands::Git { .. } => CommandKind::Git,
            EnvironmentCommands::History { .. } => CommandKind::History,
            EnvironmentCommands::Import { .. } => CommandKind::Import,
            EnvironmentCommands::Install { .. } => CommandKind::Install,
            EnvironmentCommands::List { .. } => CommandKind::List,
            EnvironmentCommands::Push { .. } => CommandKind::Push,
            EnvironmentCommands::Pull { .. } => CommandKind::Pull,
            EnvironmentCommands::Remove { .. } => CommandKind::Remove,
            EnvironmentCommands::Rollback { .. } => CommandKind::Rollback,
            EnvironmentCommands::SwitchGeneration { .. } => CommandKind::SwitchGeneration,
            EnvironmentCommands::Upgrade { .. } => CommandKind::Upgrade,
            EnvironmentCommands::WipeHistory { .. } => CommandKind::WipeHistory,
        }
    }

    /// Which command this is.
    #[verifier::when_used_as_spec(spec_kind)]
    pub fn kind(&self) -> (kind: CommandKind)
        ensures
            kind == self.spec_kind(),
    {
        match self {
            EnvironmentCommands::Activate { .. } => CommandKind::Activate,
            EnvironmentCommands::Create { .. } => CommandKind::Create,
            EnvironmentCommands::Destroy { .. } => CommandKind::Destroy,
            EnvironmentCommands::Edit { .. } => CommandKind::Edit,
            EnvironmentCommands::Export { .. } => CommandKind::Export,
            EnvironmentCommands::Generations { .. } => CommandKind::Generations,
            EnvironmentCommands::Git { .. } => CommandKind::Git,
            EnvironmentCommands::History { .. } => CommandKind::History,
            EnvironmentCommands::Import { .. } => CommandKind::Import,
            EnvironmentCommands::Install { .. } => CommandKind::Install,
            EnvironmentCommands::List { .. } => CommandKind::List,
            EnvironmentCommands::Push { .. } => CommandKind::Push,
            EnvironmentCommands::Pull { .. } => CommandKind::Pull,
            EnvironmentCommands::Remove { .. } => CommandKind::Remove,
            EnvironmentCommands::Rollback { .. } => CommandKind::Rollback,
            EnvironmentCommands::SwitchGeneration { .. } => CommandKind::SwitchGeneration,
            EnvironmentCommands::Upgrade { .. } => CommandKind::Upgrade,
            EnvironmentCommands::WipeHistory { .. } => CommandKind::WipeHistory,
        }
    }

    /// The one environment the command is scoped to, where it names one.
    /// `activate` may name several and is scoped to none of them here.
    pub open spec fn spec_environment(&self) -> Option<EnvironmentRef> {
        match self {
            EnvironmentCommands::Activate { .. } => None,
            EnvironmentCommands::Create { environment, .. } => *environment,
            EnvironmentCommands::Destroy { environment, .. } => *environment,
            EnvironmentCommands::Edit { environment, .. } => *environment,
            EnvironmentCommands::Export { environment, .. } => *environment,
            EnvironmentCommands::Generations { environment, .. } => *environment,
            EnvironmentCommands::Git { environment, .. } => *environment,
            EnvironmentCommands::History { environment, .. } => *environment,
            EnvironmentCommands::Import { environment, .. } => *environment,
            EnvironmentCommands::Install { environment, .. } => *environment,
            EnvironmentCommands::List { environment, .. } => *environment,
            EnvironmentCommands::Push { target, .. } => match target {
                Some(target) => target.spec_environment(),
                None => None,
            },
            EnvironmentCommands::Pull { target, .. } => match target {
                Some(target) => target.spec_environment(),
                None => None,
            },
            EnvironmentCommands::Remove { environment, .. } => *environment,
            EnvironmentCommands::Rollback { environment, .. } => *environment,
            EnvironmentCommands::SwitchGeneration { environment, .. } => *environment,
            EnvironmentCommands::Upgrade { environment, .. } => *environment,
            EnvironmentCommands::WipeHistory { environment, .. } => *environment,
        }
    }

    /// The environment the command is scoped to.
    pub fn environment(&self) -> (environment: Option<&EnvironmentRef>)
        ensures
            match environment {
                Some(name) => self.spec_environment() == Some(*name),
                None => self.spec_environment() is None,
            },
    {
        match self {
            EnvironmentCommands::Activate { .. } => None,
            EnvironmentCommands::Create { environment, .. } => environment.as_ref(),
            EnvironmentCommands::Destroy { environment, .. } => environment.as_ref(),
            EnvironmentCommands::Edit { environment, .. } => environment.as_ref(),
            EnvironmentCommands::Export { environment, .. } => environment.as_ref(),
            EnvironmentCommands::Generations { environment, .. } => environment.as_ref(),
            EnvironmentCommands::Git { environment, .. } => environment.as_ref(),
            EnvironmentCommands::History { environment, .. } => environment.as_ref(),
            EnvironmentCommands::Import { environment, .. } => environment.as_ref(),
            EnvironmentCommands::Install { environment, .. } => environment.as_ref(),
            EnvironmentCommands::List { environment, .. } => environment.as_ref(),
            EnvironmentCommands::Push { target, .. } => match target {
                Some(PushFloxmainOrEnv::Env { env }) => env.as_ref(),
                _ => None,
            },
            EnvironmentCommands::Pull { target, .. } => match target {
                Some(PullFloxmainOrEnv::Env { env, .. }) => env.as_ref(),
                _ => None,
            },
            EnvironmentCommands::Remove { environment, .. } => environment.as_ref(),
            EnvironmentCommands::Rollback { environment, .. } => environment.as_ref(),
            EnvironmentCommands::SwitchGeneration { environment, .. } => environment.as_ref(),
            EnvironmentCommands::Upgrade { environment, .. } => environment.as_ref(),
            EnvironmentCommands::WipeHistory { environment, .. } => environment.as_ref(),
        }
    }

    /// Whether the command works on the main branch alone.
    pub open spec fn on_main_branch(&self) -> bool {
        match self {
            EnvironmentCommands::Push { target: Some(PushFloxmainOrEnv::Main), .. } => true,
            EnvironmentCommands::Pull { target: Some(PullFloxmainOrEnv::Main), .. } => true,
            _ => false,
        }
    }

    /// Whether the command names what it is scoped to. `activate`, `git` and
    /// the commands on the main branch need no environment; every other
    /// command names one.
    pub open spec fn spec_is_scoped(&self) -> bool {
        ||| self.spec_environment() is Some
        ||| self.on_main_branch()
        ||| self.spec_kind() == CommandKind::Activate
        ||| self.spec_kind() == CommandKind::Git
    }

    #[verifier::when_used_as_spec(spec_is_scoped)]
    pub fn is_scoped(&self) -> (scoped: bool)
        ensures
            scoped == self.spec_is_scoped(),
    {
        match self {
            EnvironmentCommands::Activate { .. } => true,
            EnvironmentCommands::Git { .. } => true,
            EnvironmentCommands::Push { target: Some(PushFloxmainOrEnv::Main), .. } => true,
            EnvironmentCommands::Pull { target: Some(PullFloxmainOrEnv::Main), .. } => true,
            _ => self.environment().is_some(),
        }
    }
}

} // verus!
