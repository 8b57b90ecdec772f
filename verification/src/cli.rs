//! What the command line asks for.

use vstd::prelude::*;
use crate::text::{opt_text, texts, Text};

verus! {

/// The command line of the tool.
#[derive(Debug, PartialEq, Eq)]
pub struct Cli {
    /// Task to run.
    pub task: Option<String>,
    /// List all available tasks.
    pub list: bool,
    pub command: Option<Command>,
}

/// A subcommand.
#[derive(Debug, PartialEq, Eq)]
pub enum Command {
    /// Initialize the tool in the current directory.
    Init(InitArgs),
    /// Upgrade the binaries to the latest version.
    Upgrade,
}

/// The arguments of `init`.
#[derive(Debug, PartialEq, Eq)]
pub struct InitArgs {
    /// Platforms to support, by identifier.
    pub platforms: Option<Vec<String>>,
    /// Include all available platforms.
    pub all_platforms: bool,
    /// Only include the current platform.
    pub current_platform_only: bool,
    /// Add a platform to an existing setup.
    pub add_platform: Option<String>,
    /// Remove a platform from an existing setup.
    pub remove_platform: Option<String>,
    /// Show the configured platforms.
    pub show_platforms: bool,
    /// Skip the check for the root of a git repository.
    pub force: bool,
}

/// The mathematical value of [`InitArgs`].
pub struct InitArgsModel {
    pub platforms: Option<Seq<Text>>,
    pub all_platforms: bool,
    pub current_platform_only: bool,
    pub add_platform: Option<Text>,
    pub remove_platform: Option<Text>,
    pub show_platforms: bool,
    pub force: bool,
}

impl View for InitArgs {
    type V = InitArgsModel;

    open spec fn view(&self) -> InitArgsModel {
        InitArgsModel {
            platforms: match self.platforms {
                Some(ids) => Some(texts(ids@)),
                None => None,
            },
            all_platforms: self.all_platforms,
            current_platform_only: self.current_platform_only,
            add_platform: opt_text(self.add_platform),
            remove_platform: opt_text(self.remove_platform),
            show_platforms: self.show_platforms,
            force: self.force,
        }
    }
}

/// What one invocation of the tool is to do.
#[derive(Debug, PartialEq, Eq)]
pub enum Invocation {
    /// Set the project up, or change its platforms.
    Init { args: InitArgs },
    /// Upgrade the binaries.
    Upgrade,
    /// List the tasks.
    List,
    /// Run the task of this name.
    Run { task: String },
}

/// The mathematical value of an [`Invocation`].
pub enum InvocationModel {
    Init { args: InitArgsModel },
    Upgrade,
    List,
    Run { task: Text },
}

impl View for Invocation {
    type V = InvocationModel;

    open spec fn view(&self) -> InvocationModel {
        match self {
            Invocation::Init { args } => InvocationModel::Init { args: args@ },
            Invocation::Upgrade => InvocationModel::Upgrade,
            Invocation::List => InvocationModel::List,
            Invocation::Run { task } => InvocationModel::Run { task: task@ },
        }
    }
}

impl Cli {
    /// What this command line asks for: a subcommand goes first; without
    /// one, a request for the list goes before a task to run, and with
    /// neither the tasks are listed.
    pub open spec fn asks_for(&self) -> InvocationModel {
        match self.command {
            Some(Command::Init(args)) => InvocationModel::Init { args: args@ },
            Some(Command::Upgrade) => InvocationModel::Upgrade,
            None => if self.list {
                InvocationModel::List
            } else {
                match self.task {
                    Some(task) => InvocationModel::Run { task: task@ },
                    None => InvocationModel::List,
                }
            },
        }
    }

    /// What this command line asks for.
    pub fn invocation(self) -> (invocation: Invocation)
        ensures
            invocation@ == self.asks_for(),
    {
        match self.command {
            Some(Command::Init(args)) => Invocation::Init { args },
            Some(Command::Upgrade) => Invocation::Upgrade,
            None => if self.list {
                Invocation::List
            } else {
                match self.task {
                    Some(task) => Invocation::Run { task },
                    None => Invocation::List,
                }
            },
        }
    }
}

} // verus!
