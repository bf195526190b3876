//! The launch resolver: from the working directory and one look at the
//! disk to the command that starts the backend.

use crate::path::{ends_with_segment, DirPath};
use vstd::prelude::*;

verus! {

/// Name of the build-tooling directory below the project root.
pub const TOOLING_DIR: &'static str = "src-tauri";

/// Directory of the pre-built server below the project root.
pub const ARTIFACT_DIR: &'static str = "dist";

/// File name of the pre-built server.
pub const ARTIFACT_FILE: &'static str = "server.js";

/// Program that runs the pre-built server.
pub const PRODUCTION_COMMAND: &'static str = "node";

/// The pre-built server, as named on the production command line.
pub const PRODUCTION_ENTRY: &'static str = "dist/server.js";

/// Program that runs the server from source.
pub const DEVELOPMENT_COMMAND: &'static str = "npx";

/// Script runner handed to the development command.
pub const DEVELOPMENT_RUNNER: &'static str = "tsx";

/// Source entry point of the server.
pub const DEVELOPMENT_ENTRY: &'static str = "server.ts";

/// The project root seen from the working directory `cwd`: its parent where
/// `cwd` is the tooling directory, and `cwd` itself everywhere else.
pub open spec fn project_root_of(cwd: Seq<Seq<char>>) -> Seq<Seq<char>> {
    if ends_with_segment(cwd, TOOLING_DIR@) {
        cwd.drop_last()
    } else {
        cwd
    }
}

/// Where the pre-built server lies below the project root `root`.
pub open spec fn artifact_path_of(root: Seq<Seq<char>>) -> Seq<Seq<char>> {
    root.push(ARTIFACT_DIR@).push(ARTIFACT_FILE@)
}

/// What a launch plan says, as plain sequences.
pub ghost struct LaunchPlanView {
    pub command: Seq<char>,
    pub arguments: Seq<Seq<char>>,
    pub working_directory: Seq<Seq<char>>,
}

/// The plan that runs the pre-built server from `root`.
pub open spec fn production_plan(root: Seq<Seq<char>>) -> LaunchPlanView {
    LaunchPlanView {
        command: PRODUCTION_COMMAND@,
        arguments: seq![PRODUCTION_ENTRY@],
        working_directory: root,
    }
}

/// The plan that runs the server from source in `root`.
pub open spec fn development_plan(root: Seq<Seq<char>>) -> LaunchPlanView {
    LaunchPlanView {
        command: DEVELOPMENT_COMMAND@,
        arguments: seq![DEVELOPMENT_RUNNER@, DEVELOPMENT_ENTRY@],
        working_directory: root,
    }
}

/// The plan for the project root `root`: production where the pre-built
/// server exists, development where it does not.
pub open spec fn plan_for(root: Seq<Seq<char>>, artifact_exists: bool) -> LaunchPlanView {
    if artifact_exists {
        production_plan(root)
    } else {
        development_plan(root)
    }
}

/// How to start the backend: a command, its arguments in order, and the
/// directory to run it in.
#[derive(Debug, PartialEq, Eq)]
pub struct LaunchPlan {
    command: String,
    arguments: Vec<String>,
    working_directory: DirPath,
}

impl View for LaunchPlan {
    type V = LaunchPlanView;

    closed spec fn view(&self) -> LaunchPlanView {
        LaunchPlanView {
            command: self.command@,
            arguments: self.arguments.deep_view(),
            working_directory: self.working_directory@,
        }
    }
}

impl LaunchPlan {
    /// The program to run.
    pub fn command(&self) -> (command: &String)
        ensures
            command@ == self@.command,
    {
        &self.command
    }

    /// The arguments to hand to the program, in order.
    pub fn arguments(&self) -> (arguments: &Vec<String>)
        ensures
            arguments.deep_view() == self@.arguments,
    {
        &self.arguments
    }

    /// The directory to run the program in.
    pub fn working_directory(&self) -> (directory: &DirPath)
        ensures
            directory@ == self@.working_directory,
    {
        &self.working_directory
    }
}

impl Clone for LaunchPlan {
    fn clone(&self) -> (copy: LaunchPlan)
        ensures
            copy@ == self@,
    {
        LaunchPlan {
            command: self.command.clone(),
            arguments: self.arguments.clone(),
            working_directory: self.working_directory.clone(),
        }
    }
}

/// Finds the project root from the working directory.
///
/// A working directory that is the tooling directory always has a parent,
/// so this step finds a root for every directory it is given.
pub fn project_root(cwd: &DirPath) -> (root: DirPath)
    ensures
        root@ == project_root_of(cwd@),
{
    if cwd.ends_with(TOOLING_DIR) {
        cwd.parent().unwrap()
    } else {
        cwd.clone()
    }
}

/// The place below `root` where the pre-built server is looked for.
pub fn artifact_path(root: &DirPath) -> (artifact: DirPath)
    ensures
        artifact@ == artifact_path_of(root@),
{
    root.child(ARTIFACT_DIR).child(ARTIFACT_FILE)
}

/// Chooses the launch plan once it is known whether the pre-built server
/// exists below `root`.
pub fn select_plan(root: DirPath, artifact_exists: bool) -> (plan: LaunchPlan)
    ensures
        plan@ == plan_for(root@, artifact_exists),
{
    if artifact_exists {
        let mut arguments: Vec<String> = Vec::new();
        arguments.push(PRODUCTION_ENTRY.to_owned());
        assert(arguments.deep_view() =~= seq![PRODUCTION_ENTRY@]);
        LaunchPlan { command: PRODUCTION_COMMAND.to_owned(), arguments, working_directory: root }
    } else {
        let mut arguments: Vec<String> = Vec::new();
        arguments.push(DEVELOPMENT_RUNNER.to_owned());
        arguments.push(DEVELOPMENT_ENTRY.to_owned());
        assert(arguments.deep_view() =~= seq![DEVELOPMENT_RUNNER@, DEVELOPMENT_ENTRY@]);
        LaunchPlan { command: DEVELOPMENT_COMMAND.to_owned(), arguments, working_directory: root }
    }
}

} // verus!
