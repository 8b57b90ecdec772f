//! The task graph: a document maps task names to definitions, and a
//! definition is a bare command or a structured task with an optional
//! directory, environment, command, delegation target and step list.

use vstd::prelude::*;
use crate::assoc::{assoc, lemma_assoc_hit, lemma_assoc_keys, lemma_assoc_push, lemma_assoc_skip};
use crate::env::{opt_env, EnvMap, EnvModel};
use crate::sorting::{insert_unique, law_listing_unique, strictly_sorted};
use crate::text::{copy_opt, opt_text, str_eq, texts, Text};

verus! {

/// Name of the file that holds a project's task definitions.
pub const CONFIG_FILE: &'static str = "rnr.yaml";

/// One step of a step list: a command or a delegation, optionally in a
/// directory of its own.
#[derive(Debug, PartialEq, Eq)]
pub struct StepDef {
    /// Working directory, relative to the document's root.
    pub dir: Option<String>,
    /// Shell command.
    pub cmd: Option<String>,
    /// Task to run.
    pub task: Option<String>,
}

/// The mathematical value of a [`StepDef`].
pub struct StepDefModel {
    pub dir: Option<Text>,
    pub cmd: Option<Text>,
    pub task: Option<Text>,
}

impl View for StepDef {
    type V = StepDefModel;

    open spec fn view(&self) -> StepDefModel {
        StepDefModel { dir: opt_text(self.dir), cmd: opt_text(self.cmd), task: opt_text(self.task) }
    }
}

impl Clone for StepDef {
    fn clone(&self) -> (copy: StepDef)
        ensures
            copy@ == self@,
    {
        StepDef { dir: copy_opt(&self.dir), cmd: copy_opt(&self.cmd), task: copy_opt(&self.task) }
    }
}

/// The values of a list of step definitions.
pub open spec fn step_defs(v: Seq<StepDef>) -> Seq<StepDefModel> {
    v.map_values(|s: StepDef| s@)
}

/// A copy of a list of step definitions.
pub fn copy_step_defs(v: &Vec<StepDef>) -> (copy: Vec<StepDef>)
    ensures
        step_defs(copy@) == step_defs(v@),
{
    let mut copy: Vec<StepDef> = Vec::new();
    let mut i: usize = 0;
    while i < v.len()
        invariant
            i <= v.len(),
            copy@.len() == i,
            forall|j: int| 0 <= j < i ==> copy@[j]@ == v@[j]@,
        decreases v.len() - i,
    {
        copy.push(v[i].clone());
        i += 1;
    }
    assert(step_defs(copy@) =~= step_defs(v@));
    copy
}

/// One position of a step list.
#[derive(Debug, PartialEq, Eq)]
pub enum Step {
    /// A single step.
    Simple(StepDef),
    /// Steps that run concurrently with each other.
    Parallel { parallel: Vec<StepDef> },
}

/// The mathematical value of a [`Step`].
pub enum StepModel {
    Simple(StepDefModel),
    Parallel { parallel: Seq<StepDefModel> },
}

impl View for Step {
    type V = StepModel;

    open spec fn view(&self) -> StepModel {
        match self {
            Step::Simple(def) => StepModel::Simple(def@),
            Step::Parallel { parallel } => StepModel::Parallel { parallel: step_defs(parallel@) },
        }
    }
}

impl Clone for Step {
    fn clone(&self) -> (copy: Step)
        ensures
            copy@ == self@,
    {
        match self {
            Step::Simple(def) => Step::Simple(def.clone()),
            Step::Parallel { parallel } => Step::Parallel { parallel: copy_step_defs(parallel) },
        }
    }
}

/// The values of a step list.
pub open spec fn step_list(v: Seq<Step>) -> Seq<StepModel> {
    v.map_values(|s: Step| s@)
}

/// The value of an optional step list.
pub open spec fn opt_step_list(steps: Option<Vec<Step>>) -> Option<Seq<StepModel>> {
    match steps {
        Some(s) => Some(step_list(s@)),
        None => None,
    }
}

/// A copy of a step list.
pub fn copy_step_list(v: &Vec<Step>) -> (copy: Vec<Step>)
    ensures
        step_list(copy@) == step_list(v@),
{
    let mut copy: Vec<Step> = Vec::new();
    let mut i: usize = 0;
    while i < v.len()
        invariant
            i <= v.len(),
            copy@.len() == i,
            forall|j: int| 0 <= j < i ==> copy@[j]@ == v@[j]@,
        decreases v.len() - i,
    {
        copy.push(v[i].clone());
        i += 1;
    }
    assert(step_list(copy@) =~= step_list(v@));
    copy
}

/// A structured task.
#[derive(Debug)]
pub struct Task {
    /// Human-readable description; shown in listings, never executed.
    pub description: Option<String>,
    /// Working directory, relative to the document's root.
    pub dir: Option<String>,
    /// Environment variables, laid over the inherited ones.
    pub env: Option<EnvMap>,
    /// Shell command to execute.
    pub cmd: Option<String>,
    /// Another task to run.
    pub task: Option<String>,
    /// Steps to run in order.
    pub steps: Option<Vec<Step>>,
}

/// The mathematical value of a [`Task`].
pub struct TaskModel {
    pub description: Option<Text>,
    pub dir: Option<Text>,
    pub env: Option<EnvModel>,
    pub cmd: Option<Text>,
    pub task: Option<Text>,
    pub steps: Option<Seq<StepModel>>,
}

impl View for Task {
    type V = TaskModel;

    open spec fn view(&self) -> TaskModel {
        TaskModel {
            description: opt_text(self.description),
            dir: opt_text(self.dir),
            env: opt_env(self.env),
            cmd: opt_text(self.cmd),
            task: opt_text(self.task),
            steps: opt_step_list(self.steps),
        }
    }
}

impl Clone for Task {
    fn clone(&self) -> (copy: Task)
        ensures
            copy@ == self@,
    {
        Task {
            description: copy_opt(&self.description),
            dir: copy_opt(&self.dir),
            env: match &self.env {
                Some(e) => Some(e.clone()),
                None => None,
            },
            cmd: copy_opt(&self.cmd),
            task: copy_opt(&self.task),
            steps: match &self.steps {
                Some(s) => Some(copy_step_list(s)),
                None => None,
            },
        }
    }
}

/// The definition of a task.
#[derive(Debug)]
pub enum TaskDef {
    /// Just a command, run where and as the caller runs.
    Shorthand(String),
    /// A structured task.
    Full(Task),
}

/// The mathematical value of a [`TaskDef`].
pub enum TaskDefModel {
    Shorthand(Text),
    Full(TaskModel),
}

impl View for TaskDef {
    type V = TaskDefModel;

    open spec fn view(&self) -> TaskDefModel {
        match self {
            TaskDef::Shorthand(cmd) => TaskDefModel::Shorthand(cmd@),
            TaskDef::Full(task) => TaskDefModel::Full(task@),
        }
    }
}

impl Clone for TaskDef {
    fn clone(&self) -> (copy: TaskDef)
        ensures
            copy@ == self@,
    {
        match self {
            TaskDef::Shorthand(cmd) => TaskDef::Shorthand(cmd.clone()),
            TaskDef::Full(task) => TaskDef::Full(task.clone()),
        }
    }
}

/// A task document: the tasks of one definition file, by name. Where a name
/// is entered twice the later entry counts.
#[derive(Debug)]
pub struct Config {
    pub tasks: Vec<(String, TaskDef)>,
}

/// The mathematical value of a task document.
pub type DocumentModel = Map<Text, TaskDefModel>;

/// The entries of a document, each by its value.
pub open spec fn task_entries(entries: Seq<(String, TaskDef)>) -> Seq<(Text, TaskDefModel)> {
    entries.map_values(|e: (String, TaskDef)| (e.0@, e.1@))
}

/// `names` lists the tasks of `document`: every name once, in ascending
/// order.
pub open spec fn is_listing(names: Seq<Text>, document: DocumentModel) -> bool {
    &&& strictly_sorted(names)
    &&& forall|name: Text| names.contains(name) <==> document.contains_key(name)
}

/// A document has one listing: whoever lists the same document again gets
/// the same names in the same order.
pub proof fn law_listing_is_determined(first: Seq<Text>, second: Seq<Text>, document: DocumentModel)
    requires
        is_listing(first, document),
        is_listing(second, document),
    ensures
        first == second,
{
    law_listing_unique(first, second);
}

impl View for Config {
    type V = DocumentModel;

    open spec fn view(&self) -> DocumentModel {
        assoc(task_entries(self.tasks@))
    }
}

impl Clone for Config {
    fn clone(&self) -> (copy: Config)
        ensures
            copy@ == self@,
    {
        let mut tasks: Vec<(String, TaskDef)> = Vec::new();
        let mut i: usize = 0;
        while i < self.tasks.len()
            invariant
                i <= self.tasks.len(),
                tasks@.len() == i,
                forall|j: int|
                    0 <= j < i ==> tasks@[j].0@ == self.tasks@[j].0@ && tasks@[j].1@
                        == self.tasks@[j].1@,
            decreases self.tasks.len() - i,
        {
            tasks.push((self.tasks[i].0.clone(), self.tasks[i].1.clone()));
            i += 1;
        }
        assert(task_entries(tasks@) =~= task_entries(self.tasks@));
        Config { tasks }
    }
}

impl Config {
    /// The document without tasks.
    pub fn new() -> (config: Config)
        ensures
            config@ == Map::<Text, TaskDefModel>::empty(),
    {
        let config = Config { tasks: Vec::new() };
        assert(task_entries(config.tasks@) =~= Seq::empty());
        config
    }

    /// Enters `def` under `name`, in place of what the name stood for.
    pub fn insert(&mut self, name: String, def: TaskDef)
        ensures
            final(self)@ == old(self)@.insert(name@, def@),
    {
        proof {
            lemma_assoc_push(task_entries(self.tasks@), name@, def@);
            assert(task_entries(self.tasks@.push((name, def))) =~= task_entries(self.tasks@).push(
                (name@, def@),
            ));
        }
        self.tasks.push((name, def));
    }

    /// The definition of the task `name`, if the document has one.
    pub fn get_task(&self, name: &str) -> (def: Option<&TaskDef>)
        ensures
            match def {
                Some(d) => self@.contains_key(name@) && self@[name@] == d@,
                None => !self@.contains_key(name@),
            },
    {
        let ghost all = task_entries(self.tasks@);
        let mut i: usize = self.tasks.len();
        while i > 0
            invariant
                i <= self.tasks.len(),
                all == task_entries(self.tasks@),
                forall|j: int| i <= j < all.len() ==> all[j].0 != name@,
            decreases i,
        {
            i -= 1;
            if str_eq(self.tasks[i].0.as_str(), name) {
                proof {
                    lemma_assoc_hit(all, name@, i as int);
                }
                return Some(&self.tasks[i].1);
            }
        }
        proof {
            lemma_assoc_skip(all, name@, 0);
            assert(all.take(0) =~= Seq::empty());
        }
        None
    }

    /// The names of all tasks, sorted.
    pub fn task_names(&self) -> (names: Vec<String>)
        ensures
            is_listing(texts(names@), self@),
    {
        let ghost all = task_entries(self.tasks@);
        let mut names: Vec<String> = Vec::new();
        let mut i: usize = 0;
        assert(texts(names@) =~= Seq::empty());
        while i < self.tasks.len()
            invariant
                i <= self.tasks.len(),
                all == task_entries(self.tasks@),
                strictly_sorted(texts(names@)),
                forall|name: Text|
                    texts(names@).contains(name) <==> exists|j: int|
                        0 <= j < i && (#[trigger] all[j]).0 == name,
            decreases self.tasks.len() - i,
        {
            let ghost before = texts(names@);
            insert_unique(&mut names, self.tasks[i].0.clone());
            proof {
                assert forall|name: Text|
                    texts(names@).contains(name) <==> exists|j: int|
                        0 <= j < i + 1 && (#[trigger] all[j]).0 == name by {
                    if texts(names@).contains(name) {
                        if before.contains(name) {
                            let j = choose|j: int| 0 <= j < i && (#[trigger] all[j]).0 == name;
                            assert(all[j].0 == name);
                        } else {
                            assert(all[i as int].0 == name);
                        }
                    }
                    if exists|j: int| 0 <= j < i + 1 && (#[trigger] all[j]).0 == name {
                        let j = choose|j: int| 0 <= j < i + 1 && (#[trigger] all[j]).0 == name;
                        if j < i {
                            assert(all[j].0 == name);
                            assert(before.contains(name));
                        }
                    }
                }
            }
            i += 1;
        }
        proof {
            assert forall|name: Text| texts(names@).contains(name) <==> self@.contains_key(
                name,
            ) by {
                lemma_assoc_keys(all, name);
            }
        }
        names
    }
}

} // verus!
