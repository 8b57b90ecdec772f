use rnr::config::{Config, Step, StepDef, Task, TaskDef};
use rnr::env::EnvMap;
use rnr::error::ExecutionError;
use rnr::path::DirPath;
use rnr::runner::{run_task, Action, Event, ExecutionContext, Machine, ProbeResult};

/// One process that the host was asked to run.
#[derive(Debug, Clone, PartialEq)]
struct Ran {
    command: String,
    dir: DirPath,
    env: Vec<(String, String)>,
}

/// A host that runs nothing: it writes down what it is asked for and answers
/// from its tables.
struct Host {
    /// Exit codes by command; a command that is not listed exits with 0.
    exits: Vec<(String, Option<i32>)>,
    /// Commands that cannot be started, with the cause.
    unstartable: Vec<(String, String)>,
    /// Documents by directory.
    documents: Vec<(DirPath, Config)>,
    /// Directories whose definition file cannot be loaded, with the cause.
    broken: Vec<(DirPath, String)>,
    ran: Vec<Ran>,
    probed: Vec<DirPath>,
}

impl Host {
    fn new() -> Host {
        Host {
            exits: Vec::new(),
            unstartable: Vec::new(),
            documents: Vec::new(),
            broken: Vec::new(),
            ran: Vec::new(),
            probed: Vec::new(),
        }
    }

    fn commands(&self) -> Vec<String> {
        self.ran.iter().map(|r| r.command.clone()).collect()
    }

    fn answer(&mut self, action: Action) -> Result<Event, Result<(), ExecutionError>> {
        match action {
            Action::Continue => Ok(Event::Resume),
            Action::Run { command, dir, env } => {
                self.ran.push(Ran { command: command.clone(), dir, env: env.entries });
                for (c, cause) in self.unstartable.iter() {
                    if *c == command {
                        return Ok(Event::SpawnFailed { cause: cause.clone() });
                    }
                }
                for (c, code) in self.exits.iter() {
                    if *c == command {
                        return Ok(Event::Exited { code: *code });
                    }
                }
                Ok(Event::Exited { code: Some(0) })
            }
            Action::Probe { dir, file } => {
                assert_eq!(file, "rnr.yaml");
                self.probed.push(dir.clone());
                for (d, cause) in self.broken.iter() {
                    if *d == dir {
                        return Ok(Event::Probed {
                            found: ProbeResult::Failed { cause: cause.clone() },
                        });
                    }
                }
                for (d, document) in self.documents.iter() {
                    if *d == dir {
                        return Ok(Event::Probed {
                            found: ProbeResult::Loaded { document: document.clone() },
                        });
                    }
                }
                Ok(Event::Probed { found: ProbeResult::Absent })
            }
            Action::Fork { branches } => {
                let mut results = Vec::new();
                for branch in branches {
                    results.push(self.drive(branch));
                }
                Ok(Event::Joined { results })
            }
            Action::Done { outcome } => Err(outcome),
        }
    }

    fn drive(&mut self, machine: Machine) -> Result<(), ExecutionError> {
        let mut machine = machine;
        let mut action = machine.request();
        loop {
            match self.answer(action) {
                Ok(event) => {
                    let next = machine.step(event);
                    machine = next.0;
                    action = next.1;
                }
                Err(outcome) => return outcome,
            }
        }
    }
}

fn text(s: &str) -> Option<String> {
    Some(s.to_string())
}

fn empty_task() -> Task {
    Task { description: None, dir: None, env: None, cmd: None, task: None, steps: None }
}

fn cmd_step(cmd: &str) -> Step {
    Step::Simple(StepDef { dir: None, cmd: text(cmd), task: None })
}

fn task_step(task: &str) -> Step {
    Step::Simple(StepDef { dir: None, cmd: None, task: text(task) })
}

fn env_of(pairs: &[(&str, &str)]) -> EnvMap {
    let mut env = EnvMap::new();
    for (k, v) in pairs.iter() {
        env.insert(k.to_string(), v.to_string());
    }
    env
}

fn document(tasks: Vec<(&str, TaskDef)>) -> Config {
    let mut config = Config::new();
    for (name, def) in tasks {
        config.insert(name.to_string(), def);
    }
    config
}

fn root() -> DirPath {
    DirPath::new("/project")
}

fn context(config: Config) -> ExecutionContext {
    ExecutionContext::new(root(), env_of(&[("HOME", "/home/me")]), config)
}

fn pairs(list: &[(&str, &str)]) -> Vec<(String, String)> {
    list.iter().map(|(k, v)| (k.to_string(), v.to_string())).collect()
}

#[test]
fn shorthand_task_runs_one_command_in_the_inherited_context() {
    let config = document(vec![("build", TaskDef::Shorthand("cargo build".to_string()))]);
    let ctx = ExecutionContext {
        dir: root().join("work"),
        env: env_of(&[("A", "1"), ("B", "2")]),
        root: root(),
        document: std::sync::Arc::new(config),
    };
    let mut host = Host::new();
    let outcome = host.drive(run_task("build", ctx));
    assert_eq!(outcome, Ok(()));
    assert_eq!(
        host.ran,
        vec![Ran {
            command: "cargo build".to_string(),
            dir: root().join("work"),
            env: pairs(&[("A", "1"), ("B", "2")]),
        }]
    );
    assert!(host.probed.is_empty());
}

#[test]
fn shorthand_task_fails_with_the_exit_code_of_its_command() {
    let config = document(vec![("build", TaskDef::Shorthand("false".to_string()))]);
    let mut host = Host::new();
    host.exits.push(("false".to_string(), Some(3)));
    let outcome = host.drive(run_task("build", context(config)));
    assert_eq!(
        outcome,
        Err(ExecutionError::CommandFailed { command: "false".to_string(), exit_code: 3 })
    );
    assert_eq!(host.commands(), vec!["false"]);
}

#[test]
fn process_without_exit_code_counts_as_code_one() {
    let config = document(vec![("build", TaskDef::Shorthand("sleep 100".to_string()))]);
    let mut host = Host::new();
    host.exits.push(("sleep 100".to_string(), None));
    let outcome = host.drive(run_task("build", context(config)));
    assert_eq!(
        outcome,
        Err(ExecutionError::CommandFailed { command: "sleep 100".to_string(), exit_code: 1 })
    );
}

#[test]
fn negative_exit_code_is_reported_as_it_is() {
    let config = document(vec![("build", TaskDef::Shorthand("crash".to_string()))]);
    let mut host = Host::new();
    host.exits.push(("crash".to_string(), Some(-1073741819)));
    let outcome = host.drive(run_task("build", context(config)));
    assert_eq!(
        outcome,
        Err(ExecutionError::CommandFailed {
            command: "crash".to_string(),
            exit_code: -1073741819
        })
    );
}

#[test]
fn process_that_cannot_start_is_a_spawn_failure() {
    let config = document(vec![("build", TaskDef::Shorthand("nope".to_string()))]);
    let mut host = Host::new();
    host.unstartable.push(("nope".to_string(), "No such file or directory".to_string()));
    let outcome = host.drive(run_task("build", context(config)));
    assert_eq!(
        outcome,
        Err(ExecutionError::SpawnFailed {
            command: "nope".to_string(),
            cause: "No such file or directory".to_string()
        })
    );
}

#[test]
fn full_task_with_command_uses_inherited_directory_without_dir() {
    let task = Task { cmd: text("make"), ..empty_task() };
    let config = document(vec![("build", TaskDef::Full(task))]);
    let ctx = ExecutionContext {
        dir: root().join("elsewhere"),
        env: env_of(&[("A", "1")]),
        root: root(),
        document: std::sync::Arc::new(config),
    };
    let mut host = Host::new();
    assert_eq!(host.drive(run_task("build", ctx)), Ok(()));
    assert_eq!(
        host.ran,
        vec![Ran {
            command: "make".to_string(),
            dir: root().join("elsewhere"),
            env: pairs(&[("A", "1")]),
        }]
    );
}

#[test]
fn full_task_with_command_resolves_dir_against_the_document_root() {
    let task = Task { cmd: text("make"), dir: text("services/api"), ..empty_task() };
    let config = document(vec![("build", TaskDef::Full(task))]);
    let ctx = ExecutionContext {
        dir: root().join("elsewhere"),
        env: EnvMap::new(),
        root: root(),
        document: std::sync::Arc::new(config),
    };
    let mut host = Host::new();
    assert_eq!(host.drive(run_task("build", ctx)), Ok(()));
    assert_eq!(host.ran.len(), 1);
    assert_eq!(host.ran[0].dir, root().join("services/api"));
    assert_eq!(host.ran[0].dir.base, "/project");
    assert_eq!(host.ran[0].dir.joined, vec!["services/api"]);
    assert!(host.probed.is_empty());
}

#[test]
fn full_task_lays_its_environment_over_the_inherited_one() {
    let task = Task {
        cmd: text("npm run build"),
        env: Some(env_of(&[("NODE_ENV", "production"), ("DEBUG", "false")])),
        ..empty_task()
    };
    let config = document(vec![("build", TaskDef::Full(task))]);
    let ctx = ExecutionContext {
        dir: root(),
        env: env_of(&[("DEBUG", "true"), ("HOME", "/home/me")]),
        root: root(),
        document: std::sync::Arc::new(config),
    };
    let machine = run_task("build", ctx);
    let (_machine, action) = machine.step(Event::Resume);
    match action {
        Action::Run { command, dir, env } => {
            assert_eq!(command, "npm run build");
            assert_eq!(dir, root());
            assert_eq!(env.get("NODE_ENV"), Some(&"production".to_string()));
            assert_eq!(env.get("DEBUG"), Some(&"false".to_string()));
            assert_eq!(env.get("HOME"), Some(&"/home/me".to_string()));
            assert_eq!(env.get("PATH"), None);
        }
        other => panic!("expected a process, got {:?}", other),
    }
}

#[test]
fn task_with_steps_and_delegation_runs_only_its_steps() {
    let both = Task {
        steps: Some(vec![cmd_step("echo step 1"), cmd_step("echo step 2")]),
        task: text("other"),
        cmd: text("echo own command"),
        ..empty_task()
    };
    let config = document(vec![
        ("both", TaskDef::Full(both)),
        ("other", TaskDef::Shorthand("echo other".to_string())),
    ]);
    let mut host = Host::new();
    assert_eq!(host.drive(run_task("both", context(config))), Ok(()));
    assert_eq!(host.commands(), vec!["echo step 1", "echo step 2"]);
}

#[test]
fn task_with_delegation_and_command_delegates() {
    let both = Task { task: text("other"), cmd: text("echo own command"), ..empty_task() };
    let config = document(vec![
        ("both", TaskDef::Full(both)),
        ("other", TaskDef::Shorthand("echo other".to_string())),
    ]);
    let mut host = Host::new();
    assert_eq!(host.drive(run_task("both", context(config))), Ok(()));
    assert_eq!(host.commands(), vec!["echo other"]);
}

#[test]
fn delegation_into_directory_with_document_runs_the_nested_task() {
    let outer = Task { dir: text("sub"), task: text("build"), ..empty_task() };
    let config = document(vec![
        ("go", TaskDef::Full(outer)),
        ("build", TaskDef::Shorthand("echo outer build".to_string())),
    ]);
    let nested_build = Task { dir: text("target"), cmd: text("echo nested build"), ..empty_task() };
    let nested = document(vec![("build", TaskDef::Full(nested_build))]);
    let mut host = Host::new();
    host.documents.push((root().join("sub"), nested));
    assert_eq!(host.drive(run_task("go", context(config))), Ok(()));
    assert_eq!(host.probed, vec![root().join("sub")]);
    assert_eq!(host.commands(), vec!["echo nested build"]);
    // The nested task's directory is resolved against the nested root.
    assert_eq!(host.ran[0].dir, root().join("sub").join("target"));
    assert_eq!(host.ran[0].env, pairs(&[("HOME", "/home/me")]));
}

#[test]
fn delegation_into_directory_without_document_stays_in_the_document() {
    let outer = Task { dir: text("sub"), task: text("build"), ..empty_task() };
    let config = document(vec![
        ("go", TaskDef::Full(outer)),
        ("build", TaskDef::Shorthand("echo outer build".to_string())),
    ]);
    let mut host = Host::new();
    assert_eq!(host.drive(run_task("go", context(config))), Ok(()));
    assert_eq!(host.probed, vec![root().join("sub")]);
    assert_eq!(host.commands(), vec!["echo outer build"]);
    assert_eq!(host.ran[0].dir, root().join("sub"));
}

#[test]
fn delegation_without_directory_asks_for_no_document() {
    let outer = Task {
        task: text("build"),
        env: Some(env_of(&[("MODE", "release")])),
        ..empty_task()
    };
    let config = document(vec![
        ("go", TaskDef::Full(outer)),
        ("build", TaskDef::Shorthand("cargo build".to_string())),
    ]);
    let mut host = Host::new();
    assert_eq!(host.drive(run_task("go", context(config))), Ok(()));
    assert!(host.probed.is_empty());
    assert_eq!(
        host.ran,
        vec![Ran {
            command: "cargo build".to_string(),
            dir: root(),
            env: pairs(&[("HOME", "/home/me"), ("MODE", "release")]),
        }]
    );
}

#[test]
fn nested_document_keeps_the_merged_environment() {
    let outer = Task {
        dir: text("sub"),
        task: text("build"),
        env: Some(env_of(&[("MODE", "release")])),
        ..empty_task()
    };
    let config = document(vec![("go", TaskDef::Full(outer))]);
    let nested = document(vec![("build", TaskDef::Shorthand("make".to_string()))]);
    let mut host = Host::new();
    host.documents.push((root().join("sub"), nested));
    assert_eq!(host.drive(run_task("go", context(config))), Ok(()));
    assert_eq!(host.ran[0].dir, root().join("sub"));
    assert_eq!(host.ran[0].env, pairs(&[("HOME", "/home/me"), ("MODE", "release")]));
}

#[test]
fn nested_document_without_the_task_fails_with_its_own_path() {
    let outer = Task { dir: text("sub"), task: text("build"), ..empty_task() };
    let config = document(vec![
        ("go", TaskDef::Full(outer)),
        ("build", TaskDef::Shorthand("echo outer build".to_string())),
    ]);
    let nested = document(vec![("test", TaskDef::Shorthand("echo test".to_string()))]);
    let mut host = Host::new();
    host.documents.push((root().join("sub"), nested));
    assert_eq!(
        host.drive(run_task("go", context(config))),
        Err(ExecutionError::TaskNotFound {
            name: "build".to_string(),
            document: root().join("sub").join("rnr.yaml"),
        })
    );
    assert!(host.ran.is_empty());
}

#[test]
fn nested_document_that_cannot_be_loaded_fails_the_run() {
    let outer = Task { dir: text("sub"), task: text("build"), ..empty_task() };
    let config = document(vec![
        ("go", TaskDef::Full(outer)),
        ("build", TaskDef::Shorthand("echo outer build".to_string())),
    ]);
    let mut host = Host::new();
    host.broken.push((root().join("sub"), "mapping values are not allowed".to_string()));
    assert_eq!(
        host.drive(run_task("go", context(config))),
        Err(ExecutionError::DocumentLoadFailed {
            path: root().join("sub").join("rnr.yaml"),
            cause: "mapping values are not allowed".to_string(),
        })
    );
    assert!(host.ran.is_empty());
}

#[test]
fn unknown_task_fails_with_name_and_document() {
    let config = document(vec![("build", TaskDef::Shorthand("make".to_string()))]);
    let mut host = Host::new();
    assert_eq!(
        host.drive(run_task("deploy", context(config))),
        Err(ExecutionError::TaskNotFound {
            name: "deploy".to_string(),
            document: root().join("rnr.yaml"),
        })
    );
    assert!(host.ran.is_empty());
}

#[test]
fn delegation_to_unknown_task_fails() {
    let outer = Task { task: text("missing"), ..empty_task() };
    let config = document(vec![("go", TaskDef::Full(outer))]);
    let mut host = Host::new();
    assert_eq!(
        host.drive(run_task("go", context(config))),
        Err(ExecutionError::TaskNotFound {
            name: "missing".to_string(),
            document: root().join("rnr.yaml"),
        })
    );
}

#[test]
fn task_without_action_fails_with_no_action() {
    let nothing = Task {
        description: text("does nothing"),
        dir: text("sub"),
        env: Some(env_of(&[("A", "1")])),
        ..empty_task()
    };
    let config = document(vec![("idle", TaskDef::Full(nothing))]);
    let mut host = Host::new();
    assert_eq!(host.drive(run_task("idle", context(config))), Err(ExecutionError::NoAction));
    assert!(host.ran.is_empty());
    assert!(host.probed.is_empty());
}

#[test]
fn step_without_action_fails_with_no_action() {
    let task = Task {
        steps: Some(vec![
            cmd_step("echo 1"),
            Step::Simple(StepDef { dir: text("sub"), cmd: None, task: None }),
            cmd_step("echo 3"),
        ]),
        ..empty_task()
    };
    let config = document(vec![("ci", TaskDef::Full(task))]);
    let mut host = Host::new();
    assert_eq!(host.drive(run_task("ci", context(config))), Err(ExecutionError::NoAction));
    assert_eq!(host.commands(), vec!["echo 1"]);
}

#[test]
fn steps_run_in_order() {
    let task = Task { steps: Some(vec![cmd_step("echo 1"), cmd_step("echo 2")]), ..empty_task() };
    let config = document(vec![("ci", TaskDef::Full(task))]);
    let mut host = Host::new();
    assert_eq!(host.drive(run_task("ci", context(config))), Ok(()));
    assert_eq!(host.commands(), vec!["echo 1", "echo 2"]);
}

#[test]
fn second_step_is_not_asked_for_before_the_first_has_ended() {
    let task = Task { steps: Some(vec![cmd_step("echo 1"), cmd_step("echo 2")]), ..empty_task() };
    let config = document(vec![("ci", TaskDef::Full(task))]);
    let mut machine = run_task("ci", context(config));
    let mut action = machine.request();
    let mut asked: Vec<String> = Vec::new();
    let mut resumes = 0;
    // Until the first process is reported to have ended, only it is asked for.
    while asked.is_empty() {
        match action {
            Action::Continue => {}
            Action::Run { command, .. } => asked.push(command),
            other => panic!("unexpected {:?}", other),
        }
        if asked.is_empty() {
            let next = machine.step(Event::Resume);
            machine = next.0;
            action = next.1;
            resumes += 1;
            assert!(resumes < 10);
        } else {
            break;
        }
    }
    assert_eq!(asked, vec!["echo 1"]);
    // Reports that answer nothing do not make the machine go on.
    let next = machine.step(Event::Resume);
    machine = next.0;
    match next.1 {
        Action::Run { command, .. } => assert_eq!(command, "echo 1"),
        other => panic!("unexpected {:?}", other),
    }
    let next = machine.step(Event::Joined { results: vec![Ok(())] });
    machine = next.0;
    match next.1 {
        Action::Run { command, .. } => assert_eq!(command, "echo 1"),
        other => panic!("unexpected {:?}", other),
    }
    // The end of the first process does.
    let next = machine.step(Event::Exited { code: Some(0) });
    machine = next.0;
    assert!(matches!(next.1, Action::Continue));
    let next = machine.step(Event::Resume);
    match next.1 {
        Action::Run { command, .. } => assert_eq!(command, "echo 2"),
        other => panic!("unexpected {:?}", other),
    }
}

#[test]
fn first_failing_step_ends_the_run() {
    let task = Task {
        steps: Some(vec![cmd_step("echo 1"), cmd_step("false"), cmd_step("echo 3")]),
        ..empty_task()
    };
    let config = document(vec![("ci", TaskDef::Full(task))]);
    let mut host = Host::new();
    host.exits.push(("false".to_string(), Some(1)));
    assert_eq!(
        host.drive(run_task("ci", context(config))),
        Err(ExecutionError::CommandFailed { command: "false".to_string(), exit_code: 1 })
    );
    assert_eq!(host.commands(), vec!["echo 1", "false"]);
}

#[test]
fn failure_in_a_delegated_task_ends_the_outer_steps() {
    let inner = Task { steps: Some(vec![cmd_step("a"), cmd_step("b")]), ..empty_task() };
    let outer = Task {
        steps: Some(vec![cmd_step("before"), task_step("inner"), cmd_step("after")]),
        ..empty_task()
    };
    let config = document(vec![("inner", TaskDef::Full(inner)), ("outer", TaskDef::Full(outer))]);
    let mut host = Host::new();
    host.exits.push(("a".to_string(), Some(9)));
    assert_eq!(
        host.drive(run_task("outer", context(config))),
        Err(ExecutionError::CommandFailed { command: "a".to_string(), exit_code: 9 })
    );
    assert_eq!(host.commands(), vec!["before", "a"]);
}

#[test]
fn delegated_steps_return_to_the_outer_steps() {
    let inner = Task { steps: Some(vec![cmd_step("a"), cmd_step("b")]), ..empty_task() };
    let outer = Task {
        steps: Some(vec![cmd_step("before"), task_step("inner"), cmd_step("after")]),
        ..empty_task()
    };
    let config = document(vec![("inner", TaskDef::Full(inner)), ("outer", TaskDef::Full(outer))]);
    let mut host = Host::new();
    assert_eq!(host.drive(run_task("outer", context(config))), Ok(()));
    assert_eq!(host.commands(), vec!["before", "a", "b", "after"]);
}

#[test]
fn empty_step_list_succeeds_and_runs_nothing() {
    let task = Task { steps: Some(Vec::new()), cmd: text("echo never"), ..empty_task() };
    let config = document(vec![("ci", TaskDef::Full(task))]);
    let mut host = Host::new();
    assert_eq!(host.drive(run_task("ci", context(config))), Ok(()));
    assert!(host.ran.is_empty());
}

#[test]
fn steps_inherit_directory_and_environment_of_their_task() {
    let task = Task {
        dir: text("services"),
        env: Some(env_of(&[("STAGE", "ci")])),
        steps: Some(vec![
            cmd_step("echo here"),
            Step::Simple(StepDef { dir: text("web"), cmd: text("npm test"), task: None }),
        ]),
        ..empty_task()
    };
    let config = document(vec![("ci", TaskDef::Full(task))]);
    let mut host = Host::new();
    assert_eq!(host.drive(run_task("ci", context(config))), Ok(()));
    assert_eq!(
        host.ran,
        vec![
            Ran {
                command: "echo here".to_string(),
                dir: root().join("services"),
                env: pairs(&[("HOME", "/home/me"), ("STAGE", "ci")]),
            },
            Ran {
                command: "npm test".to_string(),
                dir: root().join("web"),
                env: pairs(&[("HOME", "/home/me"), ("STAGE", "ci")]),
            },
        ]
    );
}

#[test]
fn step_delegation_with_directory_probes_it() {
    let task = Task {
        steps: Some(vec![Step::Simple(StepDef {
            dir: text("services/api"),
            cmd: None,
            task: text("build"),
        })]),
        ..empty_task()
    };
    let config = document(vec![
        ("all", TaskDef::Full(task)),
        ("build", TaskDef::Shorthand("echo outer".to_string())),
    ]);
    let nested = document(vec![("build", TaskDef::Shorthand("echo api".to_string()))]);

    let mut with_nested = Host::new();
    with_nested.documents.push((root().join("services/api"), nested));
    assert_eq!(with_nested.drive(run_task("all", context(config.clone()))), Ok(()));
    assert_eq!(with_nested.probed, vec![root().join("services/api")]);
    assert_eq!(with_nested.commands(), vec!["echo api"]);
    assert_eq!(with_nested.ran[0].dir, root().join("services/api"));

    let mut without = Host::new();
    assert_eq!(without.drive(run_task("all", context(config))), Ok(()));
    assert_eq!(without.probed, vec![root().join("services/api")]);
    assert_eq!(without.commands(), vec!["echo outer"]);
    assert_eq!(without.ran[0].dir, root().join("services/api"));
}

#[test]
fn step_with_task_and_command_delegates() {
    let task = Task {
        steps: Some(vec![Step::Simple(StepDef {
            dir: None,
            cmd: text("echo own"),
            task: text("build"),
        })]),
        ..empty_task()
    };
    let config = document(vec![
        ("all", TaskDef::Full(task)),
        ("build", TaskDef::Shorthand("echo build".to_string())),
    ]);
    let mut host = Host::new();
    assert_eq!(host.drive(run_task("all", context(config))), Ok(()));
    assert_eq!(host.commands(), vec!["echo build"]);
}

fn parallel(cmds: &[&str]) -> Step {
    Step::Parallel {
        parallel: cmds.iter().map(|c| StepDef { dir: None, cmd: text(c), task: None }).collect(),
    }
}

#[test]
fn parallel_group_runs_every_step_and_lists_the_one_failure() {
    let task = Task { steps: Some(vec![parallel(&["one", "two", "three"])]), ..empty_task() };
    let config = document(vec![("all", TaskDef::Full(task))]);
    let mut host = Host::new();
    host.exits.push(("two".to_string(), Some(2)));
    let outcome = host.drive(run_task("all", context(config)));
    assert_eq!(host.commands(), vec!["one", "two", "three"]);
    match outcome {
        Err(ExecutionError::ParallelFailure { failures }) => {
            assert_eq!(failures.len(), 1);
            assert_eq!(
                failures[0],
                ExecutionError::CommandFailed { command: "two".to_string(), exit_code: 2 }
            );
        }
        other => panic!("expected a parallel failure, got {:?}", other),
    }
}

#[test]
fn parallel_group_lists_failures_in_the_order_of_the_group() {
    let task = Task {
        steps: Some(vec![parallel(&["one", "two", "three", "four"]), cmd_step("after")]),
        ..empty_task()
    };
    let config = document(vec![("all", TaskDef::Full(task))]);
    let mut host = Host::new();
    host.exits.push(("four".to_string(), Some(4)));
    host.exits.push(("one".to_string(), Some(1)));
    host.unstartable.push(("three".to_string(), "denied".to_string()));
    let outcome = host.drive(run_task("all", context(config)));
    assert_eq!(host.commands(), vec!["one", "two", "three", "four"]);
    assert_eq!(
        outcome,
        Err(ExecutionError::ParallelFailure {
            failures: vec![
                ExecutionError::CommandFailed { command: "one".to_string(), exit_code: 1 },
                ExecutionError::SpawnFailed {
                    command: "three".to_string(),
                    cause: "denied".to_string()
                },
                ExecutionError::CommandFailed { command: "four".to_string(), exit_code: 4 },
            ]
        })
    );
}

#[test]
fn parallel_group_that_succeeds_lets_the_steps_go_on() {
    let task = Task {
        steps: Some(vec![cmd_step("echo 1"), parallel(&["a", "b"]), cmd_step("echo 2")]),
        ..empty_task()
    };
    let config = document(vec![("all", TaskDef::Full(task))]);
    let mut host = Host::new();
    assert_eq!(host.drive(run_task("all", context(config))), Ok(()));
    assert_eq!(host.commands(), vec!["echo 1", "a", "b", "echo 2"]);
}

#[test]
fn step_after_parallel_group_waits_for_the_whole_group() {
    let task = Task {
        steps: Some(vec![cmd_step("echo 1"), parallel(&["a", "b"]), cmd_step("echo 2")]),
        ..empty_task()
    };
    let config = document(vec![("all", TaskDef::Full(task))]);
    let mut machine = run_task("all", context(config));
    let mut action = machine.request();
    // Up to the group.
    let mut rounds = 0;
    let branches = loop {
        rounds += 1;
        assert!(rounds < 20);
        let event = match action {
            Action::Continue => Event::Resume,
            Action::Run { command, .. } => {
                assert_eq!(command, "echo 1");
                Event::Exited { code: Some(0) }
            }
            Action::Fork { branches } => break branches,
            other => panic!("unexpected {:?}", other),
        };
        let next = machine.step(event);
        machine = next.0;
        action = next.1;
    };
    assert_eq!(branches.len(), 2);
    // Whatever is reported but the results of the group, the group is still
    // what the machine asks for.
    let next = machine.step(Event::Resume);
    machine = next.0;
    assert!(matches!(next.1, Action::Fork { .. }));
    let next = machine.step(Event::Exited { code: Some(0) });
    machine = next.0;
    assert!(matches!(next.1, Action::Fork { .. }));
    // The results of the group let the list go on.
    let next = machine.step(Event::Joined { results: vec![Ok(()), Ok(())] });
    machine = next.0;
    assert!(matches!(next.1, Action::Continue));
    let next = machine.step(Event::Resume);
    match next.1 {
        Action::Run { command, .. } => assert_eq!(command, "echo 2"),
        other => panic!("unexpected {:?}", other),
    }
}

#[test]
fn branches_of_a_group_run_their_steps_in_the_context_of_the_group() {
    let task = Task {
        dir: text("services"),
        env: Some(env_of(&[("STAGE", "ci")])),
        steps: Some(vec![Step::Parallel {
            parallel: vec![
                StepDef { dir: None, cmd: text("lint"), task: None },
                StepDef { dir: text("web"), cmd: text("npm test"), task: None },
                StepDef { dir: None, cmd: None, task: text("unit") },
            ],
        }]),
        ..empty_task()
    };
    let config = document(vec![
        ("all", TaskDef::Full(task)),
        ("unit", TaskDef::Shorthand("cargo test".to_string())),
    ]);
    let mut host = Host::new();
    assert_eq!(host.drive(run_task("all", context(config))), Ok(()));
    let env = pairs(&[("HOME", "/home/me"), ("STAGE", "ci")]);
    assert_eq!(
        host.ran,
        vec![
            Ran { command: "lint".to_string(), dir: root().join("services"), env: env.clone() },
            Ran { command: "npm test".to_string(), dir: root().join("web"), env: env.clone() },
            Ran { command: "cargo test".to_string(), dir: root().join("services"), env },
        ]
    );
}

#[test]
fn empty_parallel_group_succeeds() {
    let task = Task { steps: Some(vec![parallel(&[]), cmd_step("after")]), ..empty_task() };
    let config = document(vec![("all", TaskDef::Full(task))]);
    let mut host = Host::new();
    assert_eq!(host.drive(run_task("all", context(config))), Ok(()));
    assert_eq!(host.commands(), vec!["after"]);
}

#[test]
fn nested_parallel_failure_is_kept_inside_the_outer_one() {
    let inner = Task { steps: Some(vec![parallel(&["x", "y"])]), ..empty_task() };
    let outer = Task {
        steps: Some(vec![Step::Parallel {
            parallel: vec![
                StepDef { dir: None, cmd: text("a"), task: None },
                StepDef { dir: None, cmd: None, task: text("inner") },
            ],
        }]),
        ..empty_task()
    };
    let config = document(vec![("inner", TaskDef::Full(inner)), ("outer", TaskDef::Full(outer))]);
    let mut host = Host::new();
    host.exits.push(("y".to_string(), Some(7)));
    assert_eq!(
        host.drive(run_task("outer", context(config))),
        Err(ExecutionError::ParallelFailure {
            failures: vec![ExecutionError::ParallelFailure {
                failures: vec![ExecutionError::CommandFailed {
                    command: "y".to_string(),
                    exit_code: 7
                }],
            }],
        })
    );
    assert_eq!(host.commands(), vec!["a", "x", "y"]);
}

#[test]
fn finished_machine_stays_finished() {
    let config = document(vec![("build", TaskDef::Shorthand("make".to_string()))]);
    let machine = run_task("build", context(config));
    let (machine, _) = machine.step(Event::Resume);
    let (machine, action) = machine.step(Event::Exited { code: Some(5) });
    let failure = ExecutionError::CommandFailed { command: "make".to_string(), exit_code: 5 };
    match action {
        Action::Done { outcome } => assert_eq!(outcome, Err(failure.clone())),
        other => panic!("unexpected {:?}", other),
    }
    let (machine, action) = machine.step(Event::Exited { code: Some(0) });
    match action {
        Action::Done { outcome } => assert_eq!(outcome, Err(failure.clone())),
        other => panic!("unexpected {:?}", other),
    }
    let (_machine, action) = machine.step(Event::Resume);
    match action {
        Action::Done { outcome } => assert_eq!(outcome, Err(failure)),
        other => panic!("unexpected {:?}", other),
    }
}

#[test]
fn context_copy_shares_the_document() {
    let config = document(vec![("build", TaskDef::Shorthand("make".to_string()))]);
    let original = context(config);
    let copy = original.clone();
    assert!(std::sync::Arc::ptr_eq(&original.document, &copy.document));
    assert_eq!(std::sync::Arc::strong_count(&original.document), 2);
    assert_eq!(copy.dir, original.dir);
    assert_eq!(copy.root, original.root);
    assert_eq!(copy.env.entries, original.env.entries);
    let mut host = Host::new();
    assert_eq!(host.drive(run_task("build", copy)), Ok(()));
    assert_eq!(host.drive(run_task("build", original)), Ok(()));
    assert_eq!(host.commands(), vec!["make", "make"]);
}

#[test]
fn later_definition_of_a_task_replaces_the_earlier() {
    let config = document(vec![
        ("build", TaskDef::Shorthand("first".to_string())),
        ("build", TaskDef::Shorthand("second".to_string())),
    ]);
    let mut host = Host::new();
    assert_eq!(host.drive(run_task("build", context(config))), Ok(()));
    assert_eq!(host.commands(), vec!["second"]);
}

#[test]
fn same_document_resolves_the_same_way_twice() {
    let task = Task {
        steps: Some(vec![cmd_step("echo 1"), parallel(&["a", "b"]), task_step("tail")]),
        ..empty_task()
    };
    let config = document(vec![
        ("all", TaskDef::Full(task)),
        ("tail", TaskDef::Shorthand("echo tail".to_string())),
    ]);
    let mut first = Host::new();
    let mut second = Host::new();
    assert_eq!(first.drive(run_task("all", context(config.clone()))), Ok(()));
    assert_eq!(second.drive(run_task("all", context(config.clone()))), Ok(()));
    assert_eq!(first.ran, second.ran);
    assert_eq!(config.task_names(), config.task_names());
    assert_eq!(config.task_names(), vec!["all", "tail"]);
}
