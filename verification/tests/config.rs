use rnr::commands::list::get_task_description;
use rnr::config::{Config, Step, StepDef, Task, TaskDef, CONFIG_FILE};
use rnr::env::EnvMap;
use rnr::path::DirPath;

fn shorthand(cmd: &str) -> TaskDef {
    TaskDef::Shorthand(cmd.to_string())
}

fn described(description: Option<&str>) -> TaskDef {
    TaskDef::Full(Task {
        description: description.map(|d| d.to_string()),
        dir: None,
        env: None,
        cmd: Some("true".to_string()),
        task: None,
        steps: None,
    })
}

#[test]
fn definition_file_name() {
    assert_eq!(CONFIG_FILE, "rnr.yaml");
}

#[test]
fn empty_document_has_no_tasks() {
    let config = Config::new();
    assert!(config.get_task("build").is_none());
    assert!(config.get_task("").is_none());
    assert!(config.task_names().is_empty());
}

#[test]
fn get_task_finds_what_was_entered() {
    let mut config = Config::new();
    config.insert("build".to_string(), shorthand("cargo build"));
    config.insert("test".to_string(), shorthand("cargo test"));
    match config.get_task("build") {
        Some(TaskDef::Shorthand(cmd)) => assert_eq!(cmd, "cargo build"),
        other => panic!("unexpected {:?}", other),
    }
    match config.get_task("test") {
        Some(TaskDef::Shorthand(cmd)) => assert_eq!(cmd, "cargo test"),
        other => panic!("unexpected {:?}", other),
    }
    assert!(config.get_task("Build").is_none());
    assert!(config.get_task("buil").is_none());
    assert!(config.get_task("build ").is_none());
}

#[test]
fn get_task_takes_the_later_entry() {
    let mut config = Config::new();
    config.insert("build".to_string(), shorthand("first"));
    config.insert("other".to_string(), shorthand("other"));
    config.insert("build".to_string(), shorthand("second"));
    match config.get_task("build") {
        Some(TaskDef::Shorthand(cmd)) => assert_eq!(cmd, "second"),
        other => panic!("unexpected {:?}", other),
    }
}

#[test]
fn task_names_are_sorted_by_bytes() {
    let mut config = Config::new();
    for name in ["zebra", "Zebra", "alpha", "alpha2", "alph", "éclair", "_x", "10", "9"] {
        config.insert(name.to_string(), shorthand("true"));
    }
    let mut expected: Vec<&str> =
        vec!["zebra", "Zebra", "alpha", "alpha2", "alph", "éclair", "_x", "10", "9"];
    expected.sort();
    assert_eq!(config.task_names(), expected);
    assert_eq!(
        config.task_names(),
        vec!["10", "9", "Zebra", "_x", "alph", "alpha", "alpha2", "zebra", "éclair"]
    );
}

#[test]
fn task_names_lists_each_name_once() {
    let mut config = Config::new();
    config.insert("b".to_string(), shorthand("1"));
    config.insert("a".to_string(), shorthand("2"));
    config.insert("b".to_string(), shorthand("3"));
    config.insert("a".to_string(), shorthand("4"));
    assert_eq!(config.task_names(), vec!["a", "b"]);
}

#[test]
fn task_names_twice_gives_the_same_list() {
    let mut config = Config::new();
    config.insert("lint".to_string(), shorthand("cargo clippy"));
    config.insert("build".to_string(), described(Some("Build")));
    let first = config.task_names();
    let second = config.task_names();
    assert_eq!(first, second);
    assert_eq!(config.clone().task_names(), first);
}

#[test]
fn description_of_a_full_task() {
    let mut config = Config::new();
    config.insert("lint".to_string(), shorthand("cargo clippy"));
    config.insert("build".to_string(), described(Some("Build the project")));
    config.insert("quiet".to_string(), described(None));
    assert_eq!(get_task_description(&config, "build"), Some("Build the project".to_string()));
    assert_eq!(get_task_description(&config, "quiet"), None);
    assert_eq!(get_task_description(&config, "lint"), None);
    assert_eq!(get_task_description(&config, "missing"), None);
}

#[test]
fn copies_hold_the_same_values() {
    let step = StepDef {
        dir: Some("web".to_string()),
        cmd: Some("npm test".to_string()),
        task: None,
    };
    assert_eq!(step.clone(), step);
    let group = Step::Parallel { parallel: vec![step.clone(), step.clone()] };
    assert_eq!(group.clone(), group);
    let mut env = EnvMap::new();
    env.insert("A".to_string(), "1".to_string());
    let task = Task {
        description: Some("d".to_string()),
        dir: Some("x".to_string()),
        env: Some(env),
        cmd: Some("c".to_string()),
        task: Some("t".to_string()),
        steps: Some(vec![Step::Simple(step.clone()), group]),
    };
    let copy = task.clone();
    assert_eq!(copy.description, task.description);
    assert_eq!(copy.dir, task.dir);
    assert_eq!(copy.env.as_ref().unwrap().entries, task.env.as_ref().unwrap().entries);
    assert_eq!(copy.cmd, task.cmd);
    assert_eq!(copy.task, task.task);
    assert_eq!(copy.steps, task.steps);
}

#[test]
fn environment_insert_and_get() {
    let mut env = EnvMap::new();
    assert!(env.is_empty());
    assert_eq!(env.get("A"), None);
    env.insert("A".to_string(), "1".to_string());
    env.insert("B".to_string(), "2".to_string());
    assert!(!env.is_empty());
    assert_eq!(env.get("A"), Some(&"1".to_string()));
    assert_eq!(env.get("B"), Some(&"2".to_string()));
    assert_eq!(env.get("C"), None);
    env.insert("A".to_string(), "3".to_string());
    assert_eq!(env.get("A"), Some(&"3".to_string()));
    assert_eq!(env.get("a"), None);
}

#[test]
fn environment_merge_prefers_the_local_value() {
    let mut inherited = EnvMap::new();
    inherited.insert("A".to_string(), "inherited".to_string());
    inherited.insert("B".to_string(), "inherited".to_string());
    let mut local = EnvMap::new();
    local.insert("B".to_string(), "local".to_string());
    local.insert("C".to_string(), "local".to_string());
    let merged = inherited.merged(&Some(local));
    assert_eq!(merged.get("A"), Some(&"inherited".to_string()));
    assert_eq!(merged.get("B"), Some(&"local".to_string()));
    assert_eq!(merged.get("C"), Some(&"local".to_string()));
    assert_eq!(merged.get("D"), None);
    // Applied one after the other, the entries give the same.
    let mut applied: std::collections::HashMap<String, String> = std::collections::HashMap::new();
    for (name, value) in merged.entries.iter() {
        applied.insert(name.clone(), value.clone());
    }
    assert_eq!(applied.len(), 3);
    assert_eq!(applied["B"], "local");
    // The operands are as they were.
    assert_eq!(inherited.get("B"), Some(&"inherited".to_string()));
    assert_eq!(inherited.get("C"), None);
}

#[test]
fn environment_merge_with_nothing_is_the_inherited_one() {
    let mut inherited = EnvMap::new();
    inherited.insert("A".to_string(), "1".to_string());
    let merged = inherited.merged(&None);
    assert_eq!(merged.entries, inherited.entries);
    let merged = inherited.merged(&Some(EnvMap::new()));
    assert_eq!(merged.entries, inherited.entries);
}

#[test]
fn paths_join_in_order() {
    let root = DirPath::new("/project");
    assert_eq!(root.base, "/project");
    assert!(root.joined.is_empty());
    let sub = root.join("services").join("api");
    assert_eq!(sub.base, "/project");
    assert_eq!(sub.joined, vec!["services", "api"]);
    assert!(root.joined.is_empty());
    assert_eq!(sub.clone(), sub);
    assert_ne!(root.join("a/b"), root.join("a").join("b"));
    // Folding the parts with the platform's join gives the directory.
    let mut folded = std::path::PathBuf::from(&sub.base);
    for part in sub.joined.iter() {
        folded = folded.join(part);
    }
    assert_eq!(folded, std::path::PathBuf::from("/project/services/api"));
}
