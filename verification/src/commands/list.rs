//! Listing the tasks of a document.

use vstd::prelude::*;
use vstd::string::*;
use crate::config::{is_listing, law_listing_is_determined, Config, DocumentModel, TaskDef, TaskDefModel};
use crate::text::{copy_opt, max_len, opt_text, pad_right, padded, texts, widest, Text};

verus! {

/// The description of the task `name`: what a structured task says of
/// itself; a bare command has none, nor has a task that is not there.
pub open spec fn description_of(document: DocumentModel, name: Text) -> Option<Text> {
    if document.contains_key(name) {
        match document[name] {
            TaskDefModel::Shorthand(_) => None,
            TaskDefModel::Full(task) => task.description,
        }
    } else {
        None
    }
}

/// The description of the task `name`, if it has one.
pub fn get_task_description(config: &Config, name: &str) -> (description: Option<String>)
    ensures
        opt_text(description) == description_of(config@, name@),
{
    match config.get_task(name) {
        Some(TaskDef::Shorthand(_)) => None,
        Some(TaskDef::Full(task)) => copy_opt(&task.description),
        None => None,
    }
}

/// The line that shows the task `name` in a listing whose names are set to
/// the width `width`: the name, and behind it the description if the task has
/// one.
pub open spec fn line_of(document: DocumentModel, name: Text, width: nat) -> Text {
    match description_of(document, name) {
        Some(description) => "  "@ + padded(name, width) + "  "@ + description,
        None => "  "@ + name,
    }
}

/// The lines that show the tasks `names` of `document`, the descriptions all
/// starting in the same column.
pub open spec fn lines_of(document: DocumentModel, names: Seq<Text>) -> Seq<Text> {
    names.map_values(|name: Text| line_of(document, name, widest(names)))
}

/// The line that shows the task `name`.
pub fn listing_line(config: &Config, name: &str, width: usize) -> (line: String)
    ensures
        line@ == line_of(config@, name@, width as nat),
{
    match get_task_description(config, name) {
        Some(description) => "  ".to_owned().concat(pad_right(name, width).as_str()).concat(
            "  ",
        ).concat(description.as_str()),
        None => "  ".to_owned().concat(name),
    }
}

/// The listing of a document: a line for each task, in the order of the
/// names.
pub fn listing(config: &Config) -> (lines: Vec<String>)
    ensures
        forall|names: Seq<Text>|
            is_listing(names, config@) ==> texts(lines@) == lines_of(config@, names),
{
    let names = config.task_names();
    let width = max_len(&names);
    let mut lines: Vec<String> = Vec::new();
    let mut i: usize = 0;
    while i < names.len()
        invariant
            i <= names.len(),
            width == widest(texts(names@)),
            lines@.len() == i,
            forall|j: int|
                0 <= j < i ==> lines@[j]@ == line_of(config@, texts(names@)[j], width as nat),
        decreases names.len() - i,
    {
        lines.push(listing_line(config, names[i].as_str(), width));
        i += 1;
    }
    proof {
        assert(texts(lines@) =~= lines_of(config@, texts(names@)));
        assert forall|other: Seq<Text>| is_listing(other, config@) implies texts(lines@)
            == lines_of(config@, other) by {
            law_listing_is_determined(other, texts(names@), config@);
        }
    }
    lines
}

} // verus!
