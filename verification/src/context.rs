//! The project, toolchain set, target and run that are currently worked with.

use crate::text::{blank, cat2, is_blank, trim, trimmed};
use vstd::prelude::*;
use vstd::string::*;

verus! {

/// A template to choose from.
#[derive(Debug)]
pub struct ProjectTemplateOption {
    pub id: String,
    pub name: String,
}

/// A toolchain set to choose from.
#[derive(Debug)]
pub struct ToolchainSetOption {
    pub id: String,
    pub label: String,
}

/// A target to choose from.
#[derive(Debug)]
pub struct TargetOption {
    pub id: String,
    pub label: String,
}

/// What is currently worked with; an empty text stands for nothing.
#[derive(Debug)]
pub struct ActiveContext {
    pub run_id: String,
    pub project_id: String,
    pub project_path: String,
    pub toolchain_set_id: String,
    pub target_id: String,
}

/// The text that refers to a project: its id, or its path where the id is blank.
pub open spec fn project_reference(project_id: Seq<char>, project_path: Seq<char>) -> Seq<char> {
    if blank(project_id) {
        project_path
    } else {
        project_id
    }
}

/// What a label shows for a value: a dash for an empty one.
pub open spec fn shown_value(value: Seq<char>) -> Seq<char> {
    if value.len() == 0 {
        "-"@
    } else {
        value
    }
}

/// What a label shows for a value: a dash for an empty one.
pub fn format_context_value(value: &str) -> (r: &str)
    ensures
        r@ == shown_value(value@),
{
    if value.is_empty() {
        "-"
    } else {
        value
    }
}

/// The labels of the context bar.
#[derive(Debug)]
pub struct ContextLabels {
    pub project: String,
    pub toolchain_set: String,
    pub target: String,
    pub run: String,
}

impl ActiveContext {
    /// The text that refers to the project: its id, or its path where the id is blank.
    pub fn project_ref(&self) -> (r: String)
        ensures
            r@ == project_reference(self.project_id@, self.project_path@),
    {
        if !is_blank(self.project_id.as_str()) {
            self.project_id.clone()
        } else {
            self.project_path.clone()
        }
    }

    /// The labels of the context bar.
    pub fn labels(&self) -> (r: ContextLabels)
        ensures
            r.project@ == "Project: "@ + shown_value(
                trimmed(project_reference(self.project_id@, self.project_path@)),
            ),
            r.toolchain_set@ == "Toolchain set: "@ + shown_value(trimmed(self.toolchain_set_id@)),
            r.target@ == "Target: "@ + shown_value(trimmed(self.target_id@)),
            r.run@ == "Run: "@ + shown_value(trimmed(self.run_id@)),
    {
        let project: String = self.project_ref();
        ContextLabels {
            project: cat2("Project: ", format_context_value(trim(project.as_str()))),
            toolchain_set: cat2(
                "Toolchain set: ",
                format_context_value(trim(self.toolchain_set_id.as_str())),
            ),
            target: cat2("Target: ", format_context_value(trim(self.target_id.as_str()))),
            run: cat2("Run: ", format_context_value(trim(self.run_id.as_str()))),
        }
    }
}

impl Clone for ProjectTemplateOption {
    fn clone(&self) -> (r: Self)
        ensures
            r == *self,
    {
        ProjectTemplateOption { id: self.id.clone(), name: self.name.clone() }
    }
}

impl Clone for ToolchainSetOption {
    fn clone(&self) -> (r: Self)
        ensures
            r == *self,
    {
        ToolchainSetOption { id: self.id.clone(), label: self.label.clone() }
    }
}

impl Clone for TargetOption {
    fn clone(&self) -> (r: Self)
        ensures
            r == *self,
    {
        TargetOption { id: self.id.clone(), label: self.label.clone() }
    }
}

/// A project is referred to by its id, or by its path where it has none; and what is empty is shown
/// as a dash.
pub proof fn law_references(project_id: Seq<char>, project_path: Seq<char>, value: Seq<char>)
    ensures
        !blank(project_id) ==> project_reference(project_id, project_path) == project_id,
        blank(project_id) ==> project_reference(project_id, project_path) == project_path,
        value.len() > 0 ==> shown_value(value) == value,
        value.len() == 0 ==> shown_value(value) == "-"@,
{
}

} // verus!
