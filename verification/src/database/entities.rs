//! Registry row types: projects, templates, and the on-disk project
//! configuration.

use vstd::prelude::*;
use vstd::string::StringExecFns;

verus! {

/// The contents of a project's `.amproject` configuration file.
pub struct ProjectConfiguration {
    pub name: String,
    pub default_configuration: String,
    pub sources_dir: String,
    pub data_dir: String,
    pub build_dir: String,
    pub version: u32,
}

/// A registered project: a row of the registry.
pub struct Project {
    /// Row id assigned by the store; `None` before registration.
    pub id: Option<i32>,
    /// Unique project name.
    pub name: String,
    /// Directory the project lives in.
    pub path: String,
    /// Timestamp assigned by the store; `None` before registration.
    pub registered_at: Option<String>,
}

/// A registered template: a row of the registry.
pub struct Template {
    /// Row id assigned by the store; `None` for built-in templates.
    pub id: Option<i32>,
    /// Unique template name.
    pub name: String,
    /// Directory the template lives in.
    pub path: String,
}

impl ProjectConfiguration {
    /// Build the registry row for this configuration, rooted at `path`.
    pub fn to_project(&self, path: &str) -> (r: Project)
        ensures
            r.id is None,
            r.name@ == self.name@,
            r.path@ == path@,
            r.registered_at is None,
    {
        Project {
            id: None,
            name: self.name.clone(),
            path: path.to_owned(),
            registered_at: None,
        }
    }
}

impl Default for ProjectConfiguration {
    /// All fields empty, version 0.
    fn default() -> (r: ProjectConfiguration)
        ensures
            r.name@ == Seq::<char>::empty(),
            r.default_configuration@ == Seq::<char>::empty(),
            r.sources_dir@ == Seq::<char>::empty(),
            r.data_dir@ == Seq::<char>::empty(),
            r.build_dir@ == Seq::<char>::empty(),
            r.version == 0,
    {
        ProjectConfiguration {
            name: String::new(),
            default_configuration: String::new(),
            sources_dir: String::new(),
            data_dir: String::new(),
            build_dir: String::new(),
            version: 0,
        }
    }
}

impl Clone for ProjectConfiguration {
    /// Field-for-field copy.
    fn clone(&self) -> (r: ProjectConfiguration)
        ensures
            r.name@ == self.name@,
            r.default_configuration@ == self.default_configuration@,
            r.sources_dir@ == self.sources_dir@,
            r.data_dir@ == self.data_dir@,
            r.build_dir@ == self.build_dir@,
            r.version == self.version,
    {
        ProjectConfiguration {
            name: self.name.clone(),
            default_configuration: self.default_configuration.clone(),
            sources_dir: self.sources_dir.clone(),
            data_dir: self.data_dir.clone(),
            build_dir: self.build_dir.clone(),
            version: self.version,
        }
    }
}

impl Default for Project {
    /// No id, empty name and path, no registration timestamp.
    fn default() -> (r: Project)
        ensures
            r.id is None,
            r.name@ == Seq::<char>::empty(),
            r.path@ == Seq::<char>::empty(),
            r.registered_at is None,
    {
        Project { id: None, name: String::new(), path: String::new(), registered_at: None }
    }
}

impl Clone for Project {
    /// Field-for-field copy.
    fn clone(&self) -> (r: Project)
        ensures
            r.id == self.id,
            r.name@ == self.name@,
            r.path@ == self.path@,
            r.registered_at is Some <==> self.registered_at is Some,
            r.registered_at matches Some(t) ==> t@ == self.registered_at->0@,
    {
        Project {
            id: self.id,
            name: self.name.clone(),
            path: self.path.clone(),
            registered_at: match &self.registered_at {
                Some(t) => Some(t.clone()),
                None => None,
            },
        }
    }
}

impl Clone for Template {
    /// Field-for-field copy.
    fn clone(&self) -> (r: Template)
        ensures
            r.id == self.id,
            r.name@ == self.name@,
            r.path@ == self.path@,
    {
        Template { id: self.id, name: self.name.clone(), path: self.path.clone() }
    }
}

impl Template {
    /// The display label for a template: `name (path)` for a stored row,
    /// the bare name for a built-in one.
    pub open spec fn spec_label(self) -> Seq<char> {
        if self.id is Some {
            self.name@ + " ("@ + self.path@ + ")"@
        } else {
            self.name@
        }
    }

    /// Render the display label.
    pub fn label(&self) -> (r: String)
        ensures
            r@ == self.spec_label(),
    {
        if self.id.is_some() {
            self.name.clone().concat(" (").concat(self.path.as_str()).concat(")")
        } else {
            self.name.clone()
        }
    }
}

} // verus!
