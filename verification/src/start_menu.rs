//! The start menu state: the list of known projects, the name being typed,
//! and the selection, kept in step with the config store.

use vstd::prelude::*;
use vstd::string::StringExecFns;
use vstd::string::StrSliceExecFns;
use crate::config::ConfigStore;
use crate::logs::DbError;
use crate::sqlite;

verus! {

/// A message handled by the start menu.
#[derive(Debug)]
pub enum StartMenuMessage {
    SelectedProject(usize, String),
    CreateProject(String),
    UpdateProjectName(String),
    LoadSelectedProject(String),
    DeleteProject(String, usize),
}

/// The start menu state.
pub struct StartMenu {
    pub selected_project_index: Option<usize>,
    pub input_project_name: String,
    pub projects: Vec<String>,
    pub err: Option<String>,
}

impl StartMenu {
    /// A menu built from a project-listing outcome (the result of
    /// `ConfigStore::project_list`): the listed names on success, otherwise
    /// an empty list and the error's text.
    pub fn new(listing: Result<Vec<String>, DbError>) -> (s: Self)
        ensures
            s.selected_project_index is None,
            s.input_project_name@ == Seq::<char>::empty(),
            listing matches Ok(ps) ==> s.projects == ps && s.err is None,
            listing matches Err(e) ==> s.projects@.len() == 0 && s.err is Some,
    {
        let (projects, err) = match listing {
            Ok(projects) => (projects, None),
            Err(e) => (Vec::new(), Some(e.message())),
        };
        proof {
            reveal_strlit("");
        }
        StartMenu { selected_project_index: None, input_project_name: String::from_str(""), projects, err }
    }

    /// Handles one start-menu message: creating a project persists the name
    /// and adds it to the list; deleting one removes the row and the list
    /// entry; selection and the typed name track the messages. Loading is
    /// the host's to perform. The result reports a failed store operation.
    pub fn update(&mut self, store: &mut ConfigStore, message: StartMenuMessage) -> (r: Result<
        (),
        DbError,
    >)
        ensures
            match message {
                StartMenuMessage::SelectedProject(idx, name) => {
                    &&& final(self).selected_project_index == Some(idx)
                    &&& final(self).projects == old(self).projects
                    &&& r is Ok
                },
                StartMenuMessage::UpdateProjectName(name) => {
                    &&& final(self).input_project_name == name
                    &&& final(self).projects == old(self).projects
                    &&& r is Ok
                },
                StartMenuMessage::LoadSelectedProject(name) => {
                    &&& *final(self) == *old(self)
                    &&& r is Ok
                },
                StartMenuMessage::CreateProject(name) => {
                    &&& (name@.len() > 0 && r is Ok && old(store).ready()) ==> {
                        &&& final(store).projects() == old(store).projects().push(name@)
                        &&& final(self).projects@ == old(self).projects@.push(name)
                        &&& final(self).input_project_name@ == Seq::<char>::empty()
                    }
                    &&& name@.len() == 0 ==> {
                        &&& *final(self) == *old(self)
                        &&& *final(store) == *old(store)
                        &&& r is Ok
                    }
                    &&& r is Err ==> final(self).projects == old(self).projects
                },
                StartMenuMessage::DeleteProject(name, index) => {
                    &&& (r is Ok && old(store).ready() && index < old(self).projects@.len())
                        ==> final(store).projects() == sqlite::projects_without(
                        old(store).projects(),
                        name@,
                    ) && final(self).projects@ == old(self).projects@.remove(index as int)
                        && final(self).selected_project_index is None
                    &&& r is Err ==> final(self).projects == old(self).projects
                },
            },
    {
        match message {
            StartMenuMessage::CreateProject(project_name) => {
                if project_name.unicode_len() > 0 {
                    match store.create_project(project_name.as_str()) {
                        Ok(u) => {},
                        Err(e) => {
                            return Err(e);
                        },
                    }
                    self.projects.push(project_name);
                    proof {
                        reveal_strlit("");
                    }
                    self.input_project_name = String::from_str("");
                }
                Ok(())
            },
            StartMenuMessage::SelectedProject(row_index, _project_name) => {
                self.selected_project_index = Some(row_index);
                Ok(())
            },
            StartMenuMessage::UpdateProjectName(project_name) => {
                self.input_project_name = project_name;
                Ok(())
            },
            StartMenuMessage::DeleteProject(name, index) => {
                if index < self.projects.len() {
                    match store.delete_project(name.as_str()) {
                        Ok(u) => {},
                        Err(e) => {
                            return Err(e);
                        },
                    }
                    self.projects.remove(index);
                    self.selected_project_index = None;
                }
                Ok(())
            },
            StartMenuMessage::LoadSelectedProject(_project_name) => Ok(()),
        }
    }
}

} // verus!
