//! The session: which workspace is active, and the index last written.
//!
//! Each operation is split at the file system. The session says where to
//! read or what to do; the driver does it and hands the outcome back; the
//! session decides what that outcome means.

use vstd::prelude::*;
use vstd::utf8::{decode_utf8, valid_utf8};
use crate::content::{Config, WorkspaceContent, WorkspaceContentView};
use crate::error::StateError;
use crate::location::{config_segment, index_segment, note_at, under, Location};
use crate::names::{filename_of, note_filename};
use crate::plan::{Action, ActionView, OnFailure, Step, StepView, Template};
use crate::platform::{
    create_id, identity, is_id_char, is_lower_letter, project_config_dir, string_from_utf8,
};
use crate::save::{started, SaveFile};
use crate::setup::{plan_setup, planned_setup, SetupPlan};
use crate::slug::{is_filename_char, slug_of, slugify};

verus! {

/// What the driver found where the configuration file should be.
pub enum ConfigFile {
    /// There is no such file.
    Missing,
    /// The file does not parse.
    Malformed,
    /// The file holds this configuration.
    Parsed(Config),
}

/// What the driver found where the workspace index should be.
pub enum IndexFile {
    /// The file is missing or cannot be read.
    Unreadable,
    /// The file does not parse.
    Malformed,
    /// The file holds this index.
    Parsed(WorkspaceContent),
}

/// The session's state.
pub struct State {
    /// The directory of the active workspace.
    pub workspace_path: String,
    workspace_content: Option<WorkspaceContent>,
}

/// The mathematical content of a `State`.
pub struct StateView {
    /// The directory of the active workspace.
    pub workspace_path: Seq<char>,
    /// The index last written through this session, if any.
    pub workspace_content: Option<WorkspaceContentView>,
}

impl View for State {
    type V = StateView;

    closed spec fn view(&self) -> StateView {
        StateView {
            workspace_path: self.workspace_path@,
            workspace_content: match self.workspace_content {
                Some(content) => Some(content@),
                None => None,
            },
        }
    }
}

/// The step that makes the file of a new note with the id `file_id` in
/// the workspace at `root`: the empty template, written under the note's
/// default name.
pub open spec fn new_note_step(root: Seq<char>, file_id: Seq<char>) -> StepView {
    StepView {
        action: ActionView::WriteTemplate {
            to: note_at(root, note_filename(file_id)),
            template: Template::Empty,
        },
        on_failure: OnFailure::Fail(StateError::NoteCreateFailed),
    }
}

/// Where the configuration file lies, from what the platform named as
/// the configuration directory. Where it named none, the failure is
/// `NoConfigDirectory`.
pub fn locate_config(config_dir: Option<String>) -> (place: Result<Location, StateError>)
    ensures
        config_dir is None ==> place is Err && place->Err_0 == StateError::NoConfigDirectory,
        config_dir matches Some(dir) ==> place matches Ok(p) && p@ == under(dir@, config_segment()),
{
    match config_dir {
        None => Err(StateError::NoConfigDirectory),
        Some(dir) => Ok(Location::config_file(dir.as_str())),
    }
}

impl State {
    /// A session with no active workspace and no index.
    pub fn new() -> (state: State)
        ensures
            state@ == (StateView { workspace_path: Seq::empty(), workspace_content: None }),
    {
        State { workspace_path: String::new(), workspace_content: None }
    }

    /// The index last written through this session, if any.
    pub fn workspace_content(&self) -> (content: Option<&WorkspaceContent>)
        ensures
            content is Some == self@.workspace_content is Some,
            content matches Some(c) ==> self@.workspace_content == Some(c@),
    {
        match &self.workspace_content {
            Some(content) => Some(content),
            None => None,
        }
    }

    /// Starts the save of the note `id` in the active workspace: the
    /// title's slug is taken, and the save stands before its first
    /// request. The slug holds only characters that are safe in a file
    /// name. The session itself does not change.
    pub fn save_file(&mut self, id: &str, title: &str, current_filename: &str, content: &str) -> (save:
        SaveFile)
        ensures
            save@ == started(
                old(self)@.workspace_path,
                id@,
                slug_of(title@),
                title@,
                current_filename@,
                content@,
            ),
            forall|i: int| 0 <= i < save@.slug.len() ==> is_filename_char(#[trigger] save@.slug[i]),
            *final(self) == *old(self),
    {
        let slug: String = slugify(title);
        SaveFile::begin(
            self.workspace_path.as_str(),
            id,
            slug.as_str(),
            title,
            current_filename,
            content,
        )
    }

    /// The step that makes the file of a new note in the active
    /// workspace. The session itself does not change.
    pub fn create_new_file(&mut self, file_id: &str) -> (step: Step)
        ensures
            step@ == new_note_step(old(self)@.workspace_path, file_id@),
            *final(self) == *old(self),
    {
        let filename: String = filename_of(file_id);
        Step {
            action: Action::WriteTemplate {
                to: Location::note_file(self.workspace_path.as_str(), filename.as_str()),
                template: Template::Empty,
            },
            on_failure: OnFailure::Fail(StateError::NoteCreateFailed),
        }
    }

    /// Where the note file `filename` of the active workspace lies.
    pub fn note_location(&self, filename: &str) -> (place: Location)
        ensures
            place@ == note_at(self@.workspace_path, filename@),
    {
        Location::note_file(self.workspace_path.as_str(), filename)
    }

    /// The text of a note, from what reading its file gave: `None` where
    /// the file could not be read, else its bytes. The session itself
    /// does not change.
    pub fn load_note(&mut self, read: Option<Vec<u8>>) -> (text: Result<String, StateError>)
        ensures
            read is None ==> text == Err::<String, StateError>(StateError::NoteReadFailed),
            read matches Some(bytes) ==> {
                if valid_utf8(bytes@) {
                    text matches Ok(s) && s@ == decode_utf8(bytes@)
                } else {
                    text == Err::<String, StateError>(StateError::NoteNotValidText)
                }
            },
            *final(self) == *old(self),
    {
        match read {
            None => Err(StateError::NoteReadFailed),
            Some(bytes) => match string_from_utf8(bytes) {
                Some(s) => Ok(s),
                None => Err(StateError::NoteNotValidText),
            },
        }
    }

    /// Where the index of the active workspace lies.
    pub fn index_location(&self) -> (place: Location)
        ensures
            place@ == under(self@.workspace_path, index_segment()),
    {
        Location::index_file(self.workspace_path.as_str())
    }

    /// Takes note of an attempt to write `workspace_content` to the index
    /// file. If it was written, the session remembers it in place of what
    /// it remembered before; if not, the session stays as it was and the
    /// update fails.
    pub fn update_workspace_content(
        &mut self,
        workspace_content: &WorkspaceContent,
        written: bool,
    ) -> (done: Result<(), StateError>)
        ensures
            written ==> done is Ok && final(self)@ == (StateView {
                workspace_content: Some(workspace_content@),
                ..old(self)@
            }),
            !written ==> done == Err::<(), StateError>(StateError::IndexWriteFailed) && *final(self)
                == *old(self),
    {
        if written {
            self.workspace_content = Some(workspace_content.clone());
            Ok(())
        } else {
            Err(StateError::IndexWriteFailed)
        }
    }

    /// Plans the setup of a new workspace at `workspace_path_str`. The
    /// platform is asked for the configuration directory of the
    /// application's `identity`. It fails, with `NoConfigDirectory`, only
    /// where the platform names none. The plan is that of `planned_setup`,
    /// for the platform's directory and a new id that begins with a letter
    /// and holds only lower-case letters and digits. The session itself
    /// does not change.
    pub fn first_time_setup(&mut self, workspace_path_str: &str) -> (plan: Result<
        SetupPlan,
        StateError,
    >)
        ensures
            plan is Err ==> plan->Err_0 == StateError::NoConfigDirectory,
            plan matches Ok(p) ==> exists|config_dir: Seq<char>, id: Seq<char>|
                {
                    &&& id.len() > 0
                    &&& is_lower_letter(id[0])
                    &&& forall|i: int| 0 <= i < id.len() ==> is_id_char(#[trigger] id[i])
                    &&& p@ == #[trigger] planned_setup(config_dir, workspace_path_str@, id)
                },
            *final(self) == *old(self),
    {
        let (qualifier, organization, application) = identity();
        let config_dir: Option<String> = project_config_dir(qualifier, organization, application);
        let id: String = create_id();
        plan_setup(config_dir, workspace_path_str, id)
    }

    /// Where the configuration file lies. The platform is asked for the
    /// configuration directory of the application's `identity`. It fails,
    /// with `NoConfigDirectory`, only where the platform names none. The
    /// session itself does not change.
    pub fn find_config(&mut self) -> (place: Result<Location, StateError>)
        ensures
            place is Err ==> place->Err_0 == StateError::NoConfigDirectory,
            place matches Ok(p) ==> exists|config_dir: Seq<char>|
                p@ == #[trigger] under(config_dir, config_segment()),
            *final(self) == *old(self),
    {
        let (qualifier, organization, application) = identity();
        locate_config(project_config_dir(qualifier, organization, application))
    }

    /// Makes the first workspace of the configuration the active one and
    /// says where its index lies. A missing file, a file that does not
    /// parse and one that lists no workspace each fail with an error of
    /// their own, and leave the session as it was.
    pub fn load_config(&mut self, found: ConfigFile) -> (index: Result<Location, StateError>)
        ensures
            found is Missing ==> index == Err::<Location, StateError>(StateError::NotConfigured),
            found is Malformed ==> index == Err::<Location, StateError>(
                StateError::MalformedConfig,
            ),
            found matches ConfigFile::Parsed(config) ==> {
                if config@.len() == 0 {
                    index == Err::<Location, StateError>(StateError::NoWorkspaceConfigured)
                } else {
                    &&& index matches Ok(place)
                    &&& place@ == under(config@[0], index_segment())
                    &&& final(self)@ == (StateView { workspace_path: config@[0], ..old(self)@ })
                }
            },
            index is Err ==> *final(self) == *old(self),
    {
        match found {
            ConfigFile::Missing => Err(StateError::NotConfigured),
            ConfigFile::Malformed => Err(StateError::MalformedConfig),
            ConfigFile::Parsed(config) => {
                if config.workspace_paths.len() == 0 {
                    Err(StateError::NoWorkspaceConfigured)
                } else {
                    self.workspace_path = config.workspace_paths[0].clone();
                    Ok(Location::index_file(self.workspace_path.as_str()))
                }
            },
        }
    }

    /// The index of the active workspace, from what the driver found in
    /// its place. The session itself does not change.
    pub fn load_index(&mut self, found: IndexFile) -> (content: Result<
        WorkspaceContent,
        StateError,
    >)
        ensures
            found is Unreadable ==> content is Err && content->Err_0
                == StateError::IndexReadFailed,
            found is Malformed ==> content is Err && content->Err_0 == StateError::IndexMalformed,
            found matches IndexFile::Parsed(c) ==> content == Ok::<WorkspaceContent, StateError>(c),
            *final(self) == *old(self),
    {
        match found {
            IndexFile::Unreadable => Err(StateError::IndexReadFailed),
            IndexFile::Malformed => Err(StateError::IndexMalformed),
            IndexFile::Parsed(content) => Ok(content),
        }
    }
}

} // verus!
