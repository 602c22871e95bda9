use epiphany::content::{Config, ContentItem, WorkspaceContent};
use epiphany::error::StateError;
use epiphany::plan::{directory_ready, Action, DirCreation, OnFailure, Step, Template, Verdict};
use epiphany::platform::identity;
use epiphany::setup::{plan_setup, seed, setup_plan};
use epiphany::state::{locate_config, ConfigFile, IndexFile, State};

fn sample_content() -> WorkspaceContent {
    let child = ContentItem::new("Child".to_string(), "child.djot".to_string(), "c1".to_string(), Vec::new());
    let parent = ContentItem::new("Parent".to_string(), "parent.djot".to_string(), "par1".to_string(), vec![child]);
    let other = ContentItem::new("Other".to_string(), "other.djot".to_string(), "o1".to_string(), Vec::new());
    WorkspaceContent::new("notes".to_string(), "/ws".to_string(), vec![parent, other])
}

fn assert_same_item(a: &ContentItem, b: &ContentItem) {
    assert_eq!(a.name(), b.name());
    assert_eq!(a.filename(), b.filename());
    assert_eq!(a.id(), b.id());
    assert_eq!(a.children().len(), b.children().len());
    for (x, y) in a.children().iter().zip(b.children().iter()) {
        assert_same_item(x, y);
    }
}

fn assert_same_content(a: &WorkspaceContent, b: &WorkspaceContent) {
    assert_eq!(a.workspace_title(), b.workspace_title());
    assert_eq!(a.absolute_path(), b.absolute_path());
    assert_eq!(a.content_table().len(), b.content_table().len());
    for (x, y) in a.content_table().iter().zip(b.content_table().iter()) {
        assert_same_item(x, y);
    }
}

#[test]
fn new_session_is_empty() {
    let state = State::new();
    assert_eq!(state.workspace_path, "");
    assert!(state.workspace_content().is_none());
}

#[test]
fn content_keeps_what_it_was_given() {
    let content = sample_content();
    assert_eq!(content.workspace_title(), "notes");
    assert_eq!(content.absolute_path(), "/ws");
    assert_eq!(content.content_table().len(), 2);
    let parent = &content.content_table()[0];
    assert_eq!(parent.name(), "Parent");
    assert_eq!(parent.filename(), "parent.djot");
    assert_eq!(parent.id(), "par1");
    assert_eq!(parent.children().len(), 1);
    assert_eq!(parent.children()[0].id(), "c1");
    assert_eq!(content.content_table()[1].name(), "Other");
}

#[test]
fn clone_copies_the_whole_tree() {
    let content = sample_content();
    let copy = content.clone();
    assert_same_content(&content, &copy);
    let item = content.content_table()[0].clone();
    assert_same_item(&item, &content.content_table()[0]);
}

#[test]
fn written_index_is_remembered() {
    let mut state = State::new();
    state.workspace_path = "/ws".to_string();
    let place = state.index_location();
    assert_eq!(place.base, "/ws");
    assert_eq!(place.segments, vec!["epiphany.json".to_string()]);
    let content = sample_content();
    assert!(state.update_workspace_content(&content, true).is_ok());
    assert_same_content(state.workspace_content().unwrap(), &content);
    assert_eq!(state.workspace_path, "/ws");
}

#[test]
fn unwritten_index_is_not_remembered() {
    let mut state = State::new();
    let content = sample_content();
    assert!(matches!(
        state.update_workspace_content(&content, false),
        Err(StateError::IndexWriteFailed)
    ));
    assert!(state.workspace_content().is_none());
    assert!(state.update_workspace_content(&content, true).is_ok());
    let seeded = seed("/other", "id1".to_string());
    assert!(matches!(
        state.update_workspace_content(&seeded, false),
        Err(StateError::IndexWriteFailed)
    ));
    assert_same_content(state.workspace_content().unwrap(), &content);
}

#[test]
fn later_index_replaces_the_earlier() {
    let mut state = State::new();
    assert!(state.update_workspace_content(&sample_content(), true).is_ok());
    let seeded = seed("/other", "id1".to_string());
    assert!(state.update_workspace_content(&seeded, true).is_ok());
    assert_same_content(state.workspace_content().unwrap(), &seeded);
}

#[test]
fn missing_config_is_not_configured() {
    let mut state = State::new();
    assert!(matches!(state.load_config(ConfigFile::Missing), Err(StateError::NotConfigured)));
    assert_eq!(state.workspace_path, "");
}

#[test]
fn malformed_config_is_told_apart() {
    let mut state = State::new();
    assert!(matches!(state.load_config(ConfigFile::Malformed), Err(StateError::MalformedConfig)));
    assert_eq!(state.workspace_path, "");
}

#[test]
fn empty_config_has_no_workspace() {
    let mut state = State::new();
    state.workspace_path = "/before".to_string();
    let config = Config { workspace_paths: Vec::new() };
    assert!(matches!(
        state.load_config(ConfigFile::Parsed(config)),
        Err(StateError::NoWorkspaceConfigured)
    ));
    assert_eq!(state.workspace_path, "/before");
}

#[test]
fn first_workspace_becomes_active() {
    let mut state = State::new();
    let config = Config { workspace_paths: vec!["/first".to_string(), "/second".to_string()] };
    let place = state.load_config(ConfigFile::Parsed(config)).unwrap();
    assert_eq!(place.base, "/first");
    assert_eq!(place.segments, vec!["epiphany.json".to_string()]);
    assert_eq!(state.workspace_path, "/first");
    assert!(state.workspace_content().is_none());
}

#[test]
fn index_outcomes() {
    let mut state = State::new();
    assert!(matches!(state.load_index(IndexFile::Unreadable), Err(StateError::IndexReadFailed)));
    assert!(matches!(state.load_index(IndexFile::Malformed), Err(StateError::IndexMalformed)));
    let loaded = state.load_index(IndexFile::Parsed(sample_content())).unwrap();
    assert_same_content(&loaded, &sample_content());
    assert!(state.workspace_content().is_none());
}

#[test]
fn note_text_is_decoded() {
    let mut state = State::new();
    state.workspace_path = "/ws".to_string();
    let place = state.note_location("a.djot");
    assert_eq!(place.base, "/ws");
    assert_eq!(place.segments, vec!["notes".to_string(), "a.djot".to_string()]);
    assert_eq!(state.load_note(Some("héllo\n".as_bytes().to_vec())).unwrap(), "héllo\n");
    assert_eq!(state.load_note(Some(Vec::new())).unwrap(), "");
}

#[test]
fn note_that_is_no_text_is_refused() {
    let mut state = State::new();
    assert!(matches!(state.load_note(Some(vec![0x66, 0xff, 0x6f])), Err(StateError::NoteNotValidText)));
    assert!(matches!(state.load_note(Some(vec![0xc3])), Err(StateError::NoteNotValidText)));
    assert!(matches!(state.load_note(Some(vec![0xed, 0xa0, 0x80])), Err(StateError::NoteNotValidText)));
}

#[test]
fn unread_note_fails() {
    let mut state = State::new();
    assert!(matches!(state.load_note(None), Err(StateError::NoteReadFailed)));
}

#[test]
fn new_note_gets_the_empty_template_under_its_default_name() {
    let mut state = State::new();
    state.workspace_path = "/ws".to_string();
    let step = state.create_new_file("abc123");
    match &step.action {
        Action::WriteTemplate { to, template } => {
            assert_eq!(to.base, "/ws");
            assert_eq!(to.segments, vec!["notes".to_string(), "abc123.djot".to_string()]);
            assert_eq!(*template, Template::Empty);
        }
        _ => panic!("a new note is a template written"),
    }
    assert_eq!(step.on_failure, OnFailure::Fail(StateError::NoteCreateFailed));
    assert_eq!(step.verdict(true), Verdict::Continue);
    assert_eq!(step.verdict(false), Verdict::Stop(StateError::NoteCreateFailed));
}

#[test]
fn template_names() {
    assert_eq!(Template::Empty.asset_name(), "empty.djot");
    assert_eq!(Template::Welcome.asset_name(), "welcome.djot");
}

#[test]
fn existing_directory_counts_as_made() {
    assert!(directory_ready(DirCreation::Created));
    assert!(directory_ready(DirCreation::AlreadyExists));
    assert!(!directory_ready(DirCreation::Failed));
}

#[test]
fn verdicts() {
    let place = || epiphany::location::Location::new("/x");
    let raise = Step { action: Action::CreateDir(place()), on_failure: OnFailure::Propagate };
    assert_eq!(raise.verdict(false), Verdict::Raise);
    assert_eq!(raise.verdict(true), Verdict::Continue);
    let fail = Step {
        action: Action::CreateDir(place()),
        on_failure: OnFailure::Fail(StateError::IndexWriteFailed),
    };
    assert_eq!(fail.verdict(false), Verdict::Stop(StateError::IndexWriteFailed));
}

#[test]
fn seed_holds_the_welcome_note() {
    let content = seed("/ws", "id42".to_string());
    assert_eq!(content.workspace_title(), "notes");
    assert_eq!(content.absolute_path(), "/ws");
    assert_eq!(content.content_table().len(), 1);
    let welcome = &content.content_table()[0];
    assert_eq!(welcome.name(), "Welcome to Epiphany");
    assert_eq!(welcome.filename(), "welcome_to_epiphany.djot");
    assert_eq!(welcome.id(), "id42");
    assert!(welcome.children().is_empty());
}

fn describe(step: &Step) -> String {
    let (kind, to) = match &step.action {
        Action::CreateDir(to) => ("dir", to),
        Action::WriteConfig { to, .. } => ("config", to),
        Action::WriteTemplate { to, .. } => ("template", to),
        Action::WriteIndex { to, .. } => ("index", to),
    };
    format!("{} {} {:?} {:?}", kind, to.base, to.segments, step.on_failure)
}

#[test]
fn setup_plan_lists_its_steps_in_order() {
    let plan = setup_plan("/cfg", "/ws", "id42".to_string());
    let lines: Vec<String> = plan.steps.iter().map(describe).collect();
    assert_eq!(
        lines,
        vec![
            "dir /cfg [] Propagate".to_string(),
            "config /cfg [\"epiphany.conf.json\"] Propagate".to_string(),
            "dir /ws [] Propagate".to_string(),
            "dir /ws [\"assets\"] Propagate".to_string(),
            "dir /ws [\"notes\"] Propagate".to_string(),
            "template /ws [\"notes\", \"welcome_to_epiphany.djot\"] Fail(NoteCreateFailed)".to_string(),
            "index /ws [\"epiphany.json\"] Fail(IndexWriteFailed)".to_string(),
        ]
    );
    match &plan.steps[1].action {
        Action::WriteConfig { config, .. } => assert_eq!(config.workspace_paths, vec!["/ws".to_string()]),
        _ => panic!("the second step writes the configuration"),
    }
    match &plan.steps[5].action {
        Action::WriteTemplate { template, .. } => assert_eq!(*template, Template::Welcome),
        _ => panic!("the sixth step writes the welcome note"),
    }
    match &plan.steps[6].action {
        Action::WriteIndex { content, .. } => assert_same_content(content, &plan.content),
        _ => panic!("the last step writes the index"),
    }
    assert_same_content(&plan.content, &seed("/ws", "id42".to_string()));
}

#[test]
fn setup_asks_for_the_same_places_when_run_again() {
    let first = setup_plan("/cfg", "/ws", "ida".to_string());
    let second = setup_plan("/cfg", "/ws", "idb".to_string());
    let a: Vec<String> = first.steps.iter().map(describe).collect();
    let b: Vec<String> = second.steps.iter().map(describe).collect();
    assert_eq!(a, b);
    for step in second.steps.iter() {
        let ok = match &step.action {
            Action::CreateDir(_) => directory_ready(DirCreation::AlreadyExists),
            _ => true,
        };
        assert_eq!(step.verdict(ok), Verdict::Continue);
    }
    assert_eq!(second.content.content_table()[0].id(), "idb");
}

#[test]
fn every_failed_step_ends_setup() {
    let plan = setup_plan("/cfg", "/ws", "id".to_string());
    for step in plan.steps.iter() {
        assert_eq!(step.verdict(true), Verdict::Continue);
        assert_ne!(step.verdict(false), Verdict::Continue);
    }
    assert_eq!(plan.steps[0].verdict(false), Verdict::Raise);
    assert_eq!(plan.steps[1].verdict(false), Verdict::Raise);
    assert_eq!(plan.steps[2].verdict(false), Verdict::Raise);
    assert_eq!(plan.steps[3].verdict(false), Verdict::Raise);
    assert_eq!(plan.steps[4].verdict(false), Verdict::Raise);
    assert_eq!(plan.steps[5].verdict(false), Verdict::Stop(StateError::NoteCreateFailed));
    assert_eq!(plan.steps[6].verdict(false), Verdict::Stop(StateError::IndexWriteFailed));
}

#[test]
fn first_time_setup_plans_with_a_new_id() {
    let mut state = State::new();
    match (state.first_time_setup("/ws"), state.first_time_setup("/ws")) {
        (Ok(first), Ok(second)) => {
            assert_eq!(first.steps.len(), 7);
            let id1 = first.content.content_table()[0].id().to_string();
            let id2 = second.content.content_table()[0].id().to_string();
            assert!(id1.chars().next().unwrap().is_ascii_lowercase());
            assert!(id1.chars().all(|c| c.is_ascii_lowercase() || c.is_ascii_digit()));
            assert_ne!(id1, id2);
            assert_eq!(first.content.absolute_path(), "/ws");
            let config_dir = match &first.steps[0].action {
                Action::CreateDir(to) => to.base.clone(),
                _ => panic!("the first step makes the configuration directory"),
            };
            assert!(!config_dir.is_empty());
            assert_ne!(config_dir, "com");
            assert_ne!(config_dir, "Epiphany");
            assert!(config_dir.to_lowercase().contains("epiphany"));
            let found = state.find_config().unwrap();
            assert_eq!(found.base, config_dir);
            assert_eq!(found.segments, vec!["epiphany.conf.json".to_string()]);
        }
        (Err(a), Err(b)) => {
            assert_eq!(a, StateError::NoConfigDirectory);
            assert_eq!(b, StateError::NoConfigDirectory);
            assert!(matches!(state.find_config(), Err(StateError::NoConfigDirectory)));
        }
        _ => panic!("the platform changed its mind between two calls"),
    }
    assert_eq!(state.workspace_path, "");
    assert!(state.workspace_content().is_none());
}

#[test]
fn every_failure_has_a_message() {
    assert_eq!(StateError::NoConfigDirectory.message(), "No config directory found.");
    assert_eq!(StateError::NotConfigured.message(), "Not configured.");
    assert_eq!(StateError::MalformedConfig.message(), "The config file is malformed.");
    assert_eq!(StateError::NoWorkspaceConfigured.message(), "No workspace directories in the config.");
    assert_eq!(StateError::IndexReadFailed.message(), "The workspace index could not be read.");
    assert_eq!(StateError::IndexMalformed.message(), "The workspace index is malformed.");
    assert_eq!(StateError::IndexWriteFailed.message(), "The workspace index could not be written.");
    assert_eq!(StateError::NoteCreateFailed.message(), "The note could not be created.");
    assert_eq!(StateError::NoteReadFailed.message(), "The note could not be read.");
    assert_eq!(StateError::NoteNotValidText.message(), "The note is not valid UTF-8 text.");
    assert_eq!(StateError::NoteSaveFailed.message(), "The note could not be saved.");
}

#[test]
fn single_config_knows_one_workspace() {
    let config = Config::single("/ws");
    assert_eq!(config.workspace_paths, vec!["/ws".to_string()]);
}

#[test]
fn setup_needs_a_config_directory() {
    assert!(matches!(
        plan_setup(None, "/ws", "id".to_string()),
        Err(StateError::NoConfigDirectory)
    ));
    let plan = plan_setup(Some("/cfg".to_string()), "/ws", "id".to_string()).unwrap();
    assert_eq!(plan.steps.len(), 7);
    assert_eq!(plan.content.content_table()[0].id(), "id");
}

#[test]
fn config_file_lies_in_the_config_directory() {
    assert!(matches!(locate_config(None), Err(StateError::NoConfigDirectory)));
    let place = locate_config(Some("/cfg".to_string())).unwrap();
    assert_eq!(place.base, "/cfg");
    assert_eq!(place.segments, vec!["epiphany.conf.json".to_string()]);
}

/// What loading ends with, for a configuration file and an index file as
/// the driver might find them.
fn load(config: ConfigFile, index: IndexFile) -> (Result<WorkspaceContent, StateError>, String) {
    let mut state = State::new();
    let outcome = match state.load_config(config) {
        Err(e) => Err(e),
        Ok(place) => {
            assert_eq!(place.segments, vec!["epiphany.json".to_string()]);
            state.load_index(index)
        }
    };
    (outcome, state.workspace_path.clone())
}

#[test]
fn loading_goes_through_config_and_index() {
    let config = || ConfigFile::Parsed(Config { workspace_paths: vec!["/ws".to_string()] });
    let (loaded, active) = load(config(), IndexFile::Parsed(sample_content()));
    assert_same_content(&loaded.unwrap(), &sample_content());
    assert_eq!(active, "/ws");
    let (loaded, active) = load(config(), IndexFile::Unreadable);
    assert!(matches!(loaded, Err(StateError::IndexReadFailed)));
    assert_eq!(active, "/ws");
    let (loaded, _) = load(config(), IndexFile::Malformed);
    assert!(matches!(loaded, Err(StateError::IndexMalformed)));
    let (loaded, active) = load(ConfigFile::Missing, IndexFile::Parsed(sample_content()));
    assert!(matches!(loaded, Err(StateError::NotConfigured)));
    assert_eq!(active, "");
    let (loaded, _) = load(ConfigFile::Malformed, IndexFile::Parsed(sample_content()));
    assert!(matches!(loaded, Err(StateError::MalformedConfig)));
    let empty = ConfigFile::Parsed(Config { workspace_paths: Vec::new() });
    let (loaded, _) = load(empty, IndexFile::Parsed(sample_content()));
    assert!(matches!(loaded, Err(StateError::NoWorkspaceConfigured)));
}

#[test]
fn application_identity_is_fixed() {
    assert_eq!(identity(), ("com", "Epiphany", "Epiphany"));
}

#[test]
fn failed_directory_is_not_ready_and_ends_setup() {
    let plan = setup_plan("/cfg", "/ws", "id".to_string());
    for index in [0, 2, 3, 4] {
        let step = &plan.steps[index];
        assert!(matches!(step.action, Action::CreateDir(_)));
        assert_eq!(step.verdict(directory_ready(DirCreation::Failed)), Verdict::Raise);
        assert_eq!(step.verdict(directory_ready(DirCreation::AlreadyExists)), Verdict::Continue);
        assert_eq!(step.verdict(directory_ready(DirCreation::Created)), Verdict::Continue);
    }
}
