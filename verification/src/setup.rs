//! First-time setup of a workspace: the configuration that points to it,
//! its directories, the welcome note and the first index.

use vstd::prelude::*;
use crate::content::{
    has_note_extension, item_at, Config, ContentItem, ContentItemView, WorkspaceContent,
    WorkspaceContentView,
};
use crate::error::StateError;
use crate::location::{
    assets_segment, at, config_segment, index_segment, note_at, notes_segment, under, Location,
};
use crate::names::{filename_of, note_filename};
use crate::plan::{
    verdict_of, Action, ActionView, DirCreation, OnFailure, Step, StepView, Template, Verdict,
};

verus! {

/// The file name of the welcome note.
pub open spec fn welcome_filename() -> Seq<char> {
    note_filename("welcome_to_epiphany"@)
}

/// The index of a new workspace at `path`: one top-level note, the
/// welcome note, with the id `id` and no sub-notes.
pub open spec fn seed_content(path: Seq<char>, id: Seq<char>) -> WorkspaceContentView {
    WorkspaceContentView {
        workspace_title: "notes"@,
        absolute_path: path,
        content_table: seq![
            ContentItemView {
                name: "Welcome to Epiphany"@,
                filename: welcome_filename(),
                id,
                children: Seq::empty(),
            },
        ],
    }
}

/// The steps of a setup, in the order in which they are carried out.
pub open spec fn setup_steps(config_dir: Seq<char>, root: Seq<char>, id: Seq<char>) -> Seq<
    StepView,
> {
    seq![
        StepView { action: ActionView::CreateDir(at(config_dir)), on_failure: OnFailure::Propagate },
        StepView {
            action: ActionView::WriteConfig {
                to: under(config_dir, config_segment()),
                config: seq![root],
            },
            on_failure: OnFailure::Propagate,
        },
        StepView { action: ActionView::CreateDir(at(root)), on_failure: OnFailure::Propagate },
        StepView {
            action: ActionView::CreateDir(under(root, assets_segment())),
            on_failure: OnFailure::Propagate,
        },
        StepView {
            action: ActionView::CreateDir(under(root, notes_segment())),
            on_failure: OnFailure::Propagate,
        },
        StepView {
            action: ActionView::WriteTemplate {
                to: note_at(root, welcome_filename()),
                template: Template::Welcome,
            },
            on_failure: OnFailure::Fail(StateError::NoteCreateFailed),
        },
        StepView {
            action: ActionView::WriteIndex {
                to: under(root, index_segment()),
                content: seed_content(root, id),
            },
            on_failure: OnFailure::Fail(StateError::IndexWriteFailed),
        },
    ]
}

/// What a setup is to do, and the index it leaves behind.
pub struct SetupPlan {
    /// The steps, to be carried out in order.
    pub steps: Vec<Step>,
    /// The index that the last step writes.
    pub content: WorkspaceContent,
}

/// The mathematical content of a `SetupPlan`.
pub struct SetupPlanView {
    pub steps: Seq<StepView>,
    pub content: WorkspaceContentView,
}

impl View for SetupPlan {
    type V = SetupPlanView;

    open spec fn view(&self) -> SetupPlanView {
        SetupPlanView { steps: self.steps.deep_view(), content: self.content@ }
    }
}

/// The plan of the setup of the workspace at `root`, with the
/// configuration kept in `config_dir` and `id` for the welcome note.
pub open spec fn planned_setup(config_dir: Seq<char>, root: Seq<char>, id: Seq<char>) -> SetupPlanView {
    SetupPlanView { steps: setup_steps(config_dir, root, id), content: seed_content(root, id) }
}

/// How a run of steps ends when step `i` succeeds exactly if
/// `succeeded[i]`: with the verdict of the first step that ends it.
pub open spec fn run_verdict(steps: Seq<StepView>, succeeded: Seq<bool>) -> Verdict
    recommends
        steps.len() == succeeded.len(),
    decreases steps.len(),
{
    if steps.len() == 0 || succeeded.len() == 0 {
        Verdict::Continue
    } else if verdict_of(steps[0].on_failure, succeeded[0]) != Verdict::Continue {
        verdict_of(steps[0].on_failure, succeeded[0])
    } else {
        run_verdict(steps.drop_first(), succeeded.drop_first())
    }
}

/// The first index of the workspace at `path`.
pub fn seed(path: &str, id: String) -> (content: WorkspaceContent)
    ensures
        content@ == seed_content(path@, id@),
{
    let welcome = ContentItem::new(
        String::from_str("Welcome to Epiphany"),
        filename_of("welcome_to_epiphany"),
        id,
        Vec::new(),
    );
    let ghost item = welcome@;
    assert(item.children =~= Seq::<ContentItemView>::empty());
    let mut table: Vec<ContentItem> = Vec::new();
    table.push(welcome);
    assert(table.deep_view() =~= seq![item]);
    WorkspaceContent::new(String::from_str("notes"), String::from_str(path), table)
}

/// The plan of the setup of the workspace at `workspace_path`.
pub fn setup_plan(config_dir: &str, workspace_path: &str, id: String) -> (plan: SetupPlan)
    ensures
        plan@ == planned_setup(config_dir@, workspace_path@, id@),
{
    let content = seed(workspace_path, id);
    let mut steps: Vec<Step> = Vec::new();
    steps.push(
        Step {
            action: Action::CreateDir(Location::new(config_dir)),
            on_failure: OnFailure::Propagate,
        },
    );
    steps.push(
        Step {
            action: Action::WriteConfig {
                to: Location::config_file(config_dir),
                config: Config::single(workspace_path),
            },
            on_failure: OnFailure::Propagate,
        },
    );
    steps.push(
        Step {
            action: Action::CreateDir(Location::workspace(workspace_path)),
            on_failure: OnFailure::Propagate,
        },
    );
    steps.push(
        Step {
            action: Action::CreateDir(Location::assets_dir(workspace_path)),
            on_failure: OnFailure::Propagate,
        },
    );
    steps.push(
        Step {
            action: Action::CreateDir(Location::notes_dir(workspace_path)),
            on_failure: OnFailure::Propagate,
        },
    );
    let welcome: String = filename_of("welcome_to_epiphany");
    steps.push(
        Step {
            action: Action::WriteTemplate {
                to: Location::note_file(workspace_path, welcome.as_str()),
                template: Template::Welcome,
            },
            on_failure: OnFailure::Fail(StateError::NoteCreateFailed),
        },
    );
    steps.push(
        Step {
            action: Action::WriteIndex {
                to: Location::index_file(workspace_path),
                content: content.clone(),
            },
            on_failure: OnFailure::Fail(StateError::IndexWriteFailed),
        },
    );
    assert(steps.deep_view() =~= setup_steps(config_dir@, workspace_path@, id@));
    SetupPlan { steps, content }
}

/// The plan of a setup, from what the platform named as the
/// configuration directory: without such a directory there is nothing to
/// plan, and the setup fails with `NoConfigDirectory`.
pub fn plan_setup(config_dir: Option<String>, workspace_path: &str, id: String) -> (plan: Result<
    SetupPlan,
    StateError,
>)
    ensures
        config_dir is None ==> plan is Err && plan->Err_0 == StateError::NoConfigDirectory,
        config_dir matches Some(dir) ==> plan matches Ok(p) && p@ == planned_setup(
            dir@,
            workspace_path@,
            id@,
        ),
{
    match config_dir {
        None => Err(StateError::NoConfigDirectory),
        Some(dir) => Ok(setup_plan(dir.as_str(), workspace_path, id)),
    }
}

/// The first index is sound: its one note has a file name with the note
/// extension, and there is no second note to share an id or a name with.
pub proof fn lemma_seed_is_well_formed(path: Seq<char>, id: Seq<char>)
    ensures
        seed_content(path, id).well_formed(),
{
    let table = seed_content(path, id).content_table;
    assert forall|p: Seq<int>| #[trigger] item_at(table, p) is Some implies p == seq![0int] by {
        reveal_with_fuel(item_at, 2);
        if p.len() >= 2 {
            assert(item_at(table, p) == item_at(table[0].children, p.drop_first()));
        }
        assert(p =~= seq![0int]);
    }
    assert forall|p: Seq<int>| #[trigger] item_at(table, p) is Some implies has_note_extension(
        item_at(table, p)->0.filename,
    ) by {
        assert(p == seq![0int]);
        assert(item_at(table, p)->0.filename == note_filename("welcome_to_epiphany"@));
    }
}

/// A setup that goes through has made all four directories and written
/// all three files: a step that fails ends the run, whichever it is.
pub proof fn lemma_setup_fails_with_any_step(
    config_dir: Seq<char>,
    root: Seq<char>,
    id: Seq<char>,
    succeeded: Seq<bool>,
)
    requires
        succeeded.len() == 7,
        run_verdict(setup_steps(config_dir, root, id), succeeded) == Verdict::Continue,
    ensures
        forall|i: int| 0 <= i < 7 ==> #[trigger] succeeded[i],
{
    let steps = setup_steps(config_dir, root, id);
    lemma_run_that_goes_through(steps, succeeded);
}

/// In a run that goes through, no step had a verdict other than to go
/// on.
pub proof fn lemma_run_that_goes_through(steps: Seq<StepView>, succeeded: Seq<bool>)
    requires
        steps.len() == succeeded.len(),
        run_verdict(steps, succeeded) == Verdict::Continue,
    ensures
        forall|i: int|
            0 <= i < steps.len() ==> verdict_of((#[trigger] steps[i]).on_failure, succeeded[i])
                == Verdict::Continue,
    decreases steps.len(),
{
    if steps.len() > 0 {
        lemma_run_that_goes_through(steps.drop_first(), succeeded.drop_first());
        assert forall|i: int| 0 <= i < steps.len() implies verdict_of(
            (#[trigger] steps[i]).on_failure,
            succeeded[i],
        ) == Verdict::Continue by {
            if i > 0 {
                assert(steps[i] == steps.drop_first()[i - 1]);
                assert(succeeded[i] == succeeded.drop_first()[i - 1]);
            }
        }
    }
}

/// Setup only makes directories and overwrites three files: the
/// configuration file, the welcome note and the index. It removes and
/// renames nothing, so what else the workspace holds stays as it was.
pub proof fn lemma_setup_only_makes_and_overwrites(
    config_dir: Seq<char>,
    root: Seq<char>,
    id: Seq<char>,
)
    ensures
        forall|i: int|
            0 <= i < setup_steps(config_dir, root, id).len() ==> {
                let step = #[trigger] setup_steps(config_dir, root, id)[i];
                match step.action {
                    ActionView::CreateDir(place) => {
                        ||| place == at(config_dir)
                        ||| place == at(root)
                        ||| place == under(root, assets_segment())
                        ||| place == under(root, notes_segment())
                    },
                    ActionView::WriteConfig { to, .. } => to == under(config_dir, config_segment()),
                    ActionView::WriteTemplate { to, .. } => to == note_at(root, welcome_filename()),
                    ActionView::WriteIndex { to, .. } => to == under(root, index_segment()),
                }
            },
{
}

/// A run goes through all its steps if none of them ends it.
pub proof fn lemma_run_goes_through(steps: Seq<StepView>, succeeded: Seq<bool>)
    requires
        steps.len() == succeeded.len(),
        forall|i: int|
            0 <= i < steps.len() ==> verdict_of((#[trigger] steps[i]).on_failure, succeeded[i])
                == Verdict::Continue,
    ensures
        run_verdict(steps, succeeded) == Verdict::Continue,
    decreases steps.len(),
{
    if steps.len() > 0 {
        assert(verdict_of(steps[0].on_failure, succeeded[0]) == Verdict::Continue);
        assert forall|i: int| 0 <= i < steps.drop_first().len() implies verdict_of(
            (#[trigger] steps.drop_first()[i]).on_failure,
            succeeded.drop_first()[i],
        ) == Verdict::Continue by {
            assert(steps.drop_first()[i] == steps[i + 1]);
        }
        lemma_run_goes_through(steps.drop_first(), succeeded.drop_first());
    }
}

/// Setup can be run again on a workspace that is already there. A
/// directory that exists counts as made, so none of the four steps that
/// make a directory fails on one that is there, and the run goes through
/// whenever its three files can be written. The second run asks for the
/// same places as the first, and only the id in the index it writes is
/// new.
pub proof fn lemma_setup_can_be_repeated(
    config_dir: Seq<char>,
    root: Seq<char>,
    first_id: Seq<char>,
    second_id: Seq<char>,
    made: Seq<DirCreation>,
    written: Seq<bool>,
)
    requires
        made.len() == 7,
        written.len() == 7,
        made[0] != DirCreation::Failed,
        made[2] != DirCreation::Failed,
        made[3] != DirCreation::Failed,
        made[4] != DirCreation::Failed,
        written[1],
        written[5],
        written[6],
    ensures
        run_verdict(
            setup_steps(config_dir, root, second_id),
            Seq::new(
                7,
                |i: int|
                    if setup_steps(config_dir, root, second_id)[i].action is CreateDir {
                        made[i] != DirCreation::Failed
                    } else {
                        written[i]
                    },
            ),
        ) == Verdict::Continue,
        forall|i: int|
            0 <= i < 7 ==> (#[trigger] setup_steps(config_dir, root, first_id)[i]).target() == (
            #[trigger] setup_steps(config_dir, root, second_id)[i]).target(),
        forall|i: int|
            0 <= i < 6 ==> #[trigger] setup_steps(config_dir, root, first_id)[i] == setup_steps(
                config_dir,
                root,
                second_id,
            )[i],
{
    let steps = setup_steps(config_dir, root, second_id);
    let succeeded = Seq::new(
        7,
        |i: int|
            if steps[i].action is CreateDir {
                made[i] != DirCreation::Failed
            } else {
                written[i]
            },
    );
    lemma_run_goes_through(steps, succeeded);
}

} // verus!
