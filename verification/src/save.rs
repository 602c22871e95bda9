//! Saving a note, one request at a time.
//!
//! A save cannot look at the disk itself. It asks: does this name exist,
//! rename this file, write that one. The driver does what is asked and
//! answers, and the save moves on. `SaveFile` is the save between two
//! requests.

use vstd::prelude::*;
use crate::error::StateError;
use crate::location::{note_at, Location, LocationView};
use crate::names::{
    backstop_name, candidate_filename, candidate_name, has_default_name, is_placeholder,
    note_filename, suffixed_filename, filename_of, LAST_PROBE,
};
use crate::rename::{first_free, resolved_name, retitled_name, seeks_fresh_name};
use crate::text::same_text;

verus! {

/// How far a save has come.
pub enum Stage {
    /// Waiting to hear whether the candidate of this probe exists.
    Probing(u8),
    /// The name is settled and differs from the current one; waiting for
    /// the rename to it.
    Renaming(String),
    /// The file has its final name; waiting for the content to be written.
    Writing(String),
    /// Written under this name.
    Saved(String),
    /// The rename or the write failed, or a reply answered nothing asked.
    Failed,
}

/// The mathematical content of a `Stage`.
pub enum StageView {
    Probing(nat),
    Renaming(Seq<char>),
    Writing(Seq<char>),
    Saved(Seq<char>),
    Failed,
}

impl View for Stage {
    type V = StageView;

    open spec fn view(&self) -> StageView {
        match self {
            Stage::Probing(k) => StageView::Probing(*k as nat),
            Stage::Renaming(to) => StageView::Renaming(to@),
            Stage::Writing(name) => StageView::Writing(name@),
            Stage::Saved(name) => StageView::Saved(name@),
            Stage::Failed => StageView::Failed,
        }
    }
}

/// What the driver tells a save.
#[derive(Clone, Copy, Debug, PartialEq, Eq, Structural)]
pub enum SaveReply {
    /// The probed name exists.
    Found,
    /// The probed name does not exist.
    Absent,
    /// The rename or the write was carried out.
    Done,
    /// The rename or the write failed.
    Failed,
}

/// What a save asks of the driver.
pub enum SaveRequest {
    /// Say whether a file exists at this place.
    Probe(Location),
    /// Rename the file at `from` to `to`.
    Rename { from: Location, to: Location },
    /// Write `content` to the file at `to`, replacing what it held.
    Write { to: Location, content: String },
    /// Nothing more: the save ended with this result, the file's name
    /// on success.
    Finished(Result<String, StateError>),
}

/// The mathematical content of a `SaveRequest`.
pub enum SaveRequestView {
    Probe(LocationView),
    Rename { from: LocationView, to: LocationView },
    Write { to: LocationView, content: Seq<char> },
    Finished(Result<Seq<char>, StateError>),
}

impl View for SaveRequest {
    type V = SaveRequestView;

    open spec fn view(&self) -> SaveRequestView {
        match self {
            SaveRequest::Probe(place) => SaveRequestView::Probe(place@),
            SaveRequest::Rename { from, to } => SaveRequestView::Rename { from: from@, to: to@ },
            SaveRequest::Write { to, content } => SaveRequestView::Write {
                to: to@,
                content: content@,
            },
            SaveRequest::Finished(Ok(name)) => SaveRequestView::Finished(Ok(name@)),
            SaveRequest::Finished(Err(e)) => SaveRequestView::Finished(Err(*e)),
        }
    }
}

/// A save in progress.
pub struct SaveFile {
    /// The workspace directory.
    pub root: String,
    /// The note's id.
    pub id: String,
    /// The slug of the note's title.
    pub slug: String,
    /// The name the note's file has now.
    pub current: String,
    /// The text to write.
    pub content: String,
    /// Whether the save searches for a free name.
    pub fresh: bool,
    /// How far the save has come.
    pub stage: Stage,
}

/// The mathematical content of a `SaveFile`.
pub struct SaveFileView {
    pub root: Seq<char>,
    pub id: Seq<char>,
    pub slug: Seq<char>,
    pub current: Seq<char>,
    pub content: Seq<char>,
    pub fresh: bool,
    pub stage: StageView,
}

impl View for SaveFile {
    type V = SaveFileView;

    open spec fn view(&self) -> SaveFileView {
        SaveFileView {
            root: self.root@,
            id: self.id@,
            slug: self.slug@,
            current: self.current@,
            content: self.content@,
            fresh: self.fresh,
            stage: self.stage@,
        }
    }
}

/// The stage a save enters once its name is settled: a rename if the
/// name is new, else the write.
pub open spec fn settled_on(name: Seq<char>, current: Seq<char>) -> StageView {
    if name != current {
        StageView::Renaming(name)
    } else {
        StageView::Writing(name)
    }
}

/// A save before its first request.
pub open spec fn started(
    root: Seq<char>,
    id: Seq<char>,
    slug: Seq<char>,
    title: Seq<char>,
    current: Seq<char>,
    content: Seq<char>,
) -> SaveFileView {
    let fresh = seeks_fresh_name(id, title, current);
    SaveFileView {
        root,
        id,
        slug,
        current,
        content,
        fresh,
        stage: if fresh || note_filename(slug) != current {
            StageView::Probing(0)
        } else {
            StageView::Writing(current)
        },
    }
}

impl SaveFileView {
    /// The stages a save can reach from its start.
    pub open spec fn wf(self) -> bool {
        match self.stage {
            StageView::Probing(k) => k <= 25 && (self.fresh || (k == 0 && note_filename(
                self.slug,
            ) != self.current)),
            StageView::Renaming(to) => to != self.current,
            _ => true,
        }
    }

    /// What the save asks next.
    pub open spec fn request(self) -> SaveRequestView {
        match self.stage {
            StageView::Probing(k) => SaveRequestView::Probe(
                note_at(self.root, candidate_name(self.slug, k)),
            ),
            StageView::Renaming(to) => SaveRequestView::Rename {
                from: note_at(self.root, self.current),
                to: note_at(self.root, to),
            },
            StageView::Writing(name) => SaveRequestView::Write {
                to: note_at(self.root, name),
                content: self.content,
            },
            StageView::Saved(name) => SaveRequestView::Finished(Ok(name)),
            StageView::Failed => SaveRequestView::Finished(Err(StateError::NoteSaveFailed)),
        }
    }

    /// The stage after `reply`.
    pub open spec fn stage_after(self, reply: SaveReply) -> StageView {
        match self.stage {
            StageView::Probing(k) => match reply {
                SaveReply::Absent => settled_on(candidate_name(self.slug, k), self.current),
                SaveReply::Found => if !self.fresh {
                    StageView::Writing(self.current)
                } else if k < 25 {
                    StageView::Probing(k + 1)
                } else {
                    settled_on(backstop_name(self.slug, self.id), self.current)
                },
                _ => StageView::Failed,
            },
            StageView::Renaming(to) => match reply {
                SaveReply::Done => StageView::Writing(to),
                _ => StageView::Failed,
            },
            StageView::Writing(name) => match reply {
                SaveReply::Done => StageView::Saved(name),
                _ => StageView::Failed,
            },
            StageView::Saved(name) => StageView::Saved(name),
            StageView::Failed => StageView::Failed,
        }
    }

    /// The save after `reply`.
    pub open spec fn after(self, reply: SaveReply) -> SaveFileView {
        SaveFileView { stage: self.stage_after(reply), ..self }
    }

    /// The reply of a directory that holds exactly the names in `taken`
    /// to a probe for `name`.
    pub open spec fn answer(taken: Set<Seq<char>>, name: Seq<char>) -> SaveReply {
        if taken.contains(name) {
            SaveReply::Found
        } else {
            SaveReply::Absent
        }
    }

    /// The name this save ends with when the directory holds `taken`.
    pub open spec fn resolves_to(self, taken: Set<Seq<char>>) -> Seq<char> {
        match self.stage {
            StageView::Probing(k) => if self.fresh {
                first_free(self.slug, self.id, taken, k)
            } else {
                retitled_name(self.slug, self.current, taken)
            },
            StageView::Renaming(name) => name,
            StageView::Writing(name) => name,
            StageView::Saved(name) => name,
            StageView::Failed => self.current,
        }
    }

    /// The save after all its probes were answered by a directory that
    /// holds `taken`.
    pub open spec fn probed(self, taken: Set<Seq<char>>) -> SaveFileView
        decreases
            (match self.stage {
                StageView::Probing(k) => 26 - k,
                _ => 0,
            }),
    {
        match self.stage {
            StageView::Probing(k) => if k <= 25 && self.wf() {
                self.after(Self::answer(taken, candidate_name(self.slug, k))).probed(taken)
            } else {
                self
            },
            _ => self,
        }
    }
}

/// A save starts in a stage it can be in, and the name it will end with
/// is the resolved name, whatever the directory holds.
pub proof fn lemma_start_resolves(
    root: Seq<char>,
    id: Seq<char>,
    slug: Seq<char>,
    title: Seq<char>,
    current: Seq<char>,
    content: Seq<char>,
    taken: Set<Seq<char>>,
)
    ensures
        started(root, id, slug, title, current, content).wf(),
        started(root, id, slug, title, current, content).resolves_to(taken) == resolved_name(
            id,
            slug,
            title,
            current,
            taken,
        ),
{
}

/// A truthful answer to a probe keeps the save well-formed and changes
/// nothing about the name it will end with.
pub proof fn lemma_probe_keeps_resolution(save: SaveFileView, taken: Set<Seq<char>>)
    requires
        save.wf(),
        save.stage is Probing,
    ensures
        ({
            let k = save.stage->Probing_0;
            let next = save.after(SaveFileView::answer(taken, candidate_name(save.slug, k)));
            &&& next.wf()
            &&& next.resolves_to(taken) == save.resolves_to(taken)
            &&& !(next.stage is Failed)
            &&& !(next.stage is Saved)
        }),
{
    let k = save.stage->Probing_0;
    if save.fresh && taken.contains(candidate_name(save.slug, k)) && k >= 25 {
        assert(first_free(save.slug, save.id, taken, (k + 1) as nat) == backstop_name(
            save.slug,
            save.id,
        ));
    }
}

/// Answered by a directory that holds `taken`, a well-formed save comes
/// out of its probes with the name it resolves to: waiting for the
/// rename if that name is new, for the write if it is the current one.
pub proof fn lemma_probes_settle(save: SaveFileView, taken: Set<Seq<char>>)
    requires
        save.wf(),
        save.stage is Probing,
    ensures
        save.probed(taken).stage == settled_on(save.resolves_to(taken), save.current),
        save.probed(taken) == (SaveFileView { stage: save.probed(taken).stage, ..save }),
    decreases 26 - save.stage->Probing_0,
{
    let k = save.stage->Probing_0;
    let next = save.after(SaveFileView::answer(taken, candidate_name(save.slug, k)));
    lemma_probe_keeps_resolution(save, taken);
    assert(save.probed(taken) == next.probed(taken));
    if next.stage is Probing {
        lemma_probes_settle(next, taken);
    } else {
        assert(next.probed(taken) == next);
    }
}

/// The whole of a save that meets no failure: started on a directory
/// that holds `taken`, it asks for a rename from the current name to the
/// resolved one exactly when the two differ, then writes the content to
/// the resolved name, and ends with that name.
pub proof fn lemma_save_ends_with_resolved_name(
    root: Seq<char>,
    id: Seq<char>,
    slug: Seq<char>,
    title: Seq<char>,
    current: Seq<char>,
    content: Seq<char>,
    taken: Set<Seq<char>>,
)
    ensures
        ({
            let name = resolved_name(id, slug, title, current, taken);
            let settled = started(root, id, slug, title, current, content).probed(taken);
            let writing = if name != current {
                settled.after(SaveReply::Done)
            } else {
                settled
            };
            &&& name != current ==> settled.request() == (SaveRequestView::Rename {
                from: note_at(root, current),
                to: note_at(root, name),
            })
            &&& writing.request() == (SaveRequestView::Write { to: note_at(root, name), content })
            &&& writing.after(SaveReply::Done).request() == SaveRequestView::Finished(Ok(name))
        }),
{
    let save = started(root, id, slug, title, current, content);
    lemma_start_resolves(root, id, slug, title, current, content, taken);
    if save.stage is Probing {
        lemma_probes_settle(save, taken);
    }
}

/// A rename or a write that fails ends the save with `NoteSaveFailed`,
/// and so does every reply after that.
pub proof fn lemma_failure_is_final(save: SaveFileView, reply: SaveReply)
    requires
        save.stage is Renaming || save.stage is Writing || save.stage is Failed,
        reply != SaveReply::Done || save.stage is Failed,
    ensures
        save.after(reply).request() == SaveRequestView::Finished(
            Err(StateError::NoteSaveFailed),
        ),
{
}

/// The stage for a settled `name`.
fn settle(name: String, current: &str) -> (stage: Stage)
    ensures
        stage@ == settled_on(name@, current@),
{
    if same_text(name.as_str(), current) {
        Stage::Writing(name)
    } else {
        Stage::Renaming(name)
    }
}

impl SaveFile {
    /// Starts the save of the note `id`, whose title has the slug `slug`
    /// and whose file in the workspace at `root` is now called `current`.
    pub fn begin(
        root: &str,
        id: &str,
        slug: &str,
        title: &str,
        current: &str,
        content: &str,
    ) -> (save: SaveFile)
        ensures
            save@ == started(root@, id@, slug@, title@, current@, content@),
    {
        let fresh = !is_placeholder(title) && has_default_name(id, current);
        let bare: String = filename_of(slug);
        let stage = if fresh || !same_text(bare.as_str(), current) {
            Stage::Probing(0)
        } else {
            Stage::Writing(String::from_str(current))
        };
        SaveFile {
            root: String::from_str(root),
            id: String::from_str(id),
            slug: String::from_str(slug),
            current: String::from_str(current),
            content: String::from_str(content),
            fresh,
            stage,
        }
    }

    /// What the driver is to do now.
    pub fn request(&self) -> (request: SaveRequest)
        ensures
            request@ == self@.request(),
    {
        match &self.stage {
            Stage::Probing(k) => {
                let name: String = candidate_filename(self.slug.as_str(), *k);
                SaveRequest::Probe(Location::note_file(self.root.as_str(), name.as_str()))
            },
            Stage::Renaming(to) => SaveRequest::Rename {
                from: Location::note_file(self.root.as_str(), self.current.as_str()),
                to: Location::note_file(self.root.as_str(), to.as_str()),
            },
            Stage::Writing(name) => SaveRequest::Write {
                to: Location::note_file(self.root.as_str(), name.as_str()),
                content: self.content.clone(),
            },
            Stage::Saved(name) => SaveRequest::Finished(Ok(name.clone())),
            Stage::Failed => SaveRequest::Finished(Err(StateError::NoteSaveFailed)),
        }
    }

    /// Takes the driver's reply to the last request and moves on.
    pub fn advance(self, reply: SaveReply) -> (next: SaveFile)
        ensures
            next@ == self@.after(reply),
    {
        let SaveFile { root, id, slug, current, content, fresh, stage } = self;
        let stage: Stage = match stage {
            Stage::Probing(k) => match reply {
                SaveReply::Absent => settle(
                    candidate_filename(slug.as_str(), k),
                    current.as_str(),
                ),
                SaveReply::Found => if !fresh {
                    Stage::Writing(current.clone())
                } else if k < LAST_PROBE {
                    Stage::Probing(k + 1)
                } else {
                    settle(suffixed_filename(slug.as_str(), id.as_str()), current.as_str())
                },
                _ => Stage::Failed,
            },
            Stage::Renaming(to) => match reply {
                SaveReply::Done => Stage::Writing(to),
                _ => Stage::Failed,
            },
            Stage::Writing(name) => match reply {
                SaveReply::Done => Stage::Saved(name),
                _ => Stage::Failed,
            },
            Stage::Saved(name) => Stage::Saved(name),
            Stage::Failed => Stage::Failed,
        };
        SaveFile { root, id, slug, current, content, fresh, stage }
    }
}

} // verus!
