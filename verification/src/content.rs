//! The note tree of a workspace and the configuration that points to it.

use vstd::prelude::*;
use crate::names::note_filename;

verus! {

/// One note in the tree.
#[derive(Debug)]
pub struct ContentItem {
    name: String,
    filename: String,
    id: String,
    children: Vec<ContentItem>,
}

/// The mathematical content of a `ContentItem`.
pub struct ContentItemView {
    /// The title shown for the note.
    pub name: Seq<char>,
    /// The name of the note's file inside `notes/`.
    pub filename: Seq<char>,
    /// The note's id, given at creation and never changed.
    pub id: Seq<char>,
    /// The sub-notes in display order.
    pub children: Seq<ContentItemView>,
}

/// The content of `item`, sub-notes included.
pub closed spec fn item_view(item: ContentItem) -> ContentItemView
    decreases item,
{
    ContentItemView {
        name: item.name@,
        filename: item.filename@,
        id: item.id@,
        children: Seq::new(
            item.children@.len(),
            |i: int|
                if 0 <= i < item.children@.len() {
                    item_view(item.children@[i])
                } else {
                    arbitrary()
                },
        ),
    }
}

impl View for ContentItem {
    type V = ContentItemView;

    open spec fn view(&self) -> ContentItemView {
        item_view(*self)
    }
}

impl DeepView for ContentItem {
    type V = ContentItemView;

    open spec fn deep_view(&self) -> ContentItemView {
        self.view()
    }
}

impl ContentItem {
    /// The view of a note holds the views of its sub-notes, in order.
    proof fn lemma_children_view(self)
        ensures
            self@.name == self.name@,
            self@.filename == self.filename@,
            self@.id == self.id@,
            self@.children == self.children.deep_view(),
    {
        assert(self@.children.len() == self.children@.len());
        assert forall|i: int| 0 <= i < self.children@.len() implies self@.children[i]
            == self.children.deep_view()[i] by {
            assert(self@.children[i] == self.children@[i].view());
        }
        assert(self@.children =~= self.children.deep_view());
    }

    /// A note with the given title, file name, id and sub-notes.
    pub fn new(name: String, filename: String, id: String, children: Vec<ContentItem>) -> (item:
        ContentItem)
        ensures
            item@ == (ContentItemView {
                name: name@,
                filename: filename@,
                id: id@,
                children: children.deep_view(),
            }),
    {
        let item = ContentItem { name, filename, id, children };
        proof {
            item.lemma_children_view();
        }
        item
    }

    /// The title shown for the note.
    pub fn name(&self) -> (name: &str)
        ensures
            name@ == self@.name,
    {
        self.name.as_str()
    }

    /// The name of the note's file inside `notes/`.
    pub fn filename(&self) -> (filename: &str)
        ensures
            filename@ == self@.filename,
    {
        self.filename.as_str()
    }

    /// The note's id.
    pub fn id(&self) -> (id: &str)
        ensures
            id@ == self@.id,
    {
        self.id.as_str()
    }

    /// The sub-notes in display order.
    pub fn children(&self) -> (children: &Vec<ContentItem>)
        ensures
            children.deep_view() == self@.children,
    {
        proof {
            self.lemma_children_view();
        }
        &self.children
    }
}

/// A copy of every note of `forest`, in order.
fn clone_forest(forest: &Vec<ContentItem>) -> (copy: Vec<ContentItem>)
    ensures
        copy.deep_view() == forest.deep_view(),
    decreases forest,
{
    let mut copy: Vec<ContentItem> = Vec::new();
    let mut i: usize = 0;
    while i < forest.len()
        invariant
            i <= forest.len(),
            copy.len() == i,
            forall|j: int| 0 <= j < i ==> copy@[j]@ == forest@[j]@,
        decreases forest.len() - i,
    {
        copy.push(forest[i].clone());
        i = i + 1;
    }
    assert(copy.deep_view() =~= forest.deep_view());
    copy
}

impl Clone for ContentItem {
    /// A copy with the same content, sub-notes included.
    fn clone(&self) -> (copy: ContentItem)
        ensures
            copy@ == self@,
        decreases self,
    {
        let children = clone_forest(&self.children);
        proof {
            self.lemma_children_view();
        }
        ContentItem::new(self.name.clone(), self.filename.clone(), self.id.clone(), children)
    }
}

/// The whole index of a workspace.
#[derive(Debug)]
pub struct WorkspaceContent {
    workspace_title: String,
    absolute_path: String,
    content_table: Vec<ContentItem>,
}

/// The mathematical content of a `WorkspaceContent`.
pub struct WorkspaceContentView {
    /// The name shown for the root.
    pub workspace_title: Seq<char>,
    /// The path of the workspace directory.
    pub absolute_path: Seq<char>,
    /// The top-level notes in display order.
    pub content_table: Seq<ContentItemView>,
}

impl View for WorkspaceContent {
    type V = WorkspaceContentView;

    closed spec fn view(&self) -> WorkspaceContentView {
        WorkspaceContentView {
            workspace_title: self.workspace_title@,
            absolute_path: self.absolute_path@,
            content_table: self.content_table.deep_view(),
        }
    }
}

impl WorkspaceContent {
    /// An index with the given title, path and top-level notes.
    pub fn new(workspace_title: String, absolute_path: String, content_table: Vec<ContentItem>) -> (
        content: WorkspaceContent
    )
        ensures
            content@ == (WorkspaceContentView {
                workspace_title: workspace_title@,
                absolute_path: absolute_path@,
                content_table: content_table.deep_view(),
            }),
    {
        WorkspaceContent { workspace_title, absolute_path, content_table }
    }

    /// The name shown for the root.
    pub fn workspace_title(&self) -> (title: &str)
        ensures
            title@ == self@.workspace_title,
    {
        self.workspace_title.as_str()
    }

    /// The path of the workspace directory.
    pub fn absolute_path(&self) -> (path: &str)
        ensures
            path@ == self@.absolute_path,
    {
        self.absolute_path.as_str()
    }

    /// The top-level notes in display order.
    pub fn content_table(&self) -> (table: &Vec<ContentItem>)
        ensures
            table.deep_view() == self@.content_table,
    {
        &self.content_table
    }
}

impl Clone for WorkspaceContent {
    /// A copy with the same content, every note included.
    fn clone(&self) -> (copy: WorkspaceContent)
        ensures
            copy@ == self@,
    {
        WorkspaceContent::new(
            self.workspace_title.clone(),
            self.absolute_path.clone(),
            clone_forest(&self.content_table),
        )
    }
}

/// The note that `path` leads to in `forest`: the first step picks a
/// top-level note, each further step one of its sub-notes.
pub open spec fn item_at(forest: Seq<ContentItemView>, path: Seq<int>) -> Option<ContentItemView>
    decreases path.len(),
{
    if path.len() == 0 || !(0 <= path[0] < forest.len()) {
        None
    } else if path.len() == 1 {
        Some(forest[path[0]])
    } else {
        item_at(forest[path[0]].children, path.drop_first())
    }
}

/// Whether `name` ends in the note extension.
pub open spec fn has_note_extension(name: Seq<char>) -> bool {
    exists|stem: Seq<char>| name == #[trigger] note_filename(stem)
}

impl WorkspaceContentView {
    /// What holds of a sound index: every file name ends in the note
    /// extension, and no two notes anywhere in the tree share an id or a
    /// file name.
    pub open spec fn well_formed(self) -> bool {
        &&& forall|p: Seq<int>| #[trigger]
            item_at(self.content_table, p) matches Some(item) ==> has_note_extension(item.filename)
        &&& forall|p: Seq<int>, q: Seq<int>|
            {
                &&& #[trigger] item_at(self.content_table, p) matches Some(a)
                &&& #[trigger] item_at(self.content_table, q) matches Some(b)
                &&& p != q
            } ==> {
                &&& item_at(self.content_table, p)->0.id != item_at(self.content_table, q)->0.id
                &&& item_at(self.content_table, p)->0.filename != item_at(
                    self.content_table,
                    q,
                )->0.filename
            }
    }
}

/// The list of known workspaces. The first one is the active workspace.
#[derive(Debug)]
pub struct Config {
    pub workspace_paths: Vec<String>,
}

impl View for Config {
    type V = Seq<Seq<char>>;

    open spec fn view(&self) -> Seq<Seq<char>> {
        self.workspace_paths.deep_view()
    }
}

impl Config {
    /// The configuration that knows the one workspace at `path`.
    pub fn single(path: &str) -> (config: Config)
        ensures
            config@ == seq![path@],
    {
        let mut workspace_paths: Vec<String> = Vec::new();
        workspace_paths.push(String::from_str(path));
        let config = Config { workspace_paths };
        assert(config@ =~= seq![path@]);
        config
    }
}

} // verus!
