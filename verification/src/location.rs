//! Places in the file system, as a base directory and the segments joined
//! to it. Joining is pure: nothing here looks at a disk.

use vstd::prelude::*;

verus! {

/// A base directory and the path segments joined to it, in order.
pub struct Location {
    pub base: String,
    pub segments: Vec<String>,
}

/// The mathematical content of a `Location`.
pub struct LocationView {
    pub base: Seq<char>,
    pub segments: Seq<Seq<char>>,
}

impl View for Location {
    type V = LocationView;

    open spec fn view(&self) -> LocationView {
        LocationView { base: self.base@, segments: self.segments.deep_view() }
    }
}

/// The name of the directory that holds the note files.
pub open spec fn notes_segment() -> Seq<char> {
    seq!['n', 'o', 't', 'e', 's']
}

/// The name of the directory that holds the assets.
pub open spec fn assets_segment() -> Seq<char> {
    seq!['a', 's', 's', 'e', 't', 's']
}

/// The name of the index file in a workspace.
pub open spec fn index_segment() -> Seq<char> {
    seq!['e', 'p', 'i', 'p', 'h', 'a', 'n', 'y', '.', 'j', 's', 'o', 'n']
}

/// The name of the configuration file.
pub open spec fn config_segment() -> Seq<char> {
    seq![
        'e',
        'p',
        'i',
        'p',
        'h',
        'a',
        'n',
        'y',
        '.',
        'c',
        'o',
        'n',
        'f',
        '.',
        'j',
        's',
        'o',
        'n',
    ]
}

/// The place `base` itself.
pub open spec fn at(base: Seq<char>) -> LocationView {
    LocationView { base, segments: Seq::empty() }
}

/// The place of `segment` under `base`.
pub open spec fn under(base: Seq<char>, segment: Seq<char>) -> LocationView {
    LocationView { base, segments: seq![segment] }
}

/// The place of the note file `filename` in the workspace at `root`.
pub open spec fn note_at(root: Seq<char>, filename: Seq<char>) -> LocationView {
    LocationView { base: root, segments: seq![notes_segment(), filename] }
}

impl Location {
    /// The place `base` itself.
    pub fn new(base: &str) -> (place: Location)
        ensures
            place@ == at(base@),
    {
        let place = Location { base: String::from_str(base), segments: Vec::new() };
        assert(place@.segments =~= Seq::<Seq<char>>::empty());
        place
    }

    /// This place with one more segment joined to it.
    pub fn join(self, segment: &str) -> (place: Location)
        ensures
            place@.base == self@.base,
            place@.segments == self@.segments.push(segment@),
    {
        let Location { base, mut segments } = self;
        let ghost before = segments;
        segments.push(String::from_str(segment));
        let place = Location { base, segments };
        assert(place@.segments =~= before.deep_view().push(segment@));
        place
    }

    /// The workspace directory itself.
    pub fn workspace(root: &str) -> (place: Location)
        ensures
            place@ == at(root@),
    {
        Location::new(root)
    }

    /// The directory of the note files in the workspace at `root`.
    pub fn notes_dir(root: &str) -> (place: Location)
        ensures
            place@ == under(root@, notes_segment()),
    {
        proof {
            reveal_strlit("notes");
            assert("notes"@ =~= notes_segment());
        }
        let place = Location::new(root).join("notes");
        assert(place@.segments =~= seq![notes_segment()]);
        place
    }

    /// The directory of the assets in the workspace at `root`.
    pub fn assets_dir(root: &str) -> (place: Location)
        ensures
            place@ == under(root@, assets_segment()),
    {
        proof {
            reveal_strlit("assets");
            assert("assets"@ =~= assets_segment());
        }
        let place = Location::new(root).join("assets");
        assert(place@.segments =~= seq![assets_segment()]);
        place
    }

    /// The index file of the workspace at `root`.
    pub fn index_file(root: &str) -> (place: Location)
        ensures
            place@ == under(root@, index_segment()),
    {
        proof {
            reveal_strlit("epiphany.json");
            assert("epiphany.json"@ =~= index_segment());
        }
        let place = Location::new(root).join("epiphany.json");
        assert(place@.segments =~= seq![index_segment()]);
        place
    }

    /// The configuration file in the configuration directory `dir`.
    pub fn config_file(dir: &str) -> (place: Location)
        ensures
            place@ == under(dir@, config_segment()),
    {
        proof {
            reveal_strlit("epiphany.conf.json");
            assert("epiphany.conf.json"@ =~= config_segment());
        }
        let place = Location::new(dir).join("epiphany.conf.json");
        assert(place@.segments =~= seq![config_segment()]);
        place
    }

    /// The note file `filename` in the workspace at `root`.
    pub fn note_file(root: &str, filename: &str) -> (place: Location)
        ensures
            place@ == note_at(root@, filename@),
    {
        let place = Location::notes_dir(root).join(filename);
        assert(place@.segments =~= seq![notes_segment(), filename@]);
        place
    }
}

} // verus!
