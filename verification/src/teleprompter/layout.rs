//! Where the cards sat last time.

use vstd::prelude::*;
use vstd::utf8::encode_utf8;

use super::ui::PipeId;
use crate::paths::{under, FilePath};
use crate::single::Single;

verus! {

/// Position and size of a card, in pixels.
#[derive(Debug, Clone, Copy, PartialEq, Eq, Structural)]
pub struct Geometry {
    pub pos_x: Single,
    pub pos_y: Single,
    pub width: Single,
    pub height: Single,
}

/// The saved geometry of each pipe's card.
#[derive(Debug, Clone, Copy, PartialEq, Eq, Structural)]
pub struct Layout {
    pub pipe1: Option<Geometry>,
    pub pipe2: Option<Geometry>,
}

impl Default for Layout {
    fn default() -> (layout: Self)
        ensures
            layout.pipe1 is None,
            layout.pipe2 is None,
    {
        Layout { pipe1: None, pipe2: None }
    }
}

impl Layout {
    /// The saved geometry of a pipe's card.
    pub open spec fn of(self, id: PipeId) -> Option<Geometry> {
        match id {
            PipeId::Pipe1 => self.pipe1,
            PipeId::Pipe2 => self.pipe2,
        }
    }

    /// The saved geometry of a pipe's card, if any.
    pub fn get(&self, id: PipeId) -> (geometry: Option<Geometry>)
        ensures
            geometry == self.of(id),
    {
        match id {
            PipeId::Pipe1 => self.pipe1,
            PipeId::Pipe2 => self.pipe2,
        }
    }

    /// Save the geometry of a pipe's card in place of an earlier one; the other stays.
    pub fn set(&mut self, id: PipeId, geometry: Geometry)
        ensures
            final(self).of(id) == Some(geometry),
            forall|other: PipeId|
                other != id ==> #[trigger] final(self).of(other) == old(self).of(other),
    {
        match id {
            PipeId::Pipe1 => {
                self.pipe1 = Some(geometry);
            },
            PipeId::Pipe2 => {
                self.pipe2 = Some(geometry);
            },
        }
    }
}

/// What reading the layout file came to.
#[derive(Debug)]
pub enum LayoutFile {
    /// There is none, or it could not be read.
    Missing,
    /// It has not the right form.
    Corrupt,
    /// What it holds.
    Parsed(Layout),
}

/// The saved layout; a missing or corrupt file counts as an empty one.
pub fn load(file: LayoutFile) -> (layout: Layout)
    ensures
        match file {
            LayoutFile::Parsed(parsed) => layout == parsed,
            _ => layout.pipe1 is None && layout.pipe2 is None,
        },
{
    match file {
        LayoutFile::Parsed(parsed) => parsed,
        LayoutFile::Missing => Layout::default(),
        LayoutFile::Corrupt => Layout::default(),
    }
}

/// The directory of the user's state.
pub open spec fn state_base(
    state_home: Option<FilePath>,
    home: Option<FilePath>,
    temp_dir: FilePath,
) -> Seq<u8> {
    match state_home {
        Some(dir) => dir@,
        None => match home {
            Some(h) => under(h@, encode_utf8(".local/state"@)),
            None => temp_dir@,
        },
    }
}

/// Where the layout file lies.
pub fn layout_path(
    state_home: Option<FilePath>,
    home: Option<FilePath>,
    temp_dir: FilePath,
) -> (path: FilePath)
    ensures
        path@ == under(
            under(state_base(state_home, home, temp_dir), encode_utf8("kitetsu"@)),
            encode_utf8("layout.toml"@),
        ),
{
    let dir = match state_home {
        Some(dir) => dir,
        None => match home {
            Some(h) => h.join(".local/state"),
            None => temp_dir,
        },
    };
    dir.join("kitetsu").join("layout.toml")
}

/// Each pipe has its own place in the layout, and the state lies where the environment says,
/// else below the home directory, else in the temporary one.
pub proof fn law_layout_places(
    layout: Layout,
    state_home: Option<FilePath>,
    home: Option<FilePath>,
    temp_dir: FilePath,
)
    ensures
        layout.of(PipeId::Pipe1) == layout.pipe1,
        layout.of(PipeId::Pipe2) == layout.pipe2,
        ({
            let base = state_base(state_home, home, temp_dir);
            &&& state_home is Some ==> base == state_home->0@
            &&& state_home is None && home is Some ==> base == under(
                home->0@,
                encode_utf8(".local/state"@),
            )
            &&& state_home is None && home is None ==> base == temp_dir@
        }),
{
}

} // verus!
