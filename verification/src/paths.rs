//! File paths as the bytes that the system takes.

use vstd::prelude::*;
use vstd::string::*;
use vstd::utf8::encode_utf8;

use crate::samples::extend;

verus! {

/// A path: bytes, with `/` between its parts.
#[derive(Debug, Clone)]
pub struct FilePath {
    pub bytes: Vec<u8>,
}

impl View for FilePath {
    type V = Seq<u8>;

    open spec fn view(&self) -> Seq<u8> {
        self.bytes@
    }
}

/// The byte between the parts of a path.
pub const SLASH: u8 = 47;

/// Whether a path starts at the root.
pub open spec fn rooted(path: Seq<u8>) -> bool {
    path.len() > 0 && path[0] == SLASH
}

/// `rel` taken from the directory `base`: a path from the root stands for itself, any
/// other one goes behind `base`, with one slash between them.
pub open spec fn under(base: Seq<u8>, rel: Seq<u8>) -> Seq<u8> {
    if rooted(rel) {
        rel
    } else if base.len() == 0 || base.last() == SLASH {
        base + rel
    } else {
        base + seq![SLASH] + rel
    }
}

impl FilePath {
    /// The path that `text` spells.
    pub fn of(text: &str) -> (path: FilePath)
        ensures
            path@ == encode_utf8(text@),
    {
        FilePath::of_bytes(text.as_bytes())
    }

    /// The path that `bytes` spell.
    pub fn of_bytes(bytes: &[u8]) -> (path: FilePath)
        ensures
            path@ == bytes@,
    {
        let mut copy: Vec<u8> = Vec::new();
        extend(&mut copy, bytes);
        assert(copy@ =~= bytes@);
        FilePath { bytes: copy }
    }

    /// The path of `rel` taken from here.
    pub fn join(&self, rel: &str) -> (path: FilePath)
        ensures
            path@ == under(self@, encode_utf8(rel@)),
    {
        self.join_path(&FilePath::of(rel))
    }

    /// The path of `rel` taken from here.
    pub fn join_path(&self, rel: &FilePath) -> (path: FilePath)
        ensures
            path@ == under(self@, rel@),
    {
        let tail = rel.bytes.as_slice();
        if tail.len() > 0 && tail[0] == SLASH {
            return FilePath::of_bytes(tail);
        }
        let mut path = FilePath::of_bytes(self.bytes.as_slice());
        let n: usize = path.bytes.len();
        if n > 0 && path.bytes[n - 1] != SLASH {
            path.bytes.push(SLASH);
        }
        extend(&mut path.bytes, tail);
        assert(path@ =~= under(self@, rel@));
        path
    }
}

/// A path from the root stands for itself. Any other one is put behind the directory: the
/// result begins with the directory, ends with the path, and has one slash between them,
/// which the directory may bring itself.
pub proof fn law_paths_join(base: Seq<u8>, rel: Seq<u8>)
    ensures
        rel.len() > 0 && rel[0] == 47 ==> under(base, rel) == rel,
        !(rel.len() > 0 && rel[0] == 47) ==> {
            let path = under(base, rel);
            let between = path.len() - base.len() - rel.len();
            &&& path.take(base.len() as int) == base
            &&& path.skip(path.len() - rel.len()) == rel
            &&& between == (if base.len() > 0 && base.last() != 47 {
                1int
            } else {
                0
            })
            &&& base.len() > 0 ==> path[base.len() + between - 1] == 47
        },
{
    let path = under(base, rel);
    if !rooted(rel) {
        assert(path.take(base.len() as int) =~= base);
        assert(path.skip(path.len() - rel.len()) =~= rel);
    }
}

/// A path below two directories is the path below the second one, taken from the first.
pub proof fn law_paths_nest(base: Seq<u8>, mid: Seq<u8>, rel: Seq<u8>)
    requires
        mid.len() > 0,
        !rooted(mid),
        !rooted(rel),
    ensures
        under(under(base, mid), rel) == under(base, under(mid, rel)),
{
    assert(under(under(base, mid), rel) =~= under(base, under(mid, rel)));
}

} // verus!
