//! Paths as sequences of components, and the name rules that the filter needs.
//!
//! A name is held as the bytes that the operating system gives for it, so
//! that a name in any encoding passes through unchanged. The rules below look
//! only at the byte `.` and at the letters of the extension, which mean the
//! same in every encoding that extends ASCII.

use vstd::prelude::*;
use vstd::slice::{slice_subrange, slice_to_vec};

verus! {

/// The byte `.`, which parts a name from its extension.
pub const DOT: u8 = 0x2e;

/// The index of the last `.` in a name, or -1 where it holds none.
pub open spec fn last_dot(name: Seq<u8>) -> int
    decreases name.len(),
{
    if name.len() == 0 {
        -1
    } else if name.last() == DOT {
        name.len() - 1
    } else {
        last_dot(name.drop_last())
    }
}

/// The extension of a file name: what follows its last `.`.
///
/// A name without a `.` has none, nor has one whose only `.` is its first
/// byte, nor has the name `..`.
pub open spec fn extension_of(name: Seq<u8>) -> Option<Seq<u8>> {
    if last_dot(name) <= 0 || name =~= seq![DOT, DOT] {
        None
    } else {
        Some(name.skip(last_dot(name) + 1))
    }
}

/// The extension that marks a file as a PCM container: the letters `wav`,
/// in lower case.
pub open spec fn wav_extension() -> Seq<u8> {
    seq![0x77u8, 0x61u8, 0x76u8]
}

/// Whether a file name carries the container's extension, letter for letter.
pub open spec fn is_wav_name(name: Seq<u8>) -> bool {
    extension_of(name) == Some(wav_extension())
}

/// `last_dot` is what its name says: it points at a `.` inside the name, no
/// `.` comes after it, and it is -1 exactly where the name holds no `.`.
pub proof fn lemma_last_dot(name: Seq<u8>)
    ensures
        -1 <= last_dot(name) < name.len(),
        last_dot(name) >= 0 ==> name[last_dot(name)] == DOT,
        forall|j: int| last_dot(name) < j < name.len() ==> name[j] != DOT,
    decreases name.len(),
{
    if name.len() > 0 && name.last() != DOT {
        let front = name.drop_last();
        lemma_last_dot(front);
        assert forall|j: int| last_dot(name) < j < name.len() implies name[j] != DOT by {
            if j < front.len() {
                assert(front[j] == name[j]);
            }
        }
    }
}

/// A name carries the extension `wav` exactly where it is a stem of at least
/// one byte followed by `.wav`.
pub proof fn lemma_wav_name_is_stem_dot_wav(name: Seq<u8>)
    ensures
        is_wav_name(name) <==> (name.len() >= 5 && name.skip(name.len() - 4) =~= seq![DOT]
            + wav_extension()),
{
    lemma_last_dot(name);
    let dot = last_dot(name);
    let n = name.len() as int;
    let dot_wav = seq![DOT] + wav_extension();
    assert(dot_wav.len() == 4);
    assert(dot_wav[0] == DOT && dot_wav[1] == 0x77 && dot_wav[2] == 0x61 && dot_wav[3] == 0x76);
    if is_wav_name(name) {
        let ext = name.skip(dot + 1);
        assert(ext == wav_extension());
        assert(ext.len() == 3);
        assert(dot == n - 4);
        assert forall|k: int| 0 <= k < 4 implies name.skip(n - 4)[k] == dot_wav[k] by {
            if k > 0 {
                assert(ext[k - 1] == name[dot + k]);
            }
        }
    }
    if n >= 5 && name.skip(n - 4) =~= dot_wav {
        let tail = name.skip(n - 4);
        assert(name[n - 4] == tail[0]);
        assert(name[n - 3] == tail[1]);
        assert(name[n - 2] == tail[2]);
        assert(name[n - 1] == tail[3]);
        assert(dot == n - 4);
        assert(name.skip(dot + 1) =~= wav_extension());
    }
}

/// Finds the last `.` of a name.
fn find_last_dot(name: &[u8]) -> (found: Option<usize>)
    ensures
        match found {
            Some(i) => i == last_dot(name@),
            None => last_dot(name@) == -1,
        },
{
    let mut found: Option<usize> = None;
    let mut i: usize = 0;
    while i < name.len()
        invariant
            i <= name@.len(),
            match found {
                Some(k) => k == last_dot(name@.take(i as int)),
                None => last_dot(name@.take(i as int)) == -1,
            },
        decreases name@.len() - i,
    {
        assert(name@.take(i + 1).drop_last() =~= name@.take(i as int));
        if name[i] == DOT {
            found = Some(i);
        }
        i = i + 1;
    }
    assert(name@.take(i as int) =~= name@);
    found
}

/// Whether two names are the same bytes.
fn same_bytes(a: &[u8], b: &[u8]) -> (same: bool)
    ensures
        same == (a@ == b@),
{
    if a.len() != b.len() {
        return false;
    }
    let mut i: usize = 0;
    while i < a.len()
        invariant
            i <= a@.len() == b@.len(),
            forall|k: int| 0 <= k < i ==> a@[k] == b@[k],
        decreases a@.len() - i,
    {
        if a[i] != b[i] {
            return false;
        }
        i = i + 1;
    }
    assert(a@ =~= b@);
    true
}

/// Where the extension of a file name begins, if it has one.
fn extension_start(name: &[u8]) -> (start: Option<usize>)
    ensures
        match start {
            Some(s) => s <= name@.len() && extension_of(name@) == Some(name@.skip(s as int)),
            None => extension_of(name@) is None,
        },
{
    proof {
        lemma_last_dot(name@);
    }
    match find_last_dot(name) {
        None => None,
        Some(dot) => {
            if dot == 0 {
                None
            } else if name.len() == 2 && name[0] == DOT {
                assert(name@ =~= seq![DOT, DOT]);
                None
            } else {
                Some(dot + 1)
            }
        },
    }
}

/// The extension of a file name, if it has one.
pub fn extension(name: &[u8]) -> (ext: Option<Vec<u8>>)
    ensures
        match ext {
            Some(e) => extension_of(name@) == Some(e@),
            None => extension_of(name@) is None,
        },
{
    match extension_start(name) {
        Some(start) => Some(slice_to_vec(slice_subrange(name, start, name.len()))),
        None => None,
    }
}

/// Whether the extension of a file name is exactly `wanted`.
pub fn has_extension(name: &[u8], wanted: &[u8]) -> (same: bool)
    ensures
        same == (extension_of(name@) == Some(wanted@)),
{
    match extension_start(name) {
        Some(start) => same_bytes(slice_subrange(name, start, name.len()), wanted),
        None => false,
    }
}

/// Whether a file name carries the extension `wav`.
pub fn has_wav_extension(name: &[u8]) -> (wav: bool)
    ensures
        wav == is_wav_name(name@),
{
    let wav: [u8; 3] = [0x77, 0x61, 0x76];
    assert(wav@ =~= wav_extension());
    has_extension(name, wav.as_slice())
}

/// What a path is in a contract: the names of its components, the outermost
/// first, each name a sequence of bytes.
pub type SpecPath = Seq<Seq<u8>>;

/// A path as the sequence of its components, the outermost first.
///
/// A component is one name of the path, held without a separator; a root or
/// a drive prefix counts as a component too. Two paths are the same path
/// where their components are the same names in the same order.
#[derive(Debug, PartialEq, Eq)]
pub struct ComponentPath {
    pub components: Vec<Vec<u8>>,
}

impl View for ComponentPath {
    type V = SpecPath;

    open spec fn view(&self) -> SpecPath {
        Seq::new(self.components@.len(), |i: int| self.components@[i]@)
    }
}

impl Clone for ComponentPath {
    fn clone(&self) -> (copy: ComponentPath)
        ensures
            copy@ == self@,
    {
        let copy = self.copy_range(0, self.components.len());
        assert(self@.subrange(0, self@.len() as int) =~= self@);
        copy
    }
}

impl ComponentPath {
    /// The path made of the given components.
    pub fn new(components: Vec<Vec<u8>>) -> (path: ComponentPath)
        ensures
            path.components == components,
    {
        ComponentPath { components }
    }

    /// A new path of the components from index `from` up to, not including,
    /// index `to`.
    fn copy_range(&self, from: usize, to: usize) -> (part: ComponentPath)
        requires
            from <= to <= self@.len(),
        ensures
            part@ == self@.subrange(from as int, to as int),
    {
        let mut components: Vec<Vec<u8>> = Vec::new();
        let mut i: usize = from;
        while i < to
            invariant
                from <= i <= to <= self.components@.len(),
                components@.len() == i - from,
                forall|k: int| 0 <= k < i - from ==> components@[k]@ == self.components@[from + k]@,
            decreases to - i,
        {
            components.push(slice_to_vec(self.components[i].as_slice()));
            i = i + 1;
        }
        let part = ComponentPath { components };
        assert(part@ =~= self@.subrange(from as int, to as int));
        part
    }

    /// How many components the path has.
    pub fn len(&self) -> (n: usize)
        ensures
            n == self@.len(),
    {
        self.components.len()
    }

    /// The last component: the name of the file or directory that the path
    /// leads to. The empty path has none.
    pub fn file_name(&self) -> (name: Option<&Vec<u8>>)
        ensures
            match name {
                Some(n) => self@.len() > 0 && n@ == self@.last(),
                None => self@.len() == 0,
            },
    {
        let n: usize = self.components.len();
        if n == 0 {
            None
        } else {
            Some(&self.components[n - 1])
        }
    }

    /// Whether the path lies at or under `base`: whether the components of
    /// `base` are its first components.
    pub fn starts_with(&self, base: &ComponentPath) -> (under: bool)
        ensures
            under == base@.is_prefix_of(self@),
    {
        if base.components.len() > self.components.len() {
            return false;
        }
        let mut i: usize = 0;
        while i < base.components.len()
            invariant
                i <= base.components@.len() <= self.components@.len(),
                forall|k: int| 0 <= k < i ==> base@[k] == self@[k],
            decreases base.components@.len() - i,
        {
            if !same_bytes(base.components[i].as_slice(), self.components[i].as_slice()) {
                assert(base@[i as int] != self@[i as int]);
                assert(self@.subrange(0, base@.len() as int)[i as int] == self@[i as int]);
                return false;
            }
            i = i + 1;
        }
        assert(base@ =~= self@.subrange(0, base@.len() as int));
        true
    }

    /// The path as seen from `base`: what is left of it once the components
    /// of `base` are taken from its front. `None` where it does not lie at
    /// or under `base`.
    pub fn strip_prefix(&self, base: &ComponentPath) -> (rest: Option<ComponentPath>)
        ensures
            match rest {
                Some(rel) => base@.is_prefix_of(self@) && rel@ == self@.skip(base@.len() as int),
                None => !base@.is_prefix_of(self@),
            },
    {
        if self.starts_with(base) {
            Some(self.copy_range(base.components.len(), self.components.len()))
        } else {
            None
        }
    }

    /// The path that leads through `self` and then along `rel`.
    pub fn join(&self, rel: &ComponentPath) -> (joined: ComponentPath)
        ensures
            joined@ == self@ + rel@,
    {
        let mut joined = self.clone();
        let mut i: usize = 0;
        while i < rel.components.len()
            invariant
                i <= rel.components@.len(),
                joined@ == self@ + rel@.take(i as int),
            decreases rel.components@.len() - i,
        {
            let ghost before = joined@;
            joined.components.push(slice_to_vec(rel.components[i].as_slice()));
            assert(joined@ =~= before.push(rel@[i as int]));
            assert(rel@.take(i + 1) =~= rel@.take(i as int).push(rel@[i as int]));
            i = i + 1;
        }
        assert(rel@.take(i as int) =~= rel@);
        joined
    }

    /// The directory that holds what the path leads to: the path without its
    /// last component. The empty path has none.
    pub fn parent(&self) -> (dir: Option<ComponentPath>)
        ensures
            match dir {
                Some(p) => parent_of(self@) == Some(p@),
                None => parent_of(self@) is None,
            },
    {
        let n: usize = self.components.len();
        if n == 0 {
            None
        } else {
            Some(self.copy_range(0, n - 1))
        }
    }

    /// Moves the path from under `from` to under `to`, keeping what lies
    /// between: the place where a copy of a file under one root belongs
    /// under another. `None` where the path does not lie at or under `from`.
    pub fn relocate(&self, from: &ComponentPath, to: &ComponentPath) -> (moved: Option<Self>)
        ensures
            match moved {
                Some(dest) => relocated(self@, from@, to@) == Some(dest@),
                None => relocated(self@, from@, to@) is None,
            },
    {
        match self.strip_prefix(from) {
            Some(rel) => Some(to.join(&rel)),
            None => None,
        }
    }
}

/// The directory that holds what a path leads to: the path without its last
/// component. The empty path has none.
pub open spec fn parent_of(path: SpecPath) -> Option<SpecPath> {
    if path.len() == 0 {
        None
    } else {
        Some(path.drop_last())
    }
}

/// Where a path under the root `from` belongs under the root `to`: the
/// components of `to`, then what the path holds beyond `from`.
pub open spec fn relocated(path: SpecPath, from: SpecPath, to: SpecPath) -> Option<SpecPath> {
    if from.is_prefix_of(path) {
        Some(to + path.skip(from.len() as int))
    } else {
        None
    }
}

/// Relocating keeps the path relative to the root: what lies at `rel` under
/// `from` is moved to `rel` under `to`, whatever the three are.
pub proof fn lemma_relocated_keeps_relative_path(from: SpecPath, to: SpecPath, rel: SpecPath)
    ensures
        relocated(from + rel, from, to) == Some(to + rel),
{
    assert((from + rel).subrange(0, from.len() as int) =~= from);
    assert((from + rel).skip(from.len() as int) =~= rel);
}

/// A path is relocated exactly where it lies under the root; the result then
/// lies under the new root at the same relative place, and relocating it
/// back gives the path again.
pub proof fn lemma_relocated_iff_under_root(path: SpecPath, from: SpecPath, to: SpecPath)
    ensures
        relocated(path, from, to) is Some <==> exists|rel: SpecPath| path == from + rel,
        relocated(path, from, to) matches Some(dest) ==> ({
            &&& to.is_prefix_of(dest)
            &&& dest.skip(to.len() as int) == path.skip(from.len() as int)
            &&& relocated(dest, to, from) == Some(path)
        }),
{
    if from.is_prefix_of(path) {
        let rel = path.skip(from.len() as int);
        assert(path =~= from + rel);
        let dest = to + rel;
        assert(dest.subrange(0, to.len() as int) =~= to);
        assert(dest.skip(to.len() as int) =~= rel);
    }
    if exists|rel: SpecPath| path == from + rel {
        let rel = choose|rel: SpecPath| path == from + rel;
        assert((from + rel).subrange(0, from.len() as int) =~= from);
    }
}

} // verus!
