//! Paths, held as the bytes the operating system gives them.

use vstd::prelude::*;
use vstd::string::*;
use vstd::utf8::*;

verus! {

/// The byte that separates the components of a path.
pub const SEPARATOR: u8 = 47;

/// The byte that stands for the current directory where it is a component.
pub const DOT: u8 = 46;

/// A path. Two paths are the same where their bytes are.
#[derive(Debug, PartialEq, Eq, Hash)]
pub struct FsPath {
    pub bytes: Vec<u8>,
}

impl View for FsPath {
    type V = Seq<u8>;

    open spec fn view(&self) -> Seq<u8> {
        self.bytes@
    }
}

/// `base` with `tail` put behind it: an absolute `tail` replaces `base`, any other
/// one is appended, behind a separator where `base` does not end in one. Nothing
/// comes between an empty `base` and `tail`.
pub open spec fn joined(base: Seq<u8>, tail: Seq<u8>) -> Seq<u8> {
    if tail.len() > 0 && tail[0] == SEPARATOR {
        tail
    } else if base.len() > 0 && base.last() != SEPARATOR {
        base.push(SEPARATOR) + tail
    } else {
        base + tail
    }
}

/// The pieces of `bytes` between the separators.
pub open spec fn split_on(bytes: Seq<u8>, separator: u8) -> Seq<Seq<u8>>
    decreases bytes.len(),
{
    if bytes.len() == 0 {
        seq![Seq::empty()]
    } else {
        let before = split_on(bytes.drop_last(), separator);
        if bytes.last() == separator {
            before.push(Seq::empty())
        } else {
            before.drop_last().push(before.last().push(bytes.last()))
        }
    }
}

/// The components of a relative path, or of an absolute one below the root: the pieces
/// between the separators without the empty ones, and without a lone dot anywhere but
/// at the start.
pub open spec fn components(path: Seq<u8>) -> Seq<Seq<u8>> {
    let pieces = split_on(path, SEPARATOR);
    kept_pieces(pieces)
}

/// Those pieces of a path that are components.
pub open spec fn kept_pieces(pieces: Seq<Seq<u8>>) -> Seq<Seq<u8>>
    decreases pieces.len(),
{
    if pieces.len() == 0 {
        Seq::empty()
    } else {
        let before = kept_pieces(pieces.drop_last());
        if counts(pieces.last(), pieces.len() == 1) {
            before.push(pieces.last())
        } else {
            before
        }
    }
}

/// Whether a piece of a path is a component.
pub open spec fn counts(piece: Seq<u8>, first: bool) -> bool {
    piece.len() > 0 && (piece != seq![DOT] || first)
}

/// What two ways to write a path have in common.
pub struct PathKey {
    pub absolute: bool,
    pub components: Seq<Seq<u8>>,
}

/// What identifies a path, however it is written.
pub open spec fn key(path: Seq<u8>) -> PathKey {
    PathKey { absolute: path.len() > 0 && path[0] == SEPARATOR, components: components(path) }
}

/// What `bytes` look like as text, with the replacement character for what is not
/// UTF-8.
pub uninterp spec fn lossy_text(bytes: Seq<u8>) -> Seq<char>;

/// Calls `String::from_utf8_lossy`. The contract says that its result is the same
/// wherever the bytes are, and that bytes that are UTF-8 come back as the text that
/// they encode.
#[verifier::external_body]
fn from_utf8_lossy(bytes: &Vec<u8>) -> (res: String)
    ensures
        res@ == lossy_text(bytes@),
        valid_utf8(bytes@) ==> res@ == decode_utf8(bytes@),
{
    String::from_utf8_lossy(bytes).into_owned()
}

/// Copies `bytes` behind `out`.
pub(crate) fn append_bytes(out: &mut Vec<u8>, bytes: &[u8])
    ensures
        final(out)@ == old(out)@ + bytes@,
{
    let ghost before = out@;
    let mut i: usize = 0;
    while i < bytes.len()
        invariant
            i <= bytes@.len(),
            out@ == before + bytes@.take(i as int),
        decreases bytes@.len() - i,
    {
        out.push(bytes[i]);
        proof {
            assert(out@ =~= before + bytes@.take(i + 1));
        }
        i += 1;
    }
    assert(bytes@.take(bytes@.len() as int) =~= bytes@);
}

/// What the bytes of every item are.
pub open spec fn all_bytes(items: Seq<Vec<u8>>) -> Seq<Seq<u8>> {
    items.map_values(|item: Vec<u8>| item@)
}

/// Cuts `bytes` at every separator.
pub fn split(bytes: &[u8], separator: u8) -> (res: Vec<Vec<u8>>)
    ensures
        all_bytes(res@) == split_on(bytes@, separator),
{
    let mut res: Vec<Vec<u8>> = Vec::new();
    let mut piece: Vec<u8> = Vec::new();
    let mut i: usize = 0;
    assert(bytes@.take(0) =~= Seq::<u8>::empty());
    assert(all_bytes(res@).push(piece@) =~= split_on(bytes@.take(0), separator));
    while i < bytes.len()
        invariant
            i <= bytes@.len(),
            all_bytes(res@).push(piece@) == split_on(bytes@.take(i as int), separator),
        decreases bytes@.len() - i,
    {
        let ghost done = all_bytes(res@);
        let ghost held = piece@;
        proof {
            assert(bytes@.take(i + 1).drop_last() =~= bytes@.take(i as int));
            assert(done.push(held).drop_last() =~= done);
        }
        if bytes[i] == separator {
            res.push(piece);
            piece = Vec::new();
            assert(all_bytes(res@) =~= done.push(held));
            assert(piece@ =~= Seq::<u8>::empty());
        } else {
            piece.push(bytes[i]);
        }
        i += 1;
    }
    let ghost done = all_bytes(res@);
    let ghost last = piece@;
    res.push(piece);
    assert(bytes@.take(bytes@.len() as int) =~= bytes@);
    assert(all_bytes(res@) =~= done.push(last));
    res
}

/// Whether the two hold the same bytes.
fn same_bytes(a: &Vec<u8>, b: &Vec<u8>) -> (res: bool)
    ensures
        res == (a@ == b@),
{
    if a.len() != b.len() {
        return false;
    }
    let mut i: usize = 0;
    while i < a.len()
        invariant
            i <= a@.len(),
            a@.len() == b@.len(),
            forall|k: int| 0 <= k < i ==> a@[k] == b@[k],
        decreases a@.len() - i,
    {
        if a[i] != b[i] {
            return false;
        }
        i += 1;
    }
    assert(a@ =~= b@);
    true
}

impl Clone for FsPath {
    fn clone(&self) -> (res: Self)
        ensures
            res@ == self@,
    {
        let mut bytes: Vec<u8> = Vec::new();
        append_bytes(&mut bytes, self.bytes.as_slice());
        assert(bytes@ =~= self@);
        FsPath { bytes }
    }
}

impl FsPath {
    /// The path that `text` writes.
    pub fn from_text(text: &str) -> (res: FsPath)
        ensures
            res@ == encode_utf8(text@),
    {
        let mut bytes: Vec<u8> = Vec::new();
        append_bytes(&mut bytes, text.as_bytes());
        assert(bytes@ =~= encode_utf8(text@));
        FsPath { bytes }
    }

    /// Whether the two paths have the same bytes.
    pub fn same(&self, other: &FsPath) -> (res: bool)
        ensures
            res == (self@ == other@),
    {
        same_bytes(&self.bytes, &other.bytes)
    }

    /// The components of the path.
    fn pieces(&self) -> (res: Vec<Vec<u8>>)
        ensures
            all_bytes(res@) == components(self@),
    {
        let all = split(self.bytes.as_slice(), SEPARATOR);
        let ghost every = all_bytes(all@);
        let mut res: Vec<Vec<u8>> = Vec::new();
        let mut i: usize = 0;
        assert(every.take(0) =~= Seq::<Seq<u8>>::empty());
        assert(all_bytes(res@) =~= Seq::<Seq<u8>>::empty());
        while i < all.len()
            invariant
                i <= all@.len(),
                every == all_bytes(all@),
                all_bytes(res@) == kept_pieces(every.take(i as int)),
            decreases all@.len() - i,
        {
            let ghost kept = all_bytes(res@);
            let piece = &all[i];
            let lone_dot = piece.len() == 1 && piece[0] == DOT;
            proof {
                assert(every.take(i + 1).drop_last() =~= every.take(i as int));
                assert(every[i as int] == piece@);
                if lone_dot {
                    assert(piece@ =~= seq![DOT]);
                }
            }
            if piece.len() > 0 && (!lone_dot || i == 0) {
                let mut copy: Vec<u8> = Vec::new();
                append_bytes(&mut copy, piece.as_slice());
                assert(copy@ =~= piece@);
                res.push(copy);
                assert(all_bytes(res@) =~= kept.push(piece@));
            }
            i += 1;
        }
        assert(every.take(every.len() as int) =~= every);
        res
    }

    /// Whether both write the same path, though one may have a separator too many.
    pub fn alike(&self, other: &FsPath) -> (res: bool)
        ensures
            res == (key(self@) == key(other@)),
    {
        let absolute = self.bytes.len() > 0 && self.bytes[0] == SEPARATOR;
        let other_absolute = other.bytes.len() > 0 && other.bytes[0] == SEPARATOR;
        let ours = self.pieces();
        let theirs = other.pieces();
        assert(components(self@).len() == ours@.len());
        assert(components(other@).len() == theirs@.len());
        if absolute != other_absolute || ours.len() != theirs.len() {
            return false;
        }
        let mut i: usize = 0;
        while i < ours.len()
            invariant
                i <= ours@.len(),
                ours@.len() == theirs@.len(),
                all_bytes(ours@) == components(self@),
                all_bytes(theirs@) == components(other@),
                forall|k: int| 0 <= k < i ==> components(self@)[k] == components(other@)[k],
            decreases ours@.len() - i,
        {
            if !same_bytes(&ours[i], &theirs[i]) {
                assert(components(self@)[i as int] != components(other@)[i as int]);
                return false;
            }
            i += 1;
        }
        assert(components(self@) =~= components(other@));
        true
    }

    /// This path with `tail` behind it.
    pub fn join(&self, tail: &FsPath) -> (res: FsPath)
        ensures
            res@ == joined(self@, tail@),
    {
        if tail.bytes.len() > 0 && tail.bytes[0] == SEPARATOR {
            return tail.clone();
        }
        let mut res = self.clone();
        if self.bytes.len() > 0 && self.bytes[self.bytes.len() - 1] != SEPARATOR {
            res.bytes.push(SEPARATOR);
        }
        append_bytes(&mut res.bytes, tail.bytes.as_slice());
        res
    }

    /// The path as text, for messages and for the search engine.
    pub fn display(&self) -> (res: String)
        ensures
            res@ == lossy_text(self@),
            valid_utf8(self@) ==> res@ == decode_utf8(self@),
    {
        from_utf8_lossy(&self.bytes)
    }
}

} // verus!
