//! Unix paths as byte strings: what it means to be absolute, and how one
//! path is adjoined to another.

use vstd::prelude::*;
use vstd::string::*;

verus! {

/// The byte that separates the components of a path: an ASCII slash.
pub const SEPARATOR: u8 = 0x2f;

/// The bytes of the path that `text` names.
pub open spec fn named(text: &str) -> Seq<u8> {
    text.spec_bytes()
}

/// A path is absolute when it starts at the root.
pub open spec fn absolute(path: Seq<u8>) -> bool {
    path.len() > 0 && path[0] == SEPARATOR
}

/// Whether a separator has to be written after `base` before a relative
/// path can follow it: only a non-empty base that does not already end in
/// one needs it.
pub open spec fn wants_separator(base: Seq<u8>) -> bool {
    base.len() > 0 && base.last() != SEPARATOR
}

/// The path obtained by adjoining `part` to `base`.
///
/// An absolute `part` replaces `base` altogether. A relative one is
/// appended, after a separator where `base` wants one.
pub open spec fn joined(base: Seq<u8>, part: Seq<u8>) -> Seq<u8> {
    if absolute(part) {
        part
    } else if wants_separator(base) {
        base.push(SEPARATOR) + part
    } else {
        base + part
    }
}

/// Tells whether `path` starts at the root.
pub fn is_absolute(path: &[u8]) -> (yes: bool)
    ensures
        yes == absolute(path@),
{
    path.len() > 0 && path[0] == SEPARATOR
}

/// Adjoins `part` to `base`.
pub fn join(base: &[u8], part: &[u8]) -> (path: Vec<u8>)
    ensures
        path@ == joined(base@, part@),
{
    let mut path: Vec<u8> = Vec::new();
    if !is_absolute(part) {
        path.extend_from_slice(base);
        if base.len() > 0 && base[base.len() - 1] != SEPARATOR {
            path.push(SEPARATOR);
        }
    }
    path.extend_from_slice(part);
    path
}

/// A text of ASCII characters names the path that has one byte for each of
/// its characters.
pub proof fn lemma_named_ascii(text: &str)
    requires
        is_ascii(text),
    ensures
        named(text) == Seq::new(text@.len(), |i: int| text@[i] as u8),
{
    is_ascii_spec_bytes(text);
}

/// A join starts at the root exactly when one of its two sides does.
pub proof fn lemma_joined_absolute(base: Seq<u8>, part: Seq<u8>)
    ensures
        absolute(joined(base, part)) <==> absolute(base) || absolute(part),
{
}

/// A join ends with what was adjoined.
pub proof fn lemma_joined_ends_with_part(base: Seq<u8>, part: Seq<u8>)
    ensures
        part.is_suffix_of(joined(base, part)),
{
    let whole = joined(base, part);
    assert(whole.skip(whole.len() - part.len()) =~= part);
}

/// Adjoining a relative path keeps the base in front, and adds one
/// separator at most between the two.
pub proof fn lemma_joined_keeps_base(base: Seq<u8>, part: Seq<u8>)
    requires
        !absolute(part),
    ensures
        base.is_prefix_of(joined(base, part)),
        base.len() + part.len() <= joined(base, part).len() <= base.len() + part.len() + 1,
{
    assert(joined(base, part).take(base.len() as int) =~= base);
}

/// Adjoining to the empty path gives the adjoined path itself.
pub proof fn lemma_joined_to_empty(part: Seq<u8>)
    ensures
        joined(Seq::empty(), part) == part,
{
    assert(joined(Seq::empty(), part) =~= part);
}

/// Adjoining two paths one after the other is the same as adjoining their
/// join: it does not matter how a chain of joins is grouped.
pub proof fn lemma_joined_associative(base: Seq<u8>, middle: Seq<u8>, part: Seq<u8>)
    ensures
        joined(joined(base, middle), part) == joined(base, joined(middle, part)),
{
    assert(joined(joined(base, middle), part) =~= joined(base, joined(middle, part)));
}

} // verus!
