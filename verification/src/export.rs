//! Handing a path to a caller that brings its own buffer.

use vstd::prelude::*;

verus! {

/// What a buffer holds after `path` was written to it: the path in front of
/// what the buffer held behind it, where the path fits; what it held before,
/// where it does not.
pub open spec fn written(path: Seq<u8>, buffer: Seq<u8>) -> Seq<u8> {
    if path.len() <= buffer.len() {
        path + buffer.skip(path.len() as int)
    } else {
        buffer
    }
}

/// Writes `path` to the front of `buffer` where it fits, and returns the
/// number of bytes that `path` has.
///
/// A result larger than the buffer tells the caller that nothing was
/// written, and how large a buffer the path needs.
pub fn write_path(path: &[u8], buffer: &mut [u8]) -> (needed: usize)
    ensures
        needed == path@.len(),
        final(buffer)@ == written(path@, old(buffer)@),
{
    let needed = path.len();
    if needed <= buffer.len() {
        let mut at: usize = 0;
        while at < needed
            invariant
                at <= needed,
                needed == path@.len(),
                buffer@.len() == old(buffer)@.len(),
                needed <= buffer@.len(),
                buffer@ == path@.take(at as int) + old(buffer)@.skip(at as int),
            decreases needed - at,
        {
            buffer[at] = path[at];
            at += 1;
        }
    }
    needed
}

} // verus!
