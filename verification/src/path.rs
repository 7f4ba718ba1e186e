//! File paths as the byte strings that the system uses.
use vstd::prelude::*;
use vstd::utf8::*;

verus! {

/// The byte between two parts of a path.
pub const SEPARATOR: u8 = 0x2f;

/// A path below a directory: a separator goes between them unless the directory ends with one or
/// is empty.
pub open spec fn below(directory: Seq<u8>, relative: Seq<char>) -> Seq<u8> {
    if directory.len() == 0 || directory.last() == SEPARATOR {
        directory + encode_utf8(relative)
    } else {
        directory.push(SEPARATOR) + encode_utf8(relative)
    }
}

/// The path `relative`, which must not start with a separator, below `directory`.
pub(crate) fn join(directory: Vec<u8>, relative: &str) -> (path: Vec<u8>)
    ensures
        path@ == below(directory@, relative@),
{
    let mut path = directory;
    if path.len() > 0 && path[path.len() - 1] != SEPARATOR {
        path.push(SEPARATOR);
    }
    let bytes = relative.as_bytes();
    let mut index: usize = 0;
    let ghost start = path@;
    while index < bytes.len()
        invariant
            index <= bytes.len(),
            path@ == start + bytes@.take(index as int),
        decreases bytes.len() - index,
    {
        path.push(bytes[index]);
        assert(bytes@.take(index + 1) =~= bytes@.take(index as int).push(bytes@[index as int]));
        index += 1;
    }
    assert(bytes@.take(bytes@.len() as int) =~= bytes@);
    path
}

} // verus!
