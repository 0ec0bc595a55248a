use std::collections::hash_map::DefaultHasher;
use std::hash::Hasher;
use vstd::prelude::*;
use vstd::std_specs::hash::DefaultHasherAdditionalSpecFns;

verus! {

/// The byte of the path separator `/`.
pub const SEPARATOR: u8 = 47;

/// The byte `.`.
pub const DOT: u8 = 46;

/// Whether byte `i` of `b` is a `.` component after the first: it stands
/// between separators, or between a separator and the end.
pub open spec fn current_dir_at(b: Seq<u8>, i: int) -> bool {
    &&& b[i] == DOT
    &&& i > 0 && b[i - 1] == SEPARATOR
    &&& (i + 1 == b.len() || b[i + 1] == SEPARATOR)
}

/// Whether byte `i` of `b` is dropped, given what the first `i` bytes became
/// (`out`): a separator right after a kept separator, or a `.` component.
pub open spec fn dropped_byte(b: Seq<u8>, out: Seq<u8>, i: int) -> bool {
    (b[i] == SEPARATOR && out.len() > 0 && out.last() == SEPARATOR) || current_dir_at(b, i)
}

/// The first `n` bytes of `b` with each run of separators collapsed to one
/// and every `.` component after the first left out.
pub open spec fn collapsed(b: Seq<u8>, n: int) -> Seq<u8>
    decreases n,
{
    if n <= 0 {
        Seq::empty()
    } else if dropped_byte(b, collapsed(b, n - 1), n - 1) {
        collapsed(b, n - 1)
    } else {
        collapsed(b, n - 1).push(b[n - 1])
    }
}

/// A path in normal form: runs of separators collapsed, `.` components after
/// the first left out, and no trailing separator except for the root itself.
pub open spec fn normalized(b: Seq<u8>) -> Seq<u8> {
    let c = collapsed(b, b.len() as int);
    if c.len() > 1 && c.last() == SEPARATOR {
        c.drop_last()
    } else {
        c
    }
}

/// The cache key of a path: the default hasher run over the path's bytes in
/// normal form. Paths with equal normal forms give equal keys.
pub open spec fn path_key(path: Seq<char>) -> u64 {
    DefaultHasher::spec_finish(seq![normalized(vstd::utf8::encode_utf8(path))])
}

/// The bytes of `path` in normal form.
pub fn normalize(path: &[u8]) -> (r: Vec<u8>)
    ensures
        r@ == normalized(path@),
{
    let mut out: Vec<u8> = Vec::with_capacity(path.len());
    let mut i: usize = 0;
    while i < path.len()
        invariant
            i <= path@.len(),
            out@ == collapsed(path@, i as int),
        decreases path@.len() - i,
    {
        let after_separator = out.len() > 0 && out[out.len() - 1] == SEPARATOR;
        let current_dir = path[i] == DOT && i > 0 && path[i - 1] == SEPARATOR && (i + 1
            == path.len() || path[i + 1] == SEPARATOR);
        if !((path[i] == SEPARATOR && after_separator) || current_dir) {
            out.push(path[i]);
        }
        i = i + 1;
    }
    if out.len() > 1 && out[out.len() - 1] == SEPARATOR {
        out.pop();
    }
    out
}

/// Computes the cache key of `path`.
pub fn resource_key(path: &str) -> (r: u64)
    ensures
        r == path_key(path@),
{
    let bytes = normalize(path.as_bytes());
    let mut hasher = DefaultHasher::new();
    hasher.write(bytes.as_slice());
    hasher.finish()
}

} // verus!
