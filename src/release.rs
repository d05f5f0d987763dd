use vstd::prelude::*;
use vstd::string::{StrSliceExecFns, StringSliceAdditionalSpecFns};

verus! {

/// Where a release call was made, as the native allocator's debug tracking
/// records it.
pub struct CallSite {
    pub file: &'static str,
    pub line: u32,
}

/// The NUL-terminated encoding of `b`, which exists when `b` holds no NUL byte.
pub open spec fn c_string_spec(b: Seq<u8>) -> Option<Seq<u8>> {
    if b.contains(0u8) {
        None
    } else {
        Some(b.push(0u8))
    }
}

/// Encodes `s` as a NUL-terminated byte string; `None` when `s` holds a NUL.
pub fn c_string_bytes(s: &str) -> (r: Option<Vec<u8>>)
    ensures
        r matches Some(v) ==> c_string_spec(s.spec_bytes()) == Some(v@),
        r is None ==> c_string_spec(s.spec_bytes()) is None,
{
    let b = s.as_bytes_vec();
    let mut out: Vec<u8> = Vec::new();
    let mut i: usize = 0;
    while i < b.len()
        invariant
            b@ == s.spec_bytes(),
            i <= b@.len(),
            out@ == b@.subrange(0, i as int),
            forall|k: int| 0 <= k < i ==> b@[k] != 0u8,
        decreases b@.len() - i,
    {
        if b[i] == 0u8 {
            assert(b@.contains(0u8)) by {
                assert(b@[i as int] == 0u8);
            }
            return None;
        }
        out.push(b[i]);
        i = i + 1;
        assert(out@ =~= b@.subrange(0, i as int));
    }
    assert(out@ =~= b@);
    assert(!b@.contains(0u8));
    out.push(0u8);
    Some(out)
}

/// The provenance handed to the native release routine: the file name as a
/// NUL-terminated string and the line; `None` when the file name cannot be
/// encoded.
pub fn release_provenance(site: &CallSite) -> (r: Option<(Vec<u8>, u32)>)
    ensures
        r matches Some(p) ==> c_string_spec(site.file.spec_bytes()) == Some(p.0@) && p.1 == site.line,
        r is None ==> c_string_spec(site.file.spec_bytes()) is None,
{
    match c_string_bytes(site.file) {
        Some(b) => Some((b, site.line)),
        None => None,
    }
}

} // verus!
