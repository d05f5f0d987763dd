use vstd::prelude::*;
use vstd::string::{StrSliceExecFns, StringSliceAdditionalSpecFns};

use crate::names::{header_file_name, header_file_name_spec};

verus! {

/// Block written ahead of every module header: the shared platform
/// configuration first, then the buffered I/O and boolean types that the
/// module headers take as already declared.
pub const CONFIG_PREAMBLE: &'static str = "#include \"gnunet_config.h\"\n#include <stdio.h>\n#include <stdbool.h>\n";

/// Bytes of the preamble.
pub open spec fn preamble_spec() -> Seq<u8> {
    CONFIG_PREAMBLE.spec_bytes()
}

/// Contents of a synthesized header: the preamble, then the module header verbatim.
pub open spec fn synthesized_bytes_spec(body: Seq<u8>) -> Seq<u8> {
    preamble_spec() + body
}

/// One synthesized header: where it goes in scratch space and what it holds.
pub struct SynthesizedHeader {
    pub file_name: String,
    pub bytes: Vec<u8>,
}

/// The preamble as a byte vector.
pub fn preamble_bytes() -> (r: Vec<u8>)
    ensures
        r@ == preamble_spec(),
{
    CONFIG_PREAMBLE.as_bytes_vec()
}

/// The contents of the synthesized header for a module header `body`.
pub fn synthesize_bytes(body: &Vec<u8>) -> (r: Vec<u8>)
    ensures
        r@ == synthesized_bytes_spec(body@),
{
    let mut r = preamble_bytes();
    let n = r.len();
    let mut i: usize = 0;
    while i < body.len()
        invariant
            i <= body@.len(),
            n == preamble_spec().len(),
            r@ == preamble_spec() + body@.subrange(0, i as int),
        decreases body@.len() - i,
    {
        r.push(body[i]);
        i = i + 1;
        assert(body@.subrange(0, i as int) =~= body@.subrange(0, i - 1) + seq![body@[i - 1]]);
    }
    assert(body@.subrange(0, i as int) =~= body@);
    r
}

/// The synthesized header for the module `key` whose public header reads `body`.
pub fn synthesize(key: &str, body: &Vec<u8>) -> (r: SynthesizedHeader)
    ensures
        r.file_name@ == header_file_name_spec(key@),
        r.bytes@ == synthesized_bytes_spec(body@),
{
    SynthesizedHeader { file_name: header_file_name(key), bytes: synthesize_bytes(body) }
}

/// Synthesis depends on the module key and the header's bytes alone: doing it
/// twice for the same module and include root gives the same file name and the
/// same bytes, and the module header can be read back from the result.
pub proof fn lemma_synthesis_idempotent(key1: Seq<char>, body1: Seq<u8>, key2: Seq<char>, body2: Seq<u8>)
    requires
        key1 == key2,
        body1 == body2,
    ensures
        header_file_name_spec(key1) == header_file_name_spec(key2),
        synthesized_bytes_spec(body1) == synthesized_bytes_spec(body2),
        synthesized_bytes_spec(body1).subrange(preamble_spec().len() as int, synthesized_bytes_spec(body1).len() as int) == body1,
{
    let s = synthesized_bytes_spec(body1);
    assert(s.subrange(preamble_spec().len() as int, s.len() as int) =~= body1);
}

} // verus!
