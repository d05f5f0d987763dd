use vstd::prelude::*;
use vstd::string::StringExecFns;

verus! {

/// Prefix shared by every package of the native library.
pub const PACKAGE_PREFIX: &'static str = "gnunet";

/// Prefix of every public header file of the native library.
pub const HEADER_PREFIX: &'static str = "gnunet_";

/// Extension of a header file.
pub const HEADER_SUFFIX: &'static str = ".h";

/// Shared platform configuration header, copied once into scratch space.
pub const CONFIG_HEADER: &'static str = "gnunet_config.h";

/// Directory, below an include root, that holds the library's headers.
pub const HEADER_SUBDIR: &'static str = "gnunet";

/// File name of the header of the module with the given key.
pub open spec fn header_file_name_spec(key: Seq<char>) -> Seq<char> {
    HEADER_PREFIX@ + key + HEADER_SUFFIX@
}

/// Package name under which the package registry knows a module.
pub open spec fn package_name_spec(module: Seq<char>) -> Seq<char> {
    PACKAGE_PREFIX@ + module
}

/// The header file name for a module key: `gnunet_<key>.h`.
pub fn header_file_name(key: &str) -> (r: String)
    ensures
        r@ == header_file_name_spec(key@),
{
    String::from_str(HEADER_PREFIX).concat(key).concat(HEADER_SUFFIX)
}

/// The package name for a module: `gnunet<module>`.
pub fn package_name(module: &str) -> (r: String)
    ensures
        r@ == package_name_spec(module@),
{
    String::from_str(PACKAGE_PREFIX).concat(module)
}

/// Distinct module keys never share a header file name, so one synthesized
/// header never overwrites another.
pub proof fn lemma_header_file_name_injective(k1: Seq<char>, k2: Seq<char>)
    ensures
        header_file_name_spec(k1) == header_file_name_spec(k2) <==> k1 == k2,
{
    let a = header_file_name_spec(k1);
    let b = header_file_name_spec(k2);
    let p: int = HEADER_PREFIX@.len() as int;
    if a == b {
        assert(k1 =~= a.subrange(p, a.len() - HEADER_SUFFIX@.len()));
        assert(k2 =~= b.subrange(p, b.len() - HEADER_SUFFIX@.len()));
    }
}

} // verus!
