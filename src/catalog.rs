use vstd::prelude::*;

verus! {

/// Oldest release of the native library that the declarations are made for.
pub const MIN_VERSION: &'static str = "0.10";

/// Module whose package is the mandatory base library.
pub const BASE_MODULE: &'static str = "core";

/// Name of the declarations file in the output directory.
pub const ARTIFACT_NAME: &'static str = "c_bindings.rs";

/// A module: located through the package registry, its declarations come
/// from one or two public headers under each include root reported.
#[derive(Clone, Copy)]
pub struct ModuleSpec {
    /// Name of the module, as diagnostics give it.
    pub name: &'static str,
    /// Package that provides it (after the `gnunet` prefix).
    pub package: &'static str,
    /// Key of its public header (`gnunet_<key>.h`).
    pub header_key: &'static str,
    /// Key of a second header, for a module that has one.
    pub extra_key: Option<&'static str>,
    /// Whether the artifact links against the libraries its lookup reports.
    pub links: bool,
}

/// Build-time toggles of the optional subsystems.
#[derive(Clone, Copy)]
pub struct Features {
    pub cadet: bool,
    pub fs: bool,
    pub peerstore: bool,
}

/// Header keys of a module, in the order they are synthesized.
pub open spec fn module_keys_spec(m: ModuleSpec) -> Seq<&'static str> {
    match m.extra_key {
        Some(k) => seq![m.header_key, k],
        None => seq![m.header_key],
    }
}

/// Keys of the headers that the base library provides.
pub open spec fn base_header_keys_spec() -> Seq<&'static str> {
    seq![
        "ats_service", "bandwidth_lib", "bio_lib", "buffer_lib", "client_lib", "common",
        "configuration_lib", "container_lib", "constants", "crypto_lib", "disk_lib",
        "dnsstub_lib", "dnsparser_lib", "helper_lib", "hello_lib", "getopt_lib", "mst_lib",
        "mq_lib", "nc_lib", "network_lib", "nt_lib", "op_lib", "os_lib", "peer_lib",
        "plugin_lib", "program_lib", "protocols", "service_lib", "scheduler_lib",
        "signal_lib", "strings_lib", "time_lib", "transport_service", "tun_lib", "util_lib",
    ]
}

/// The module of a base header: named by its key, provided by the base library.
pub open spec fn base_module(key: &'static str) -> ModuleSpec {
    ModuleSpec { name: key, package: BASE_MODULE, header_key: key, extra_key: None, links: false }
}

/// A module provided by a package of its own name, with one header.
pub open spec fn service_module(name: &'static str, key: &'static str) -> ModuleSpec {
    ModuleSpec { name, package: name, header_key: key, extra_key: None, links: false }
}

pub open spec fn cadet_module() -> ModuleSpec {
    service_module("cadet", "cadet_service")
}

pub open spec fn fs_module() -> ModuleSpec {
    service_module("fs", "fs_service")
}

pub open spec fn peerstore_module() -> ModuleSpec {
    ModuleSpec {
        name: "peerstore",
        package: "peerstore",
        header_key: "peerstore_plugin",
        extra_key: Some("peerstore_service"),
        links: true,
    }
}

/// Modules that every build locates: one for each base header, then the
/// service modules.
pub open spec fn mandatory_modules_spec() -> Seq<ModuleSpec> {
    base_header_keys_spec().map_values(|k: &'static str| base_module(k)) + seq![
        service_module("core", "core_service"),
        service_module("util", "util_lib"),
        service_module("identity", "identity_service"),
    ]
}

/// Optional modules that the toggles switch on, in the order they are located.
pub open spec fn optional_modules_spec(f: Features) -> Seq<ModuleSpec> {
    (if f.cadet { seq![cadet_module()] } else { Seq::empty() }) + (if f.fs {
        seq![fs_module()]
    } else {
        Seq::empty()
    }) + (if f.peerstore { seq![peerstore_module()] } else { Seq::empty() })
}

/// Every module that a build with toggles `f` locates, in order.
pub open spec fn enabled_modules_spec(f: Features) -> Seq<ModuleSpec> {
    mandatory_modules_spec() + optional_modules_spec(f)
}

pub fn base_header_keys() -> (r: Vec<&'static str>)
    ensures
        r@ == base_header_keys_spec(),
{
    let r = vec![
        "ats_service", "bandwidth_lib", "bio_lib", "buffer_lib", "client_lib", "common",
        "configuration_lib", "container_lib", "constants", "crypto_lib", "disk_lib",
        "dnsstub_lib", "dnsparser_lib", "helper_lib", "hello_lib", "getopt_lib", "mst_lib",
        "mq_lib", "nc_lib", "network_lib", "nt_lib", "op_lib", "os_lib", "peer_lib",
        "plugin_lib", "program_lib", "protocols", "service_lib", "scheduler_lib",
        "signal_lib", "strings_lib", "time_lib", "transport_service", "tun_lib", "util_lib",
    ];
    assert(r@ =~= base_header_keys_spec());
    r
}

pub fn enabled_modules(f: Features) -> (r: Vec<ModuleSpec>)
    ensures
        r@ == enabled_modules_spec(f),
{
    let keys = base_header_keys();
    let ghost base = keys@.map_values(|k: &'static str| base_module(k));
    let mut r: Vec<ModuleSpec> = Vec::new();
    let mut i: usize = 0;
    while i < keys.len()
        invariant
            i <= keys@.len(),
            keys@ == base_header_keys_spec(),
            base == keys@.map_values(|k: &'static str| base_module(k)),
            r@ == base.subrange(0, i as int),
        decreases keys@.len() - i,
    {
        let k = keys[i];
        r.push(ModuleSpec { name: k, package: BASE_MODULE, header_key: k, extra_key: None, links: false });
        i = i + 1;
        assert(r@ =~= base.subrange(0, i as int));
    }
    assert(base.subrange(0, i as int) =~= base);
    r.push(ModuleSpec { name: "core", package: "core", header_key: "core_service", extra_key: None, links: false });
    r.push(ModuleSpec { name: "util", package: "util", header_key: "util_lib", extra_key: None, links: false });
    r.push(
        ModuleSpec { name: "identity", package: "identity", header_key: "identity_service", extra_key: None, links: false },
    );
    assert(r@ =~= mandatory_modules_spec());
    if f.cadet {
        r.push(ModuleSpec { name: "cadet", package: "cadet", header_key: "cadet_service", extra_key: None, links: false });
    }
    if f.fs {
        r.push(ModuleSpec { name: "fs", package: "fs", header_key: "fs_service", extra_key: None, links: false });
    }
    if f.peerstore {
        r.push(
            ModuleSpec {
                name: "peerstore",
                package: "peerstore",
                header_key: "peerstore_plugin",
                extra_key: Some("peerstore_service"),
                links: true,
            },
        );
    }
    assert(r@ =~= enabled_modules_spec(f));
    r
}

} // verus!
