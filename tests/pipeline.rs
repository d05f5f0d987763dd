use gnunet_sys::catalog::Features;
use gnunet_sys::names::{header_file_name, package_name};
use gnunet_sys::pipeline::{Action, Pipeline, Query};
use gnunet_sys::plan::{BuildPlan, LibraryDescriptor};
use gnunet_sys::release::{c_string_bytes, release_provenance, CallSite};
use gnunet_sys::synth::{preamble_bytes, synthesize, synthesize_bytes};

fn features(cadet: bool, fs: bool, peerstore: bool) -> Features {
    Features { cadet, fs, peerstore }
}

fn lib(paths: &[&str], links: &[&str]) -> LibraryDescriptor {
    LibraryDescriptor {
        include_paths: paths.iter().map(|p| p.to_string()).collect(),
        link_names: links.iter().map(|l| l.to_string()).collect(),
    }
}

fn expect_locate(p: &Pipeline) -> Query {
    match p.next_action() {
        Action::Locate(q) => q,
        _ => panic!("expected a lookup"),
    }
}

fn expect_build(p: &Pipeline) -> BuildPlan {
    match p.next_action() {
        Action::Build(plan) => plan,
        _ => panic!("expected the build step"),
    }
}

fn expect_abort(p: &Pipeline) -> String {
    match p.next_action() {
        Action::Abort(m) => m,
        _ => panic!("expected an abort"),
    }
}

/// Runs every lookup, answering each with `answer(module)`, and returns the
/// modules looked up.
fn locate_all(p: &mut Pipeline, answer: impl Fn(&str) -> LibraryDescriptor) -> Vec<String> {
    let mut seen = Vec::new();
    loop {
        match p.next_action() {
            Action::Locate(q) => {
                seen.push(q.module.to_string());
                p.record(Ok(answer(q.module)));
            }
            _ => return seen,
        }
    }
}

fn job_keys(plan: &BuildPlan) -> Vec<(String, String)> {
    plan.jobs.iter().map(|j| (j.key.to_string(), j.root.clone())).collect()
}

#[test]
fn header_file_name_wraps_key() {
    assert_eq!(header_file_name("core_service"), "gnunet_core_service.h");
    assert_eq!(header_file_name(""), "gnunet_.h");
}

#[test]
fn package_name_prefixes_module() {
    assert_eq!(package_name("core"), "gnunetcore");
    assert_eq!(package_name("identity"), "gnunetidentity");
}

#[test]
fn preamble_is_three_lines() {
    let p = preamble_bytes();
    assert_eq!(
        p,
        b"#include \"gnunet_config.h\"\n#include <stdio.h>\n#include <stdbool.h>\n".to_vec()
    );
}

#[test]
fn synthesized_header_is_preamble_then_body() {
    let body = b"int f(void);\n".to_vec();
    let h = synthesize("util_lib", &body);
    assert_eq!(h.file_name, "gnunet_util_lib.h");
    let mut expected = preamble_bytes();
    expected.extend_from_slice(&body);
    assert_eq!(h.bytes, expected);
    assert!(h.bytes.ends_with(&body));
}

#[test]
fn synthesis_is_idempotent() {
    let body = b"struct GNUNET_X { int a; };\n".to_vec();
    let a = synthesize("crypto_lib", &body);
    let b = synthesize("crypto_lib", &body);
    assert_eq!(a.file_name, b.file_name);
    assert_eq!(a.bytes, b.bytes);
}

#[test]
fn synthesis_of_empty_header_is_preamble() {
    assert_eq!(synthesize_bytes(&Vec::new()), preamble_bytes());
}

#[test]
fn docs_build_writes_placeholder_only() {
    let p = Pipeline::new(true, features(true, true, true));
    match p.next_action() {
        Action::WritePlaceholder(name) => assert_eq!(name, "c_bindings.rs"),
        _ => panic!("a documentation build must not look anything up"),
    }
}

const BASE_KEYS: [&str; 35] = [
    "ats_service", "bandwidth_lib", "bio_lib", "buffer_lib", "client_lib", "common",
    "configuration_lib", "container_lib", "constants", "crypto_lib", "disk_lib",
    "dnsstub_lib", "dnsparser_lib", "helper_lib", "hello_lib", "getopt_lib", "mst_lib",
    "mq_lib", "nc_lib", "network_lib", "nt_lib", "op_lib", "os_lib", "peer_lib",
    "plugin_lib", "program_lib", "protocols", "service_lib", "scheduler_lib",
    "signal_lib", "strings_lib", "time_lib", "transport_service", "tun_lib", "util_lib",
];

fn default_lookups() -> Vec<String> {
    let mut v = vec!["core".to_string()];
    v.extend(BASE_KEYS.iter().map(|k| k.to_string()));
    v.extend(["core", "util", "identity"].iter().map(|k| k.to_string()));
    v
}

#[test]
fn base_library_is_looked_up_first() {
    let p = Pipeline::new(false, features(false, false, false));
    let q = expect_locate(&p);
    assert_eq!(q.module, "core");
    assert_eq!(q.package, "gnunetcore");
    assert_eq!(q.min_version, "0.10");
}

#[test]
fn base_failure_aborts_before_synthesis() {
    let mut p = Pipeline::new(false, features(true, true, true));
    p.record(Err("version 0.9 is older than 0.10".to_string()));
    assert_eq!(
        expect_abort(&p),
        "Unable to find gnunetcore development files: version 0.9 is older than 0.10"
    );
}

#[test]
fn base_header_modules_are_looked_up_in_base_package() {
    let mut p = Pipeline::new(false, features(false, false, false));
    p.record(Ok(lib(&["/usr/include"], &[])));
    let q = expect_locate(&p);
    assert_eq!(q.module, "ats_service");
    assert_eq!(q.package, "gnunetcore");
    p.record(Err("gone".to_string()));
    assert_eq!(expect_abort(&p), "Unable to find `ats_service` with pkg-config: gone");
}

#[test]
fn default_build_lookups_and_jobs() {
    let mut p = Pipeline::new(false, features(false, false, false));
    let seen = locate_all(&mut p, |m| {
        if m == "util" {
            lib(&["/a", "/b"], &[])
        } else {
            lib(&["/usr/include"], &["gnunetutil", "gnunetcore"])
        }
    });
    assert_eq!(seen, default_lookups());
    assert_eq!(seen.len(), 1 + 35 + 3);
    let plan = expect_build(&p);
    assert_eq!(plan.artifact, "c_bindings.rs");
    assert_eq!(plan.jobs.len(), 35 + 1 + 2 + 1);
    assert_eq!(plan.config_roots, vec!["/usr/include"]);
    assert_eq!(plan.link_names, vec!["gnunetutil", "gnunetcore"]);
    let keys = job_keys(&plan);
    assert_eq!(keys[0], ("ats_service".to_string(), "/usr/include".to_string()));
    assert_eq!(keys[34], ("util_lib".to_string(), "/usr/include".to_string()));
    assert_eq!(keys[35], ("core_service".to_string(), "/usr/include".to_string()));
    assert_eq!(keys[36], ("util_lib".to_string(), "/a".to_string()));
    assert_eq!(keys[37], ("util_lib".to_string(), "/b".to_string()));
    assert_eq!(keys[38], ("identity_service".to_string(), "/usr/include".to_string()));
    assert_eq!(plan.compiler_paths.len(), 39);
    assert_eq!(plan.compiler_paths[36], "/a");
    assert_eq!(plan.bindgen_args.len(), 40);
    assert_eq!(plan.bindgen_args[0], "-I/usr/include");
    assert_eq!(plan.bindgen_args[1], "-I /usr/include");
    assert_eq!(plan.bindgen_args[37], "-I /a");
    assert_eq!(plan.bindgen_args[38], "-I /b");
}

#[test]
fn config_header_is_copied_once_from_base_root() {
    let mut p = Pipeline::new(false, features(false, false, false));
    locate_all(&mut p, |m| {
        if m == "core" {
            lib(&["/x", "/y"], &[])
        } else {
            lib(&["/z"], &[])
        }
    });
    let plan = expect_build(&p);
    assert_eq!(plan.config_roots, vec!["/y"]);
    assert_eq!(plan.bindgen_args[0], "-I/y");
}

#[test]
fn libraries_without_include_paths_give_no_jobs() {
    let mut p = Pipeline::new(false, features(false, false, false));
    locate_all(&mut p, |_| lib(&[], &[]));
    let plan = expect_build(&p);
    assert!(plan.jobs.is_empty());
    assert!(plan.config_roots.is_empty());
    assert_eq!(plan.bindgen_args, vec!["-I"]);
    assert!(plan.compiler_paths.is_empty());
}

#[test]
fn module_failure_names_module() {
    let mut p = Pipeline::new(false, features(false, false, false));
    for _ in 0..37 {
        p.record(Ok(lib(&["/usr/include"], &[])));
    }
    let q = expect_locate(&p);
    assert_eq!(q.package, "gnunetutil");
    p.record(Err("not found".to_string()));
    assert_eq!(expect_abort(&p), "Unable to find `util` with pkg-config: not found");
    // an aborted build stays aborted
    assert_eq!(expect_abort(&p), "Unable to find `util` with pkg-config: not found");
}

#[test]
fn optional_module_failure_names_module() {
    for (f, name) in [
        (features(true, false, false), "cadet"),
        (features(false, true, false), "fs"),
        (features(false, false, true), "peerstore"),
    ] {
        let mut p = Pipeline::new(false, f);
        for _ in 0..39 {
            p.record(Ok(lib(&["/usr/include"], &[])));
        }
        assert_eq!(expect_locate(&p).package, format!("gnunet{}", name));
        p.record(Err("missing".to_string()));
        assert_eq!(expect_abort(&p), format!("Unable to find `{}` with pkg-config: missing", name));
    }
}

#[test]
fn cadet_toggle_adds_only_its_lookup_and_header() {
    let answer = |m: &str| lib(&[if m == "cadet" { "/c" } else { "/usr/include" }], &[]);
    let mut off = Pipeline::new(false, features(false, true, false));
    let seen_off = locate_all(&mut off, answer);
    let mut on = Pipeline::new(false, features(true, true, false));
    let seen_on = locate_all(&mut on, answer);
    let mut expected = default_lookups();
    expected.push("fs".to_string());
    assert_eq!(seen_off, expected);
    expected.insert(39, "cadet".to_string());
    assert_eq!(seen_on, expected);
    let mut keys_off = job_keys(&expect_build(&off));
    let keys_on = job_keys(&expect_build(&on));
    keys_off.insert(38, ("cadet_service".to_string(), "/c".to_string()));
    assert_eq!(keys_on, keys_off);
}

#[test]
fn peerstore_toggle_adds_lookup_headers_and_link() {
    let answer = |m: &str| {
        if m == "peerstore" {
            lib(&["/p"], &["gnunetpeerstore"])
        } else {
            lib(&["/usr/include"], &["gnunetutil"])
        }
    };
    let mut off = Pipeline::new(false, features(false, false, false));
    let seen_off = locate_all(&mut off, answer);
    let mut on = Pipeline::new(false, features(false, false, true));
    let seen_on = locate_all(&mut on, answer);
    let mut expected = seen_off.clone();
    expected.push("peerstore".to_string());
    assert_eq!(seen_on, expected);
    let off_plan = expect_build(&off);
    let on_plan = expect_build(&on);
    let mut keys = job_keys(&off_plan);
    keys.push(("peerstore_plugin".to_string(), "/p".to_string()));
    keys.push(("peerstore_service".to_string(), "/p".to_string()));
    assert_eq!(job_keys(&on_plan), keys);
    assert_eq!(off_plan.link_names, vec!["gnunetutil"]);
    assert_eq!(on_plan.link_names, vec!["gnunetutil", "gnunetpeerstore"]);
}

#[test]
fn disabled_modules_get_no_headers() {
    let mut p = Pipeline::new(false, features(false, false, false));
    let seen = locate_all(&mut p, |_| lib(&["/usr/include"], &[]));
    assert!(!seen.iter().any(|m| m == "cadet" || m == "fs" || m == "peerstore"));
    let plan = expect_build(&p);
    for j in &plan.jobs {
        assert!(!j.key.starts_with("cadet") && !j.key.starts_with("fs_") && !j.key.starts_with("peerstore"));
    }
}

#[test]
fn c_string_bytes_appends_nul() {
    assert_eq!(c_string_bytes("src/macros.rs"), Some(b"src/macros.rs\0".to_vec()));
    assert_eq!(c_string_bytes(""), Some(vec![0u8]));
}

#[test]
fn c_string_bytes_rejects_inner_nul() {
    assert_eq!(c_string_bytes("a\0b"), None);
}

#[test]
fn release_provenance_carries_file_and_line() {
    let site = CallSite { file: "lib.rs", line: 42 };
    assert_eq!(release_provenance(&site), Some((b"lib.rs\0".to_vec(), 42)));
    let bad = CallSite { file: "x\0", line: 1 };
    assert_eq!(release_provenance(&bad), None);
}
