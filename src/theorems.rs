use vstd::prelude::*;

use crate::catalog::{
    cadet_module, enabled_modules_spec, fs_module, mandatory_modules_spec, module_keys_spec,
    peerstore_module, Features, ModuleSpec, ARTIFACT_NAME, BASE_MODULE,
};
use crate::pipeline::{
    failure_message_spec, initial_spec, lookup_count_spec, query_spec, ActionModel, PipelineModel,
};
use crate::plan::{
    keyed_jobs, lemma_modules_jobs_contains, lemma_modules_prefix, lemma_modules_split, module_jobs,
    module_links, modules_jobs, modules_links, modules_paths, paths_jobs, plan_spec, strs_view,
    JobModel, LibraryModel,
};

verus! {

/// A documentation build writes the placeholder declarations file and awaits
/// no lookup, whatever its state: the package registry is never queried and
/// no header is read.
pub proof fn lemma_docs_build_bypasses_pipeline(p: PipelineModel)
    requires
        p.docs_build,
    ensures
        p.next_action() == ActionModel::WritePlaceholder(ARTIFACT_NAME@),
        !p.awaits_lookup(),
{
}

/// The base library is looked up before anything else, and when that lookup
/// fails the build aborts at once.
pub proof fn lemma_base_failure_aborts_first(f: Features, e: Seq<char>)
    ensures
        initial_spec(false, f).next_action() == ActionModel::Locate(query_spec(f, 0)),
        query_spec(f, 0).module == BASE_MODULE@,
        initial_spec(false, f).record(Err(e)).next_action() == ActionModel::Abort(
            failure_message_spec(f, 0, e),
        ),
        !initial_spec(false, f).record(Err(e)).awaits_lookup(),
{
}

/// Once a lookup has failed the build only aborts: it awaits no further lookup
/// and never reaches the build step.
pub proof fn lemma_failure_is_final(p: PipelineModel)
    requires
        !p.docs_build,
        p.failure is Some,
    ensures
        p.next_action() == ActionModel::Abort(p.failure->0),
        !p.awaits_lookup(),
{
}

/// When the lookup of a module fails, the diagnostic names that module.
pub proof fn lemma_module_failure_names_module(p: PipelineModel, e: Seq<char>)
    requires
        p.wf(),
        p.awaits_lookup(),
        p.located() >= 1,
    ensures
        ({
            let name = enabled_modules_spec(p.features)[p.located() - 1].name@;
            let pre = "Unable to find `"@;
            let msg = pre + name + "` with pkg-config: "@ + e;
            &&& p.record(Err(e)).next_action() == ActionModel::Abort(msg)
            &&& msg.subrange(pre.len() as int, (pre.len() + name.len()) as int) == name
        }),
{
    let name = enabled_modules_spec(p.features)[p.located() - 1].name@;
    let pre = "Unable to find `"@;
    let msg = pre + name + "` with pkg-config: "@ + e;
    assert(msg.subrange(pre.len() as int, (pre.len() + name.len()) as int) =~= name);
}

/// With no toggle set, a build looks up the base library and then each
/// mandatory module once, synthesizes one header per mandatory module and
/// include root that its lookup reports, and then builds once.
pub proof fn lemma_default_build(base: LibraryModel, found: Seq<LibraryModel>)
    requires
        found.len() == mandatory_modules_spec().len(),
    ensures
        ({
            let f = Features { cadet: false, fs: false, peerstore: false };
            let ms = mandatory_modules_spec();
            let plan = plan_spec(f, base, found);
            let done = PipelineModel { docs_build: false, features: f, base: Some(base), found, failure: None };
            &&& lookup_count_spec(f) == 1 + ms.len()
            &&& forall|i: int| 1 <= i < lookup_count_spec(f) ==> #[trigger] query_spec(f, i).module == ms[i - 1].name@
            &&& plan.jobs == modules_jobs(ms, found, ms.len())
            &&& plan.jobs.len() == modules_paths(found, ms.len()).len()
            &&& done.next_action() == ActionModel::Build(plan)
            &&& !done.awaits_lookup()
        }),
{
    let f = Features { cadet: false, fs: false, peerstore: false };
    let ms = mandatory_modules_spec();
    assert(enabled_modules_spec(f) =~= ms);
    assert forall|i: int| 0 <= i < ms.len() implies #[trigger] ms[i].extra_key is None by {
        if i >= ms.len() - 3 {
            assert(ms[i] == ms.subrange(ms.len() - 3, ms.len() as int)[i - (ms.len() - 3)]);
        }
    }
    lemma_single_key_jobs_len(ms, found, ms.len());
}

/// Modules with one header each get one job per include root.
proof fn lemma_single_key_jobs_len(ms: Seq<ModuleSpec>, ds: Seq<LibraryModel>, n: nat)
    requires
        n <= ms.len(),
        n <= ds.len(),
        forall|i: int| 0 <= i < ms.len() ==> #[trigger] ms[i].extra_key is None,
    ensures
        modules_jobs(ms, ds, n).len() == modules_paths(ds, n).len(),
    decreases n,
{
    if n > 0 {
        lemma_single_key_jobs_len(ms, ds, (n - 1) as nat);
        let d = ds[n - 1];
        assert(module_keys_spec(ms[n - 1]).len() == 1);
        lemma_paths_jobs_len(module_keys_spec(ms[n - 1]), d.include_paths, d.include_paths.len());
    }
}

proof fn lemma_paths_jobs_len(keys: Seq<&'static str>, ps: Seq<Seq<char>>, n: nat)
    requires
        n <= ps.len(),
    ensures
        paths_jobs(keys, ps, n).len() == n * keys.len(),
    decreases n,
{
    if n > 0 {
        lemma_paths_jobs_len(keys, ps, (n - 1) as nat);
        assert(keyed_jobs(keys, ps[n - 1]).len() == keys.len());
        assert(n * keys.len() == (n - 1) * keys.len() + keys.len()) by (nonlinear_arith);
    }
}

/// The synthesized headers of a build are exactly the headers of the enabled
/// modules, each read from each include root that the module's own lookup
/// reports. No header of a module that is not enabled is synthesized.
pub proof fn lemma_jobs_exactly_enabled(f: Features, base: LibraryModel, found: Seq<LibraryModel>, j: JobModel)
    requires
        found.len() == enabled_modules_spec(f).len(),
    ensures
        plan_spec(f, base, found).jobs.contains(j) <==> exists|i: int|
            0 <= i < enabled_modules_spec(f).len() && strs_view(module_keys_spec(enabled_modules_spec(f)[i])).contains(
                j.key,
            ) && #[trigger] found[i].include_paths.contains(j.root),
{
    let ms = enabled_modules_spec(f);
    lemma_modules_jobs_contains(ms, found, ms.len(), j);
}

/// Where an optional module's lookup joins the module list when its toggle is
/// switched on: after the mandatory modules and the optional ones before it.
pub open spec fn toggle_position(f: Features, g: Features) -> int {
    if g.cadet != f.cadet {
        mandatory_modules_spec().len() as int
    } else if g.fs != f.fs {
        mandatory_modules_spec().len() + (if f.cadet { 1int } else { 0int })
    } else {
        enabled_modules_spec(f).len() as int
    }
}

/// Switching on one optional module's toggle adds exactly its lookup, its
/// headers and its link names, and changes nothing else: every other lookup
/// keeps its order, and every other synthesized header and link name stays
/// as it was, in place.
pub proof fn lemma_toggle_module(
    f: Features,
    g: Features,
    m: ModuleSpec,
    base: LibraryModel,
    found: Seq<LibraryModel>,
    d: LibraryModel,
)
    requires
        found.len() == enabled_modules_spec(f).len(),
        (!f.cadet && g == Features { cadet: true, ..f } && m == cadet_module())
            || (!f.fs && g == Features { fs: true, ..f } && m == fs_module())
            || (!f.peerstore && g == Features { peerstore: true, ..f } && m == peerstore_module()),
    ensures
        ({
            let i = toggle_position(f, g);
            let ms = enabled_modules_spec(f);
            let pf = plan_spec(f, base, found);
            let pg = plan_spec(g, base, found.insert(i, d));
            let k = modules_jobs(ms, found, i as nat).len() as int;
            let kl = (base.link_names.len() + modules_links(ms, found, i as nat).len()) as int;
            &&& enabled_modules_spec(g) == ms.insert(i, m)
            &&& lookup_count_spec(g) == lookup_count_spec(f) + 1
            &&& query_spec(g, i + 1).module == m.name@
            &&& forall|x: int| 0 <= x <= i ==> #[trigger] query_spec(g, x) == query_spec(f, x)
            &&& forall|x: int| i + 1 < x < lookup_count_spec(g) ==> #[trigger] query_spec(g, x) == query_spec(f, x - 1)
            &&& pg.jobs == pf.jobs.subrange(0, k) + module_jobs(m, d) + pf.jobs.subrange(k, pf.jobs.len() as int)
            &&& pg.link_names == pf.link_names.subrange(0, kl) + module_links(m, d) + pf.link_names.subrange(
                kl,
                pf.link_names.len() as int,
            )
            &&& pg.config_roots == pf.config_roots
        }),
{
    let i = toggle_position(f, g);
    let ms = enabled_modules_spec(f);
    assert(enabled_modules_spec(g) =~= ms.insert(i, m));
    lemma_insert_module(ms, found, i, m, d);
    let pf = plan_spec(f, base, found);
    let pg = plan_spec(g, base, found.insert(i, d));
    let bl = base.link_names;
    let b = modules_links(ms, found, ms.len());
    let kb = modules_links(ms, found, i as nat).len() as int;
    let kl = (bl.len() + kb) as int;
    assert(pg.link_names == bl + (b.subrange(0, kb) + module_links(m, d) + b.subrange(kb, b.len() as int)));
    assert(pg.link_names =~= pf.link_names.subrange(0, kl) + module_links(m, d) + pf.link_names.subrange(
        kl,
        pf.link_names.len() as int,
    ));
}

/// Jobs and links after a module is inserted at position `i`: its own stand
/// between those of the modules before and after it.
proof fn lemma_insert_module(ms: Seq<ModuleSpec>, ds: Seq<LibraryModel>, i: int, m: ModuleSpec, d: LibraryModel)
    requires
        ds.len() == ms.len(),
        0 <= i <= ms.len(),
    ensures
        ({
            let k = modules_jobs(ms, ds, i as nat).len() as int;
            let all = modules_jobs(ms, ds, ms.len());
            modules_jobs(ms.insert(i, m), ds.insert(i, d), ms.len() + 1) == all.subrange(0, k) + module_jobs(m, d)
                + all.subrange(k, all.len() as int)
        }),
        ({
            let k = modules_links(ms, ds, i as nat).len() as int;
            let all = modules_links(ms, ds, ms.len());
            modules_links(ms.insert(i, m), ds.insert(i, d), ms.len() + 1) == all.subrange(0, k) + module_links(m, d)
                + all.subrange(k, all.len() as int)
        }),
        modules_jobs(ms, ds, i as nat).len() <= modules_jobs(ms, ds, ms.len()).len(),
        modules_links(ms, ds, i as nat).len() <= modules_links(ms, ds, ms.len()).len(),
{
    let n = ms.len() as int;
    let a = ms.subrange(0, i);
    let r = ms.subrange(i, n);
    let da = ds.subrange(0, i);
    let dr = ds.subrange(i, n);
    assert(ms.insert(i, m) =~= a + (seq![m] + r));
    assert(ds.insert(i, d) =~= da + (seq![d] + dr));
    assert(ms =~= a + r);
    assert(ds =~= da + dr);
    lemma_modules_split(a, da, seq![m] + r, seq![d] + dr, (n - i + 1) as nat);
    lemma_modules_split(seq![m], seq![d], r, dr, (n - i) as nat);
    lemma_modules_split(a, da, r, dr, (n - i) as nat);
    assert(a.subrange(0, i) =~= ms.subrange(0, i));
    assert(da.subrange(0, i) =~= ds.subrange(0, i));
    lemma_modules_prefix(a, da, ms, ds, i as nat);
    assert(seq![m][0] == m);
    assert(seq![d][0] == d);
    assert(modules_jobs(seq![m], seq![d], 0) =~= Seq::<JobModel>::empty());
    assert(modules_links(seq![m], seq![d], 0) =~= Seq::<Seq<char>>::empty());
    assert(modules_jobs(seq![m], seq![d], 1) =~= module_jobs(m, d));
    assert(modules_links(seq![m], seq![d], 1) =~= module_links(m, d));
    let x = modules_jobs(ms, ds, i as nat);
    let y = modules_jobs(r, dr, (n - i) as nat);
    let all = modules_jobs(ms, ds, ms.len());
    assert(all == x + y);
    assert(all.subrange(0, x.len() as int) =~= x);
    assert(all.subrange(x.len() as int, all.len() as int) =~= y);
    let xl = modules_links(ms, ds, i as nat);
    let yl = modules_links(r, dr, (n - i) as nat);
    let alll = modules_links(ms, ds, ms.len());
    assert(alll == xl + yl);
    assert(alll.subrange(0, xl.len() as int) =~= xl);
    assert(alll.subrange(xl.len() as int, alll.len() as int) =~= yl);
}

} // verus!
