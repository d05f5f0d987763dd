use vstd::prelude::*;
use vstd::string::StringExecFns;

use crate::catalog::{enabled_modules, enabled_modules_spec, module_keys_spec, Features, ModuleSpec, ARTIFACT_NAME};

verus! {

/// What the package registry reports for one library.
pub struct LibraryDescriptor {
    pub include_paths: Vec<String>,
    pub link_names: Vec<String>,
}

pub ghost struct LibraryModel {
    pub include_paths: Seq<Seq<char>>,
    pub link_names: Seq<Seq<char>>,
}

impl View for LibraryDescriptor {
    type V = LibraryModel;

    open spec fn view(&self) -> LibraryModel {
        LibraryModel { include_paths: strings_view(self.include_paths@), link_names: strings_view(self.link_names@) }
    }
}

/// One header to synthesize: the module key and the include root it is read from.
pub struct SynthesisJob {
    pub key: &'static str,
    pub root: String,
}

pub ghost struct JobModel {
    pub key: Seq<char>,
    pub root: Seq<char>,
}

impl View for SynthesisJob {
    type V = JobModel;

    open spec fn view(&self) -> JobModel {
        JobModel { key: self.key@, root: self.root@ }
    }
}

/// Everything the build performs once every library has been located.
pub struct BuildPlan {
    /// Include root from which the configuration header is copied (none when
    /// the base library reports no include root).
    pub config_roots: Vec<String>,
    /// Libraries the artifact links against.
    pub link_names: Vec<String>,
    /// Headers to synthesize and hand to the binding generator, in order.
    pub jobs: Vec<SynthesisJob>,
    /// Search paths for the native compiler.
    pub compiler_paths: Vec<String>,
    /// Arguments for the binding generator.
    pub bindgen_args: Vec<String>,
    /// File name of the declarations file the binding generator writes.
    pub artifact: &'static str,
}

pub ghost struct PlanModel {
    pub config_roots: Seq<Seq<char>>,
    pub link_names: Seq<Seq<char>>,
    pub jobs: Seq<JobModel>,
    pub compiler_paths: Seq<Seq<char>>,
    pub bindgen_args: Seq<Seq<char>>,
    pub artifact: Seq<char>,
}

pub open spec fn strings_view(v: Seq<String>) -> Seq<Seq<char>> {
    v.map_values(|s: String| s@)
}

pub open spec fn descs_view(v: Seq<LibraryDescriptor>) -> Seq<LibraryModel> {
    v.map_values(|d: LibraryDescriptor| d@)
}

pub open spec fn jobs_view(v: Seq<SynthesisJob>) -> Seq<JobModel> {
    v.map_values(|j: SynthesisJob| j@)
}

pub open spec fn strs_view(v: Seq<&'static str>) -> Seq<Seq<char>> {
    v.map_values(|s: &'static str| s@)
}

impl View for BuildPlan {
    type V = PlanModel;

    open spec fn view(&self) -> PlanModel {
        PlanModel {
            config_roots: strings_view(self.config_roots@),
            link_names: strings_view(self.link_names@),
            jobs: jobs_view(self.jobs@),
            compiler_paths: strings_view(self.compiler_paths@),
            bindgen_args: strings_view(self.bindgen_args@),
            artifact: self.artifact@,
        }
    }
}


/// The include root of the base library: the last one it reports, or the
/// empty path when it reports none.
pub open spec fn base_root_spec(base: LibraryModel) -> Seq<char> {
    if base.include_paths.len() == 0 {
        Seq::empty()
    } else {
        base.include_paths.last()
    }
}

/// Where the configuration header is copied from: once, from the base include root.
pub open spec fn config_roots_spec(base: LibraryModel) -> Seq<Seq<char>> {
    if base.include_paths.len() == 0 {
        Seq::empty()
    } else {
        seq![base.include_paths.last()]
    }
}

/// Jobs for the given keys, all read from `root`.
pub open spec fn keyed_jobs(keys: Seq<&'static str>, root: Seq<char>) -> Seq<JobModel> {
    keys.map_values(|k: &'static str| JobModel { key: k@, root })
}

/// Jobs for the given keys under each of the first `n` roots, root by root.
pub open spec fn paths_jobs(keys: Seq<&'static str>, ps: Seq<Seq<char>>, n: nat) -> Seq<JobModel>
    decreases n,
{
    if n == 0 {
        Seq::empty()
    } else {
        paths_jobs(keys, ps, (n - 1) as nat) + keyed_jobs(keys, ps[n - 1])
    }
}

/// Jobs for one located module: its headers under each include root reported.
pub open spec fn module_jobs(m: ModuleSpec, d: LibraryModel) -> Seq<JobModel> {
    paths_jobs(module_keys_spec(m), d.include_paths, d.include_paths.len())
}

/// Jobs for the first `n` modules, in order.
pub open spec fn modules_jobs(ms: Seq<ModuleSpec>, ds: Seq<LibraryModel>, n: nat) -> Seq<JobModel>
    decreases n,
{
    if n == 0 {
        Seq::empty()
    } else {
        modules_jobs(ms, ds, (n - 1) as nat) + module_jobs(ms[n - 1], ds[n - 1])
    }
}

/// Libraries that one located module adds to the link directives.
pub open spec fn module_links(m: ModuleSpec, d: LibraryModel) -> Seq<Seq<char>> {
    if m.links {
        d.link_names
    } else {
        Seq::empty()
    }
}

/// Libraries that the first `n` modules add to the link directives, in order.
pub open spec fn modules_links(ms: Seq<ModuleSpec>, ds: Seq<LibraryModel>, n: nat) -> Seq<Seq<char>>
    decreases n,
{
    if n == 0 {
        Seq::empty()
    } else {
        modules_links(ms, ds, (n - 1) as nat) + module_links(ms[n - 1], ds[n - 1])
    }
}

/// Include paths of the first `n` located modules, in order.
pub open spec fn modules_paths(ds: Seq<LibraryModel>, n: nat) -> Seq<Seq<char>>
    decreases n,
{
    if n == 0 {
        Seq::empty()
    } else {
        modules_paths(ds, (n - 1) as nat) + ds[n - 1].include_paths
    }
}

/// Binding generator argument naming the base include root.
pub open spec fn base_arg_spec(root: Seq<char>) -> Seq<char> {
    "-I"@ + root
}

/// Binding generator argument naming a module's include root.
pub open spec fn module_arg_spec(root: Seq<char>) -> Seq<char> {
    "-I "@ + root
}

/// The build for toggles `f`, base library `base`, and the located modules
/// `found` (one for each of `enabled_modules_spec(f)`).
pub open spec fn plan_spec(f: Features, base: LibraryModel, found: Seq<LibraryModel>) -> PlanModel {
    let ms = enabled_modules_spec(f);
    PlanModel {
        config_roots: config_roots_spec(base),
        link_names: base.link_names + modules_links(ms, found, ms.len()),
        jobs: modules_jobs(ms, found, ms.len()),
        compiler_paths: modules_paths(found, ms.len()),
        bindgen_args: seq![base_arg_spec(base_root_spec(base))] + modules_paths(found, ms.len()).map_values(
            |p: Seq<char>| module_arg_spec(p),
        ),
        artifact: ARTIFACT_NAME@,
    }
}

/// Jobs and links of the first `n` modules depend on the first `n` entries alone.
pub proof fn lemma_modules_prefix(ms: Seq<ModuleSpec>, ds: Seq<LibraryModel>, ms2: Seq<ModuleSpec>, ds2: Seq<LibraryModel>, n: nat)
    requires
        n <= ms.len(),
        n <= ds.len(),
        n <= ms2.len(),
        n <= ds2.len(),
        ms.subrange(0, n as int) == ms2.subrange(0, n as int),
        ds.subrange(0, n as int) == ds2.subrange(0, n as int),
    ensures
        modules_jobs(ms, ds, n) == modules_jobs(ms2, ds2, n),
        modules_links(ms, ds, n) == modules_links(ms2, ds2, n),
    decreases n,
{
    if n > 0 {
        assert(ms[n - 1] == ms.subrange(0, n as int)[n - 1]);
        assert(ms2[n - 1] == ms2.subrange(0, n as int)[n - 1]);
        assert(ds[n - 1] == ds.subrange(0, n as int)[n - 1]);
        assert(ds2[n - 1] == ds2.subrange(0, n as int)[n - 1]);
        assert(ms.subrange(0, n - 1) == ms2.subrange(0, n - 1)) by {
            assert(ms.subrange(0, n - 1) =~= ms.subrange(0, n as int).subrange(0, n - 1));
            assert(ms2.subrange(0, n - 1) =~= ms2.subrange(0, n as int).subrange(0, n - 1));
        }
        assert(ds.subrange(0, n - 1) == ds2.subrange(0, n - 1)) by {
            assert(ds.subrange(0, n - 1) =~= ds.subrange(0, n as int).subrange(0, n - 1));
            assert(ds2.subrange(0, n - 1) =~= ds2.subrange(0, n as int).subrange(0, n - 1));
        }
        lemma_modules_prefix(ms, ds, ms2, ds2, (n - 1) as nat);
    }
}

/// Jobs and links of a concatenation of module lists are the concatenation
/// of theirs.
pub proof fn lemma_modules_split(ms1: Seq<ModuleSpec>, ds1: Seq<LibraryModel>, ms2: Seq<ModuleSpec>, ds2: Seq<LibraryModel>, k: nat)
    requires
        ds1.len() == ms1.len(),
        k <= ms2.len(),
        k <= ds2.len(),
    ensures
        modules_jobs(ms1 + ms2, ds1 + ds2, ms1.len() + k) == modules_jobs(ms1, ds1, ms1.len())
            + modules_jobs(ms2, ds2, k),
        modules_links(ms1 + ms2, ds1 + ds2, ms1.len() + k) == modules_links(ms1, ds1, ms1.len())
            + modules_links(ms2, ds2, k),
    decreases k,
{
    let n1 = ms1.len();
    if k == 0 {
        assert((ms1 + ms2).subrange(0, n1 as int) =~= ms1.subrange(0, n1 as int));
        assert((ds1 + ds2).subrange(0, n1 as int) =~= ds1.subrange(0, n1 as int));
        lemma_modules_prefix(ms1 + ms2, ds1 + ds2, ms1, ds1, n1);
        assert(modules_jobs(ms1, ds1, n1) + modules_jobs(ms2, ds2, k) =~= modules_jobs(ms1, ds1, n1));
        assert(modules_links(ms1, ds1, n1) + modules_links(ms2, ds2, k) =~= modules_links(ms1, ds1, n1));
    } else {
        lemma_modules_split(ms1, ds1, ms2, ds2, (k - 1) as nat);
        assert((ms1 + ms2)[n1 + k - 1] == ms2[k - 1]);
        assert((ds1 + ds2)[n1 + k - 1] == ds2[k - 1]);
        assert(modules_jobs(ms1 + ms2, ds1 + ds2, n1 + k) == modules_jobs(ms1 + ms2, ds1 + ds2, (n1 + k - 1) as nat)
            + module_jobs(ms2[k - 1], ds2[k - 1]));
        assert(modules_links(ms1 + ms2, ds1 + ds2, n1 + k) == modules_links(ms1 + ms2, ds1 + ds2, (n1 + k - 1) as nat)
            + module_links(ms2[k - 1], ds2[k - 1]));
        assert(modules_jobs(ms1, ds1, n1) + modules_jobs(ms2, ds2, k) =~= modules_jobs(ms1, ds1, n1)
            + modules_jobs(ms2, ds2, (k - 1) as nat) + module_jobs(ms2[k - 1], ds2[k - 1]));
        assert(modules_links(ms1, ds1, n1) + modules_links(ms2, ds2, k) =~= modules_links(ms1, ds1, n1)
            + modules_links(ms2, ds2, (k - 1) as nat) + module_links(ms2[k - 1], ds2[k - 1]));
    }
}

pub proof fn lemma_concat_contains<T>(a: Seq<T>, b: Seq<T>, j: T)
    ensures
        (a + b).contains(j) <==> a.contains(j) || b.contains(j),
{
    if (a + b).contains(j) {
        let x = choose|x: int| 0 <= x < (a + b).len() && (a + b)[x] == j;
        if x < a.len() {
            assert(a[x] == j);
        } else {
            assert(b[x - a.len()] == j);
        }
    }
    if a.contains(j) {
        let x = choose|x: int| 0 <= x < a.len() && a[x] == j;
        assert((a + b)[x] == j);
    }
    if b.contains(j) {
        let x = choose|x: int| 0 <= x < b.len() && b[x] == j;
        assert((a + b)[a.len() + x] == j);
    }
}

pub proof fn lemma_keyed_jobs_contains(keys: Seq<&'static str>, root: Seq<char>, j: JobModel)
    ensures
        keyed_jobs(keys, root).contains(j) <==> strs_view(keys).contains(j.key) && j.root == root,
{
    let s = keyed_jobs(keys, root);
    if s.contains(j) {
        let x = choose|x: int| 0 <= x < s.len() && s[x] == j;
        assert(strs_view(keys)[x] == j.key);
    }
    if strs_view(keys).contains(j.key) && j.root == root {
        let x = choose|x: int| 0 <= x < strs_view(keys).len() && strs_view(keys)[x] == j.key;
        assert(s[x] == j);
    }
}

/// A job belongs to the jobs of the first `n` roots exactly when its key is
/// one of `keys` and its root one of those roots.
pub proof fn lemma_paths_jobs_contains(keys: Seq<&'static str>, ps: Seq<Seq<char>>, n: nat, j: JobModel)
    requires
        n <= ps.len(),
    ensures
        paths_jobs(keys, ps, n).contains(j) <==> strs_view(keys).contains(j.key) && ps.subrange(0, n as int).contains(
            j.root,
        ),
    decreases n,
{
    if n > 0 {
        lemma_paths_jobs_contains(keys, ps, (n - 1) as nat, j);
        lemma_keyed_jobs_contains(keys, ps[n - 1], j);
        lemma_concat_contains(paths_jobs(keys, ps, (n - 1) as nat), keyed_jobs(keys, ps[n - 1]), j);
        assert(ps.subrange(0, n as int) =~= ps.subrange(0, n - 1) + seq![ps[n - 1]]);
        lemma_concat_contains(ps.subrange(0, n - 1), seq![ps[n - 1]], j.root);
        assert(seq![ps[n - 1]].contains(j.root) <==> j.root == ps[n - 1]) by {
            if j.root == ps[n - 1] {
                assert(seq![ps[n - 1]][0] == j.root);
            }
        }
    } else {
        assert(ps.subrange(0, 0) =~= Seq::<Seq<char>>::empty());
    }
}

/// A job belongs to the jobs of the first `n` modules exactly when it reads
/// a header of one of them from one of that module's include roots.
pub proof fn lemma_modules_jobs_contains(ms: Seq<ModuleSpec>, ds: Seq<LibraryModel>, n: nat, j: JobModel)
    requires
        n <= ms.len(),
        n <= ds.len(),
    ensures
        modules_jobs(ms, ds, n).contains(j) <==> exists|i: int|
            0 <= i < n && strs_view(module_keys_spec(ms[i])).contains(j.key)
                && #[trigger] ds[i].include_paths.contains(j.root),
    decreases n,
{
    if n > 0 {
        lemma_modules_jobs_contains(ms, ds, (n - 1) as nat, j);
        let d = ds[n - 1];
        lemma_paths_jobs_contains(module_keys_spec(ms[n - 1]), d.include_paths, d.include_paths.len(), j);
        assert(d.include_paths.subrange(0, d.include_paths.len() as int) =~= d.include_paths);
        lemma_concat_contains(modules_jobs(ms, ds, (n - 1) as nat), module_jobs(ms[n - 1], d), j);
        if module_jobs(ms[n - 1], d).contains(j) {
            assert(ds[n - 1].include_paths.contains(j.root));
        }
    }
}

/// Appends copies of the given strings to `out`.
pub fn push_strings(out: &mut Vec<String>, v: &Vec<String>)
    ensures
        strings_view(final(out)@) == strings_view(old(out)@) + strings_view(v@),
{
    let ghost start = strings_view(out@);
    let mut i: usize = 0;
    while i < v.len()
        invariant
            i <= v@.len(),
            strings_view(out@) == start + strings_view(v@).subrange(0, i as int),
        decreases v@.len() - i,
    {
        let ghost prev = out@;
        out.push(v[i].clone());
        assert(strings_view(out@) =~= strings_view(prev).push(v@[i as int]@));
        i = i + 1;
        assert(strings_view(out@) =~= start + strings_view(v@).subrange(0, i as int));
    }
    assert(strings_view(v@).subrange(0, i as int) =~= strings_view(v@));
}

/// Appends what one located module contributes: its jobs, compiler paths,
/// binding generator arguments and link names.
pub fn push_module(
    jobs: &mut Vec<SynthesisJob>,
    paths: &mut Vec<String>,
    args: &mut Vec<String>,
    links: &mut Vec<String>,
    m: ModuleSpec,
    d: &LibraryDescriptor,
)
    ensures
        jobs_view(final(jobs)@) == jobs_view(old(jobs)@) + module_jobs(m, d@),
        strings_view(final(paths)@) == strings_view(old(paths)@) + d@.include_paths,
        strings_view(final(args)@) == strings_view(old(args)@) + d@.include_paths.map_values(
            |p: Seq<char>| module_arg_spec(p),
        ),
        strings_view(final(links)@) == strings_view(old(links)@) + module_links(m, d@),
{
    let ghost j0 = jobs_view(jobs@);
    let ghost p0 = strings_view(paths@);
    let ghost a0 = strings_view(args@);
    let ghost ps = d@.include_paths;
    let ghost keys = module_keys_spec(m);
    let ghost margs = ps.map_values(|p: Seq<char>| module_arg_spec(p));
    let mut i: usize = 0;
    while i < d.include_paths.len()
        invariant
            i <= ps.len(),
            ps == strings_view(d.include_paths@),
            keys == module_keys_spec(m),
            margs == ps.map_values(|p: Seq<char>| module_arg_spec(p)),
            jobs_view(jobs@) == j0 + paths_jobs(keys, ps, i as nat),
            strings_view(paths@) == p0 + ps.subrange(0, i as int),
            strings_view(args@) == a0 + margs.subrange(0, i as int),
        decreases ps.len() - i,
    {
        let inc = &d.include_paths[i];
        let ghost (pj, pp, pa) = (jobs@, paths@, args@);
        jobs.push(SynthesisJob { key: m.header_key, root: inc.clone() });
        match m.extra_key {
            Some(k) => {
                jobs.push(SynthesisJob { key: k, root: inc.clone() });
            },
            None => {},
        }
        paths.push(inc.clone());
        args.push(String::from_str("-I ").concat(inc.as_str()));
        assert(jobs_view(jobs@) =~= jobs_view(pj) + keyed_jobs(keys, inc@));
        assert(strings_view(paths@) =~= strings_view(pp).push(inc@));
        assert(strings_view(args@) =~= strings_view(pa).push(module_arg_spec(inc@)));
        i = i + 1;
        assert(jobs_view(jobs@) =~= j0 + paths_jobs(keys, ps, i as nat));
        assert(strings_view(paths@) =~= p0 + ps.subrange(0, i as int));
        assert(strings_view(args@) =~= a0 + margs.subrange(0, i as int));
    }
    assert(ps.subrange(0, i as int) =~= ps);
    assert(margs.subrange(0, i as int) =~= margs);
    if m.links {
        push_strings(links, &d.link_names);
    } else {
        assert(strings_view(links@) =~= strings_view(links@) + module_links(m, d@));
    }
}

/// The include root of the base library.
pub fn base_root(base: &LibraryDescriptor) -> (r: String)
    ensures
        r@ == base_root_spec(base@),
{
    let n = base.include_paths.len();
    if n == 0 {
        String::new()
    } else {
        base.include_paths[n - 1].clone()
    }
}

/// The build for toggles `f`, once the base library and every enabled module
/// (`found`, in the order of `enabled_modules_spec(f)`) have been located.
pub fn build_plan(f: Features, base: &LibraryDescriptor, found: &Vec<LibraryDescriptor>) -> (r: BuildPlan)
    requires
        found@.len() == enabled_modules_spec(f).len(),
    ensures
        r@ == plan_spec(f, base@, descs_view(found@)),
{
    let root = base_root(base);
    let mut config_roots: Vec<String> = Vec::new();
    if base.include_paths.len() > 0 {
        config_roots.push(root.clone());
    }
    assert(strings_view(config_roots@) =~= config_roots_spec(base@));
    let mut links: Vec<String> = Vec::new();
    push_strings(&mut links, &base.link_names);
    let ghost l0 = strings_view(links@);
    let mut jobs: Vec<SynthesisJob> = Vec::new();
    let mut paths: Vec<String> = Vec::new();
    let mut args: Vec<String> = Vec::new();
    args.push(String::from_str("-I").concat(root.as_str()));
    let ghost a0 = strings_view(args@);
    assert(a0 =~= seq![base_arg_spec(root@)]);
    assert(jobs_view(jobs@) =~= Seq::<JobModel>::empty());
    assert(strings_view(paths@) =~= Seq::<Seq<char>>::empty());
    let ms = enabled_modules(f);
    let ghost ds = descs_view(found@);
    assert(l0 =~= base@.link_names + modules_links(ms@, ds, 0));
    let mut i: usize = 0;
    while i < ms.len()
        invariant
            i <= ms@.len(),
            ms@ == enabled_modules_spec(f),
            found@.len() == ms@.len(),
            ds == descs_view(found@),
            l0 == base@.link_names,
            jobs_view(jobs@) == modules_jobs(ms@, ds, i as nat),
            strings_view(links@) == l0 + modules_links(ms@, ds, i as nat),
            strings_view(paths@) == modules_paths(ds, i as nat),
            strings_view(args@) == a0 + modules_paths(ds, i as nat).map_values(
                |p: Seq<char>| module_arg_spec(p),
            ),
        decreases ms@.len() - i,
    {
        let ghost pp = modules_paths(ds, i as nat);
        push_module(&mut jobs, &mut paths, &mut args, &mut links, ms[i], &found[i]);
        i = i + 1;
        assert(modules_paths(ds, i as nat) == pp + ds[i - 1].include_paths);
        assert(modules_paths(ds, i as nat).map_values(|p: Seq<char>| module_arg_spec(p)) =~= pp.map_values(
            |p: Seq<char>| module_arg_spec(p),
        ) + ds[i - 1].include_paths.map_values(|p: Seq<char>| module_arg_spec(p)));
        assert(strings_view(links@) =~= l0 + modules_links(ms@, ds, i as nat));
    }
    let r = BuildPlan {
        config_roots,
        link_names: links,
        jobs,
        compiler_paths: paths,
        bindgen_args: args,
        artifact: ARTIFACT_NAME,
    };
    assert(r@.bindgen_args =~= plan_spec(f, base@, ds).bindgen_args);
    r
}

} // verus!
