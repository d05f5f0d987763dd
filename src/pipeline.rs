use vstd::prelude::*;
use vstd::string::StringExecFns;

use crate::catalog::{enabled_modules, enabled_modules_spec, Features, ARTIFACT_NAME, BASE_MODULE, MIN_VERSION};
use crate::names::{package_name, package_name_spec};
use crate::plan::{build_plan, descs_view, plan_spec, BuildPlan, LibraryDescriptor, LibraryModel, PlanModel};

verus! {

/// A lookup in the package registry.
pub struct Query {
    /// Module the lookup is for.
    pub module: &'static str,
    /// Package name to look up.
    pub package: String,
    /// Oldest acceptable version.
    pub min_version: &'static str,
}

pub ghost struct QueryModel {
    pub module: Seq<char>,
    pub package: Seq<char>,
    pub min_version: Seq<char>,
}

impl View for Query {
    type V = QueryModel;

    open spec fn view(&self) -> QueryModel {
        QueryModel { module: self.module@, package: self.package@, min_version: self.min_version@ }
    }
}

/// What the build driver is to do next.
pub enum Action {
    /// Write an empty declarations file under this name and stop.
    WritePlaceholder(&'static str),
    /// Look a library up and report the outcome with `Pipeline::record`.
    Locate(Query),
    /// Synthesize every header of the plan, then run the binding generator once over all of them.
    Build(BuildPlan),
    /// Stop the build with this diagnostic.
    Abort(String),
}

pub ghost enum ActionModel {
    WritePlaceholder(Seq<char>),
    Locate(QueryModel),
    Build(PlanModel),
    Abort(Seq<char>),
}

impl View for Action {
    type V = ActionModel;

    open spec fn view(&self) -> ActionModel {
        match self {
            Action::WritePlaceholder(a) => ActionModel::WritePlaceholder(a@),
            Action::Locate(q) => ActionModel::Locate(q@),
            Action::Build(p) => ActionModel::Build(p@),
            Action::Abort(m) => ActionModel::Abort(m@),
        }
    }
}

/// The decisions of one build: which libraries to look up, in which order,
/// and what to build once they are all found.
pub struct Pipeline {
    docs_build: bool,
    features: Features,
    base: Option<LibraryDescriptor>,
    found: Vec<LibraryDescriptor>,
    failure: Option<String>,
}

pub ghost struct PipelineModel {
    pub docs_build: bool,
    pub features: Features,
    pub base: Option<LibraryModel>,
    pub found: Seq<LibraryModel>,
    pub failure: Option<Seq<char>>,
}

impl View for Pipeline {
    type V = PipelineModel;

    closed spec fn view(&self) -> PipelineModel {
        PipelineModel {
            docs_build: self.docs_build,
            features: self.features,
            base: match self.base {
                Some(b) => Some(b@),
                None => None,
            },
            found: descs_view(self.found@),
            failure: match self.failure {
                Some(m) => Some(m@),
                None => None,
            },
        }
    }
}

/// Number of lookups a build with toggles `f` makes: the base library, then
/// each enabled module.
pub open spec fn lookup_count_spec(f: Features) -> nat {
    1 + enabled_modules_spec(f).len()
}

/// Module of the `i`-th lookup.
pub open spec fn lookup_module_spec(f: Features, i: int) -> Seq<char> {
    if i == 0 {
        BASE_MODULE@
    } else {
        enabled_modules_spec(f)[i - 1].name@
    }
}

/// Package (after the `gnunet` prefix) of the `i`-th lookup.
pub open spec fn lookup_package_spec(f: Features, i: int) -> Seq<char> {
    if i == 0 {
        BASE_MODULE@
    } else {
        enabled_modules_spec(f)[i - 1].package@
    }
}

/// The `i`-th lookup.
pub open spec fn query_spec(f: Features, i: int) -> QueryModel {
    QueryModel {
        module: lookup_module_spec(f, i),
        package: package_name_spec(lookup_package_spec(f, i)),
        min_version: MIN_VERSION@,
    }
}

/// Diagnostic for a failed `i`-th lookup whose registry error reads `err`.
pub open spec fn failure_message_spec(f: Features, i: int, err: Seq<char>) -> Seq<char> {
    if i == 0 {
        "Unable to find "@ + package_name_spec(BASE_MODULE@) + " development files: "@ + err
    } else {
        "Unable to find `"@ + lookup_module_spec(f, i) + "` with pkg-config: "@ + err
    }
}

impl PipelineModel {
    /// Number of lookups that have succeeded.
    pub open spec fn located(self) -> nat {
        (if self.base is Some { 1nat } else { 0nat }) + self.found.len()
    }

    pub open spec fn wf(self) -> bool {
        &&& (self.base is None ==> self.found.len() == 0)
        &&& self.located() <= lookup_count_spec(self.features)
    }

    /// A lookup is awaited: the next action is `Locate`.
    pub open spec fn awaits_lookup(self) -> bool {
        !self.docs_build && self.failure is None && self.located() < lookup_count_spec(self.features)
    }

    pub open spec fn next_action(self) -> ActionModel {
        if self.docs_build {
            ActionModel::WritePlaceholder(ARTIFACT_NAME@)
        } else if self.failure is Some {
            ActionModel::Abort(self.failure->0)
        } else if self.located() < lookup_count_spec(self.features) {
            ActionModel::Locate(query_spec(self.features, self.located() as int))
        } else {
            ActionModel::Build(plan_spec(self.features, self.base->0, self.found))
        }
    }

    /// The state after the awaited lookup came back with `outcome`.
    pub open spec fn record(self, outcome: Result<LibraryModel, Seq<char>>) -> PipelineModel {
        match outcome {
            Ok(d) => if self.base is None {
                PipelineModel { base: Some(d), ..self }
            } else {
                PipelineModel { found: self.found.push(d), ..self }
            },
            Err(e) => PipelineModel {
                failure: Some(failure_message_spec(self.features, self.located() as int, e)),
                ..self
            },
        }
    }
}

/// The state of a build that has done nothing yet.
pub open spec fn initial_spec(docs_build: bool, features: Features) -> PipelineModel {
    PipelineModel { docs_build, features, base: None, found: Seq::empty(), failure: None }
}

impl Pipeline {
    /// A pipeline for toggles `features`; `docs_build` is set when the build
    /// only makes documentation and must not touch the native library.
    pub fn new(docs_build: bool, features: Features) -> (r: Pipeline)
        ensures
            r@ == initial_spec(docs_build, features),
            r@.wf(),
    {
        let r = Pipeline { docs_build, features, base: None, found: Vec::new(), failure: None };
        assert(r@.found =~= Seq::<LibraryModel>::empty());
        r
    }

    fn located(&self) -> (r: usize)
        requires
            self@.wf(),
        ensures
            r == self@.located(),
    {
        (if self.base.is_some() { 1 } else { 0 }) + self.found.len()
    }

    /// The diagnostic for a failed `i`-th lookup.
    fn failure_message(&self, i: usize, err: &str) -> (r: String)
        requires
            i < lookup_count_spec(self.features),
        ensures
            r@ == failure_message_spec(self.features, i as int, err@),
    {
        if i == 0 {
            String::from_str("Unable to find ").concat(package_name(BASE_MODULE).as_str()).concat(
                " development files: ",
            ).concat(err)
        } else {
            let ms = enabled_modules(self.features);
            String::from_str("Unable to find `").concat(ms[i - 1].name).concat(
                "` with pkg-config: ",
            ).concat(err)
        }
    }

    /// The `i`-th lookup.
    fn query(&self, i: usize) -> (r: Query)
        requires
            i < lookup_count_spec(self.features),
        ensures
            r@ == query_spec(self.features, i as int),
    {
        let (module, package) = if i == 0 {
            (BASE_MODULE, BASE_MODULE)
        } else {
            let ms = enabled_modules(self.features);
            (ms[i - 1].name, ms[i - 1].package)
        };
        Query { module, package: package_name(package), min_version: MIN_VERSION }
    }

    /// What to do next: in a documentation build, write the placeholder; after
    /// a failed lookup, abort; while lookups remain, make the next one; then
    /// build.
    pub fn next_action(&self) -> (r: Action)
        requires
            self@.wf(),
        ensures
            r@ == self@.next_action(),
    {
        if self.docs_build {
            return Action::WritePlaceholder(ARTIFACT_NAME);
        }
        match &self.failure {
            Some(m) => {
                return Action::Abort(m.clone());
            },
            None => {},
        }
        let n = self.located();
        if n < 1 + enabled_modules(self.features).len() {
            Action::Locate(self.query(n))
        } else {
            match &self.base {
                Some(b) => Action::Build(build_plan(self.features, b, &self.found)),
                None => Action::Abort(String::new()),
            }
        }
    }

    /// Takes the outcome of the awaited lookup: a descriptor, or the registry's
    /// error.
    pub fn record(&mut self, outcome: Result<LibraryDescriptor, String>)
        requires
            old(self)@.wf(),
            old(self)@.awaits_lookup(),
        ensures
            final(self)@.wf(),
            final(self)@ == old(self)@.record(
                match outcome {
                    Ok(d) => Ok(d@),
                    Err(e) => Err(e@),
                },
            ),
    {
        let n = self.located();
        match outcome {
            Ok(d) => {
                if self.base.is_none() {
                    self.base = Some(d);
                } else {
                    let ghost prev = self.found@;
                    self.found.push(d);
                    assert(descs_view(self.found@) =~= descs_view(prev).push(d@));
                }
            },
            Err(e) => {
                self.failure = Some(self.failure_message(n, e.as_str()));
            },
        }
    }
}

} // verus!
