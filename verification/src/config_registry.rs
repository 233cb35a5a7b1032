use vstd::prelude::*;
use crate::error::{result_view, ConfigError, ConfigErrorView};
use crate::name_map::{distinct_names, lemma_name_map_domain, lemma_name_map_index,
    lemma_name_map_push, lemma_name_map_remove, name_map};
use crate::outcome::{first_delete_failure, DeleteOutcome, PrereqEnv, RunOutcome, WriteOutcome};
use crate::text::str_eq;

verus! {

/// The uniform lifecycle every configuration provider supports. A provider
/// is a named, described, stateless capability bundle; its lifecycle phases
/// are pure decision functions over observations of the outside world, so
/// the caller performs the actual file and process work and hands the
/// observed outcomes in as plain values.
pub trait ConfigProvider: Sized {
    /// The provider's stable identity, used as the registry key.
    spec fn spec_name(&self) -> Seq<char>;

    /// The provider's human-readable label, used only for display and selection.
    spec fn spec_description(&self) -> Seq<char>;

    /// What the prerequisite check decides on a given environment snapshot.
    spec fn spec_check(&self, env: PrereqEnv) -> Result<(), ConfigErrorView>;

    /// What installation reports, given the outcome of the dependency
    /// installation and the outcome of the configuration-file write.
    spec fn spec_install(&self, deps: RunOutcome, write: WriteOutcome) -> Result<
        (),
        ConfigErrorView,
    >;

    /// What removal reports, given the per-file cleanup outcomes and the
    /// outcome of the dependency uninstall.
    spec fn spec_remove(&self, cleanup: Seq<DeleteOutcome>, uninstall: RunOutcome) -> Result<
        (),
        ConfigErrorView,
    >;

    fn name(&self) -> (r: &'static str)
        ensures
            r@ == self.spec_name(),
    ;

    fn description(&self) -> (r: &'static str)
        ensures
            r@ == self.spec_description(),
    ;

    /// Decides whether every prerequisite holds in the observed environment.
    /// An unmet precondition is always reported as `MissingPrerequisite`.
    fn check_prerequisites(&self, env: &PrereqEnv) -> (r: Result<(), ConfigError>)
        ensures
            result_view(r) == self.spec_check(*env),
            r matches Err(e) ==> e@ is MissingPrerequisite,
    ;

    /// Decides what installation reports. A failed dependency installation is
    /// a `DependencyError` carrying the launcher's error text or the captured
    /// stderr; a failed file write after successful dependency installation
    /// is a `FileWriteError`, so the caller can tell which phase failed.
    fn install(&self, deps: &RunOutcome, write: &WriteOutcome) -> (r: Result<(), ConfigError>)
        ensures
            result_view(r) == self.spec_install(*deps, *write),
            deps.failure() matches Some(d) ==> r matches Err(e) && e@
                == ConfigErrorView::DependencyError(d),
            deps.failure() is None && (*write) is WriteFailed ==> (r matches Err(e) && e@
                is FileWriteError),
    ;

    /// Decides what removal reports. Files that were already absent are not
    /// failures, so removal is idempotent; a failed deletion is reported as a
    /// `FileWriteError` but never hides the outcome of the dependency
    /// uninstall, whose own failure is a `DependencyError`.
    fn remove(&self, cleanup: &Vec<DeleteOutcome>, uninstall: &RunOutcome) -> (r: Result<
        (),
        ConfigError,
    >)
        ensures
            result_view(r) == self.spec_remove(cleanup@, *uninstall),
            first_delete_failure(cleanup@) is None && uninstall.failure() is None ==> r is Ok,
            first_delete_failure(cleanup@) matches Some(d) ==> r matches Err(e) && e@
                is FileWriteError,
            uninstall.failure() matches Some(d) ==> (first_delete_failure(cleanup@) is None ==> (
            r matches Err(e) && e@ == ConfigErrorView::DependencyError(d))),
    ;
}

/// The central directory of available providers: a mapping from provider
/// name to provider instance, populated once at startup and read-only for
/// the rest of the run.
pub struct ConfigRegistry<P: ConfigProvider> {
    providers: Vec<P>,
}

impl<P: ConfigProvider> View for ConfigRegistry<P> {
    type V = Seq<P>;

    closed spec fn view(&self) -> Seq<P> {
        self.providers@
    }
}

impl<P: ConfigProvider> ConfigRegistry<P> {
    /// The name each registered provider is keyed by.
    pub open spec fn name_of() -> spec_fn(P) -> Seq<char> {
        |p: P| p.spec_name()
    }

    /// Every key of the directory equals the name of the provider it holds,
    /// because registration always derives the key from the provider itself:
    /// names are pairwise distinct.
    pub open spec fn wf(&self) -> bool {
        distinct_names(self@, Self::name_of())
    }

    /// The directory as a mapping from provider name to provider instance.
    pub open spec fn spec_map(&self) -> Map<Seq<char>, P> {
        name_map(self@, Self::name_of())
    }

    /// Creates an empty registry.
    pub fn new() -> (r: Self)
        ensures
            r@ =~= Seq::<P>::empty(),
            r.wf(),
            r.spec_map() =~= Map::<Seq<char>, P>::empty(),
    {
        ConfigRegistry { providers: Vec::new() }
    }

    /// The position of the provider keyed by `name`, if one is registered.
    fn index_of(&self, name: &str) -> (r: Option<usize>)
        ensures
            match r {
                Some(i) => i < self@.len() && self@[i as int].spec_name() == name@,
                None => forall|i: int| 0 <= i < self@.len() ==> self@[i].spec_name() != name@,
            },
    {
        let mut i: usize = 0;
        while i < self.providers.len()
            invariant
                i <= self.providers.len(),
                self.providers@ == self@,
                forall|j: int| 0 <= j < i ==> self@[j].spec_name() != name@,
            decreases self.providers.len() - i,
        {
            if str_eq(self.providers[i].name(), name) {
                return Some(i);
            }
            i = i + 1;
        }
        None
    }

    /// Registers a provider under its own name. A later registration with
    /// the same name replaces the earlier one: last write wins.
    pub fn register(&mut self, provider: P)
        requires
            old(self).wf(),
        ensures
            final(self).wf(),
            final(self).spec_map() =~= old(self).spec_map().insert(
                provider.spec_name(),
                provider,
            ),
    {
        let name_of = Ghost(Self::name_of());
        match self.index_of(provider.name()) {
            Some(i) => {
                proof {
                    lemma_name_map_remove(self@, name_of@, i as int);
                    lemma_name_map_domain(self@.remove(i as int), name_of@, provider.spec_name());
                }
                let _shadowed = self.providers.remove(i);
            },
            None => {},
        }
        proof {
            lemma_name_map_push(self@, name_of@, provider);
        }
        self.providers.push(provider);
    }

    /// Looks up the provider registered under `name`. Absence is a normal,
    /// expected outcome, reported as `None` rather than as an error.
    pub fn get_provider<'a>(&'a self, name: &str) -> (r: Option<&'a P>)
        requires
            self.wf(),
        ensures
            match r {
                Some(p) => self.spec_map().contains_key(name@) && *p == self.spec_map()[name@]
                    && p.spec_name() == name@,
                None => !self.spec_map().contains_key(name@),
            },
    {
        proof {
            lemma_name_map_domain(self@, Self::name_of(), name@);
        }
        match self.index_of(name) {
            Some(i) => {
                proof {
                    lemma_name_map_index(self@, Self::name_of(), i as int);
                }
                Some(&self.providers[i])
            },
            None => None,
        }
    }

    /// Enumerates all registered providers as `(name, description)` pairs,
    /// one pair per provider, in the registry's enumeration order.
    pub fn available_configs(&self) -> (r: Vec<(&'static str, &'static str)>)
        ensures
            r@.len() == self@.len(),
            forall|i: int|
                0 <= i < r@.len() ==> r@[i].0@ == self@[i].spec_name() && r@[i].1@
                    == self@[i].spec_description(),
    {
        let mut out: Vec<(&'static str, &'static str)> = Vec::new();
        let mut i: usize = 0;
        while i < self.providers.len()
            invariant
                i <= self.providers.len(),
                self.providers@ == self@,
                out@.len() == i,
                forall|j: int|
                    0 <= j < i ==> out@[j].0@ == self@[j].spec_name() && out@[j].1@
                        == self@[j].spec_description(),
            decreases self.providers.len() - i,
        {
            let p = &self.providers[i];
            out.push((p.name(), p.description()));
            i = i + 1;
        }
        out
    }
}

/// One pair per provider: with distinct provider names, each registered
/// name appears at exactly one position of the enumeration, and that
/// position carries the provider's own name and description.
pub proof fn lemma_one_pair_per_provider<P: ConfigProvider>(
    reg: ConfigRegistry<P>,
    pairs: Seq<(&'static str, &'static str)>,
    n: Seq<char>,
)
    requires
        reg.wf(),
        pairs.len() == reg@.len(),
        forall|i: int|
            0 <= i < pairs.len() ==> pairs[i].0@ == reg@[i].spec_name() && pairs[i].1@
                == reg@[i].spec_description(),
        reg.spec_map().contains_key(n),
    ensures
        exists|i: int| 0 <= i < pairs.len() && pairs[i].0@ == n,
        forall|i: int, j: int|
            0 <= i < pairs.len() && 0 <= j < pairs.len() && pairs[i].0@ == n && pairs[j].0@ == n
                ==> i == j,
{
    lemma_name_map_domain(reg@, ConfigRegistry::<P>::name_of(), n);
    let i = choose|i: int| 0 <= i < reg@.len() && (ConfigRegistry::<P>::name_of())(reg@[i]) == n;
    assert(pairs[i].0@ == n);
    assert forall|i: int, j: int|
        0 <= i < pairs.len() && 0 <= j < pairs.len() && pairs[i].0@ == n && pairs[j].0@ == n
            implies i == j by {
        assert((ConfigRegistry::<P>::name_of())(reg@[i]) == n);
        assert((ConfigRegistry::<P>::name_of())(reg@[j]) == n);
    }
}

/// The registry invariant the mapping maintains: every key of the directory
/// equals the name of the provider instance it holds, because registration
/// always derives the key from the provider itself.
pub proof fn lemma_key_matches_name<P: ConfigProvider>(reg: ConfigRegistry<P>, k: Seq<char>)
    requires
        reg.wf(),
        reg.spec_map().contains_key(k),
    ensures
        reg.spec_map()[k].spec_name() == k,
{
    lemma_name_map_domain(reg@, ConfigRegistry::<P>::name_of(), k);
    let i = choose|i: int| 0 <= i < reg@.len() && (ConfigRegistry::<P>::name_of())(reg@[i]) == k;
    lemma_name_map_index(reg@, ConfigRegistry::<P>::name_of(), i);
}

/// Registering two providers with the same name leaves only the second one
/// reachable by that name: the directory after both registrations is the
/// directory after the second alone.
pub proof fn lemma_register_last_write_wins<P: ConfigProvider>(
    m: Map<Seq<char>, P>,
    first: P,
    second: P,
)
    requires
        first.spec_name() == second.spec_name(),
    ensures
        m.insert(first.spec_name(), first).insert(second.spec_name(), second) =~= m.insert(
            second.spec_name(),
            second,
        ),
{
}

} // verus!
