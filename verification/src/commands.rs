use vstd::prelude::*;
use vstd::string::*;
use crate::config_registry::{ConfigProvider, ConfigRegistry};
use crate::error::ConfigError;
use crate::name_map::lemma_name_map_index;
use crate::outcome::PrereqEnv;
use crate::text::str_eq;

verus! {

/// A parsed user command: the tagged intent the dispatcher interprets.
#[derive(Debug)]
pub enum Commands {
    /// Install a named configuration, or one chosen interactively when no
    /// name is given.
    Install { config: Option<String> },
    /// List all registered configurations.
    List,
    /// Remove the named configuration.
    Remove { config: String },
    /// Check the prerequisites of every registered configuration.
    Doctor,
}

/// The options offered for interactive selection: the description of each
/// enumerated configuration, in enumeration order.
pub fn selection_options(configs: &Vec<(&'static str, &'static str)>) -> (r: Vec<&'static str>)
    ensures
        r@.len() == configs@.len(),
        forall|i: int| 0 <= i < r@.len() ==> r@[i]@ == configs@[i].1@,
{
    let mut out: Vec<&'static str> = Vec::new();
    let mut i: usize = 0;
    while i < configs.len()
        invariant
            i <= configs@.len(),
            out@.len() == i,
            forall|j: int| 0 <= j < i ==> out@[j]@ == configs@[j].1@,
        decreases configs@.len() - i,
    {
        out.push(configs[i].1);
        i = i + 1;
    }
    out
}

/// Resolves an interactive selection back to a provider name: the name
/// paired with the first enumerated description equal to the chosen one.
/// `None` means the selection matches no offered description, which cannot
/// occur when the selection came from options built over the same pairs.
pub fn resolve_selection(configs: &Vec<(&'static str, &'static str)>, selection: &str) -> (r:
    Option<String>)
    ensures
        match r {
            Some(name) => exists|i: int|
                #![auto]
                0 <= i < configs@.len() && configs@[i].1@ == selection@ && name@ == configs@[i].0@
                    && (forall|j: int| 0 <= j < i ==> configs@[j].1@ != selection@),
            None => forall|i: int| 0 <= i < configs@.len() ==> configs@[i].1@ != selection@,
        },
{
    let mut i: usize = 0;
    while i < configs.len()
        invariant
            i <= configs@.len(),
            forall|j: int| 0 <= j < i ==> configs@[j].1@ != selection@,
        decreases configs@.len() - i,
    {
        if str_eq(configs[i].1, selection) {
            return Some(String::from_str(configs[i].0));
        }
        i = i + 1;
    }
    None
}

/// What the dispatcher decides for an install request after resolving the
/// target name.
#[derive(Debug)]
pub enum InstallDecision {
    /// No provider is registered under the target name: the documented
    /// behavior is a silent no-op, so nothing is checked and nothing runs.
    NoProvider,
    /// The prerequisite check failed: installation is aborted before any
    /// dependency installation or file write, and this error is reported.
    Blocked(ConfigError),
    /// Every prerequisite holds: the provider's install phase may run.
    Proceed,
}

/// Gates an install request on the provider's prerequisite check: the
/// install phase runs only when the check passes, and a failed check aborts
/// with its `MissingPrerequisite` error before anything is invoked.
pub fn install_gate<P: ConfigProvider>(provider: Option<&P>, env: &PrereqEnv) -> (r:
    InstallDecision)
    ensures
        match provider {
            None => r is NoProvider,
            Some(p) => match p.spec_check(*env) {
                Ok(_) => r is Proceed,
                Err(e) => (r matches InstallDecision::Blocked(b) && b@ == e && e
                    is MissingPrerequisite),
            },
        },
{
    match provider {
        None => InstallDecision::NoProvider,
        Some(p) => match p.check_prerequisites(env) {
            Ok(_) => InstallDecision::Proceed,
            Err(e) => InstallDecision::Blocked(e),
        },
    }
}

/// The printed lines of the list command: one `name: description` line per
/// enumerated configuration, in enumeration order.
pub fn list_lines(configs: &Vec<(&'static str, &'static str)>) -> (r: Vec<String>)
    ensures
        r@.len() == configs@.len(),
        forall|i: int| 0 <= i < r@.len() ==> r@[i]@ == configs@[i].0@ + ": "@ + configs@[i].1@,
{
    let mut out: Vec<String> = Vec::new();
    let mut i: usize = 0;
    while i < configs.len()
        invariant
            i <= configs@.len(),
            out@.len() == i,
            forall|j: int| 0 <= j < i ==> out@[j]@ == configs@[j].0@ + ": "@ + configs@[j].1@,
        decreases configs@.len() - i,
    {
        out.push(String::from_str(configs[i].0).concat(": ").concat(configs[i].1));
        i = i + 1;
    }
    out
}

/// One line of the doctor report: which provider was checked, whether its
/// prerequisites were all met, and the error message when they were not.
#[derive(Debug)]
pub struct DoctorLine {
    pub name: String,
    pub ok: bool,
    pub detail: String,
}

impl DoctorLine {
    /// The printed form of the line.
    pub fn render(&self) -> (r: String)
        ensures
            r@ == if self.ok {
                "All prerequisites met for "@ + self.name@
            } else {
                "All prerequisites are not met for "@ + self.name@ + "\n"@ + self.detail@
            },
    {
        if self.ok {
            String::from_str("All prerequisites met for ").concat(self.name.as_str())
        } else {
            String::from_str("All prerequisites are not met for ").concat(self.name.as_str())
                .concat("\n").concat(self.detail.as_str())
        }
    }
}

/// The doctor command's aggregation: every registered provider is checked
/// against its observed environment, one status line per provider, in
/// enumeration order. No failure aborts the report; the command always
/// completes, whatever the number of failed checks.
pub fn doctor_report<P: ConfigProvider>(
    registry: &ConfigRegistry<P>,
    envs: &Vec<PrereqEnv>,
) -> (r: Vec<DoctorLine>)
    requires
        registry.wf(),
        envs@.len() == registry@.len(),
    ensures
        r@.len() == registry@.len(),
        forall|i: int|
            #![auto]
            0 <= i < r@.len() ==> {
                &&& r@[i].name@ == registry@[i].spec_name()
                &&& r@[i].ok == (registry@[i].spec_check(envs@[i]) is Ok)
                &&& (registry@[i].spec_check(envs@[i]) matches Err(e) ==> r@[i].detail@
                    == e.message())
            },
{
    let configs = registry.available_configs();
    let mut out: Vec<DoctorLine> = Vec::new();
    let mut i: usize = 0;
    while i < configs.len()
        invariant
            registry.wf(),
            envs@.len() == registry@.len(),
            configs@.len() == registry@.len(),
            forall|k: int|
                0 <= k < configs@.len() ==> configs@[k].0@ == registry@[k].spec_name(),
            i <= configs@.len(),
            out@.len() == i,
            forall|k: int|
                #![auto]
                0 <= k < i ==> {
                    &&& out@[k].name@ == registry@[k].spec_name()
                    &&& out@[k].ok == (registry@[k].spec_check(envs@[k]) is Ok)
                    &&& (registry@[k].spec_check(envs@[k]) matches Err(e) ==> out@[k].detail@
                        == e.message())
                },
        decreases configs@.len() - i,
    {
        let name = configs[i].0;
        proof {
            lemma_name_map_index(registry@, ConfigRegistry::<P>::name_of(), i as int);
            assert((ConfigRegistry::<P>::name_of())(registry@[i as int]) == registry@[
                i as int].spec_name());
        }
        match registry.get_provider(name) {
            Some(p) => {
                let res = p.check_prerequisites(&envs[i]);
                let line = match res {
                    Ok(_) => DoctorLine {
                        name: String::from_str(name),
                        ok: true,
                        detail: String::new(),
                    },
                    Err(e) => DoctorLine {
                        name: String::from_str(name),
                        ok: false,
                        detail: e.message(),
                    },
                };
                out.push(line);
            },
            None => {
                proof {
                    assert(false);
                }
            },
        }
        i = i + 1;
    }
    out
}

} // verus!
