use vstd::prelude::*;
use vstd::string::*;
use crate::commands::{DoctorLine, InstallDecision};
use crate::name_map::lemma_name_map_index;
use crate::outcome::PrereqEnv;
use crate::registry::{AmarisProvider, AmarisRegistry};

verus! {

/// The parsed process invocation: the one subcommand the user asked for.
pub struct CLI {
    pub command: Commands,
}

/// A parsed user command: the tagged intent the dispatcher interprets.
#[derive(Debug)]
pub enum Commands {
    /// Install a named configuration, or one chosen interactively when no
    /// name is given.
    Install { config: Option<String> },
    /// List all registered configurations.
    List,
    /// Remove the named configuration.
    Remove { config: String },
    /// Check the prerequisites of every registered configuration.
    Doctor,
}

/// Gates an install request on the provider's prerequisite check: the
/// install phase runs only when the check passes, and a failed check aborts
/// with its `MissingPrerequisite` error before anything is invoked.
pub fn install_gate<P: AmarisProvider>(provider: Option<&P>, env: &PrereqEnv) -> (r:
    InstallDecision)
    ensures
        match provider {
            None => r is NoProvider,
            Some(p) => match p.spec_check(*env) {
                Ok(_) => r is Proceed,
                Err(e) => (r matches InstallDecision::Blocked(b) && b@ == e && e
                    is MissingPrerequisite),
            },
        },
{
    match provider {
        None => InstallDecision::NoProvider,
        Some(p) => match p.check_prerequisites(env) {
            Ok(_) => InstallDecision::Proceed,
            Err(e) => InstallDecision::Blocked(e),
        },
    }
}

/// The doctor command's aggregation: every registered provider is checked
/// against its observed environment, one status line per provider, in
/// enumeration order. No failure aborts the report; the command always
/// completes, whatever the number of failed checks.
pub fn doctor_report<P: AmarisProvider>(
    registry: &AmarisRegistry<P>,
    envs: &Vec<PrereqEnv>,
) -> (r: Vec<DoctorLine>)
    requires
        registry.wf(),
        envs@.len() == registry@.len(),
    ensures
        r@.len() == registry@.len(),
        forall|i: int|
            #![auto]
            0 <= i < r@.len() ==> {
                &&& r@[i].name@ == registry@[i].spec_name()
                &&& r@[i].ok == (registry@[i].spec_check(envs@[i]) is Ok)
                &&& (registry@[i].spec_check(envs@[i]) matches Err(e) ==> r@[i].detail@
                    == e.message())
            },
{
    let configs = registry.available_configs();
    let mut out: Vec<DoctorLine> = Vec::new();
    let mut i: usize = 0;
    while i < configs.len()
        invariant
            registry.wf(),
            envs@.len() == registry@.len(),
            configs@.len() == registry@.len(),
            forall|k: int|
                0 <= k < configs@.len() ==> configs@[k].0@ == registry@[k].spec_name(),
            i <= configs@.len(),
            out@.len() == i,
            forall|k: int|
                #![auto]
                0 <= k < i ==> {
                    &&& out@[k].name@ == registry@[k].spec_name()
                    &&& out@[k].ok == (registry@[k].spec_check(envs@[k]) is Ok)
                    &&& (registry@[k].spec_check(envs@[k]) matches Err(e) ==> out@[k].detail@
                        == e.message())
                },
        decreases configs@.len() - i,
    {
        let name = configs[i].0;
        proof {
            lemma_name_map_index(registry@, AmarisRegistry::<P>::name_of(), i as int);
            assert((AmarisRegistry::<P>::name_of())(registry@[i as int]) == registry@[
                i as int].spec_name());
        }
        match registry.get_provider(name) {
            Some(p) => {
                let res = p.check_prerequisites(&envs[i]);
                let line = match res {
                    Ok(_) => DoctorLine {
                        name: String::from_str(name),
                        ok: true,
                        detail: String::new(),
                    },
                    Err(e) => DoctorLine {
                        name: String::from_str(name),
                        ok: false,
                        detail: e.message(),
                    },
                };
                out.push(line);
            },
            None => {
                proof {
                    assert(false);
                }
            },
        }
        i = i + 1;
    }
    out
}

} // verus!
