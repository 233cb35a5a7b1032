use vstd::prelude::*;
use vstd::string::*;
use crate::config_registry::ConfigProvider;
use crate::registry::AmarisProvider;
use crate::error::{ConfigError, ConfigErrorView};
use crate::outcome::{first_delete_failure, DeleteOutcome, PrereqEnv, RunOutcome, WriteOutcome};

verus! {

/// The one provider shipped with the tool: an opinionated linter and
/// formatter configuration for JavaScript/TypeScript projects. Its
/// prerequisites are the `bun` package manager on the search path and a
/// `package.json` marker file in the working directory; installing adds the
/// required development dependencies and writes `biome.json`, and removing
/// deletes that file and uninstalls the dependencies again.
pub struct BiomeProvider;

impl ConfigProvider for BiomeProvider {
    open spec fn spec_name(&self) -> Seq<char> {
        "biome"@
    }

    open spec fn spec_description(&self) -> Seq<char> {
        "Biome configuration for JavaScript/TypeScript projects"@
    }

    open spec fn spec_check(&self, env: PrereqEnv) -> Result<(), ConfigErrorView> {
        if !env.tool_present {
            Err(ConfigErrorView::MissingPrerequisite("bun is required but not found"@))
        } else if !env.marker_present {
            Err(ConfigErrorView::MissingPrerequisite("package.json not found!"@))
        } else {
            Ok(())
        }
    }

    open spec fn spec_install(&self, deps: RunOutcome, write: WriteOutcome) -> Result<
        (),
        ConfigErrorView,
    > {
        match deps.failure() {
            Some(d) => Err(ConfigErrorView::DependencyError(d)),
            None => match write {
                WriteOutcome::WriteFailed(d) => Err(ConfigErrorView::FileWriteError(d@)),
                WriteOutcome::Written => Ok(()),
            },
        }
    }

    open spec fn spec_remove(&self, cleanup: Seq<DeleteOutcome>, uninstall: RunOutcome) -> Result<
        (),
        ConfigErrorView,
    > {
        match (first_delete_failure(cleanup), uninstall.failure()) {
            (Some(f), Some(d)) => Err(ConfigErrorView::FileWriteError(f + "; "@ + d)),
            (Some(f), None) => Err(ConfigErrorView::FileWriteError(f)),
            (None, Some(d)) => Err(ConfigErrorView::DependencyError(d)),
            (None, None) => Ok(()),
        }
    }

    fn name(&self) -> (r: &'static str) {
        "biome"
    }

    fn description(&self) -> (r: &'static str) {
        "Biome configuration for JavaScript/TypeScript projects"
    }

    fn check_prerequisites(&self, env: &PrereqEnv) -> (r: Result<(), ConfigError>) {
        if !env.tool_present {
            Err(ConfigError::MissingPrerequisite(String::from_str("bun is required but not found")))
        } else if !env.marker_present {
            Err(ConfigError::MissingPrerequisite(String::from_str("package.json not found!")))
        } else {
            Ok(())
        }
    }

    fn install(&self, deps: &RunOutcome, write: &WriteOutcome) -> (r: Result<(), ConfigError>) {
        match deps {
            RunOutcome::CouldNotStart(d) => Err(ConfigError::DependencyError(d.clone())),
            RunOutcome::Completed { exit_success, stderr } => {
                if !*exit_success {
                    Err(ConfigError::DependencyError(stderr.clone()))
                } else {
                    match write {
                        WriteOutcome::WriteFailed(d) => Err(
                            ConfigError::FileWriteError(d.clone()),
                        ),
                        WriteOutcome::Written => Ok(()),
                    }
                }
            },
        }
    }

    fn remove(&self, cleanup: &Vec<DeleteOutcome>, uninstall: &RunOutcome) -> (r: Result<
        (),
        ConfigError,
    >) {
        let mut file_failure: Option<String> = None;
        let mut i: usize = 0;
        proof {
            assert(cleanup@.skip(0) =~= cleanup@);
        }
        while i < cleanup.len()
            invariant
                i <= cleanup@.len(),
                match file_failure {
                    Some(d) => first_delete_failure(cleanup@) == Some(d@),
                    None => first_delete_failure(cleanup@) == first_delete_failure(
                        cleanup@.skip(i as int),
                    ),
                },
            decreases cleanup@.len() - i,
        {
            proof {
                assert(cleanup@.skip(i as int).first() == cleanup@[i as int]);
                assert(cleanup@.skip(i as int).drop_first() =~= cleanup@.skip(i as int + 1));
            }
            if file_failure.is_none() {
                match &cleanup[i] {
                    DeleteOutcome::DeleteFailed(d) => {
                        file_failure = Some(d.clone());
                    },
                    _ => {},
                }
            }
            i = i + 1;
        }
        proof {
            assert(cleanup@.skip(cleanup@.len() as int) =~= Seq::<DeleteOutcome>::empty());
        }
        let dep_failure: Option<String> = match uninstall {
            RunOutcome::CouldNotStart(d) => Some(d.clone()),
            RunOutcome::Completed { exit_success, stderr } => {
                if !*exit_success {
                    Some(stderr.clone())
                } else {
                    None
                }
            },
        };
        match (file_failure, dep_failure) {
            (Some(f), Some(d)) => Err(
                ConfigError::FileWriteError(f.concat("; ").concat(d.as_str())),
            ),
            (Some(f), None) => Err(ConfigError::FileWriteError(f)),
            (None, Some(d)) => Err(ConfigError::DependencyError(d)),
            (None, None) => Ok(()),
        }
    }
}

impl AmarisProvider for BiomeProvider {
    open spec fn spec_name(&self) -> Seq<char> {
        "biome"@
    }

    open spec fn spec_description(&self) -> Seq<char> {
        "Biome configuration for JavaScript/TypeScript projects"@
    }

    open spec fn spec_check(&self, env: PrereqEnv) -> Result<(), ConfigErrorView> {
        if !env.tool_present {
            Err(ConfigErrorView::MissingPrerequisite("bun is required but not found"@))
        } else if !env.marker_present {
            Err(ConfigErrorView::MissingPrerequisite("package.json not found!"@))
        } else {
            Ok(())
        }
    }

    open spec fn spec_install(&self, deps: RunOutcome, write: WriteOutcome) -> Result<
        (),
        ConfigErrorView,
    > {
        match deps.failure() {
            Some(d) => Err(ConfigErrorView::DependencyError(d)),
            None => match write {
                WriteOutcome::WriteFailed(d) => Err(ConfigErrorView::FileWriteError(d@)),
                WriteOutcome::Written => Ok(()),
            },
        }
    }

    open spec fn spec_remove(&self, cleanup: Seq<DeleteOutcome>, uninstall: RunOutcome) -> Result<
        (),
        ConfigErrorView,
    > {
        match (first_delete_failure(cleanup), uninstall.failure()) {
            (Some(f), Some(d)) => Err(ConfigErrorView::FileWriteError(f + "; "@ + d)),
            (Some(f), None) => Err(ConfigErrorView::FileWriteError(f)),
            (None, Some(d)) => Err(ConfigErrorView::DependencyError(d)),
            (None, None) => Ok(()),
        }
    }

    fn name(&self) -> (r: &'static str) {
        "biome"
    }

    fn description(&self) -> (r: &'static str) {
        "Biome configuration for JavaScript/TypeScript projects"
    }

    fn check_prerequisites(&self, env: &PrereqEnv) -> (r: Result<(), ConfigError>) {
        if !env.tool_present {
            Err(ConfigError::MissingPrerequisite(String::from_str("bun is required but not found")))
        } else if !env.marker_present {
            Err(ConfigError::MissingPrerequisite(String::from_str("package.json not found!")))
        } else {
            Ok(())
        }
    }

    fn install(&self, deps: &RunOutcome, write: &WriteOutcome) -> (r: Result<(), ConfigError>) {
        match deps {
            RunOutcome::CouldNotStart(d) => Err(ConfigError::DependencyError(d.clone())),
            RunOutcome::Completed { exit_success, stderr } => {
                if !*exit_success {
                    Err(ConfigError::DependencyError(stderr.clone()))
                } else {
                    match write {
                        WriteOutcome::WriteFailed(d) => Err(
                            ConfigError::FileWriteError(d.clone()),
                        ),
                        WriteOutcome::Written => Ok(()),
                    }
                }
            },
        }
    }

    fn remove(&self, cleanup: &Vec<DeleteOutcome>, uninstall: &RunOutcome) -> (r: Result<
        (),
        ConfigError,
    >) {
        let mut file_failure: Option<String> = None;
        let mut i: usize = 0;
        proof {
            assert(cleanup@.skip(0) =~= cleanup@);
        }
        while i < cleanup.len()
            invariant
                i <= cleanup@.len(),
                match file_failure {
                    Some(d) => first_delete_failure(cleanup@) == Some(d@),
                    None => first_delete_failure(cleanup@) == first_delete_failure(
                        cleanup@.skip(i as int),
                    ),
                },
            decreases cleanup@.len() - i,
        {
            proof {
                assert(cleanup@.skip(i as int).first() == cleanup@[i as int]);
                assert(cleanup@.skip(i as int).drop_first() =~= cleanup@.skip(i as int + 1));
            }
            if file_failure.is_none() {
                match &cleanup[i] {
                    DeleteOutcome::DeleteFailed(d) => {
                        file_failure = Some(d.clone());
                    },
                    _ => {},
                }
            }
            i = i + 1;
        }
        proof {
            assert(cleanup@.skip(cleanup@.len() as int) =~= Seq::<DeleteOutcome>::empty());
        }
        let dep_failure: Option<String> = match uninstall {
            RunOutcome::CouldNotStart(d) => Some(d.clone()),
            RunOutcome::Completed { exit_success, stderr } => {
                if !*exit_success {
                    Some(stderr.clone())
                } else {
                    None
                }
            },
        };
        match (file_failure, dep_failure) {
            (Some(f), Some(d)) => Err(
                ConfigError::FileWriteError(f.concat("; ").concat(d.as_str())),
            ),
            (Some(f), None) => Err(ConfigError::FileWriteError(f)),
            (None, Some(d)) => Err(ConfigError::DependencyError(d)),
            (None, None) => Ok(()),
        }
    }
}

} // verus!
