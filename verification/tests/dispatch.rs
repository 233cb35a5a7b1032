use amaris::biome::BiomeProvider;
use amaris::commands::{
    doctor_report, install_gate, list_lines, resolve_selection, selection_options, Commands,
    InstallDecision,
};
use amaris::config_registry::{ConfigProvider, ConfigRegistry};
use amaris::error::{ConfigError, ConfigErrorView};
use amaris::outcome::{DeleteOutcome, PrereqEnv, RunOutcome, WriteOutcome};

struct ScriptedProvider {
    name: &'static str,
    desc: &'static str,
}

impl ConfigProvider for ScriptedProvider {
    // The trait's ghost members: present only for the compiler, never
    // called at run time.
    fn spec_name(&self) -> vstd::seq::Seq<char> {
        panic!()
    }

    fn spec_description(&self) -> vstd::seq::Seq<char> {
        panic!()
    }

    fn spec_check(&self, _env: PrereqEnv) -> Result<(), ConfigErrorView> {
        panic!()
    }

    fn spec_install(&self, _deps: RunOutcome, _write: WriteOutcome) -> Result<(), ConfigErrorView> {
        panic!()
    }

    fn spec_remove(
        &self,
        _cleanup: vstd::seq::Seq<DeleteOutcome>,
        _uninstall: RunOutcome,
    ) -> Result<(), ConfigErrorView> {
        panic!()
    }

    fn name(&self) -> &'static str {
        self.name
    }

    fn description(&self) -> &'static str {
        self.desc
    }

    fn check_prerequisites(&self, env: &PrereqEnv) -> Result<(), ConfigError> {
        if !env.tool_present {
            Err(ConfigError::MissingPrerequisite("tool not found".to_string()))
        } else if !env.marker_present {
            Err(ConfigError::MissingPrerequisite("marker not found".to_string()))
        } else {
            Ok(())
        }
    }

    fn install(&self, _deps: &RunOutcome, _write: &WriteOutcome) -> Result<(), ConfigError> {
        Ok(())
    }

    fn remove(
        &self,
        _cleanup: &Vec<DeleteOutcome>,
        _uninstall: &RunOutcome,
    ) -> Result<(), ConfigError> {
        Ok(())
    }
}

#[test]
fn list_prints_name_and_description() {
    let mut registry: ConfigRegistry<BiomeProvider> = ConfigRegistry::new();
    registry.register(BiomeProvider);
    let lines = list_lines(&registry.available_configs());
    assert_eq!(lines.len(), 1);
    assert_eq!(lines[0], "biome: Biome configuration for JavaScript/TypeScript projects");
}

#[test]
fn install_gate_blocks_on_failed_prerequisites() {
    let mut registry: ConfigRegistry<BiomeProvider> = ConfigRegistry::new();
    registry.register(BiomeProvider);
    let env = PrereqEnv { tool_present: false, marker_present: true };
    let decision = install_gate(registry.get_provider("biome"), &env);
    match decision {
        InstallDecision::Blocked(err) => {
            assert!(matches!(err, ConfigError::MissingPrerequisite(_)));
            assert_eq!(err.message(), "Missing prerequisite: bun is required but not found");
        }
        _ => panic!("install must be blocked when the required tool is absent"),
    }
}

#[test]
fn install_gate_proceeds_when_prerequisites_hold() {
    let mut registry: ConfigRegistry<BiomeProvider> = ConfigRegistry::new();
    registry.register(BiomeProvider);
    let env = PrereqEnv { tool_present: true, marker_present: true };
    let decision = install_gate(registry.get_provider("biome"), &env);
    assert!(matches!(decision, InstallDecision::Proceed));
}

#[test]
fn unknown_provider_is_a_silent_no_op() {
    let mut registry: ConfigRegistry<BiomeProvider> = ConfigRegistry::new();
    registry.register(BiomeProvider);
    assert!(registry.get_provider("ghost").is_none());
    let env = PrereqEnv { tool_present: true, marker_present: true };
    let decision = install_gate(registry.get_provider("ghost"), &env);
    assert!(matches!(decision, InstallDecision::NoProvider));
}

#[test]
fn doctor_reports_one_line_per_provider_and_never_aborts() {
    let mut registry: ConfigRegistry<ScriptedProvider> = ConfigRegistry::new();
    registry.register(ScriptedProvider { name: "alpha", desc: "first configuration" });
    registry.register(ScriptedProvider { name: "beta", desc: "second configuration" });
    let envs = vec![
        PrereqEnv { tool_present: true, marker_present: true },
        PrereqEnv { tool_present: false, marker_present: true },
    ];
    let report = doctor_report(&registry, &envs);
    assert_eq!(report.len(), 2);
    let passed = report.iter().filter(|line| line.ok).count();
    let failed = report.iter().filter(|line| !line.ok).count();
    assert_eq!(passed, 1);
    assert_eq!(failed, 1);
    for line in &report {
        if line.ok {
            assert_eq!(line.render(), format!("All prerequisites met for {}", line.name));
        } else {
            assert_eq!(
                line.render(),
                format!("All prerequisites are not met for {}\n{}", line.name, line.detail)
            );
        }
    }
}

#[test]
fn interactive_selection_offers_descriptions_in_enumeration_order() {
    let mut registry: ConfigRegistry<ScriptedProvider> = ConfigRegistry::new();
    registry.register(ScriptedProvider { name: "alpha", desc: "first configuration" });
    registry.register(ScriptedProvider { name: "beta", desc: "second configuration" });
    let configs = registry.available_configs();
    let options = selection_options(&configs);
    assert_eq!(options.len(), 2);
    assert_eq!(options[0], configs[0].1);
    assert_eq!(options[1], configs[1].1);
}

#[test]
fn selecting_the_second_option_resolves_to_its_provider() {
    let mut registry: ConfigRegistry<ScriptedProvider> = ConfigRegistry::new();
    registry.register(ScriptedProvider { name: "alpha", desc: "first configuration" });
    registry.register(ScriptedProvider { name: "beta", desc: "second configuration" });
    let configs = registry.available_configs();
    let options = selection_options(&configs);
    let chosen = options[1];
    let name = resolve_selection(&configs, chosen).expect("the option came from the registry");
    let provider = registry.get_provider(&name).expect("the resolved name is registered");
    assert_eq!(provider.description(), chosen);
}

#[test]
fn resolving_an_unknown_selection_returns_nothing() {
    let configs = vec![("alpha", "first configuration")];
    assert!(resolve_selection(&configs, "no such description").is_none());
}

#[test]
fn commands_carry_their_arguments() {
    let install = Commands::Install { config: Some("biome".to_string()) };
    match install {
        Commands::Install { config } => assert_eq!(config.as_deref(), Some("biome")),
        _ => panic!("expected an install command"),
    }
    let remove = Commands::Remove { config: "biome".to_string() };
    match remove {
        Commands::Remove { config } => assert_eq!(config, "biome"),
        _ => panic!("expected a remove command"),
    }
}
