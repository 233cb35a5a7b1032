use amaris::args::{doctor_report, install_gate, Commands, CLI};
use amaris::biome::BiomeProvider;
use amaris::commands::InstallDecision;
use amaris::error::ConfigError;
use amaris::outcome::PrereqEnv;
use amaris::registry::{AmarisProvider, AmarisRegistry};

#[test]
fn amaris_registry_lookup_matches_registration() {
    let mut registry: AmarisRegistry<BiomeProvider> = AmarisRegistry::new();
    registry.register(BiomeProvider);
    let provider = registry.get_provider("biome").expect("biome should be registered");
    assert_eq!(provider.name(), "biome");
    assert!(registry.get_provider("ghost").is_none());
    let configs = registry.available_configs();
    assert_eq!(configs.len(), 1);
    assert_eq!(configs[0], ("biome", "Biome configuration for JavaScript/TypeScript projects"));
}

#[test]
fn amaris_install_gate_blocks_on_failed_prerequisites() {
    let mut registry: AmarisRegistry<BiomeProvider> = AmarisRegistry::new();
    registry.register(BiomeProvider);
    let env = PrereqEnv { tool_present: true, marker_present: false };
    let decision = install_gate(registry.get_provider("biome"), &env);
    match decision {
        InstallDecision::Blocked(err) => {
            assert!(matches!(err, ConfigError::MissingPrerequisite(_)));
            assert_eq!(err.message(), "Missing prerequisite: package.json not found!");
        }
        _ => panic!("install must be blocked when the marker file is absent"),
    }
}

#[test]
fn amaris_doctor_reports_every_provider() {
    let mut registry: AmarisRegistry<BiomeProvider> = AmarisRegistry::new();
    registry.register(BiomeProvider);
    let envs = vec![PrereqEnv { tool_present: true, marker_present: true }];
    let report = doctor_report(&registry, &envs);
    assert_eq!(report.len(), 1);
    assert!(report[0].ok);
    assert_eq!(report[0].render(), "All prerequisites met for biome");
}

#[test]
fn amaris_cli_carries_the_parsed_command() {
    let cli = CLI { command: Commands::List };
    assert!(matches!(cli.command, Commands::List));
    let cli = CLI { command: Commands::Doctor };
    assert!(matches!(cli.command, Commands::Doctor));
}
