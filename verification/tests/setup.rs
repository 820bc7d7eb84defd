use steel_flint::adapter::SteelAdapter;
use steel_flint::drive::{decide, DriveDecision, DriveEvent, DriveFailure};
use steel_flint::setup::{
    test_server_config, test_world_settings, Difficulty, GameMode, InitProgress, InitStep,
    StepAction, StepState, WorldGenerator, WorldStorage,
};
use steel_flint::{init, InitAction};

#[test]
fn init_runs_every_step_once_in_order() {
    let mut progress = InitProgress::new();
    let mut ran = Vec::new();
    while let InitAction::Run(step) = init(&progress) {
        progress.start(step);
        progress.finish(step);
        ran.push(step);
    }
    assert_eq!(
        ran,
        vec![InitStep::Config, InitStep::Registry, InitStep::Behaviors, InitStep::Runtime]
    );
    assert_eq!(init(&progress), InitAction::Complete);
    assert_eq!(progress.step_state(InitStep::Behaviors), StepState::Done);
}

#[test]
fn init_skips_a_finished_step() {
    let mut progress = InitProgress::new();
    progress.start(InitStep::Config);
    progress.finish(InitStep::Config);
    assert_eq!(progress.step_action(InitStep::Config), StepAction::Skip);
    assert_eq!(init(&progress), InitAction::Run(InitStep::Registry));
}

#[test]
fn a_one_shot_step_that_failed_is_poisoned() {
    let mut progress = InitProgress::new();
    progress.start(InitStep::Config);
    assert_eq!(progress.step_state(InitStep::Config), StepState::Started);
    assert_eq!(init(&progress), InitAction::Poisoned(InitStep::Config));
}

#[test]
fn the_runtime_is_retried_after_a_failure() {
    let mut progress = InitProgress::new();
    for step in [InitStep::Config, InitStep::Registry, InitStep::Behaviors] {
        progress.start(step);
        progress.finish(step);
    }
    progress.start(InitStep::Runtime);
    assert_eq!(progress.step_action(InitStep::Runtime), StepAction::Run);
    assert_eq!(init(&progress), InitAction::Run(InitStep::Runtime));
}

#[test]
fn server_config_values() {
    let c = test_server_config();
    assert_eq!(c.mc_version, "1.21.11");
    assert_eq!(c.server_port, 25565);
    assert_eq!(c.seed, "");
    assert_eq!(c.max_players, 20);
    assert_eq!(c.view_distance, 10);
    assert_eq!(c.simulation_distance, 10);
    assert!(!c.online_mode);
    assert!(!c.encryption);
    assert_eq!(c.motd, "");
    assert!(!c.use_favicon);
    assert_eq!(c.favicon, "");
    assert!(!c.enforce_secure_chat);
    assert!(!c.compression);
    assert!(!c.server_links);
    assert!(matches!(c.world_storage, WorldStorage::Disk { ref path } if path == "world"));
    assert_eq!(c.world_generator, WorldGenerator::Empty);
}

#[test]
fn world_settings_values() {
    let w = test_world_settings();
    assert!(matches!(w.storage, WorldStorage::RamOnly));
    assert_eq!(w.dimension_namespace, "minecraft");
    assert_eq!(w.dimension_path, "overworld");
    assert_eq!(w.generator_namespace, "steel");
    assert_eq!(w.generator_path, "empty");
    assert_eq!(w.seed, 0);
    assert_eq!(w.view_distance, 10);
    assert_eq!(w.simulation_distance, 10);
    assert!(!w.is_flat);
    assert_eq!(w.sea_level, 63);
    assert_eq!(w.default_gamemode, GameMode::Survival);
    assert_eq!(w.difficulty, Difficulty::Normal);
}

#[test]
fn adapter_reports_the_configured_version() {
    let adapter = SteelAdapter::new();
    assert_eq!(adapter.server_info().minecraft_version, "1.21.11");
    assert_eq!(
        adapter.server_info().minecraft_version,
        test_server_config().mc_version
    );
    let by_default = SteelAdapter::default();
    assert_eq!(by_default.server_info().minecraft_version, "1.21.11");
    let copy = adapter.clone();
    assert_eq!(copy.server_info().minecraft_version, "1.21.11");
}

#[test]
fn drive_decisions() {
    assert_eq!(decide(DriveEvent::ReachedFull), DriveDecision::Done);
    assert_eq!(decide(DriveEvent::HolderMissing), DriveDecision::KeepDriving);
    assert_eq!(decide(DriveEvent::WaitTimedOut), DriveDecision::KeepDriving);
    assert_eq!(
        decide(DriveEvent::Cancelled),
        DriveDecision::Fail(DriveFailure::Cancelled)
    );
    assert_eq!(
        decide(DriveEvent::DeadlinePassed),
        DriveDecision::Fail(DriveFailure::DeadlineExceeded)
    );
}

#[test]
fn every_adapter_reports_the_same_version() {
    let adapter = SteelAdapter::new();
    let first = adapter.server_info();
    let second = adapter.server_info();
    assert_eq!(first.minecraft_version, second.minecraft_version);
    assert_eq!(adapter.clone().server_info().minecraft_version, "1.21.11");
}
