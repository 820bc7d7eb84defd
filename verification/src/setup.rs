//! Process-wide set-up of the harness: how far each initialisation step has
//! got, and the fixed settings of the test server and of each test world.
use vstd::prelude::*;

verus! {

/// One of the one-time initialisation steps of the harness.
#[derive(Clone, Copy, Debug, PartialEq, Eq, Structural)]
pub enum InitStep {
    /// Install the test server configuration.
    Config,
    /// Build and install the vanilla registry.
    Registry,
    /// Install the block and item behaviours (needs the registry).
    Behaviors,
    /// Start the shared async runtime.
    Runtime,
}

/// How far one initialisation step has got in this process.
#[derive(Clone, Copy, Debug, PartialEq, Eq, Structural)]
pub enum StepState {
    /// Not started.
    Pending,
    /// Started but not finished: it failed part-way.
    Started,
    /// Finished.
    Done,
}

/// What to do about one initialisation step.
#[derive(Clone, Copy, Debug, PartialEq, Eq, Structural)]
pub enum StepAction {
    /// Run it.
    Run,
    /// It has finished: nothing to do.
    Skip,
    /// It failed part-way and is not retried: the set-up cannot go on.
    Poisoned,
}

/// Whether a step that failed part-way is run again. The runtime is; the
/// other steps are one-shot, and a failure leaves them poisoned.
pub open spec fn retried_after_failure(step: InitStep) -> bool {
    step == InitStep::Runtime
}

/// The action for a step in state `state`.
pub open spec fn spec_step_action(step: InitStep, state: StepState) -> StepAction {
    match state {
        StepState::Pending => StepAction::Run,
        StepState::Done => StepAction::Skip,
        StepState::Started => if retried_after_failure(step) { StepAction::Run } else { StepAction::Poisoned },
    }
}

/// How far each initialisation step has got in this process.
pub struct InitProgress {
    config: StepState,
    registry: StepState,
    behaviors: StepState,
    runtime: StepState,
}

impl InitProgress {
    /// How far `step` has got.
    pub closed spec fn state(&self, step: InitStep) -> StepState {
        match step {
            InitStep::Config => self.config,
            InitStep::Registry => self.registry,
            InitStep::Behaviors => self.behaviors,
            InitStep::Runtime => self.runtime,
        }
    }

    /// Whether `step` has finished.
    pub open spec fn done(&self, step: InitStep) -> bool {
        self.state(step) == StepState::Done
    }

    /// Whether every step has finished.
    pub open spec fn all_done(&self) -> bool {
        &&& self.done(InitStep::Config)
        &&& self.done(InitStep::Registry)
        &&& self.done(InitStep::Behaviors)
        &&& self.done(InitStep::Runtime)
    }

    /// Nothing started yet.
    pub fn new() -> (p: Self)
        ensures
            forall|s: InitStep| #[trigger] p.state(s) == StepState::Pending,
    {
        InitProgress {
            config: StepState::Pending,
            registry: StepState::Pending,
            behaviors: StepState::Pending,
            runtime: StepState::Pending,
        }
    }

    /// How far `step` has got.
    pub fn step_state(&self, step: InitStep) -> (st: StepState)
        ensures
            st == self.state(step),
    {
        match step {
            InitStep::Config => self.config,
            InitStep::Registry => self.registry,
            InitStep::Behaviors => self.behaviors,
            InitStep::Runtime => self.runtime,
        }
    }

    /// What to do about `step`: run it when it has not started (or when it
    /// failed part-way and is retried), skip it when it has finished, and
    /// report it poisoned when it failed part-way and is one-shot.
    pub fn step_action(&self, step: InitStep) -> (a: StepAction)
        ensures
            a == spec_step_action(step, self.state(step)),
    {
        match self.step_state(step) {
            StepState::Pending => StepAction::Run,
            StepState::Done => StepAction::Skip,
            StepState::Started => match step {
                InitStep::Runtime => StepAction::Run,
                _ => StepAction::Poisoned,
            },
        }
    }

    fn set(&mut self, step: InitStep, st: StepState)
        ensures
            final(self).state(step) == st,
            forall|s: InitStep| s != step ==> #[trigger] final(self).state(s) == old(self).state(s),
    {
        match step {
            InitStep::Config => self.config = st,
            InitStep::Registry => self.registry = st,
            InitStep::Behaviors => self.behaviors = st,
            InitStep::Runtime => self.runtime = st,
        }
    }

    /// Records that `step` is about to run; it counts as finished only once
    /// `finish` is called.
    pub fn start(&mut self, step: InitStep)
        ensures
            final(self).state(step) == StepState::Started,
            forall|s: InitStep| s != step ==> #[trigger] final(self).state(s) == old(self).state(s),
    {
        self.set(step, StepState::Started);
    }

    /// Records that `step` has run to completion.
    pub fn finish(&mut self, step: InitStep)
        ensures
            final(self).state(step) == StepState::Done,
            forall|s: InitStep| s != step ==> #[trigger] final(self).state(s) == old(self).state(s),
    {
        self.set(step, StepState::Done);
    }
}

/// The configuration of the test server.
pub struct TestServerConfig {
    /// Game version the server speaks.
    pub mc_version: String,
    /// Port the server would listen on.
    pub server_port: u16,
    /// World seed (empty: none given).
    pub seed: String,
    /// Player limit.
    pub max_players: u32,
    /// View distance, in chunks.
    pub view_distance: u8,
    /// Simulation distance, in chunks.
    pub simulation_distance: u8,
    /// Whether players are authenticated online.
    pub online_mode: bool,
    /// Whether the connection is encrypted.
    pub encryption: bool,
    /// Message of the day.
    pub motd: String,
    /// Whether a favicon is sent.
    pub use_favicon: bool,
    /// Favicon path.
    pub favicon: String,
    /// Whether secure chat is enforced.
    pub enforce_secure_chat: bool,
    /// Whether packet compression is configured.
    pub compression: bool,
    /// Whether server links are configured.
    pub server_links: bool,
    /// Where worlds are stored.
    pub world_storage: WorldStorage,
    /// The world generator.
    pub world_generator: WorldGenerator,
}

/// Where a world's chunks are kept.
pub enum WorldStorage {
    /// On disk, under this directory.
    Disk { path: String },
    /// In memory only: nothing is read from or written to disk.
    RamOnly,
}

/// The world generator a server uses.
#[derive(Clone, Copy, Debug, PartialEq, Eq, Structural)]
pub enum WorldGenerator {
    /// Every chunk is generated empty.
    Empty,
}

/// The configuration installed by the `Config` step: version 1.21.11, port
/// 25565, 20 players, view and simulation distance 10, offline, unencrypted,
/// no favicon, no secure chat, empty seed and message, no compression, no
/// server links, disk storage under `world`, the empty world generator.
pub fn test_server_config() -> (c: TestServerConfig)
    ensures
        c.mc_version@ == "1.21.11"@,
        c.server_port == 25565,
        c.seed@ == Seq::<char>::empty(),
        c.max_players == 20,
        c.view_distance == 10,
        c.simulation_distance == 10,
        !c.online_mode,
        !c.encryption,
        c.motd@ == Seq::<char>::empty(),
        !c.use_favicon,
        c.favicon@ == Seq::<char>::empty(),
        !c.enforce_secure_chat,
        !c.compression,
        !c.server_links,
        c.world_storage matches WorldStorage::Disk { path } && path@ == "world"@,
        c.world_generator == WorldGenerator::Empty,
{
    TestServerConfig {
        mc_version: "1.21.11".to_owned(),
        server_port: 25565,
        seed: String::new(),
        max_players: 20,
        view_distance: 10,
        simulation_distance: 10,
        online_mode: false,
        encryption: false,
        motd: String::new(),
        use_favicon: false,
        favicon: String::new(),
        enforce_secure_chat: false,
        compression: false,
        server_links: false,
        world_storage: WorldStorage::Disk { path: "world".to_owned() },
        world_generator: WorldGenerator::Empty,
    }
}

/// Game mode given to new players.
#[derive(Clone, Copy, Debug, PartialEq, Eq, Structural)]
pub enum GameMode {
    /// Survival mode.
    Survival,
    /// Creative mode.
    Creative,
    /// Adventure mode.
    Adventure,
    /// Spectator mode.
    Spectator,
}

/// World difficulty.
#[derive(Clone, Copy, Debug, PartialEq, Eq, Structural)]
pub enum Difficulty {
    /// No hostile mobs.
    Peaceful,
    /// Easy.
    Easy,
    /// Normal.
    Normal,
    /// Hard.
    Hard,
}

/// The settings every test world is created with.
pub struct TestWorldSettings {
    /// Where the world's chunks are kept.
    pub storage: WorldStorage,
    /// Namespace of the dimension type.
    pub dimension_namespace: String,
    /// Path of the dimension type.
    pub dimension_path: String,
    /// Namespace of the chunk generator (one that makes empty chunks).
    pub generator_namespace: String,
    /// Path of the chunk generator.
    pub generator_path: String,
    /// World seed.
    pub seed: u64,
    /// View distance, in chunks.
    pub view_distance: u8,
    /// Simulation distance, in chunks.
    pub simulation_distance: u8,
    /// Whether the world is a flat world.
    pub is_flat: bool,
    /// Sea level.
    pub sea_level: i32,
    /// Game mode of new players.
    pub default_gamemode: GameMode,
    /// Difficulty.
    pub difficulty: Difficulty,
}

/// The settings of a test world: in-memory storage, the overworld dimension,
/// the empty generator `steel:empty`, seed 0, view and simulation distance 10,
/// not flat, sea level 63, survival, normal difficulty.
pub fn test_world_settings() -> (w: TestWorldSettings)
    ensures
        w.storage is RamOnly,
        w.dimension_namespace@ == "minecraft"@,
        w.dimension_path@ == "overworld"@,
        w.generator_namespace@ == "steel"@,
        w.generator_path@ == "empty"@,
        w.seed == 0,
        w.view_distance == 10,
        w.simulation_distance == 10,
        !w.is_flat,
        w.sea_level == 63,
        w.default_gamemode == GameMode::Survival,
        w.difficulty == Difficulty::Normal,
{
    TestWorldSettings {
        storage: WorldStorage::RamOnly,
        dimension_namespace: "minecraft".to_owned(),
        dimension_path: "overworld".to_owned(),
        generator_namespace: "steel".to_owned(),
        generator_path: "empty".to_owned(),
        seed: 0,
        view_distance: 10,
        simulation_distance: 10,
        is_flat: false,
        sea_level: 63,
        default_gamemode: GameMode::Survival,
        difficulty: Difficulty::Normal,
    }
}

} // verus!
