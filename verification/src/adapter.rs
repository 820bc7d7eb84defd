//! The adapter through which the Flint test runner reaches SteelMC.
use vstd::prelude::*;

verus! {

/// What the adapter tells the test runner about the server under test.
#[derive(Debug)]
pub struct ServerInfo {
    /// Game version of the server.
    pub minecraft_version: String,
}

/// Adapter for running Flint tests against SteelMC: it names the server
/// version and creates test worlds.
pub struct SteelAdapter {
    info: ServerInfo,
}

impl SteelAdapter {
    /// Every adapter reports SteelMC 1.21.11.
    #[verifier::type_invariant]
    spec fn reports_supported_version(self) -> bool {
        self.info.minecraft_version@ == "1.21.11"@
    }

    /// The game version this adapter reports.
    pub closed spec fn version(&self) -> Seq<char> {
        self.info.minecraft_version@
    }

    /// A new adapter for SteelMC 1.21.11.
    pub fn new() -> (a: Self)
        ensures
            a.version() == "1.21.11"@,
    {
        SteelAdapter { info: ServerInfo { minecraft_version: "1.21.11".to_owned() } }
    }

    /// The server information handed to the test runner; whatever the
    /// adapter, it reports version 1.21.11.
    pub fn server_info(&self) -> (info: ServerInfo)
        ensures
            info.minecraft_version@ == self.version(),
            info.minecraft_version@ == "1.21.11"@,
    {
        proof {
            use_type_invariant(self);
        }
        ServerInfo { minecraft_version: self.info.minecraft_version.clone() }
    }
}

impl Default for SteelAdapter {
    fn default() -> (a: Self)
        ensures
            a.version() == "1.21.11"@,
    {
        Self::new()
    }
}

impl Clone for ServerInfo {
    fn clone(&self) -> (c: Self)
        ensures
            c.minecraft_version@ == self.minecraft_version@,
    {
        ServerInfo { minecraft_version: self.minecraft_version.clone() }
    }
}

impl Clone for SteelAdapter {
    fn clone(&self) -> (c: Self)
        ensures
            c.version() == self.version(),
    {
        proof {
            use_type_invariant(self);
        }
        SteelAdapter { info: self.info.clone() }
    }
}

} // verus!
