use vstd::prelude::*;
use vstd::string::*;
use crate::digits::{dec_rep, u64_to_dec};

verus! {

/// Everything the supervisor needs to build, launch and probe the backend.
/// Immutable after construction.
pub struct BackendConfig {
    pub port: u16,
    pub health_path: String,
    pub build_dir: String,
    pub build_command: Vec<String>,
    pub launch_command: Vec<String>,
}

impl BackendConfig {
    /// The URL the readiness probe polls: the configured health path on the
    /// local host at the configured port.
    pub open spec fn health_url_spec(self) -> Seq<char> {
        "http://localhost:"@ + dec_rep(self.port as nat) + self.health_path@
    }

    /// Holds of the configuration that `BackendManager::new` builds for a
    /// port: the stock build and launch commands, and the stock health path.
    pub open spec fn is_default_for(self, port: u16) -> bool {
        &&& self.port == port
        &&& self.health_path@ == "/api/health"@
        &&& self.build_dir@ == "../backend"@
        &&& self.build_command@.len() == 3
        &&& self.build_command@[0]@ == "npm"@
        &&& self.build_command@[1]@ == "run"@
        &&& self.build_command@[2]@ == "build"@
        &&& self.launch_command@.len() == 2
        &&& self.launch_command@[0]@ == "node"@
        &&& self.launch_command@[1]@ == "dist/server.js"@
    }

    /// The stock configuration: `npm run build` in the backend directory,
    /// then `node dist/server.js`, probed on `/api/health`.
    pub fn default_for_port(port: u16) -> (c: BackendConfig)
        ensures
            c.is_default_for(port),
    {
        let mut build_command: Vec<String> = Vec::new();
        build_command.push(String::from_str("npm"));
        build_command.push(String::from_str("run"));
        build_command.push(String::from_str("build"));
        let mut launch_command: Vec<String> = Vec::new();
        launch_command.push(String::from_str("node"));
        launch_command.push(String::from_str("dist/server.js"));
        BackendConfig {
            port,
            health_path: String::from_str("/api/health"),
            build_dir: String::from_str("../backend"),
            build_command,
            launch_command,
        }
    }

    pub fn health_url(&self) -> (r: String)
        ensures
            r@ == self.health_url_spec(),
    {
        let mut s = String::from_str("http://localhost:");
        let port_dec = u64_to_dec(self.port as u64);
        s.append(port_dec.as_str());
        s.append(self.health_path.as_str());
        proof {
            assert(s@ =~= self.health_url_spec());
        }
        s
    }

    /// The value the launch environment's `PORT` variable is set to: the
    /// configured port in decimal.
    pub fn port_env_value(&self) -> (r: String)
        ensures
            r@ == dec_rep(self.port as nat),
    {
        u64_to_dec(self.port as u64)
    }
}

} // verus!
