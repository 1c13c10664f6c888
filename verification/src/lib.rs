//! Verified core of the Unibox desktop runtime: the policies, decisions and
//! text formats behind the managed WSL runtime, the bundled native runtime
//! and the desktop shell. Process, file and network I/O stay with the
//! caller, which hands the results of probes and requests to these
//! functions and performs the actions they return.

use vstd::prelude::*;

pub mod config_yaml;
pub mod connector;
pub mod desktop;
pub mod http_client;
pub mod model;
pub mod native;
pub mod net;
pub mod output;
pub mod supervisor;
pub mod text;
pub mod wsl;

verus! {

/// The WSL distribution that hosts the managed runtime.
pub const DISTRO_NAME: &'static str = "UniboxRuntime";

/// The local Matrix homeserver's client API.
pub const MATRIX_URL: &'static str = "http://127.0.0.1:8008";

/// The systemd unit of the managed Synapse homeserver.
pub const SYNAPSE_SERVICE: &'static str = "unibox-synapse";

} // verus!
