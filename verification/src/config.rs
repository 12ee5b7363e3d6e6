//! What a process is asked to be: its mode, its address, the shared
//! passphrase and the three switches, from the command line, the environment
//! and the defaults of the build.

use vstd::prelude::*;

verus! {

/// How long the connecting peer waits before it dials again, in seconds.
pub const RECONNECT_DELAY_SECONDS: u64 = 5;

/// Defaults that the build may have embedded.
pub struct Defaults {
    pub mode: Option<String>,
    pub address: Option<String>,
    pub passphrase: Option<String>,
    pub no_envelope: bool,
}

/// The settings of a process.
#[derive(Debug, Clone, PartialEq, Eq)]
pub struct Config {
    /// `server` or `client`, if given.
    pub mode: Option<String>,
    /// The address to bind or to connect to, as `host:port`, if given.
    pub address: Option<String>,
    /// The shared secret.
    pub passphrase: String,
    /// This peer runs no commands for the counterparty.
    pub no_exec: bool,
    /// This peer reads and writes no files for the counterparty.
    pub no_transfer: bool,
    /// Commands travel under the passphrase alone.
    pub no_envelope: bool,
}

/// The part that a process plays.
#[derive(Debug, Clone, PartialEq, Eq)]
pub enum Role {
    /// Listen on the address.
    Server(String),
    /// Connect to the address.
    Client(String),
}

/// Why a process cannot start.
#[derive(Debug, Clone, Copy, PartialEq, Eq, Structural)]
pub enum ConfigError {
    /// The mode is missing, or neither `server` nor `client`.
    InvalidMode,
    /// The mode needs an address and none was given.
    MissingAddress,
}

/// The text of an optional string.
pub open spec fn text_of(value: Option<String>) -> Option<Seq<char>> {
    match value {
        Some(s) => Some(s@),
        None => None,
    }
}

/// Whether one of the arguments is the flag.
pub open spec fn has_flag(args: Seq<String>, flag: Seq<char>) -> bool {
    exists|i: int| 0 <= i < args.len() && (#[trigger] args[i])@ == flag
}

/// The passphrase where none is given.
pub open spec fn default_passphrase() -> Seq<char> {
    "default_passphrase"@
}

fn contains_flag(args: &Vec<String>, flag: &str) -> (found: bool)
    ensures
        found == has_flag(args@, flag@),
{
    let wanted = flag.to_owned();
    let mut i: usize = 0;
    while i < args.len()
        invariant
            i <= args.len(),
            wanted@ == flag@,
            forall|j: int| 0 <= j < i ==> (#[trigger] args@[j])@ != flag@,
        decreases args.len() - i,
    {
        if args[i] == wanted {
            return true;
        }
        i += 1;
    }
    false
}

fn argument(args: &Vec<String>, position: usize, fallback: Option<String>) -> (value: Option<String>)
    ensures
        text_of(value) == if position < args@.len() {
            Some(args@[position as int]@)
        } else {
            text_of(fallback)
        },
{
    if position < args.len() {
        Some(args[position].clone())
    } else {
        fallback
    }
}

/// Puts the settings together. The first argument after the program's name
/// is the mode and the second the address, each with the build's default
/// behind it. The passphrase is that of the environment, else the build's,
/// else `default_passphrase`. A switch is on if its flag stands anywhere among
/// the arguments; `no_envelope` is on by the build's default as well.
pub fn get_config(args: &Vec<String>, passphrase: Option<String>, defaults: Defaults) -> (config: Config)
    ensures
        text_of(config.mode) == if args@.len() > 1 {
            Some(args@[1]@)
        } else {
            text_of(defaults.mode)
        },
        text_of(config.address) == if args@.len() > 2 {
            Some(args@[2]@)
        } else {
            text_of(defaults.address)
        },
        config.passphrase@ == match (passphrase, defaults.passphrase) {
            (Some(p), _) => p@,
            (None, Some(p)) => p@,
            (None, None) => default_passphrase(),
        },
        config.no_exec == has_flag(args@, "--no-exec"@),
        config.no_transfer == has_flag(args@, "--no-transfer"@),
        config.no_envelope == (has_flag(args@, "--no-envelope"@) || defaults.no_envelope),
{
    let no_exec = contains_flag(args, "--no-exec");
    let no_transfer = contains_flag(args, "--no-transfer");
    let no_envelope = contains_flag(args, "--no-envelope") || defaults.no_envelope;
    let mode = argument(args, 1, defaults.mode);
    let address = argument(args, 2, defaults.address);
    let passphrase = match passphrase {
        Some(p) => p,
        None => match defaults.passphrase {
            Some(p) => p,
            None => "default_passphrase".to_owned(),
        },
    };
    Config { mode, address, passphrase, no_exec, no_transfer, no_envelope }
}

impl Config {
    /// The part to play: `server` and `client` each need an address; any
    /// other mode, and none, is refused.
    pub fn role(&self) -> (role: Result<Role, ConfigError>)
        ensures
            match role {
                Ok(Role::Server(address)) => text_of(self.mode) == Some("server"@) && text_of(self.address)
                    == Some(address@),
                Ok(Role::Client(address)) => text_of(self.mode) == Some("client"@) && text_of(self.address)
                    == Some(address@),
                Err(ConfigError::MissingAddress) => (text_of(self.mode) == Some("server"@) || text_of(self.mode)
                    == Some("client"@)) && self.address is None,
                Err(ConfigError::InvalidMode) => text_of(self.mode) != Some("server"@) && text_of(self.mode)
                    != Some("client"@),
            },
    {
        let mode = match &self.mode {
            Some(mode) => mode,
            None => {
                return Err(ConfigError::InvalidMode);
            },
        };
        let server = *mode == "server".to_owned();
        let client = *mode == "client".to_owned();
        if !server && !client {
            return Err(ConfigError::InvalidMode);
        }
        match &self.address {
            None => Err(ConfigError::MissingAddress),
            Some(address) => if server {
                Ok(Role::Server(address.clone()))
            } else {
                Ok(Role::Client(address.clone()))
            },
        }
    }
}

} // verus!
