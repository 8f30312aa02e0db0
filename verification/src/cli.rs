//! The command line, as plain data.

use vstd::prelude::*;

verus! {

/// Which generator families a run covers.
#[derive(Clone, Copy, Debug, PartialEq, Eq, Structural)]
pub enum Mode {
    Server,
    Client,
    Both,
}

/// The name of a mode in configuration files and on the command line.
pub open spec fn mode_name(mode: Mode) -> Seq<char> {
    match mode {
        Mode::Server => "server"@,
        Mode::Client => "client"@,
        Mode::Both => "both"@,
    }
}

impl Mode {
    /// The name of the mode.
    pub fn as_str(&self) -> (s: &'static str)
        ensures
            s@ == mode_name(*self),
    {
        match self {
            Mode::Server => "server",
            Mode::Client => "client",
            Mode::Both => "both",
        }
    }

    /// Whether the mode covers the server generators.
    pub open spec fn covers_server(self) -> bool {
        self == Mode::Server || self == Mode::Both
    }

    /// Whether the mode covers the client generators.
    pub open spec fn covers_client(self) -> bool {
        self == Mode::Client || self == Mode::Both
    }

    /// Whether the mode covers the server generators.
    pub fn includes_server(&self) -> (r: bool)
        ensures
            r == self.covers_server(),
    {
        match self {
            Mode::Server => true,
            Mode::Client => false,
            Mode::Both => true,
        }
    }

    /// Whether the mode covers the client generators.
    pub fn includes_client(&self) -> (r: bool)
        ensures
            r == self.covers_client(),
    {
        match self {
            Mode::Server => false,
            Mode::Client => true,
            Mode::Both => true,
        }
    }
}

/// A key of the configuration.
#[derive(Clone, Copy, Debug, PartialEq, Eq, Structural)]
pub enum ConfigKey {
    Spec,
    Mode,
    Lint,
    Generate,
    Compile,
    ServerGenerators,
    ClientGenerators,
    GeneratorImage,
    RedoclyImage,
}

/// The name of a key in the configuration file.
pub open spec fn key_name(key: ConfigKey) -> Seq<char> {
    match key {
        ConfigKey::Spec => "spec"@,
        ConfigKey::Mode => "mode"@,
        ConfigKey::Lint => "lint"@,
        ConfigKey::Generate => "generate"@,
        ConfigKey::Compile => "compile"@,
        ConfigKey::ServerGenerators => "server_generators"@,
        ConfigKey::ClientGenerators => "client_generators"@,
        ConfigKey::GeneratorImage => "generator_image"@,
        ConfigKey::RedoclyImage => "redocly_image"@,
    }
}

impl ConfigKey {
    /// The name of the key in the configuration file.
    pub fn as_str(&self) -> (s: &'static str)
        ensures
            s@ == key_name(*self),
    {
        match self {
            ConfigKey::Spec => "spec",
            ConfigKey::Mode => "mode",
            ConfigKey::Lint => "lint",
            ConfigKey::Generate => "generate",
            ConfigKey::Compile => "compile",
            ConfigKey::ServerGenerators => "server_generators",
            ConfigKey::ClientGenerators => "client_generators",
            ConfigKey::GeneratorImage => "generator_image",
            ConfigKey::RedoclyImage => "redocly_image",
        }
    }
}

/// What `config` is asked to do.
#[derive(Debug)]
pub enum ConfigCommand {
    Get { key: ConfigKey },
    SetValue { key: ConfigKey, value: String },
    Edit,
    Print,
    Ignore,
    Unignore,
}

/// The subcommands.
#[derive(Debug)]
pub enum Commands {
    Init {
        spec: Option<String>,
        mode: Option<Mode>,
        server_generators: Option<Vec<String>>,
        client_generators: Option<Vec<String>>,
        ignore_config: bool,
    },
    Validate {
        spec: Option<String>,
        mode: Option<Mode>,
        server_generators: Option<Vec<String>>,
        client_generators: Option<Vec<String>>,
        skip_lint: bool,
        skip_generate: bool,
        skip_compile: bool,
    },
    Config { command: Option<ConfigCommand> },
    Clean,
}

/// The parsed command line.
#[derive(Debug)]
pub struct Cli {
    pub verbose: bool,
    pub quiet: bool,
    pub command: Commands,
}

impl Cli {
    /// `--verbose` and `--quiet` exclude each other.
    pub open spec fn wf(&self) -> bool {
        !(self.verbose && self.quiet)
    }

    /// Whether the two flags can stand together.
    pub fn is_consistent(&self) -> (r: bool)
        ensures
            r == self.wf(),
    {
        !(self.verbose && self.quiet)
    }
}

} // verus!
