//! The commands of the store.

use vstd::prelude::*;

verus! {

/// A command of the store, with paths of type `P` and an address of type `U`.
#[derive(Debug)]
pub enum StoreCommand<P, U> {
    /// Dumps the default genesis configuration to stdout.
    DumpGenesis,
    /// Bootstraps the blockchain database with the genesis block.
    Bootstrap {
        /// Genesis configuration file. If not provided the default configuration is used.
        config: Option<P>,
        /// Directory in which to store the database and raw block data.
        data_directory: P,
        /// Directory to write the account data to.
        accounts_directory: P,
    },
    /// Starts the store component.
    Start {
        /// Url at which to serve the gRPC API.
        url: U,
        /// Directory in which to store the database and raw block data.
        data_directory: P,
        /// Enables the exporting of traces for OpenTelemetry.
        open_telemetry: bool,
    },
}

/// What a command asks for.
#[derive(Debug, PartialEq, Eq)]
pub enum StoreAction<P, U> {
    /// Print the default genesis configuration.
    DumpDefaultGenesis,
    /// Generate the genesis accounts, from a configuration file or else the default configuration,
    /// and write them.
    Bootstrap { genesis_input: Option<P>, data_directory: P, accounts_directory: P },
    /// Serve the store.
    Start { url: U, data_directory: P },
}

impl<P, U> StoreCommand<P, U> {
    /// What the command asks for. Whether traces are exported is not part of it: that has to be
    /// known before any command is executed.
    pub fn handle(self) -> (action: StoreAction<P, U>)
        ensures
            match self {
                StoreCommand::DumpGenesis => action == StoreAction::<P, U>::DumpDefaultGenesis,
                StoreCommand::Bootstrap { config, data_directory, accounts_directory } => action
                    == (StoreAction::<P, U>::Bootstrap {
                    genesis_input: config,
                    data_directory,
                    accounts_directory,
                }),
                StoreCommand::Start { url, data_directory, open_telemetry } => action == (
                StoreAction::<P, U>::Start { url, data_directory }),
            },
    {
        match self {
            StoreCommand::DumpGenesis => StoreAction::DumpDefaultGenesis,
            StoreCommand::Bootstrap { config, data_directory, accounts_directory } => {
                StoreAction::Bootstrap { genesis_input: config, data_directory, accounts_directory }
            },
            StoreCommand::Start { url, data_directory, open_telemetry: _ } => StoreAction::Start {
                url,
                data_directory,
            },
        }
    }

    /// Whether traces are to be exported. Only a store that is served exports them.
    pub fn is_open_telemetry_enabled(&self) -> (enabled: bool)
        ensures
            enabled == (*self matches StoreCommand::Start { open_telemetry, .. } && open_telemetry),
    {
        if let StoreCommand::Start { open_telemetry, .. } = self {
            *open_telemetry
        } else {
            false
        }
    }
}

} // verus!
