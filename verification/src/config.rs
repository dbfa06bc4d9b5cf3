//! Command-line arguments, the application's modes and its configuration.
use vstd::prelude::*;
use vstd::string::*;
use crate::error::CoreError;
use crate::text::str_eq;

verus! {

/// What the application runs as.
#[derive(Debug, Clone, Copy, PartialEq, Eq, Structural)]
pub enum AppMode {
    /// Simulates pending transactions.
    Simulator,
    /// Indexes blocks.
    Indexer,
    /// Runs the database migrations.
    Migration,
}

impl AppMode {
    /// Parses a mode name: `migration` and `server-http` (the indexer) are known.
    pub fn from_str(s: &str) -> (r: Result<AppMode, CoreError>)
        ensures
            s@ == "migration"@ ==> r == Ok::<AppMode, CoreError>(AppMode::Migration),
            s@ != "migration"@ && s@ == "server-http"@ ==> r == Ok::<AppMode, CoreError>(
                AppMode::Indexer,
            ),
            s@ != "migration"@ && s@ != "server-http"@ ==> (r matches Err(
                CoreError::BadArgument(m),
            ) && m@ == s@),
    {
        if str_eq(s, "migration") {
            return Ok(AppMode::Migration);
        } else if str_eq(s, "server-http") {
            return Ok(AppMode::Indexer);
        }
        Err(CoreError::BadArgument(String::from_str(s)))
    }
}

impl Default for AppMode {
    /// The simulator.
    fn default() -> (r: Self)
        ensures
            r == AppMode::Simulator,
    {
        AppMode::Simulator
    }
}

/// The parsed command line: the mode and the path of the configuration file.
pub struct CmdArgs {
    pub mode: AppMode,
    pub config: String,
}

/// The entry command of the application.
pub struct Cmd {
    args: CmdArgs,
}

impl Cmd {
    pub closed spec fn spec_args(&self) -> &CmdArgs {
        &self.args
    }

    /// The command for the parsed arguments.
    pub fn new(args: CmdArgs) -> (r: Cmd)
        ensures
            r.spec_args().mode == args.mode,
            r.spec_args().config@ == args.config@,
    {
        Cmd { args }
    }

    /// The parsed arguments.
    pub fn args(&self) -> (r: &CmdArgs)
        ensures
            r == self.spec_args(),
    {
        &self.args
    }

    /// Whether the command serves HTTP: the indexer mode.
    pub fn is_mode_server_http(&self) -> (r: bool)
        ensures
            r == (self.spec_args().mode == AppMode::Indexer),
    {
        self.args.mode == AppMode::Indexer
    }

    /// Whether the command runs the migrations.
    pub fn is_mode_migration(&self) -> (r: bool)
        ensures
            r == (self.spec_args().mode == AppMode::Migration),
    {
        self.args.mode == AppMode::Migration
    }
}

/// How much is logged.
#[derive(Debug, Clone, Copy, PartialEq, Eq, Structural)]
pub enum LogLevel {
    Trace,
    Debug,
    Info,
    Warn,
    Error,
}

/// The application's configuration.
pub struct Config {
    /// The mode, taken from the command line.
    pub app_mode: AppMode,
    /// Serve the processed transactions over HTTP.
    pub enable_http_service: bool,
    /// Address the HTTP server binds to.
    pub http_bind_addr: String,
    pub db_pg_url: String,
    /// Address of the node to fetch data from.
    pub eth_ws_addr: String,
    /// Timeout of fetching a transaction, in milliseconds.
    pub eth_tx_fetch_rpc_timeout_ms: u64,
    /// The block to start getting transactions from.
    pub start_block_number: u64,
    pub log_level: LogLevel,
    /// Number of blocks fetched per request.
    pub block_retrieval_batch_size: usize,
    /// Lets the `test_mode_*` settings take effect.
    pub test_mode_enable: bool,
    /// Stop fetching after this many blocks (test mode).
    pub test_mode_max_block_fetch_count: usize,
    /// Erase the blocks table to start afresh (test mode).
    pub test_mode_erase_blocks_in_db: bool,
}

impl Config {
    /// Takes the mode from the command line; nothing else changes.
    pub fn init(&mut self, args: &CmdArgs)
        ensures
            final(self).app_mode == args.mode,
            final(self).enable_http_service == old(self).enable_http_service,
            final(self).http_bind_addr == old(self).http_bind_addr,
            final(self).db_pg_url == old(self).db_pg_url,
            final(self).eth_ws_addr == old(self).eth_ws_addr,
            final(self).eth_tx_fetch_rpc_timeout_ms == old(self).eth_tx_fetch_rpc_timeout_ms,
            final(self).start_block_number == old(self).start_block_number,
            final(self).log_level == old(self).log_level,
            final(self).block_retrieval_batch_size == old(self).block_retrieval_batch_size,
            final(self).test_mode_enable == old(self).test_mode_enable,
            final(self).test_mode_max_block_fetch_count == old(self).test_mode_max_block_fetch_count,
            final(self).test_mode_erase_blocks_in_db == old(self).test_mode_erase_blocks_in_db,
    {
        self.app_mode = args.mode;
    }
}

impl Default for Config {
    /// Simulator mode, HTTP on 0.0.0.0:8080, node at 127.0.0.1:5439, one second timeout,
    /// debug logging, test mode off with five blocks.
    fn default() -> (r: Config)
        ensures
            r.app_mode == AppMode::Simulator,
            r.enable_http_service,
            r.http_bind_addr@ == "0.0.0.0:8080"@,
            r.db_pg_url@ == ""@,
            r.eth_ws_addr@ == "127.0.0.1:5439"@,
            r.eth_tx_fetch_rpc_timeout_ms == 1000,
            r.start_block_number == 0,
            r.log_level == LogLevel::Debug,
            r.block_retrieval_batch_size == 0,
            !r.test_mode_enable,
            r.test_mode_max_block_fetch_count == 5,
            !r.test_mode_erase_blocks_in_db,
    {
        Config {
            app_mode: AppMode::Simulator,
            enable_http_service: true,
            http_bind_addr: String::from_str("0.0.0.0:8080"),
            db_pg_url: String::from_str(""),
            eth_ws_addr: String::from_str("127.0.0.1:5439"),
            eth_tx_fetch_rpc_timeout_ms: 1000,
            start_block_number: 0,
            log_level: LogLevel::Debug,
            block_retrieval_batch_size: 0,
            test_mode_enable: false,
            test_mode_max_block_fetch_count: 5,
            test_mode_erase_blocks_in_db: false,
        }
    }
}

/// The configuration the application starts with, from the outcome of loading the file:
/// a loaded configuration takes the mode of the command line; a failure is reported as
/// `ConfigLoadingFailed` with the failure's text.
pub fn config_for_args(loaded: Result<Config, CoreError>, args: &CmdArgs) -> (r: Result<
    Config,
    CoreError,
>)
    ensures
        loaded matches Ok(c) ==> (r matches Ok(d) && d.app_mode == args.mode
            && d.enable_http_service == c.enable_http_service && d.http_bind_addr
            == c.http_bind_addr && d.db_pg_url == c.db_pg_url && d.eth_ws_addr == c.eth_ws_addr
            && d.eth_tx_fetch_rpc_timeout_ms == c.eth_tx_fetch_rpc_timeout_ms
            && d.start_block_number == c.start_block_number && d.log_level == c.log_level
            && d.block_retrieval_batch_size == c.block_retrieval_batch_size && d.test_mode_enable
            == c.test_mode_enable && d.test_mode_max_block_fetch_count
            == c.test_mode_max_block_fetch_count && d.test_mode_erase_blocks_in_db
            == c.test_mode_erase_blocks_in_db),
        loaded matches Err(e) ==> (r matches Err(CoreError::ConfigLoadingFailed(m)) && m@
            == e.display_text()),
{
    match loaded {
        Ok(c) => {
            let mut cnf = c;
            cnf.init(args);
            Ok(cnf)
        },
        Err(e) => Err(CoreError::ConfigLoadingFailed(e.to_string())),
    }
}

} // verus!
