use evm_indexer::config::{config_for_args, AppMode, Cmd, CmdArgs, Config, LogLevel};
use evm_indexer::error::CoreError;

#[test]
fn mode_names_parse() {
    assert_eq!(AppMode::from_str("migration"), Ok(AppMode::Migration));
    assert_eq!(AppMode::from_str("server-http"), Ok(AppMode::Indexer));
    assert_eq!(AppMode::from_str("simulator"), Err(CoreError::BadArgument("simulator".to_string())));
    assert_eq!(AppMode::from_str(""), Err(CoreError::BadArgument(String::new())));
    assert_eq!(AppMode::default(), AppMode::Simulator);
}

#[test]
fn command_modes() {
    let c = Cmd::new(CmdArgs { mode: AppMode::Indexer, config: "app.env".to_string() });
    assert!(c.is_mode_server_http());
    assert!(!c.is_mode_migration());
    assert_eq!(c.args().config, "app.env");
    let m = Cmd::new(CmdArgs { mode: AppMode::Migration, config: String::new() });
    assert!(m.is_mode_migration());
    assert!(!m.is_mode_server_http());
    let s = Cmd::new(CmdArgs { mode: AppMode::Simulator, config: String::new() });
    assert!(!s.is_mode_migration() && !s.is_mode_server_http());
}

#[test]
fn config_defaults() {
    let c = Config::default();
    assert_eq!(c.app_mode, AppMode::Simulator);
    assert!(c.enable_http_service);
    assert_eq!(c.http_bind_addr, "0.0.0.0:8080");
    assert_eq!(c.db_pg_url, "");
    assert_eq!(c.eth_ws_addr, "127.0.0.1:5439");
    assert_eq!(c.eth_tx_fetch_rpc_timeout_ms, 1000);
    assert_eq!(c.log_level, LogLevel::Debug);
    assert_eq!(c.test_mode_max_block_fetch_count, 5);
}

#[test]
fn config_takes_mode_from_arguments() {
    let args = CmdArgs { mode: AppMode::Migration, config: "x".to_string() };
    let mut c = Config::default();
    c.init(&args);
    assert_eq!(c.app_mode, AppMode::Migration);
    let r = config_for_args(Ok(Config::default()), &args).ok().unwrap();
    assert_eq!(r.app_mode, AppMode::Migration);
    assert_eq!(r.http_bind_addr, "0.0.0.0:8080");
}

#[test]
fn config_loading_failure_is_wrapped() {
    let args = CmdArgs { mode: AppMode::Simulator, config: "x".to_string() };
    let r = config_for_args(Err(CoreError::ConfigLoadingFailed("missing".to_string())), &args);
    assert_eq!(
        r.err(),
        Some(CoreError::ConfigLoadingFailed("config loading failed: missing".to_string()))
    );
}
