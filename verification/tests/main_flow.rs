use cloud_scraper::config::Config;
use cloud_scraper::main_flow::{main_step, CliCommand, MainAction, MainEvent};

#[derive(Default)]
struct Calls {
    log_initializer: bool,
    cli_getter: bool,
    config_constructor: bool,
    server_constructor: bool,
    engine_constructor: bool,
    engine_started: bool,
}

fn run(
    command: CliCommand,
    root_password_exists: bool,
    config: impl Fn() -> Result<(), String>,
    calls: &mut Calls,
) -> Result<(), String> {
    let mut event = MainEvent::Started;
    loop {
        event = match main_step(event) {
            MainAction::InitializeLogging => {
                calls.log_initializer = true;
                MainEvent::LoggingInitialized
            }
            MainAction::GetCli => {
                calls.cli_getter = true;
                MainEvent::CliRead(command)
            }
            MainAction::CreateRootPassword => MainEvent::RootPasswordCreated(Ok(())),
            MainAction::CheckRootPassword => MainEvent::RootPasswordChecked(root_password_exists),
            MainAction::ConstructAndCheckConfig => {
                calls.config_constructor = true;
                MainEvent::ConfigChecked(config())
            }
            MainAction::ConstructServer => {
                calls.server_constructor = true;
                MainEvent::ServerConstructed
            }
            MainAction::ConstructEngine => {
                calls.engine_constructor = true;
                MainEvent::EngineConstructed
            }
            MainAction::StartEngine => {
                calls.engine_started = true;
                MainEvent::EngineStopped
            }
            MainAction::Finish(result) => return result,
        }
    }
}

fn test_config() -> Result<(), String> {
    Config::with_all_properties(None, None, None, None).sanity_check()
}

#[test]
fn test_main_impl() {
    let mut calls = Calls::default();
    let _ = run(CliCommand::Serve, true, test_config, &mut calls);

    assert_eq!(calls.log_initializer, true);
    assert_eq!(calls.cli_getter, true);
    assert_eq!(calls.config_constructor, true);
    assert_eq!(calls.server_constructor, true);
    assert_eq!(calls.engine_constructor, true);
}

#[test]
fn test_main_impl_calls_log_initializer() {
    let mut calls = Calls::default();
    run(CliCommand::Serve, true, test_config, &mut calls).unwrap();

    assert_eq!(calls.log_initializer, true);
    assert_eq!(calls.cli_getter, true);
    assert_eq!(calls.config_constructor, true);
    assert_eq!(calls.server_constructor, true);
    assert_eq!(calls.engine_constructor, true);
}

#[test]
fn test_barfs_insane_config() {
    let mut calls = Calls::default();
    let result = run(CliCommand::Serve, true, || Err("Insane config".to_string()), &mut calls);

    assert!(result.is_err());
    assert!(!calls.server_constructor);
}

#[test]
fn serve_needs_a_root_password() {
    let mut calls = Calls::default();
    let result = run(CliCommand::Serve, false, test_config, &mut calls);
    assert_eq!(
        result,
        Err("Root password not set. Use root-password to create a password before running serve."
            .to_string())
    );
    assert!(!calls.config_constructor);
}

#[test]
fn root_password_command_does_not_serve() {
    let mut calls = Calls::default();
    assert_eq!(run(CliCommand::RootPassword, false, test_config, &mut calls), Ok(()));
    assert!(!calls.engine_started);
}
