use vstd::prelude::*;

verus! {

/// The commands of the program.
#[derive(Clone, Copy, Debug, PartialEq, Eq)]
pub enum CliCommand {
    /// Create the root password.
    RootPassword,
    /// Serve the site.
    Serve,
}

/// What the program learns at each step of its start.
#[derive(Debug, PartialEq, Eq)]
pub enum MainEvent {
    /// The program has started.
    Started,
    /// Logging is set up.
    LoggingInitialized,
    /// The command line was read.
    CliRead(CliCommand),
    /// The root password was created, or not.
    RootPasswordCreated(Result<(), String>),
    /// Whether a root password exists.
    RootPasswordChecked(bool),
    /// The configuration was built and checked.
    ConfigChecked(Result<(), String>),
    /// The web server was built.
    ServerConstructed,
    /// The engine was built.
    EngineConstructed,
    /// The engine has stopped.
    EngineStopped,
}

/// What the program does next.
#[derive(Debug, PartialEq, Eq)]
pub enum MainAction {
    InitializeLogging,
    GetCli,
    CreateRootPassword,
    CheckRootPassword,
    ConstructAndCheckConfig,
    ConstructServer,
    ConstructEngine,
    StartEngine,
    /// End with this result.
    Finish(Result<(), String>),
}

/// The error of `serve` without a root password.
pub open spec fn missing_root_password_text() -> Seq<char> {
    "Root password not set. Use root-password to create a password before running serve."@
}

/// One step of the program's start: set up logging, read the command line; for
/// `root-password` create the password and end with its outcome; for `serve` end with an
/// error where no root password exists, else build and check the configuration (ending with
/// its error, if any), build the server and the engine, run the engine and end well.
pub fn main_step(event: MainEvent) -> (r: MainAction)
    ensures
        event is Started ==> r is InitializeLogging,
        event is LoggingInitialized ==> r is GetCli,
        event == MainEvent::CliRead(CliCommand::RootPassword) ==> r is CreateRootPassword,
        event == MainEvent::CliRead(CliCommand::Serve) ==> r is CheckRootPassword,
        event matches MainEvent::RootPasswordCreated(res) ==> r == MainAction::Finish(res),
        event == MainEvent::RootPasswordChecked(true) ==> r is ConstructAndCheckConfig,
        event == MainEvent::RootPasswordChecked(false) ==> (r matches MainAction::Finish(Err(e))
            && e@ == missing_root_password_text()),
        event == MainEvent::ConfigChecked(Ok(())) ==> r is ConstructServer,
        event matches MainEvent::ConfigChecked(Err(e)) ==> r == MainAction::Finish(Err(e)),
        event is ServerConstructed ==> r is ConstructEngine,
        event is EngineConstructed ==> r is StartEngine,
        event is EngineStopped ==> r == MainAction::Finish(Ok(())),
{
    match event {
        MainEvent::Started => MainAction::InitializeLogging,
        MainEvent::LoggingInitialized => MainAction::GetCli,
        MainEvent::CliRead(CliCommand::RootPassword) => MainAction::CreateRootPassword,
        MainEvent::CliRead(CliCommand::Serve) => MainAction::CheckRootPassword,
        MainEvent::RootPasswordCreated(res) => MainAction::Finish(res),
        MainEvent::RootPasswordChecked(exists) => if exists {
            MainAction::ConstructAndCheckConfig
        } else {
            MainAction::Finish(
                Err(
                    "Root password not set. Use root-password to create a password before running serve.".to_owned(),
                ),
            )
        },
        MainEvent::ConfigChecked(Ok(())) => MainAction::ConstructServer,
        MainEvent::ConfigChecked(Err(e)) => MainAction::Finish(Err(e)),
        MainEvent::ServerConstructed => MainAction::ConstructEngine,
        MainEvent::EngineConstructed => MainAction::StartEngine,
        MainEvent::EngineStopped => MainAction::Finish(Ok(())),
    }
}

} // verus!
