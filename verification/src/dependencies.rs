use vstd::prelude::*;

use crate::text::{contains, text_contains};

verus! {

/// The program the headless browser is started with.
pub const HEADLESS_BROWSER: &'static str = "chromedriver";

/// The port the headless browser listens on.
pub const HEADLESS_BROWSER_PORT: u16 = 9515;

/// What the headless browser writes once it has started.
pub const SUCCESS_MESSAGE: &'static str = "ChromeDriver was started successfully.";

/// How many times the browser's output is read before giving up.
pub const STARTUP_RETRIES: usize = 5;

/// Why an outside program the site depends on could not be used.
#[derive(Clone, Debug, PartialEq, Eq)]
pub enum DependencyError {
    /// The program is not installed.
    Missing(String),
    /// The program could not be started, for this reason.
    InitializationFailed(String),
}

/// How a dependency is brought up.
#[derive(Clone, Debug, PartialEq, Eq)]
pub enum InitPlan {
    /// It was started before: nothing to do.
    AlreadyRunning,
    /// Start it.
    Start,
    /// It cannot be found.
    Missing(DependencyError),
}

/// A dependency started before is left alone; an available one is started; another is
/// missing.
pub fn initialize_plan(registered: bool, available: bool, name: &str) -> (r: InitPlan)
    ensures
        registered ==> r is AlreadyRunning,
        !registered && available ==> r is Start,
        !registered && !available ==> (r matches InitPlan::Missing(DependencyError::Missing(n)) && n@ == name@),
{
    if registered {
        InitPlan::AlreadyRunning
    } else if available {
        InitPlan::Start
    } else {
        InitPlan::Missing(DependencyError::Missing(name.to_owned()))
    }
}

/// Whether the headless browser must be started: not where its port is taken already.
pub fn browser_needs_start(port_in_use: bool) -> (r: bool)
    ensures
        r == !port_in_use,
{
    !port_in_use
}

/// What comes of one read of the browser's output.
#[derive(Clone, Debug, PartialEq, Eq)]
pub enum StartupStep {
    /// The success message has been written: the browser runs.
    Started,
    /// Sleep, then read again; this is the next attempt's number.
    ReadAgain(usize),
    /// Every read is used up.
    Failed(DependencyError),
}

/// The error of a browser that never wrote the success message.
pub open spec fn startup_failure_text(name: Seq<char>, output: Seq<char>) -> Seq<char> {
    "Failed to start "@ + name + ": "@ + output
}

/// One read of the browser's output, numbered `attempt` from 0: the piece read (where it is
/// text) is added to the output so far; once the output holds the success message the
/// browser runs; after the last read it has failed, with the whole output in the error.
pub fn startup_step(output: &mut String, piece: Option<&str>, attempt: usize, name: &str) -> (r: StartupStep)
    requires
        attempt < STARTUP_RETRIES,
    ensures
        final(output)@ == match piece {
            Some(p) => old(output)@ + p@,
            None => old(output)@,
        },
        text_contains(final(output)@, SUCCESS_MESSAGE@) ==> r is Started,
        !text_contains(final(output)@, SUCCESS_MESSAGE@) && attempt + 1 < STARTUP_RETRIES ==> r
            == StartupStep::ReadAgain((attempt + 1) as usize),
        !text_contains(final(output)@, SUCCESS_MESSAGE@) && attempt + 1 == STARTUP_RETRIES ==> (r matches StartupStep::Failed(
            DependencyError::InitializationFailed(m),
        ) && m@ == startup_failure_text(name@, final(output)@)),
{
    match piece {
        Some(p) => {
            output.append(p);
        },
        None => {},
    }
    if contains(output.as_str(), SUCCESS_MESSAGE) {
        StartupStep::Started
    } else if attempt + 1 < STARTUP_RETRIES {
        StartupStep::ReadAgain(attempt + 1)
    } else {
        let mut m = "Failed to start ".to_owned();
        m.append(name);
        m.append(": ");
        m.append(output.as_str());
        StartupStep::Failed(DependencyError::InitializationFailed(m))
    }
}

/// Initialization succeeds where no dependency failed, else it reports every failure.
pub fn initialization_result(errors: Vec<DependencyError>) -> (r: Result<(), Vec<DependencyError>>)
    ensures
        errors.len() == 0 ==> r is Ok,
        errors.len() != 0 ==> (r matches Err(e) && e@ == errors@),
{
    if errors.len() == 0 {
        Ok(())
    } else {
        Err(errors)
    }
}

} // verus!
