use cloud_scraper::dependencies::{
    browser_needs_start, initialization_result, initialize_plan, startup_step, DependencyError,
    InitPlan, StartupStep, SUCCESS_MESSAGE,
};

#[test]
fn test_initialize_when_it_exists() {
    assert_eq!(initialize_plan(false, true, "ls"), InitPlan::Start);
    assert_eq!(initialize_plan(true, true, "ls"), InitPlan::AlreadyRunning);
}

#[test]
fn test_missing_dependency() {
    assert_eq!(
        initialize_plan(false, false, "missing"),
        InitPlan::Missing(DependencyError::Missing("missing".to_string()))
    );
}

#[test]
fn started_when_the_message_appears() {
    let mut output = String::new();
    assert_eq!(startup_step(&mut output, Some("Starting ChromeDriver"), 0, "chromedriver"), StartupStep::ReadAgain(1));
    assert_eq!(
        startup_step(&mut output, Some(" ... ChromeDriver was started "), 1, "chromedriver"),
        StartupStep::ReadAgain(2)
    );
    assert_eq!(startup_step(&mut output, Some("successfully.\n"), 2, "chromedriver"), StartupStep::Started);
    assert!(output.contains(SUCCESS_MESSAGE));
}

#[test]
fn fails_after_the_last_read() {
    let mut output = String::new();
    for attempt in 0..4 {
        assert_eq!(startup_step(&mut output, Some("x"), attempt, "chromedriver"), StartupStep::ReadAgain(attempt + 1));
    }
    assert_eq!(
        startup_step(&mut output, None, 4, "chromedriver"),
        StartupStep::Failed(DependencyError::InitializationFailed("Failed to start chromedriver: xxxx".to_string()))
    );
}

#[test]
fn port_and_results() {
    assert!(browser_needs_start(false));
    assert!(!browser_needs_start(true));
    assert_eq!(initialization_result(vec![]), Ok(()));
    let e = DependencyError::Missing("m".to_string());
    assert_eq!(initialization_result(vec![e.clone()]), Err(vec![e]));
}
