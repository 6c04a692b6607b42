use shell_bootstrap::bootstrap::AppContext;
use shell_bootstrap::bootstrap::BootstrapError;
use shell_bootstrap::bootstrap::ShellState;
use shell_bootstrap::bootstrap::StartOutcome;
use shell_bootstrap::bootstrap::prepare;
use shell_bootstrap::bootstrap::resolve_start;
use shell_bootstrap::bootstrap::standard_plugins;
use shell_bootstrap::level::LevelFilter;
use shell_bootstrap::plugin::Plugin;

#[test]
fn successful_start_reaches_running() {
    let context = AppContext::new(String::from("com.example.app"));
    let plan = prepare(context);
    assert_eq!(plan.shell.plugin_count(), 2);
    let result = resolve_start(StartOutcome::Started);
    assert_eq!(result.unwrap(), ShellState::Running);
}

#[test]
fn plugins_registered_once_in_order() {
    let plan = prepare(AppContext::new(String::from("com.example.app")));
    let plugins = plan.shell.plugins();
    assert_eq!(
        plugins.as_slice(),
        &[
            Plugin::Store,
            Plugin::Log { min_level: LevelFilter::Info },
        ]
    );
    let stores = plugins.iter().filter(|p| **p == Plugin::Store).count();
    let logs = plugins
        .iter()
        .filter(|p| matches!(p, Plugin::Log { .. }))
        .count();
    assert_eq!(stores, 1);
    assert_eq!(logs, 1);
}

#[test]
fn standard_plugins_fixed_order() {
    let plugins = standard_plugins();
    assert_eq!(
        plugins,
        vec![
            Plugin::Store,
            Plugin::Log { min_level: LevelFilter::Info },
        ]
    );
}

#[test]
fn failed_start_gives_one_nonempty_diagnostic() {
    let outcome = StartOutcome::Failed {
        message: String::from("display init failed"),
    };
    let result = resolve_start(outcome);
    let mut failures: usize = 0;
    match result {
        Ok(_) => panic!("a failed start must not leave the shell running"),
        Err(BootstrapError::EventLoopFailed { diagnostic }) => {
            failures += 1;
            assert!(!diagnostic.is_empty());
            assert_eq!(
                diagnostic,
                "error while running the application shell: display init failed"
            );
        }
    }
    assert_eq!(failures, 1);
}

#[test]
fn failed_start_with_empty_message_still_diagnosed() {
    let result = resolve_start(StartOutcome::Failed {
        message: String::new(),
    });
    match result {
        Ok(_) => panic!("a failed start must not leave the shell running"),
        Err(e) => assert!(!e.diagnostic().is_empty()),
    }
}

#[test]
fn context_passes_through_unchanged() {
    let plan = prepare(AppContext::new(String::from("com.example.app")));
    assert_eq!(plan.context.identifier, "com.example.app");
}
