use skillpad::setup::{
    finish_setup, phase_after_setup, plan_setup, plugins_after_setup, startup_plugins,
    step_failure_is_fatal, AppPhase, BuildProfile, LogLevel, Plugin, SetupError, SetupStep,
    TargetOs,
};

#[test]
fn startup_registers_fixed_plugins_in_order() {
    assert_eq!(
        startup_plugins(),
        vec![
            Plugin::Shell,
            Plugin::Store,
            Plugin::WindowState,
            Plugin::Dialog,
            Plugin::Http,
            Plugin::Updater,
            Plugin::Process,
            Plugin::SingleInstance,
            Plugin::DeepLink,
        ]
    );
}

#[test]
fn logging_present_after_setup_only_in_debug() {
    assert!(plugins_after_setup(BuildProfile::Debug).contains(&Plugin::Log));
    assert!(!plugins_after_setup(BuildProfile::Release).contains(&Plugin::Log));
    assert_eq!(plugins_after_setup(BuildProfile::Debug).len(), 10);
}

#[test]
fn debug_plan_attaches_logging_first_and_skips_focus() {
    assert_eq!(
        plan_setup(BuildProfile::Debug, TargetOs::MacOs, true),
        vec![
            SetupStep::AttachLogging(LogLevel::Info),
            SetupStep::ApplyUnderWindowEffect
        ]
    );
    assert_eq!(
        plan_setup(BuildProfile::Debug, TargetOs::Other, true),
        vec![SetupStep::AttachLogging(LogLevel::Info)]
    );
}

#[test]
fn release_plan_focuses_and_never_logs() {
    assert_eq!(
        plan_setup(BuildProfile::Release, TargetOs::MacOs, true),
        vec![SetupStep::ApplyUnderWindowEffect, SetupStep::FocusMainWindow]
    );
    assert_eq!(
        plan_setup(BuildProfile::Release, TargetOs::Other, true),
        vec![SetupStep::FocusMainWindow]
    );
}

#[test]
fn missing_main_window_is_not_an_error() {
    let release = plan_setup(BuildProfile::Release, TargetOs::MacOs, false);
    assert!(release.is_empty());
    assert_eq!(finish_setup(&release, &vec![]), Ok(()));
    let debug = plan_setup(BuildProfile::Debug, TargetOs::Other, false);
    assert_eq!(debug, vec![SetupStep::AttachLogging(LogLevel::Info)]);
    assert_eq!(finish_setup(&debug, &vec![true]), Ok(()));
}

#[test]
fn logging_attach_failure_is_fatal() {
    let plan = plan_setup(BuildProfile::Debug, TargetOs::MacOs, true);
    assert_eq!(finish_setup(&plan, &vec![false, true]), Err(SetupError::LoggingAttach));
    assert_eq!(
        phase_after_setup(&finish_setup(&plan, &vec![false, true])),
        AppPhase::Aborted
    );
}

#[test]
fn cosmetic_failures_are_ignored() {
    let plan = plan_setup(BuildProfile::Release, TargetOs::MacOs, true);
    assert_eq!(finish_setup(&plan, &vec![false, false]), Ok(()));
    assert_eq!(phase_after_setup(&Ok(())), AppPhase::Running);
    assert!(step_failure_is_fatal(SetupStep::AttachLogging(LogLevel::Info)));
    assert!(!step_failure_is_fatal(SetupStep::FocusMainWindow));
    assert!(!step_failure_is_fatal(SetupStep::ApplyUnderWindowEffect));
}
