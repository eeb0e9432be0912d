//! Plugin registration and the one-time setup hook.
use vstd::prelude::*;

verus! {

/// How the application was built.
#[derive(Clone, Copy, Debug, PartialEq, Eq, Structural)]
pub enum BuildProfile {
    Debug,
    Release,
}

/// The operating system the application runs on, as far as setup cares.
#[derive(Clone, Copy, Debug, PartialEq, Eq, Structural)]
pub enum TargetOs {
    MacOs,
    Other,
}

/// Verbosity threshold of the logging capability.
#[derive(Clone, Copy, Debug, PartialEq, Eq, Structural)]
pub enum LogLevel {
    Error,
    Warn,
    Info,
    Debug,
    Trace,
}

/// A capability plugin of the shell.
#[derive(Clone, Copy, Debug, PartialEq, Eq, Structural)]
pub enum Plugin {
    Shell,
    Store,
    WindowState,
    Dialog,
    Http,
    Updater,
    Process,
    SingleInstance,
    DeepLink,
    Log,
}

/// The plugins registered before setup, in registration order.
pub open spec fn startup_plugins_spec() -> Seq<Plugin> {
    seq![
        Plugin::Shell,
        Plugin::Store,
        Plugin::WindowState,
        Plugin::Dialog,
        Plugin::Http,
        Plugin::Updater,
        Plugin::Process,
        Plugin::SingleInstance,
        Plugin::DeepLink,
    ]
}

/// The plugins present once setup has run: logging is added in debug builds only.
pub open spec fn plugins_after_setup_spec(profile: BuildProfile) -> Seq<Plugin> {
    match profile {
        BuildProfile::Debug => startup_plugins_spec().push(Plugin::Log),
        BuildProfile::Release => startup_plugins_spec(),
    }
}

/// The plugins registered before setup, in registration order.
pub fn startup_plugins() -> (r: Vec<Plugin>)
    ensures
        r@ == startup_plugins_spec(),
{
    let mut r: Vec<Plugin> = Vec::new();
    r.push(Plugin::Shell);
    r.push(Plugin::Store);
    r.push(Plugin::WindowState);
    r.push(Plugin::Dialog);
    r.push(Plugin::Http);
    r.push(Plugin::Updater);
    r.push(Plugin::Process);
    r.push(Plugin::SingleInstance);
    r.push(Plugin::DeepLink);
    assert(r@ =~= startup_plugins_spec());
    r
}

/// The plugins present once setup has run under `profile`.
pub fn plugins_after_setup(profile: BuildProfile) -> (r: Vec<Plugin>)
    ensures
        r@ == plugins_after_setup_spec(profile),
{
    let mut r = startup_plugins();
    if profile == BuildProfile::Debug {
        r.push(Plugin::Log);
    }
    r
}

/// One action of the setup hook.
#[derive(Clone, Copy, Debug, PartialEq, Eq, Structural)]
pub enum SetupStep {
    /// Attach the logging plugin at this verbosity.
    AttachLogging(LogLevel),
    /// Give the main window the translucent under-window background effect.
    ApplyUnderWindowEffect,
    /// Bring the main window to the front.
    FocusMainWindow,
}

/// A step that acts on the main window.
pub open spec fn is_window_step(step: SetupStep) -> bool {
    step is ApplyUnderWindowEffect || step is FocusMainWindow
}

/// A step whose failure aborts startup.
pub open spec fn is_fatal(step: SetupStep) -> bool {
    step is AttachLogging
}

/// The steps of the setup hook, in order: logging at informational level in a
/// debug build; then, only where a main window exists, the visual effect on
/// macOS and focus in a release build.
pub open spec fn setup_plan_spec(profile: BuildProfile, os: TargetOs, main_window_present: bool) -> Seq<
    SetupStep,
> {
    let logging = if profile == BuildProfile::Debug {
        seq![SetupStep::AttachLogging(LogLevel::Info)]
    } else {
        Seq::<SetupStep>::empty()
    };
    let effect = if main_window_present && os == TargetOs::MacOs {
        seq![SetupStep::ApplyUnderWindowEffect]
    } else {
        Seq::<SetupStep>::empty()
    };
    let focus = if main_window_present && profile == BuildProfile::Release {
        seq![SetupStep::FocusMainWindow]
    } else {
        Seq::<SetupStep>::empty()
    };
    logging + effect + focus
}

/// The steps of the setup hook for this build, platform and window.
pub fn plan_setup(profile: BuildProfile, os: TargetOs, main_window_present: bool) -> (r: Vec<
    SetupStep,
>)
    ensures
        r@ == setup_plan_spec(profile, os, main_window_present),
{
    let mut r: Vec<SetupStep> = Vec::new();
    if profile == BuildProfile::Debug {
        r.push(SetupStep::AttachLogging(LogLevel::Info));
    }
    if main_window_present && os == TargetOs::MacOs {
        r.push(SetupStep::ApplyUnderWindowEffect);
    }
    if main_window_present && profile == BuildProfile::Release {
        r.push(SetupStep::FocusMainWindow);
    }
    assert(r@ =~= setup_plan_spec(profile, os, main_window_present));
    r
}

/// Whether a failure of `step` aborts startup; cosmetic steps are best effort.
pub fn step_failure_is_fatal(step: SetupStep) -> (r: bool)
    ensures
        r == is_fatal(step),
{
    match step {
        SetupStep::AttachLogging(_) => true,
        _ => false,
    }
}

/// Why setup aborted startup.
#[derive(Clone, Copy, Debug, PartialEq, Eq, Structural)]
pub enum SetupError {
    /// The logging plugin could not be attached.
    LoggingAttach,
}

/// Setup succeeds when no fatal step failed; `ok[i]` tells whether `steps[i]` did.
pub open spec fn setup_succeeds(steps: Seq<SetupStep>, ok: Seq<bool>) -> bool {
    forall|i: int| 0 <= i < steps.len() && is_fatal(steps[i]) ==> ok[i]
}

/// The result of the setup hook once its steps have run, `outcomes[i]` telling
/// whether `steps[i]` succeeded.
pub fn finish_setup(steps: &Vec<SetupStep>, outcomes: &Vec<bool>) -> (r: Result<(), SetupError>)
    requires
        steps@.len() == outcomes@.len(),
    ensures
        r is Ok <==> setup_succeeds(steps@, outcomes@),
{
    let mut i: usize = 0;
    while i < steps.len()
        invariant
            steps@.len() == outcomes@.len(),
            i <= steps@.len(),
            forall|j: int| 0 <= j < i && is_fatal(steps@[j]) ==> outcomes@[j],
        decreases steps@.len() - i,
    {
        if step_failure_is_fatal(steps[i]) && !outcomes[i] {
            return Err(SetupError::LoggingAttach);
        }
        i = i + 1;
    }
    Ok(())
}

/// The life of the application: setup runs once, then the event loop runs
/// until the process ends; a failed setup aborts startup.
#[derive(Clone, Copy, Debug, PartialEq, Eq, Structural)]
pub enum AppPhase {
    Initializing,
    Running,
    Aborted,
}

/// The phase that follows setup with result `r`.
pub fn phase_after_setup(r: &Result<(), SetupError>) -> (p: AppPhase)
    ensures
        p == (if r is Ok {
            AppPhase::Running
        } else {
            AppPhase::Aborted
        }),
{
    match r {
        Ok(()) => AppPhase::Running,
        Err(_) => AppPhase::Aborted,
    }
}

/// Logging is attached, as the first step of setup, in a debug build, and is
/// never attached in a release build: the logging plugin is present after
/// setup exactly in a debug build.
pub proof fn law_logging_only_in_debug(profile: BuildProfile, os: TargetOs, main_window_present: bool)
    ensures
        plugins_after_setup_spec(profile).contains(Plugin::Log) <==> profile == BuildProfile::Debug,
        profile == BuildProfile::Debug ==> setup_plan_spec(profile, os, main_window_present)[0]
            == SetupStep::AttachLogging(LogLevel::Info),
        profile == BuildProfile::Release ==> forall|i: int|
            0 <= i < setup_plan_spec(profile, os, main_window_present).len()
                ==> !(#[trigger] setup_plan_spec(profile, os, main_window_present)[i] is AttachLogging),
{
    let plan = setup_plan_spec(profile, os, main_window_present);
    assert(!startup_plugins_spec().contains(Plugin::Log)) by {
        if startup_plugins_spec().contains(Plugin::Log) {
            let k = choose|k: int|
                0 <= k < startup_plugins_spec().len() && startup_plugins_spec()[k] == Plugin::Log;
            assert(0 <= k < 9);
        }
    }
    if profile == BuildProfile::Debug {
        let ps = plugins_after_setup_spec(profile);
        assert(ps[ps.len() - 1] == Plugin::Log);
    }
}

/// Without a main window setup touches no window, and it fails only where
/// attaching logging failed: in a release build it cannot fail at all.
pub proof fn law_missing_main_window_no_error(profile: BuildProfile, os: TargetOs, ok: Seq<bool>)
    requires
        ok.len() == setup_plan_spec(profile, os, false).len(),
    ensures
        forall|i: int|
            0 <= i < setup_plan_spec(profile, os, false).len() ==> !is_window_step(
                #[trigger] setup_plan_spec(profile, os, false)[i],
            ),
        profile == BuildProfile::Release ==> setup_succeeds(setup_plan_spec(profile, os, false), ok),
        profile == BuildProfile::Debug ==> (setup_succeeds(setup_plan_spec(profile, os, false), ok)
            <==> ok[0]),
{
    let plan = setup_plan_spec(profile, os, false);
    if profile == BuildProfile::Debug {
        assert(plan =~= seq![SetupStep::AttachLogging(LogLevel::Info)]);
    } else {
        assert(plan.len() == 0);
    }
}

/// Only a fatal step decides the result of setup: the outcome of a cosmetic
/// step, whichever it is, never changes it.
pub proof fn law_cosmetic_failures_ignored(steps: Seq<SetupStep>, ok: Seq<bool>, i: int, b: bool)
    requires
        ok.len() == steps.len(),
        0 <= i < steps.len(),
        !is_fatal(steps[i]),
    ensures
        setup_succeeds(steps, ok.update(i, b)) == setup_succeeds(steps, ok),
{
    let ok2 = ok.update(i, b);
    assert forall|j: int| 0 <= j < steps.len() && is_fatal(steps[j]) implies ok2[j] == ok[j] by {
        assert(j != i);
    }
}

} // verus!
