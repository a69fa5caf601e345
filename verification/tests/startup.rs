use arkadas_desktop::startup::{plugins, setup_steps, ArbitrationStrategy, Plugin, SetupStep, Target};

#[test]
fn desktop_enforces_arbitration() {
    assert_eq!(
        ArbitrationStrategy::for_target(Target::Desktop),
        ArbitrationStrategy::Enforced
    );
}

#[test]
fn mobile_has_no_arbitration() {
    assert_eq!(
        ArbitrationStrategy::for_target(Target::Mobile),
        ArbitrationStrategy::NotApplicable
    );
}

#[test]
fn desktop_registers_the_arbiter_last() {
    assert_eq!(
        plugins(Target::Desktop),
        vec![
            Plugin::DeepLink,
            Plugin::Shell,
            Plugin::Notification,
            Plugin::Dialog,
            Plugin::Fs,
            Plugin::ClipboardManager,
            Plugin::Process,
            Plugin::Updater,
            Plugin::Os,
            Plugin::Http,
            Plugin::SingleInstance,
        ]
    );
}

#[test]
fn mobile_registers_no_arbiter() {
    let plan = plugins(Target::Mobile);
    assert_eq!(
        plan,
        vec![
            Plugin::DeepLink,
            Plugin::Shell,
            Plugin::Notification,
            Plugin::Dialog,
            Plugin::Fs,
            Plugin::ClipboardManager,
            Plugin::Process,
            Plugin::Updater,
            Plugin::Os,
            Plugin::Http,
        ]
    );
    assert!(!plan.contains(&Plugin::SingleInstance));
}

#[test]
fn arbiter_is_registered_once_on_desktop() {
    let plan = plugins(Target::Desktop);
    assert_eq!(plan.iter().filter(|p| **p == Plugin::SingleInstance).count(), 1);
}

#[test]
fn setup_of_a_desktop_debug_build() {
    assert_eq!(
        setup_steps(Target::Desktop, true),
        vec![SetupStep::EnableLogging, SetupStep::AnnounceStart, SetupStep::ReportDeepLinks]
    );
}

#[test]
fn setup_of_a_desktop_release_build() {
    assert_eq!(
        setup_steps(Target::Desktop, false),
        vec![SetupStep::AnnounceStart, SetupStep::ReportDeepLinks]
    );
}

#[test]
fn setup_of_a_mobile_debug_build() {
    assert_eq!(
        setup_steps(Target::Mobile, true),
        vec![SetupStep::EnableLogging, SetupStep::AnnounceStart]
    );
}

#[test]
fn setup_of_a_mobile_release_build() {
    assert_eq!(setup_steps(Target::Mobile, false), vec![SetupStep::AnnounceStart]);
}
