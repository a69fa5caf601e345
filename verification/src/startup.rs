//! What the shell sets up when it starts, and in which order. Whether the
//! instance arbiter is part of it is decided once, from the target.

use vstd::prelude::*;

verus! {

/// The kind of platform that the shell is built for.
#[derive(Clone, Copy, Debug, PartialEq, Eq, Structural)]
pub enum Target {
    Desktop,
    /// A target on which the platform itself keeps a single instance.
    Mobile,
}

/// Whether this build arbitrates between instances.
#[derive(Clone, Copy, Debug, PartialEq, Eq, Structural)]
pub enum ArbitrationStrategy {
    /// The shell acquires the marker and registers the secondary-launch
    /// callback.
    Enforced,
    /// The arbiter is left out altogether.
    NotApplicable,
}

/// A capability module that the shell registers with the framework.
#[derive(Clone, Copy, Debug, PartialEq, Eq, Structural)]
pub enum Plugin {
    DeepLink,
    Shell,
    Notification,
    Dialog,
    Fs,
    ClipboardManager,
    Process,
    Updater,
    Os,
    Http,
    /// The instance arbiter: registering it acquires the marker and
    /// registers the secondary-launch callback.
    SingleInstance,
}

/// A step of the setup that runs once the framework is up.
#[derive(Clone, Copy, Debug, PartialEq, Eq, Structural)]
pub enum SetupStep {
    /// Register the logging module, at the informational level.
    EnableLogging,
    /// Log the startup line.
    AnnounceStart,
    /// Ask for the URLs that launched the process and log them.
    ReportDeepLinks,
}

/// The strategy for a target: arbitration is enforced on the desktop and
/// not applicable on mobile targets.
pub open spec fn strategy_of(target: Target) -> ArbitrationStrategy {
    match target {
        Target::Desktop => ArbitrationStrategy::Enforced,
        Target::Mobile => ArbitrationStrategy::NotApplicable,
    }
}

/// The modules that every build registers, in the order of registration.
pub open spec fn common_plugins() -> Seq<Plugin> {
    seq![
        Plugin::DeepLink,
        Plugin::Shell,
        Plugin::Notification,
        Plugin::Dialog,
        Plugin::Fs,
        Plugin::ClipboardManager,
        Plugin::Process,
        Plugin::Updater,
        Plugin::Os,
        Plugin::Http,
    ]
}

/// The modules that a build registers, in the order of registration: the
/// common ones, and after them the instance arbiter where arbitration is
/// enforced.
pub open spec fn plugins_of(strategy: ArbitrationStrategy) -> Seq<Plugin> {
    match strategy {
        ArbitrationStrategy::Enforced => common_plugins().push(Plugin::SingleInstance),
        ArbitrationStrategy::NotApplicable => common_plugins(),
    }
}

/// The setup steps of a build, in order: logging is enabled first in a
/// debug build, the startup line is logged in every build, and the deep
/// links are reported last on the desktop.
pub open spec fn setup_of(target: Target, debug: bool) -> Seq<SetupStep> {
    let logging = if debug {
        seq![SetupStep::EnableLogging]
    } else {
        Seq::empty()
    };
    let links = if target == Target::Desktop {
        seq![SetupStep::ReportDeepLinks]
    } else {
        Seq::empty()
    };
    logging + seq![SetupStep::AnnounceStart] + links
}

impl ArbitrationStrategy {
    /// Chooses the strategy for a target.
    pub fn for_target(target: Target) -> (strategy: ArbitrationStrategy)
        ensures
            strategy == strategy_of(target),
    {
        match target {
            Target::Desktop => ArbitrationStrategy::Enforced,
            Target::Mobile => ArbitrationStrategy::NotApplicable,
        }
    }
}

/// The modules to register for a target, in order. The instance arbiter is
/// among them exactly on the desktop.
pub fn plugins(target: Target) -> (plan: Vec<Plugin>)
    ensures
        plan@ == plugins_of(strategy_of(target)),
        plan@.contains(Plugin::SingleInstance) <==> target == Target::Desktop,
{
    let mut plan: Vec<Plugin> = Vec::new();
    plan.push(Plugin::DeepLink);
    plan.push(Plugin::Shell);
    plan.push(Plugin::Notification);
    plan.push(Plugin::Dialog);
    plan.push(Plugin::Fs);
    plan.push(Plugin::ClipboardManager);
    plan.push(Plugin::Process);
    plan.push(Plugin::Updater);
    plan.push(Plugin::Os);
    plan.push(Plugin::Http);
    proof {
        assert(plan@ =~= common_plugins());
    }
    match ArbitrationStrategy::for_target(target) {
        ArbitrationStrategy::Enforced => {
            plan.push(Plugin::SingleInstance);
        },
        ArbitrationStrategy::NotApplicable => {},
    }
    proof {
        lemma_arbiter_registered_iff_enforced(strategy_of(target));
    }
    plan
}

/// The setup steps for a target and a kind of build, in order.
pub fn setup_steps(target: Target, debug: bool) -> (steps: Vec<SetupStep>)
    ensures
        steps@ == setup_of(target, debug),
{
    let mut steps: Vec<SetupStep> = Vec::new();
    if debug {
        steps.push(SetupStep::EnableLogging);
    }
    steps.push(SetupStep::AnnounceStart);
    match target {
        Target::Desktop => {
            steps.push(SetupStep::ReportDeepLinks);
        },
        Target::Mobile => {},
    }
    proof {
        assert(steps@ =~= setup_of(target, debug));
    }
    steps
}

/// The instance arbiter is registered where arbitration is enforced, once
/// and as the last module, and nowhere else.
pub proof fn lemma_arbiter_registered_iff_enforced(strategy: ArbitrationStrategy)
    ensures
        plugins_of(strategy).contains(Plugin::SingleInstance) <==> strategy
            == ArbitrationStrategy::Enforced,
        strategy == ArbitrationStrategy::Enforced ==> plugins_of(strategy).last()
            == Plugin::SingleInstance && !plugins_of(strategy).drop_last().contains(
            Plugin::SingleInstance,
        ),
{
    let common = common_plugins();
    assert(!common.contains(Plugin::SingleInstance)) by {
        if common.contains(Plugin::SingleInstance) {
            let i = choose|i: int| 0 <= i < common.len() && common[i] == Plugin::SingleInstance;
            assert(0 <= i < 10);
        }
    }
    if strategy == ArbitrationStrategy::Enforced {
        let all = plugins_of(strategy);
        assert(all[10] == Plugin::SingleInstance);
        assert(all.drop_last() =~= common);
    }
}

/// On a mobile target the arbiter is absent: no module that acquires the
/// marker or registers the secondary-launch callback is registered, in any
/// kind of build.
pub proof fn lemma_no_arbiter_on_mobile()
    ensures
        strategy_of(Target::Mobile) == ArbitrationStrategy::NotApplicable,
        !plugins_of(strategy_of(Target::Mobile)).contains(Plugin::SingleInstance),
{
    lemma_arbiter_registered_iff_enforced(strategy_of(Target::Mobile));
}

} // verus!
