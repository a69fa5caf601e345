//! One machine session of the application: the instance that holds the
//! marker, the launches that were forwarded to it, and its window.

use crate::arbiter::{arbitrate, outcome_of, MarkerProbe, Outcome};
use crate::window::{
    carried_out, foreground, lemma_foreground_is_stable, lemma_refocus_reaches_foreground,
    refocus_plan, refocus_requests, PrimaryWindow, WindowReport, WindowRequest,
};
use std::collections::VecDeque;
use vstd::prelude::*;

verus! {

/// A secondary invocation of the application: its command line and its
/// working directory. The arbiter passes both on and reads neither.
#[derive(Debug, PartialEq, Eq)]
pub struct LaunchAttempt {
    pub args: Vec<String>,
    pub cwd: String,
}

/// A launch attempt as a mathematical value.
pub struct LaunchAttemptView {
    pub args: Seq<Seq<char>>,
    pub cwd: Seq<char>,
}

impl View for LaunchAttempt {
    type V = LaunchAttemptView;

    open spec fn view(&self) -> LaunchAttemptView {
        LaunchAttemptView { args: self.args.deep_view(), cwd: self.cwd@ }
    }
}

impl Clone for LaunchAttempt {
    fn clone(&self) -> (copy: LaunchAttempt)
        ensures
            copy@ == self@,
    {
        let args = self.args.clone();
        let cwd = self.cwd.clone();
        proof {
            assert(args@ =~= self.args@);
        }
        LaunchAttempt { args, cwd }
    }
}

/// The state of the marker mechanism at the moment a process asks.
#[derive(Clone, Copy, Debug, PartialEq, Eq, Structural)]
pub enum Channel {
    Healthy,
    Broken,
}

/// The views of a queue of launch attempts, oldest first.
pub open spec fn views_of(attempts: Seq<LaunchAttempt>) -> Seq<LaunchAttemptView> {
    Seq::new(attempts.len(), |i: int| attempts[i]@)
}

/// The running instance that holds the marker: the handle to its window,
/// absent until the window exists, and the launches forwarded to it that it
/// has not answered yet, oldest first.
pub struct ProcessInstance {
    pub window: Option<PrimaryWindow>,
    pub inbox: VecDeque<LaunchAttempt>,
}

/// A process instance as a mathematical value.
pub struct ProcessInstanceView {
    pub window: Option<PrimaryWindow>,
    pub inbox: Seq<LaunchAttemptView>,
}

/// A forwarded launch on its way through the primary: the attempt, and what
/// the primary asks of the platform in answer to it.
pub struct Delivery {
    pub attempt: LaunchAttempt,
    pub requests: Vec<WindowRequest>,
}

impl View for ProcessInstance {
    type V = ProcessInstanceView;

    open spec fn view(&self) -> ProcessInstanceView {
        ProcessInstanceView { window: self.window, inbox: views_of(self.inbox@) }
    }
}

impl ProcessInstanceView {
    /// An instance that has just started: no window yet, nothing forwarded.
    pub open spec fn fresh() -> ProcessInstanceView {
        ProcessInstanceView { window: None, inbox: Seq::empty() }
    }

    /// The instance after a launch was forwarded to it.
    pub open spec fn notified(self, attempt: LaunchAttemptView) -> ProcessInstanceView {
        ProcessInstanceView { window: self.window, inbox: self.inbox.push(attempt) }
    }

    /// The instance after it answered the oldest forwarded launch.
    pub open spec fn dispatched(self) -> ProcessInstanceView {
        if self.inbox.len() == 0 {
            self
        } else {
            ProcessInstanceView {
                window: self.window,
                inbox: self.inbox.subrange(1, self.inbox.len() as int),
            }
        }
    }

    /// The instance after the platform reported on window requests.
    pub open spec fn settled(self, reports: Seq<WindowReport>) -> ProcessInstanceView {
        ProcessInstanceView {
            window: match self.window {
                None => None,
                Some(w) => Some(w.after_all(reports)),
            },
            inbox: self.inbox,
        }
    }

    /// The launches that the instance answers, in the order in which it
    /// answers them, when it dispatches until nothing is left.
    pub open spec fn answered(self) -> Seq<LaunchAttemptView>
        decreases self.inbox.len(),
    {
        if self.inbox.len() == 0 {
            Seq::empty()
        } else {
            seq![self.inbox[0]] + self.dispatched().answered()
        }
    }
}

impl ProcessInstance {
    /// An instance that has just started.
    pub fn new() -> (instance: ProcessInstance)
        ensures
            instance@ == ProcessInstanceView::fresh(),
    {
        let instance = ProcessInstance { window: None, inbox: VecDeque::new() };
        proof {
            assert(views_of(instance.inbox@) =~= Seq::empty());
        }
        instance
    }

    /// Records the window as it is now: created, changed by the user, or
    /// gone.
    pub fn set_window(&mut self, window: Option<PrimaryWindow>)
        ensures
            final(self)@ == (ProcessInstanceView { window, inbox: old(self)@.inbox }),
    {
        self.window = window;
    }

    /// Queues a launch that another process forwarded.
    pub fn notify(&mut self, attempt: LaunchAttempt)
        ensures
            final(self)@ == old(self)@.notified(attempt@),
    {
        self.inbox.push_back(attempt);
        proof {
            assert(views_of(self.inbox@) =~= views_of(old(self).inbox@).push(attempt@));
        }
    }

    /// The number of forwarded launches not answered yet.
    pub fn pending(&self) -> (n: usize)
        ensures
            n == self@.inbox.len(),
    {
        self.inbox.len()
    }

    /// The callback of the primary for a secondary launch: locates the
    /// window and says what to ask of the platform. It changes nothing and
    /// does not wait for the platform.
    pub fn on_secondary_launch(&self, attempt: &LaunchAttempt) -> (requests: Vec<WindowRequest>)
        ensures
            requests@ == refocus_requests(self@.window),
    {
        refocus_plan(self.window)
    }

    /// Takes the oldest forwarded launch off the queue and answers it. With
    /// nothing queued, nothing changes.
    pub fn dispatch_next(&mut self) -> (delivery: Option<Delivery>)
        ensures
            final(self)@ == old(self)@.dispatched(),
            old(self)@.inbox.len() == 0 <==> delivery is None,
            delivery matches Some(d) ==> d.attempt@ == old(self)@.inbox[0] && d.requests@
                == refocus_requests(old(self)@.window),
    {
        match self.inbox.pop_front() {
            None => None,
            Some(attempt) => {
                proof {
                    assert(views_of(self.inbox@) =~= views_of(old(self).inbox@).subrange(
                        1,
                        old(self).inbox@.len() as int,
                    ));
                }
                let requests = self.on_secondary_launch(&attempt);
                Some(Delivery { attempt, requests })
            },
        }
    }

    /// Takes the platform's reports on window requests into account. A
    /// request that was not carried out leaves the window as it was.
    pub fn settle(&mut self, reports: &Vec<WindowReport>)
        ensures
            final(self)@ == old(self)@.settled(reports@),
    {
        match self.window {
            None => {},
            Some(w) => {
                self.window = Some(w.apply_all(reports));
            },
        }
    }
}

/// Answering a secondary launch brings the window of the primary to the
/// foreground when the platform carries out what it is asked: a minimized
/// window ends up focused and not minimized. The queue is not touched.
pub proof fn lemma_answer_brings_window_forward(instance: ProcessInstanceView)
    requires
        instance.window is Some,
    ensures
        instance.settled(carried_out(refocus_requests(instance.window)))
            == (ProcessInstanceView { window: Some(foreground()), inbox: instance.inbox }),
{
    lemma_refocus_reaches_foreground(instance.window->0);
}

/// Answering a secondary launch while the window is focused and not
/// minimized changes nothing that can be observed, whatever the platform
/// reports.
pub proof fn lemma_answer_in_foreground_is_noop(
    instance: ProcessInstanceView,
    reports: Seq<WindowReport>,
)
    requires
        instance.window == Some(foreground()),
    ensures
        instance.settled(reports) == instance,
{
    lemma_foreground_is_stable(reports);
}

/// One machine session for one application identity. The marker is held
/// exactly while there is a primary, so no two instances can hold it.
pub struct Session {
    pub primary: Option<ProcessInstance>,
}

/// A session as a mathematical value.
pub struct SessionView {
    pub primary: Option<ProcessInstanceView>,
}

impl View for Session {
    type V = SessionView;

    open spec fn view(&self) -> SessionView {
        SessionView {
            primary: match self.primary {
                None => None,
                Some(p) => Some(p@),
            },
        }
    }
}

impl SessionView {
    /// The session in which no instance runs and the marker is free.
    pub open spec fn idle() -> SessionView {
        SessionView { primary: None }
    }

    /// What the platform answers a process that asks for the marker.
    pub open spec fn probe(self, channel: Channel) -> MarkerProbe {
        match channel {
            Channel::Broken => MarkerProbe::Broken,
            Channel::Healthy => match self.primary {
                None => MarkerProbe::Acquired,
                Some(_) => MarkerProbe::HeldByOther,
            },
        }
    }

    /// The role that a process launched now is given.
    pub open spec fn outcome(self, channel: Channel) -> Outcome {
        outcome_of(self.probe(channel))
    }

    /// The session after a launch: a primary starts afresh, a secondary
    /// leaves its launch with the primary, and a failed acquisition leaves
    /// no trace.
    pub open spec fn launched(self, attempt: LaunchAttemptView, channel: Channel) -> SessionView {
        match self.outcome(channel) {
            Outcome::Primary => SessionView { primary: Some(ProcessInstanceView::fresh()) },
            Outcome::Secondary => SessionView { primary: Some(self.primary->0.notified(attempt)) },
            Outcome::AcquisitionError => self,
        }
    }

    /// The forwarded launches that wait for the primary, oldest first.
    pub open spec fn inbox(self) -> Seq<LaunchAttemptView> {
        match self.primary {
            None => Seq::empty(),
            Some(p) => p.inbox,
        }
    }

    /// The visible window of the session, if there is one.
    pub open spec fn window(self) -> Option<PrimaryWindow> {
        match self.primary {
            None => None,
            Some(p) => p.window,
        }
    }
}

impl Session {
    /// A session in which no instance runs.
    pub fn new() -> (session: Session)
        ensures
            session@ == SessionView::idle(),
    {
        Session { primary: None }
    }

    /// Answers a request for the marker, as the platform would.
    pub fn probe(&self, channel: Channel) -> (probe: MarkerProbe)
        ensures
            probe == self@.probe(channel),
    {
        match channel {
            Channel::Broken => MarkerProbe::Broken,
            Channel::Healthy => match &self.primary {
                None => MarkerProbe::Acquired,
                Some(_) => MarkerProbe::HeldByOther,
            },
        }
    }

    /// Launches a process: it asks for the marker and becomes the primary
    /// if the marker is free; if another instance holds it, the launch is
    /// forwarded to that instance; if the mechanism is broken, the process
    /// fails and the session stays as it was.
    pub fn try_acquire_or_notify(&mut self, attempt: LaunchAttempt, channel: Channel) -> (outcome:
        Outcome)
        ensures
            outcome == old(self)@.outcome(channel),
            final(self)@ == old(self)@.launched(attempt@, channel),
    {
        let outcome = arbitrate(self.probe(channel));
        match outcome {
            Outcome::Primary => {
                self.primary = Some(ProcessInstance::new());
            },
            Outcome::Secondary => {
                let mut holder = self.primary.take().unwrap();
                holder.notify(attempt);
                self.primary = Some(holder);
            },
            Outcome::AcquisitionError => {},
        }
        outcome
    }

    /// The primary exits, normally or not: the marker is free again, and
    /// what was still queued for the primary is lost with it.
    pub fn primary_exited(&mut self)
        ensures
            final(self)@ == SessionView::idle(),
    {
        self.primary = None;
    }
}

} // verus!
