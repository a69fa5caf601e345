//! The primary window as the arbiter sees it, and the requests that bring it
//! back to the foreground.

use vstd::prelude::*;

verus! {

/// The main UI surface: whether it has the input focus and whether it is
/// minimized. The two attributes are independent of each other.
#[derive(Clone, Copy, Debug, PartialEq, Eq, Structural)]
pub struct PrimaryWindow {
    pub focused: bool,
    pub minimized: bool,
}

/// Something the arbiter asks the platform to do with the primary window.
#[derive(Clone, Copy, Debug, PartialEq, Eq, Structural)]
pub enum WindowRequest {
    /// Give the window the input focus.
    Focus,
    /// Bring the window back from its minimized state.
    Restore,
}

/// A request together with what the platform made of it. Requests are best
/// effort: one that the platform did not carry out leaves the window as it
/// was.
#[derive(Clone, Copy, Debug, PartialEq, Eq, Structural)]
pub struct WindowReport {
    pub request: WindowRequest,
    pub done: bool,
}

/// The window that is focused and not minimized.
pub open spec fn foreground() -> PrimaryWindow {
    PrimaryWindow { focused: true, minimized: false }
}

/// The requests that a secondary launch causes, in the order in which they
/// are made: none without a window; otherwise focus, and after it restore
/// if the window is minimized.
pub open spec fn refocus_requests(window: Option<PrimaryWindow>) -> Seq<WindowRequest> {
    match window {
        None => Seq::empty(),
        Some(w) => if w.minimized {
            seq![WindowRequest::Focus, WindowRequest::Restore]
        } else {
            seq![WindowRequest::Focus]
        },
    }
}

/// The reports of a platform that carried out every request.
pub open spec fn carried_out(requests: Seq<WindowRequest>) -> Seq<WindowReport> {
    Seq::new(requests.len(), |i: int| WindowReport { request: requests[i], done: true })
}

impl PrimaryWindow {
    /// The window after one report.
    pub open spec fn after(self, report: WindowReport) -> PrimaryWindow {
        if !report.done {
            self
        } else {
            match report.request {
                WindowRequest::Focus => PrimaryWindow { focused: true, minimized: self.minimized },
                WindowRequest::Restore => PrimaryWindow { focused: self.focused, minimized: false },
            }
        }
    }

    /// The window after a sequence of reports, oldest first.
    pub open spec fn after_all(self, reports: Seq<WindowReport>) -> PrimaryWindow
        decreases reports.len(),
    {
        if reports.len() == 0 {
            self
        } else {
            self.after_all(reports.drop_last()).after(reports.last())
        }
    }

    /// Whether the window is focused and not minimized.
    pub fn in_foreground(self) -> (yes: bool)
        ensures
            yes == (self == foreground()),
    {
        self.focused && !self.minimized
    }

    /// Takes one report into account.
    pub fn apply(self, report: WindowReport) -> (window: PrimaryWindow)
        ensures
            window == self.after(report),
    {
        if !report.done {
            self
        } else {
            match report.request {
                WindowRequest::Focus => PrimaryWindow { focused: true, minimized: self.minimized },
                WindowRequest::Restore => PrimaryWindow { focused: self.focused, minimized: false },
            }
        }
    }

    /// Takes a sequence of reports into account, oldest first.
    pub fn apply_all(self, reports: &Vec<WindowReport>) -> (window: PrimaryWindow)
        ensures
            window == self.after_all(reports@),
    {
        let mut window = self;
        let mut i: usize = 0;
        while i < reports.len()
            invariant
                i <= reports.len(),
                window == self.after_all(reports@.take(i as int)),
            decreases reports.len() - i,
        {
            proof {
                assert(reports@.take(i + 1).drop_last() == reports@.take(i as int));
            }
            window = window.apply(reports[i]);
            i += 1;
        }
        proof {
            assert(reports@.take(reports.len() as int) == reports@);
        }
        window
    }
}

/// Decides what to ask of the platform when a secondary launch is noticed.
pub fn refocus_plan(window: Option<PrimaryWindow>) -> (requests: Vec<WindowRequest>)
    ensures
        requests@ == refocus_requests(window),
{
    let mut requests: Vec<WindowRequest> = Vec::new();
    match window {
        None => {},
        Some(w) => {
            requests.push(WindowRequest::Focus);
            if w.minimized {
                requests.push(WindowRequest::Restore);
            }
        },
    }
    requests
}

/// A secondary launch brings the window to the foreground, whatever state
/// it was in, when the platform carries out what it is asked. A minimized
/// window in particular ends up focused and not minimized.
pub proof fn lemma_refocus_reaches_foreground(window: PrimaryWindow)
    ensures
        window.after_all(carried_out(refocus_requests(Some(window)))) == foreground(),
{
    let reports = carried_out(refocus_requests(Some(window)));
    let focus = WindowReport { request: WindowRequest::Focus, done: true };
    let restore = WindowReport { request: WindowRequest::Restore, done: true };
    if window.minimized {
        let first = reports.drop_last();
        assert(first.last() == focus);
        assert(first.drop_last().len() == 0);
        assert(window.after_all(first.drop_last()) == window);
        assert(window.after_all(first) == window.after(focus));
        assert(reports.last() == restore);
        assert(window.after_all(reports) == window.after(focus).after(restore));
    } else {
        assert(reports.last() == focus);
        assert(reports.drop_last().len() == 0);
        assert(window.after_all(reports.drop_last()) == window);
        assert(window.after_all(reports) == window.after(focus));
    }
}

/// No report changes a window that is already focused and not minimized:
/// a secondary launch that finds the window in the foreground leaves it
/// exactly as it was, whether or not the platform carries the requests out.
pub proof fn lemma_foreground_is_stable(reports: Seq<WindowReport>)
    ensures
        foreground().after_all(reports) == foreground(),
    decreases reports.len(),
{
    if reports.len() > 0 {
        lemma_foreground_is_stable(reports.drop_last());
    }
}

/// Refocusing twice is the same as refocusing once, when the platform
/// carries out what it is asked.
pub proof fn lemma_refocus_is_idempotent(window: PrimaryWindow)
    ensures
        ({
            let once = window.after_all(carried_out(refocus_requests(Some(window))));
            once.after_all(carried_out(refocus_requests(Some(once)))) == once
        }),
{
    lemma_refocus_reaches_foreground(window);
    lemma_foreground_is_stable(carried_out(refocus_requests(Some(foreground()))));
}

} // verus!
