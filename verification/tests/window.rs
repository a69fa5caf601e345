use arkadas_desktop::window::{refocus_plan, PrimaryWindow, WindowReport, WindowRequest};

fn carried_out(requests: &[WindowRequest]) -> Vec<WindowReport> {
    requests.iter().map(|r| WindowReport { request: *r, done: true }).collect()
}

fn refused(requests: &[WindowRequest]) -> Vec<WindowReport> {
    requests.iter().map(|r| WindowReport { request: *r, done: false }).collect()
}

#[test]
fn no_window_means_no_requests() {
    assert_eq!(refocus_plan(None), Vec::<WindowRequest>::new());
}

#[test]
fn visible_window_is_only_focused() {
    let window = PrimaryWindow { focused: false, minimized: false };
    assert_eq!(refocus_plan(Some(window)), vec![WindowRequest::Focus]);
}

#[test]
fn foreground_window_is_still_asked_to_focus() {
    let window = PrimaryWindow { focused: true, minimized: false };
    assert_eq!(refocus_plan(Some(window)), vec![WindowRequest::Focus]);
}

#[test]
fn minimized_window_is_focused_then_restored() {
    let window = PrimaryWindow { focused: false, minimized: true };
    assert_eq!(
        refocus_plan(Some(window)),
        vec![WindowRequest::Focus, WindowRequest::Restore]
    );
}

#[test]
fn minimized_window_comes_to_the_foreground() {
    let window = PrimaryWindow { focused: false, minimized: true };
    let plan = refocus_plan(Some(window));
    let after = window.apply_all(&carried_out(&plan));
    assert_eq!(after, PrimaryWindow { focused: true, minimized: false });
    assert!(after.in_foreground());
}

#[test]
fn every_window_comes_to_the_foreground() {
    for focused in [false, true] {
        for minimized in [false, true] {
            let window = PrimaryWindow { focused, minimized };
            let plan = refocus_plan(Some(window));
            let after = window.apply_all(&carried_out(&plan));
            assert_eq!(after, PrimaryWindow { focused: true, minimized: false });
        }
    }
}

#[test]
fn foreground_window_does_not_change() {
    let window = PrimaryWindow { focused: true, minimized: false };
    let plan = refocus_plan(Some(window));
    assert_eq!(window.apply_all(&carried_out(&plan)), window);
    assert_eq!(window.apply_all(&refused(&plan)), window);
    let both = vec![
        WindowReport { request: WindowRequest::Restore, done: true },
        WindowReport { request: WindowRequest::Focus, done: true },
        WindowReport { request: WindowRequest::Restore, done: false },
    ];
    assert_eq!(window.apply_all(&both), window);
}

#[test]
fn refocusing_twice_is_refocusing_once() {
    let window = PrimaryWindow { focused: false, minimized: true };
    let once = window.apply_all(&carried_out(&refocus_plan(Some(window))));
    let twice = once.apply_all(&carried_out(&refocus_plan(Some(once))));
    assert_eq!(twice, once);
}

#[test]
fn refused_requests_leave_the_window_alone() {
    let window = PrimaryWindow { focused: false, minimized: true };
    let plan = refocus_plan(Some(window));
    assert_eq!(window.apply_all(&refused(&plan)), window);
}

#[test]
fn focus_alone_does_not_restore() {
    let window = PrimaryWindow { focused: false, minimized: true };
    let reports = vec![
        WindowReport { request: WindowRequest::Focus, done: true },
        WindowReport { request: WindowRequest::Restore, done: false },
    ];
    assert_eq!(
        window.apply_all(&reports),
        PrimaryWindow { focused: true, minimized: true }
    );
}

#[test]
fn restore_alone_does_not_focus() {
    let window = PrimaryWindow { focused: false, minimized: true };
    let report = WindowReport { request: WindowRequest::Restore, done: true };
    assert_eq!(
        window.apply(report),
        PrimaryWindow { focused: false, minimized: false }
    );
}

#[test]
fn no_reports_change_nothing() {
    let window = PrimaryWindow { focused: false, minimized: true };
    assert_eq!(window.apply_all(&Vec::new()), window);
    assert!(!window.in_foreground());
}

#[test]
fn only_focused_and_not_minimized_is_foreground() {
    assert!(PrimaryWindow { focused: true, minimized: false }.in_foreground());
    assert!(!PrimaryWindow { focused: true, minimized: true }.in_foreground());
    assert!(!PrimaryWindow { focused: false, minimized: false }.in_foreground());
    assert!(!PrimaryWindow { focused: false, minimized: true }.in_foreground());
}
