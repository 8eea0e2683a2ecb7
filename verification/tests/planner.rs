//! Tests for the frame planner and the geometry queries.

use tardy::{App, Blame, Cmd, Excuse, Frame, Monitor, Size, FRAMES, FRAME_POOL, MIN_SPAN};

fn app_with_window() -> App {
    let mut app = App::new(Cmd::from_source(None));
    app.create_window(1, None).unwrap();
    app
}

fn check_frame(f: &Frame, m: Monitor) {
    assert_eq!(f.monitor, m);
    assert!(f.size.width >= MIN_SPAN);
    assert!(f.size.height >= MIN_SPAN);
    assert!(f.position.x >= MIN_SPAN);
    assert!(f.position.y >= MIN_SPAN);
    assert!(f.position.x + f.size.width <= m.width);
    assert!(f.position.y + f.size.height <= m.height);
}

#[test]
fn constants_hold_their_documented_values() {
    assert_eq!(MIN_SPAN, 50);
    assert_eq!(FRAMES, 10);
    assert_eq!(FRAME_POOL, 100);
}

#[test]
fn planned_frames_stay_inside_the_monitor() {
    let m = Monitor { width: 800, height: 600 };
    for _ in 0..200 {
        let f = Frame::plan(m);
        check_frame(&f, m);
    }
}

#[test]
fn planning_works_on_the_smallest_legal_monitor() {
    let m = Monitor { width: 2 * MIN_SPAN + 1, height: 2 * MIN_SPAN + 1 };
    for _ in 0..50 {
        let f = Frame::plan(m);
        check_frame(&f, m);
        // Only one value in every sampled range.
        assert_eq!(f.size.width, MIN_SPAN);
        assert_eq!(f.size.height, MIN_SPAN);
        assert_eq!(f.position.x, MIN_SPAN);
        assert_eq!(f.position.y, MIN_SPAN);
    }
}

#[test]
fn try_plan_rejects_small_monitors() {
    let thin = Monitor { width: 2 * MIN_SPAN, height: 600 };
    assert_eq!(Frame::try_plan(thin), Err(Blame::Excuse(Excuse::SmallMonitor)));
    let flat = Monitor { width: 800, height: 99 };
    assert_eq!(Frame::try_plan(flat), Err(Blame::Excuse(Excuse::SmallMonitor)));
    let fine = Monitor { width: 800, height: 600 };
    let f = Frame::try_plan(fine).unwrap();
    check_frame(&f, fine);
}

#[test]
fn plan_many_returns_the_requested_count() {
    let app = app_with_window();
    let avail = vec![Monitor { width: 800, height: 600 }, Monitor { width: 1024, height: 768 }];
    let frames = app.frames(&avail, 5).unwrap();
    assert_eq!(frames.len(), 5);
    for f in &frames {
        assert!(avail.contains(&f.monitor));
        check_frame(f, f.monitor);
    }
}

#[test]
fn plan_many_needs_an_open_window() {
    let app = App::new(Cmd::from_source(None));
    let avail = vec![Monitor { width: 800, height: 600 }];
    assert_eq!(app.frames(&avail, 5), Err(Blame::Excuse(Excuse::NoMonitors)));
}

#[test]
fn plan_many_reports_an_empty_monitor_list() {
    let app = app_with_window();
    assert_eq!(app.frames(&Vec::new(), 3), Err(Blame::Excuse(Excuse::NoMonitors)));
}

#[test]
fn plan_many_reports_a_small_monitor_instead_of_clamping() {
    let app = app_with_window();
    let avail = vec![Monitor { width: 800, height: 600 }, Monitor { width: 90, height: 90 }];
    assert_eq!(app.frames(&avail, 4), Err(Blame::Excuse(Excuse::SmallMonitor)));
}

#[test]
fn single_frame_follows_the_same_rules() {
    let app = app_with_window();
    let avail = vec![Monitor { width: 640, height: 480 }];
    let f = app.frame(&avail).unwrap();
    check_frame(&f, avail[0]);
    assert_eq!(
        App::new(Cmd::from_source(None)).frame(&avail),
        Err(Blame::Excuse(Excuse::NoMonitors))
    );
}

#[test]
fn random_monitor_picks_from_the_list() {
    let app = app_with_window();
    let avail = vec![Monitor { width: 800, height: 600 }, Monitor { width: 1024, height: 768 }];
    for _ in 0..20 {
        let m = app.random_monitor(&avail).unwrap();
        assert!(avail.contains(&m));
    }
    assert_eq!(app.random_monitor(&Vec::new()), None);
}

#[test]
fn random_monitors_sample_with_replacement() {
    let app = app_with_window();
    let avail = vec![Monitor { width: 800, height: 600 }];
    let picks = app.random_monitors(&avail, 7).unwrap();
    assert_eq!(picks.len(), 7);
    for m in &picks {
        assert_eq!(*m, avail[0]);
    }
}

#[test]
fn monitor_queries_need_an_open_window() {
    let bare = App::new(Cmd::from_source(None));
    let avail = vec![Monitor { width: 800, height: 600 }];
    assert_eq!(bare.monitors(&avail), None);
    assert_eq!(bare.screen_sizes(&avail), None);
    assert_eq!(bare.random_monitor(&avail), None);
    assert_eq!(bare.random_monitors(&avail, 2), None);
    assert!(bare.lenses().is_none());

    let app = app_with_window();
    assert_eq!(app.monitors(&avail), Some(avail.clone()));
    assert_eq!(
        app.screen_sizes(&avail),
        Some(vec![Size { width: 800, height: 600 }])
    );
}
