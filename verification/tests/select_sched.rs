use rt::sched::timediff;
use rt::sched::Scheduler;
use rt::sched::Timespec;
use rt::term::SelMode;
use rt::term::SelType;
use rt::term::Term;
use rt::win::WinState;

#[test]
fn regular_selection_hit_testing() {
    // Select from (5,2) to (10,2): (7,2) is inside, (4,2) and (10,3) are
    // not.
    let mut t = Term::tnew(80, 24, 8, 7, 0);
    t.selstart(5, 2);
    t.selextend(10, 2, SelType::Regular);
    assert!(t.selected(7, 2));
    assert!(!t.selected(4, 2));
    assert!(!t.selected(10, 3));
    assert!(t.selected(5, 2));
    assert!(t.selected(10, 2));
    assert!(!t.selected(11, 2));
}

#[test]
fn regular_selection_spans_rows() {
    let mut t = Term::tnew(80, 24, 8, 7, 0);
    t.selstart(70, 2);
    t.selextend(5, 4, SelType::Regular);
    assert!(t.selected(70, 2));
    assert!(t.selected(79, 2));
    assert!(!t.selected(69, 2));
    assert!(t.selected(0, 3));
    assert!(t.selected(79, 3));
    assert!(t.selected(0, 4));
    assert!(t.selected(5, 4));
    assert!(!t.selected(6, 4));
}

#[test]
fn rectangular_selection_uses_column_bounds() {
    // The rectangular hit test bounds x by the selection's column range
    // nb.x..=ne.x, giving a geometrically sound rectangle.
    let mut t = Term::tnew(80, 24, 8, 7, 0);
    t.selstart(5, 1);
    t.selextend(8, 3, SelType::Rectangular);
    assert!(t.selected(6, 2));
    assert!(t.selected(5, 1));
    assert!(t.selected(8, 3));
    assert!(!t.selected(4, 2));
    assert!(!t.selected(9, 2));
    assert!(!t.selected(6, 0));
    assert!(!t.selected(6, 4));
}

#[test]
fn nothing_selected_after_clear_or_while_inactive() {
    let mut t = Term::tnew(80, 24, 8, 7, 0);
    t.selstart(5, 2);
    t.selextend(10, 2, SelType::Regular);
    assert!(t.selected(7, 2));
    t.selclear();
    for y in 0..24 {
        for x in 0..80 {
            assert!(!t.selected(x, y));
        }
    }
    // An anchored but not yet extended selection is empty: nothing hits.
    t.selstart(5, 2);
    assert_eq!(t.sel.mode, SelMode::Empty);
    assert!(!t.selected(5, 2));
}

#[test]
fn selection_clear_dirties_its_rows() {
    let mut t = Term::tnew(80, 24, 8, 7, 0);
    t.selstart(5, 2);
    t.selextend(10, 4, SelType::Regular);
    let _ = t.drawregion(0, 24);
    t.selclear();
    for y in 0..24usize {
        assert_eq!(t.dirty[y], (2..=4).contains(&y), "row {}", y);
    }
}

#[test]
fn selection_is_screen_local() {
    let mut t = Term::tnew(80, 24, 8, 7, 0);
    t.selstart(5, 2);
    t.selextend(10, 2, SelType::Regular);
    t.tswapscreen();
    // The selection was made on the other screen: hit-testing reports
    // nothing while this one is active, without clearing the range.
    assert!(!t.selected(7, 2));
    t.tswapscreen();
    assert!(t.selected(7, 2));
}

#[test]
fn overwriting_selected_cells_clears_selection() {
    let mut t = Term::tnew(80, 24, 8, 7, 0);
    t.selstart(5, 2);
    t.selextend(10, 2, SelType::Regular);
    t.tclearregion(7, 2, 7, 2);
    assert_eq!(t.sel.mode, SelMode::Idle);
    assert_eq!(t.sel.ob.x, -1);
    assert!(!t.selected(5, 2));
}

#[test]
fn clearing_outside_selection_keeps_it() {
    let mut t = Term::tnew(80, 24, 8, 7, 0);
    t.selstart(5, 2);
    t.selextend(10, 2, SelType::Regular);
    t.tclearregion(0, 10, 79, 12);
    assert!(t.selected(7, 2));
}

#[test]
fn timediff_counts_whole_milliseconds() {
    let a = Timespec { sec: 1, nsec: 250_000_000 };
    let b = Timespec { sec: 2, nsec: 500_000_000 };
    assert_eq!(timediff(b, a), 1250);
    assert_eq!(timediff(a, a), 0);
    let c = Timespec { sec: 2, nsec: 100_000_000 };
    assert_eq!(timediff(c, a), 850);
    // Sub-millisecond remainders are dropped.
    let d = Timespec { sec: 1, nsec: 250_999_999 };
    assert_eq!(timediff(d, a), 0);
}

#[test]
fn first_activity_waits_the_minimum_latency() {
    let mut s = Scheduler::new(8, 33, 800);
    let now = Timespec { sec: 5, nsec: 0 };
    let d = s.step(now, true, false);
    assert!(!d.draw);
    // A fresh batch has no elapsed time: (33 - 0) * 8 / 33 = 8.
    assert_eq!(d.timeout, 8);
    assert!(s.drawing);
    assert_eq!(s.trigger, now);
}

#[test]
fn waits_shrink_as_the_batch_ages() {
    let mut s = Scheduler::new(8, 33, 0);
    let start = Timespec { sec: 5, nsec: 0 };
    let d1 = s.step(start, true, false);
    assert_eq!(d1.timeout, 8);
    let later = Timespec { sec: 5, nsec: 20_000_000 };
    let d2 = s.step(later, true, false);
    assert!(!d2.draw);
    // 20 of the 33 ms are spent: (33 - 20) * 8 / 33 = 3.
    assert_eq!(d2.timeout, 3);
}

#[test]
fn exhausted_batch_draws() {
    let mut s = Scheduler::new(8, 33, 0);
    let start = Timespec { sec: 5, nsec: 0 };
    let _ = s.step(start, true, false);
    let late = Timespec { sec: 5, nsec: 40_000_000 };
    let d = s.step(late, true, false);
    assert!(d.draw);
    assert_eq!(d.timeout, -1);
    assert!(!s.drawing);
}

#[test]
fn idle_iteration_draws_and_blocks() {
    let mut s = Scheduler::new(8, 33, 0);
    let d = s.step(Timespec { sec: 1, nsec: 0 }, false, false);
    assert!(d.draw);
    assert_eq!(d.timeout, -1);
    assert!(!d.toggle_blink);
}

#[test]
fn blink_toggles_when_its_period_expires() {
    let mut s = Scheduler::new(8, 33, 800);
    // Slightly over one period since the last toggle: flip, keep phase.
    let now = Timespec { sec: 0, nsec: 900_000_000 };
    let d = s.step(now, false, true);
    assert!(d.draw);
    assert!(d.toggle_blink);
    assert!(!d.blink_start_visible);
    assert_eq!(d.timeout, 800);
    assert_eq!(s.lastblink, now);
    // Within the next period: no toggle, wake when it ends.
    let soon = Timespec { sec: 1, nsec: 200_000_000 };
    let d2 = s.step(soon, false, true);
    assert!(d2.draw);
    assert!(!d2.toggle_blink);
    assert_eq!(d2.timeout, 500);
}

#[test]
fn stale_blink_restarts_visible() {
    let mut s = Scheduler::new(8, 33, 800);
    // More than a whole period missed: the cycle restarts visible.
    let now = Timespec { sec: 10, nsec: 0 };
    let d = s.step(now, false, true);
    assert!(d.toggle_blink);
    assert!(d.blink_start_visible);
    let mut w = WinState::new(String::from("rt"));
    w.blink = true;
    w.toggle_blink(d.blink_start_visible);
    assert!(!w.blink);
}

#[test]
fn blink_ignored_without_blinking_cells() {
    let mut s = Scheduler::new(8, 33, 800);
    let d = s.step(Timespec { sec: 10, nsec: 0 }, false, false);
    assert!(d.draw);
    assert!(!d.toggle_blink);
    assert_eq!(d.timeout, -1);
}

#[test]
fn window_state_basics() {
    let mut w = WinState::new(String::from("rt"));
    assert!(!w.startdraw());
    w.visible = true;
    assert!(w.startdraw());
    assert_eq!(w.xsetcursor(7), 0);
    assert_eq!(w.cursor, 7);
    assert_eq!(w.xsetcursor(8), 1);
    assert_eq!(w.cursor, 7);
    assert_eq!(w.xsetcursor(-1), 1);
    assert_eq!(w.cursor, 7);
    w.title = String::from("elsewhere");
    w.resettitle();
    assert_eq!(w.title, "rt");
    let was = w.blink;
    w.toggle_blink(false);
    assert_eq!(w.blink, !was);
}

#[test]
fn selection_survives_reset_only_when_out_of_reach() {
    let mut t = Term::tnew(80, 24, 8, 7, 0);
    t.selstart(5, 2);
    t.selextend(10, 2, SelType::Regular);
    t.treset();
    // The full-screen clears of the reset reach the highlight: cleared.
    assert_eq!(t.sel.mode, SelMode::Idle);
    assert_eq!(t.sel.ob.x, -1);
}

#[test]
fn selextend_without_anchor_is_a_no_op() {
    let mut t = Term::tnew(80, 24, 8, 7, 0);
    t.selinit();
    t.selextend(10, 2, SelType::Regular);
    assert_eq!(t.sel.mode, SelMode::Idle);
    assert!(!t.selected(10, 2));
}
