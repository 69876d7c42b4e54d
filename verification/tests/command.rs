use study_window::action::{Notice, WindowAction};
use study_window::command::{on_start, study_ended, window_state_change};
use study_window::sizing::{set_window_size, SizingStep};

#[test]
fn start_sizes_then_decorates_then_centres() {
    assert_eq!(
        on_start(),
        vec![
            WindowAction::Resize { width: 350, height: 140 },
            WindowAction::Shadow { enabled: true },
            WindowAction::Shadow { enabled: true },
            WindowAction::AlwaysOnTop { enabled: true },
            WindowAction::Center,
        ]
    );
}

#[test]
fn study_end_only_centres() {
    assert_eq!(study_ended(), vec![WindowAction::Center]);
}

#[test]
fn state_change_is_a_sizing_request() {
    for studying in [false, true] {
        for list in [false, true] {
            for programmes in [false, true] {
                assert_eq!(
                    window_state_change(studying, list, programmes),
                    set_window_size(studying, list, programmes)
                );
            }
        }
    }
}

#[test]
fn state_change_to_studying_asks_the_monitor() {
    assert_eq!(window_state_change(true, false, false), SizingStep::AskMonitor);
}

#[test]
fn state_change_with_programmes_widens_the_panel() {
    assert_eq!(
        window_state_change(false, false, true),
        SizingStep::Apply {
            actions: vec![
                WindowAction::Resize { width: 720, height: 500 },
                WindowAction::Shadow { enabled: true },
            ]
        }
    );
}

#[test]
fn no_monitor_notice_has_fixed_text() {
    assert_eq!(Notice::NoMonitor.message(""), "No monitor found");
    assert_eq!(Notice::NoMonitor.message("ignored"), "No monitor found");
}

#[test]
fn failed_query_notice_carries_the_detail() {
    assert_eq!(Notice::QueryFailed.message("Timeout"), "An error occurred: Timeout");
    assert_eq!(Notice::QueryFailed.message(""), "An error occurred: ");
}

#[test]
fn only_centring_and_notices_may_fail() {
    assert!(!WindowAction::Center.must_succeed());
    assert!(!WindowAction::Report { notice: Notice::NoMonitor }.must_succeed());
    assert!(!WindowAction::Report { notice: Notice::QueryFailed }.must_succeed());
    assert!(WindowAction::MoveToOrigin.must_succeed());
    assert!(WindowAction::Resize { width: 350, height: 140 }.must_succeed());
    assert!(WindowAction::Shadow { enabled: true }.must_succeed());
    assert!(WindowAction::Shadow { enabled: false }.must_succeed());
    assert!(WindowAction::AlwaysOnTop { enabled: true }.must_succeed());
}
