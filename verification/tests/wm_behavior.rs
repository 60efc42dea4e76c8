use hippowm::drag::{DragKind, DragPolicy};
use hippowm::errors::{exit_code, WmError};
use hippowm::geom::Geometry;
use hippowm::wm::{Directive, FrameAlloc, MotionSample, WmCore};

fn test_policy() -> DragPolicy {
    DragPolicy { move_button: 1, move_modifiers: 8, resize_button: 3, resize_modifiers: 8 }
}

fn managed_core() -> WmCore {
    // One managed window: child 1 inside frame 100.
    let mut core = WmCore::new(test_policy(), 10, 10);
    let target = Geometry { x: 0, y: 0, width: 640, height: 480 };
    let _ = core.on_map_request(1, Some(FrameAlloc { frame: 100, target }));
    core
}

#[test]
fn map_request_frames_reparents_and_records() {
    let mut core = WmCore::new(test_policy(), 1, 1);
    assert!(core.map_request_needs_frame(1));
    let target = Geometry { x: 5, y: 6, width: 300, height: 200 };
    let directives = core.on_map_request(1, Some(FrameAlloc { frame: 100, target }));
    assert_eq!(
        directives,
        vec![
            Directive::Reparent { child: 1, parent: 100 },
            Directive::Configure { window: 100, geometry: target },
            Directive::MapWindow { window: 100 },
            Directive::MapWindow { window: 1 },
        ]
    );
    assert_eq!(core.lookup_by_child(1), Some(100));
    assert_eq!(core.lookup_by_frame(100), Some(1));
    assert_eq!(core.client_count(), 1);
}

#[test]
fn map_request_on_managed_window_just_maps() {
    let mut core = managed_core();
    assert!(!core.map_request_needs_frame(1));
    let directives = core.on_map_request(1, None);
    assert_eq!(directives, vec![Directive::MapWindow { window: 1 }]);
    assert_eq!(core.client_count(), 1);
}

#[test]
fn map_request_without_alloc_is_dropped() {
    let mut core = WmCore::new(test_policy(), 1, 1);
    let directives = core.on_map_request(7, None);
    assert!(directives.is_empty());
    assert_eq!(core.client_count(), 0);
}

#[test]
fn map_request_with_colliding_frame_is_dropped() {
    let mut core = managed_core();
    let target = Geometry { x: 0, y: 0, width: 1, height: 1 };
    let directives = core.on_map_request(2, Some(FrameAlloc { frame: 100, target }));
    assert!(directives.is_empty());
    assert_eq!(core.client_count(), 1);
    assert_eq!(core.lookup_by_child(2), None);
}

#[test]
fn mapping_stays_bijective_over_many_requests() {
    let mut core = WmCore::new(test_policy(), 1, 1);
    let target = Geometry { x: 0, y: 0, width: 10, height: 10 };
    for w in 0..20u64 {
        let _ = core.on_map_request(w, Some(FrameAlloc { frame: 1000 + w, target }));
    }
    // A repeated child and a repeated frame are both refused.
    let _ = core.on_map_request(3, Some(FrameAlloc { frame: 2000, target }));
    let _ = core.on_map_request(21, Some(FrameAlloc { frame: 1003, target }));
    assert_eq!(core.client_count(), 20);
    for w in 0..20u64 {
        assert_eq!(core.lookup_by_child(w), Some(1000 + w));
        assert_eq!(core.lookup_by_frame(1000 + w), Some(w));
    }
    assert_eq!(core.lookup_by_child(21), None);
}

#[test]
fn window_lifecycle_scenario() {
    // Map request creates {W1: F1}; destroy notify empties the table.
    let mut core = WmCore::new(test_policy(), 1, 1);
    let target = Geometry { x: 0, y: 0, width: 640, height: 480 };
    let _ = core.on_map_request(1, Some(FrameAlloc { frame: 100, target }));
    assert_eq!(core.lookup_by_child(1), Some(100));
    let directives = core.on_destroy_notify(1);
    assert_eq!(directives, vec![Directive::NotifyDestroyed { window: 1 }]);
    assert_eq!(core.lookup_by_child(1), None);
    assert_eq!(core.lookup_by_frame(100), None);
    assert_eq!(core.client_count(), 0);
}

#[test]
fn destroyed_frame_also_clears_entry() {
    let mut core = managed_core();
    let _ = core.on_destroy_notify(100);
    assert_eq!(core.client_count(), 0);
    assert_eq!(core.lookup_by_child(1), None);
}

#[test]
fn move_drag_scenario() {
    // Button press on F1 with the move chord at (100, 100) while F1 sits at
    // (10, 10, 200, 150); motion to (130, 115) configures F1 to
    // (40, 25, 200, 150); release clears the drag.
    let mut core = managed_core();
    let start = Geometry { x: 10, y: 10, width: 200, height: 150 };
    core.on_button_press(100, 1, 8, 100, 100, Some(start));
    let drag = core.current_drag().expect("drag should have started");
    assert_eq!(drag.frame, 100);
    assert_eq!(drag.kind, DragKind::Move);
    let samples = vec![MotionSample { x_root: 130, y_root: 115 }];
    let directives = core.on_motion_burst(100, &samples);
    assert_eq!(
        directives,
        vec![Directive::Configure {
            window: 100,
            geometry: Geometry { x: 40, y: 25, width: 200, height: 150 },
        }]
    );
    core.on_button_release();
    assert!(core.current_drag().is_none());
    // Release is idempotent.
    core.on_button_release();
    assert!(core.current_drag().is_none());
}

#[test]
fn motion_burst_compresses_to_last_sample() {
    let mut core = managed_core();
    let start = Geometry { x: 10, y: 10, width: 200, height: 150 };
    core.on_button_press(100, 1, 8, 100, 100, Some(start));
    let samples = vec![
        MotionSample { x_root: 101, y_root: 101 },
        MotionSample { x_root: 150, y_root: 90 },
        MotionSample { x_root: 130, y_root: 115 },
    ];
    let directives = core.on_motion_burst(100, &samples);
    // One configure, derived from the last sample alone.
    assert_eq!(directives.len(), 1);
    assert_eq!(
        directives[0],
        Directive::Configure {
            window: 100,
            geometry: Geometry { x: 40, y: 25, width: 200, height: 150 },
        }
    );
}

#[test]
fn resize_drag_clamps_to_minimum() {
    let mut core = managed_core();
    let start = Geometry { x: 10, y: 10, width: 200, height: 150 };
    core.on_button_press(100, 3, 8, 500, 500, Some(start));
    let drag = core.current_drag().expect("resize drag should have started");
    assert_eq!(drag.kind, DragKind::Resize);
    // A delta that would make both sizes deeply negative.
    let samples = vec![MotionSample { x_root: -5000, y_root: -5000 }];
    let directives = core.on_motion_burst(100, &samples);
    assert_eq!(
        directives,
        vec![Directive::Configure {
            window: 100,
            geometry: Geometry { x: 10, y: 10, width: 10, height: 10 },
        }]
    );
}

#[test]
fn resize_drag_grows_by_delta() {
    let mut core = managed_core();
    let start = Geometry { x: 10, y: 10, width: 200, height: 150 };
    core.on_button_press(100, 3, 8, 100, 100, Some(start));
    let samples = vec![MotionSample { x_root: 120, y_root: 130 }];
    let directives = core.on_motion_burst(100, &samples);
    assert_eq!(
        directives,
        vec![Directive::Configure {
            window: 100,
            geometry: Geometry { x: 10, y: 10, width: 220, height: 180 },
        }]
    );
}

#[test]
fn destroy_mid_drag_releases_implicitly() {
    let mut core = managed_core();
    let start = Geometry { x: 10, y: 10, width: 200, height: 150 };
    core.on_button_press(100, 1, 8, 100, 100, Some(start));
    assert!(core.current_drag().is_some());
    // The dragged frame's child is destroyed: the drag must end.
    let _ = core.on_destroy_notify(1);
    assert!(core.current_drag().is_none());
    // Further motion is ignored.
    let samples = vec![MotionSample { x_root: 1, y_root: 1 }];
    assert!(core.on_motion_burst(100, &samples).is_empty());
}

#[test]
fn button_press_requires_table_membership() {
    let mut core = managed_core();
    let g = Geometry { x: 0, y: 0, width: 50, height: 50 };
    // Unknown window: the event is ignored, not asserted.
    core.on_button_press(999, 1, 8, 0, 0, Some(g));
    assert!(core.current_drag().is_none());
    // Known frame but no geometry (the window died before the query).
    core.on_button_press(100, 1, 8, 0, 0, None);
    assert!(core.current_drag().is_none());
    // Chord matching no configured combination.
    core.on_button_press(100, 2, 8, 0, 0, Some(g));
    assert!(core.current_drag().is_none());
    // Press on the child also targets its frame.
    core.on_button_press(1, 1, 8, 0, 0, Some(g));
    let drag = core.current_drag().expect("press on child starts a drag");
    assert_eq!(drag.frame, 100);
}

#[test]
fn motion_without_drag_is_ignored() {
    let mut core = managed_core();
    let samples = vec![MotionSample { x_root: 5, y_root: 5 }];
    assert!(core.on_motion_burst(100, &samples).is_empty());
}

#[test]
fn motion_for_other_window_is_ignored() {
    let mut core = managed_core();
    let target = Geometry { x: 0, y: 0, width: 10, height: 10 };
    let _ = core.on_map_request(2, Some(FrameAlloc { frame: 200, target }));
    let start = Geometry { x: 10, y: 10, width: 200, height: 150 };
    core.on_button_press(100, 1, 8, 100, 100, Some(start));
    let samples = vec![MotionSample { x_root: 130, y_root: 115 }];
    assert!(core.on_motion_burst(200, &samples).is_empty());
}

#[test]
fn empty_burst_issues_nothing() {
    let mut core = managed_core();
    let start = Geometry { x: 10, y: 10, width: 200, height: 150 };
    core.on_button_press(100, 1, 8, 100, 100, Some(start));
    let samples: Vec<MotionSample> = vec![];
    assert!(core.on_motion_burst(100, &samples).is_empty());
}

#[test]
fn keys_are_forwarded_uninterpreted() {
    let core = managed_core();
    assert_eq!(
        core.on_key_press(38, 12),
        vec![Directive::ForwardKey { keycode: 38, modifiers: 12 }]
    );
    assert_eq!(
        core.on_key_release(38, 12),
        vec![Directive::ForwardKey { keycode: 38, modifiers: 12 }]
    );
}

#[test]
fn configure_request_honored_as_is() {
    let core = WmCore::new(test_policy(), 1, 1);
    let g = Geometry { x: -3, y: 7, width: 11, height: 13 };
    assert_eq!(
        core.on_configure_request(55, g),
        vec![Directive::Configure { window: 55, geometry: g }]
    );
}

#[test]
fn informational_notifies_do_nothing() {
    let mut core = managed_core();
    assert_eq!(core.on_unmap_notify(1), vec![Directive::NotifyUnmapped { window: 1 }]);
    assert!(core.on_create_notify(1).is_empty());
    assert!(core.on_reparent_notify(1).is_empty());
    assert!(core.on_map_notify(1).is_empty());
    assert!(core.on_configure_notify(1).is_empty());
    assert_eq!(core.client_count(), 1);
    // Destroy of an unknown window removes nothing but is still forwarded.
    let directives = core.on_destroy_notify(424242);
    assert_eq!(directives, vec![Directive::NotifyDestroyed { window: 424242 }]);
    assert_eq!(core.client_count(), 1);
}

#[test]
fn exit_codes_are_distinct_and_nonzero() {
    let all = [
        WmError::NoDisplay,
        WmError::AnotherManagerPresent,
        WmError::InvalidWindow,
        WmError::DuplicateClient,
        WmError::StartupHookFailure,
    ];
    for (i, a) in all.iter().enumerate() {
        assert_ne!(exit_code(a), 0);
        for (j, b) in all.iter().enumerate() {
            if i != j {
                assert_ne!(exit_code(a), exit_code(b));
            }
        }
    }
}
