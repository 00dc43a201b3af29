use ch58x_hal::pfic::{Pfic, PficExt};

#[test]
fn enable_then_is_enabled_round_trips() {
    let mut pfic = Pfic::new();
    assert!(!pfic.is_enabled(12));
    pfic.enable(12, None);
    assert!(pfic.is_enabled(12));
    assert!(!pfic.is_enabled(11));
    assert!(!pfic.is_enabled(13));
    pfic.disable(12);
    assert!(!pfic.is_enabled(12));
}

#[test]
fn enable_works_across_banks() {
    let mut pfic = Pfic::new();
    pfic.enable(33, None);
    assert!(pfic.is_enabled(33));
    // Same bit position in the other bank stays untouched.
    assert!(!pfic.is_enabled(1));
    pfic.disable(33);
    assert!(!pfic.is_enabled(33));
}

#[test]
fn pend_unpend_round_trips() {
    let mut pfic = Pfic::new();
    pfic.pend(3);
    assert!(pfic.is_pending(3));
    assert!(!pfic.is_pending(2));
    pfic.unpend(3);
    assert!(!pfic.is_pending(3));
    pfic.pend(40);
    assert!(pfic.is_pending(40));
    pfic.unpend(40);
    assert!(!pfic.is_pending(40));
}

#[test]
fn priority_set_then_get_returns_the_same_value_across_range() {
    let mut pfic = Pfic::new();
    for p in [0u8, 1, 15, 127, 128, 255] {
        pfic.enable(5, Some(p));
        assert_eq!(pfic.priorities[5], p);
    }
    // Another line's priority is untouched.
    assert_eq!(pfic.priorities[6], 0);
}

#[test]
fn enable_without_priority_leaves_the_table() {
    let mut pfic = Pfic::new();
    pfic.enable(7, Some(9));
    pfic.enable(7, None);
    assert_eq!(pfic.priorities[7], 9);
}

#[test]
fn enable_does_not_touch_pending_or_active() {
    let mut pfic = Pfic::new();
    pfic.pend(4);
    pfic.enable(4, Some(1));
    assert!(pfic.is_pending(4));
    assert!(!pfic.is_active(4));
}

#[test]
fn is_active_reads_the_hardware_active_plane() {
    let mut pfic = Pfic::new();
    assert!(!pfic.is_active(6));
    // The hardware sets the active bit while a handler runs.
    pfic.active[0] = 1u32 << 6;
    assert!(pfic.is_active(6));
    assert!(!pfic.is_active(5));
}
