//! Debug visualization flags.

use physics2d::debug::{
    set_collision_debug, set_debug_panel_visible, set_debug_text, DebugFlags,
};

#[test]
fn flags_start_off_and_toggle_independently() {
    let mut flags = DebugFlags::new();
    assert!(!flags.is_debug_text_enabled());
    assert!(!flags.is_collision_enabled());
    assert!(!flags.is_debug_panel_visible());

    flags.set_debug_text(true);
    assert!(flags.is_debug_text_enabled());
    assert!(!flags.is_collision_enabled());

    flags.set_collision(true);
    flags.set_show_debug_panel(true);
    assert!(flags.is_collision_enabled());
    assert!(flags.is_debug_panel_visible());

    flags.set_debug_text(false);
    assert!(!flags.is_debug_text_enabled());
    assert!(flags.is_collision_enabled());
}

#[test]
fn free_setters_mirror_the_methods() {
    let mut flags = DebugFlags::new();
    set_debug_text(&mut flags, true);
    set_collision_debug(&mut flags, true);
    set_debug_panel_visible(&mut flags, true);
    assert!(flags.is_debug_text_enabled());
    assert!(flags.is_collision_enabled());
    assert!(flags.is_debug_panel_visible());
}
