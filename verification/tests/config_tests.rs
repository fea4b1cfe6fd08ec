use mipgen::config::{DevConfig, RecordingMode, ShipConfig};

#[test]
fn ship_config_default_is_all_off() {
    let ship = ShipConfig::default();
    assert!(!ship.auto_disengage_angular_autopilot);
}

#[test]
fn dev_config_default_flags() {
    let dev = DevConfig::default();
    assert!(!dev.show_lighting_config);
    assert!(!dev.show_buffers);
    assert!(dev.show_fps);
    assert!(!dev.show_editor);
    assert!(!dev.show_tiktok_overlay);
    assert!(!dev.log_collisions);
    assert!(!dev.show_ai_target);
    assert!(!dev.show_linear_acc_target);
    assert!(!dev.show_angular_acc_target);
    assert!(!dev.draw_colliders);
    assert!(!dev.draw_collision_marks);
    assert!(!dev.show_debug_bullets);
    assert!(dev.orig_props);
    assert!(!dev.collider_outlines);
    assert!(!dev.show_debug);
}

#[test]
fn dev_config_default_records_landscape() {
    let dev = DevConfig::default();
    assert_eq!(dev.recording_mode, RecordingMode::Landscape);
}

#[test]
fn recording_modes_are_distinct() {
    assert_ne!(RecordingMode::Off, RecordingMode::Tiktok);
    assert_ne!(RecordingMode::Tiktok, RecordingMode::Landscape);
    assert_ne!(RecordingMode::Off, RecordingMode::Landscape);
}
