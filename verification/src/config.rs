//! Game-wide configuration bags: plain value structs with fixed defaults.

use vstd::prelude::*;

verus! {

/// Ship-control tuning flags.
#[derive(Copy, Clone, Debug)]
pub struct ShipConfig {
    pub auto_disengage_angular_autopilot: bool,
}

impl Default for ShipConfig {
    /// Every flag starts switched off.
    fn default() -> (r: Self)
        ensures
            !r.auto_disengage_angular_autopilot,
    {
        Self { auto_disengage_angular_autopilot: false }
    }
}

/// Which overlay aspect ratio a capture session records in.
#[derive(Copy, Clone, Debug, PartialEq, Eq, Structural)]
pub enum RecordingMode {
    Off,
    Tiktok,
    Landscape,
}

/// Developer-facing debug toggles.
#[derive(Copy, Clone, Debug)]
pub struct DevConfig {
    pub show_lighting_config: bool,
    pub show_buffers: bool,
    pub show_fps: bool,
    pub show_editor: bool,

    pub show_tiktok_overlay: bool,

    pub log_collisions: bool,

    pub show_ai_target: bool,
    pub show_linear_acc_target: bool,
    pub show_angular_acc_target: bool,

    pub draw_colliders: bool,
    pub draw_collision_marks: bool,

    pub show_debug_bullets: bool,

    pub orig_props: bool,

    pub collider_outlines: bool,

    pub show_debug: bool,

    pub recording_mode: RecordingMode,
}

impl Default for DevConfig {
    /// Everything off except the FPS counter and original-properties view;
    /// recording defaults to landscape.
    fn default() -> (r: Self)
        ensures
            !r.show_lighting_config,
            !r.show_buffers,
            r.show_fps,
            !r.show_editor,
            !r.show_tiktok_overlay,
            !r.log_collisions,
            !r.show_ai_target,
            !r.show_linear_acc_target,
            !r.show_angular_acc_target,
            !r.draw_colliders,
            !r.draw_collision_marks,
            !r.show_debug_bullets,
            r.orig_props,
            !r.collider_outlines,
            !r.show_debug,
            r.recording_mode == RecordingMode::Landscape,
    {
        Self {
            show_lighting_config: false,
            show_buffers: false,
            show_fps: true,
            show_editor: false,

            show_tiktok_overlay: false,

            log_collisions: false,

            show_ai_target: false,
            show_linear_acc_target: false,
            show_angular_acc_target: false,

            draw_colliders: false,
            draw_collision_marks: false,

            show_debug_bullets: false,

            orig_props: true,

            collider_outlines: false,

            show_debug: false,

            recording_mode: RecordingMode::Landscape,
        }
    }
}

} // verus!
