//! Scene bookkeeping records that travel with the tile layers.
use vstd::prelude::*;
use crate::fixed::Vector2;

verus! {

/// Parallax scrolling of a band of a layer.
#[derive(Clone, Copy, Debug, PartialEq, Eq, Structural)]
pub struct ScrollInfo {
    pub tile_pos: i32,
    pub parallax_factor: i32,
    pub scroll_speed: i32,
    pub scroll_pos: i32,
    pub deform: u8,
    pub unknown: u8,
}

impl ScrollInfo {
    pub fn new() -> (r: ScrollInfo)
        ensures
            r == (ScrollInfo {
                tile_pos: 0,
                parallax_factor: 0,
                scroll_speed: 0,
                scroll_pos: 0,
                deform: 0,
                unknown: 0,
            }),
    {
        ScrollInfo {
            tile_pos: 0,
            parallax_factor: 0,
            scroll_speed: 0,
            scroll_pos: 0,
            deform: 0,
            unknown: 0,
        }
    }
}

/// Position and deformation of one scanline.
#[derive(Clone, Copy, Debug, PartialEq, Eq, Structural)]
pub struct ScanlineInfo {
    pub position: Vector2,
    pub deform: Vector2,
}

/// State of the running scene.
#[derive(Clone, Copy, Debug, PartialEq, Eq, Structural)]
pub struct SceneInfo {
    pub time_counter: i32,
    pub current_draw_group: i32,
    pub current_screen_id: i32,
    pub list_pos: u16,
    pub entity_slot: u16,
    pub create_slot: u16,
    pub class_count: u16,
    pub in_editor: bool,
    pub effect_gizmo: bool,
    pub debug_mode: bool,
    pub use_global_objects: bool,
    pub time_enabled: bool,
    pub active_category: u8,
    pub category_count: u8,
    pub state: u8,
    pub filter: u8,
    pub milliseconds: u8,
    pub seconds: u8,
    pub minutes: u8,
}

impl SceneInfo {
    /// A scene with every counter and flag cleared.
    pub fn new() -> (r: SceneInfo)
        ensures
            r.time_counter == 0 && r.current_draw_group == 0 && r.current_screen_id == 0,
            r.list_pos == 0 && r.entity_slot == 0 && r.create_slot == 0 && r.class_count == 0,
            !r.in_editor && !r.effect_gizmo && !r.debug_mode && !r.use_global_objects
                && !r.time_enabled,
            r.active_category == 0 && r.category_count == 0 && r.state == 0 && r.filter == 0,
            r.milliseconds == 0 && r.seconds == 0 && r.minutes == 0,
    {
        SceneInfo {
            time_counter: 0,
            current_draw_group: 0,
            current_screen_id: 0,
            list_pos: 0,
            entity_slot: 0,
            create_slot: 0,
            class_count: 0,
            in_editor: false,
            effect_gizmo: false,
            debug_mode: false,
            use_global_objects: false,
            time_enabled: false,
            active_category: 0,
            category_count: 0,
            state: 0,
            filter: 0,
            milliseconds: 0,
            seconds: 0,
            minutes: 0,
        }
    }
}

/// Stage states of the legacy engines.
#[derive(Clone, Copy, Debug, PartialEq, Eq, Structural)]
pub enum LegacyStageModes {
    StagemodeLoad,
    StagemodeNormal,
    StagemodePaused,
    StagemodeStepover,
}

/// Subroutines of a legacy object script.
#[derive(Clone, Copy, Debug, PartialEq, Eq, Structural)]
pub enum ScriptSubs {
    SubMain,
    SubPlayerinteraction,
    SubDraw,
    SubSetup,
}

/// Entry points of a legacy script into its code and jump tables.
#[derive(Clone, Copy, Debug, PartialEq, Eq, Structural)]
pub struct ScriptPtr {
    pub script_code_ptr: i32,
    pub jump_table_ptr: i32,
}

/// Scratch registers of the legacy script engine.
#[derive(Clone, Copy, Debug)]
pub struct ScriptEngine {
    pub operands: [i32; 10],
    pub temp_value: [i32; 8],
    pub array_position: [i32; 3],
    pub check_result: i32,
}

} // verus!
