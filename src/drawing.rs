//! Drawing and debug-output settings.
use vstd::prelude::*;

verus! {

/// How a sprite or a tile is blended onto the screen.
#[derive(Clone, Copy, Debug, PartialEq, Eq, Structural)]
pub enum InkEffects {
    InkNone,
    InkBlend,
    InkAlpha,
    InkAdd,
    InkSub,
    InkTint,
    InkMasked,
    InkUnmasked,
}

/// Horizontal alignment of drawn text.
#[derive(Clone, Copy, Debug, PartialEq, Eq, Structural)]
pub enum Alignments {
    AlignLeft,
    AlignRight,
    AlignCenter,
}

/// Rotation styles of legacy animations.
#[derive(Clone, Copy, Debug, PartialEq, Eq, Structural)]
pub enum AnimRotationFlags {
    RotstyleNone,
    RotstyleFull,
    Rotstyle45deg,
    RotstyleStaticframes,
}

/// Severity of a debug print.
#[derive(Clone, Copy, Debug, PartialEq, Eq, Structural)]
pub enum PrintModes {
    PrintNormal,
    PrintPopup,
    PrintError,
    PrintFatal,
}

/// Corner buttons of the touch developer menu.
#[derive(Clone, Copy, Debug, PartialEq, Eq, Structural)]
pub enum TouchCornerButtons {
    CornerbuttonStart,
    CornerbuttonLeftright,
    CornerbuttonSlider,
}

/// Where a file is looked up.
#[derive(Clone, Copy, Debug, PartialEq, Eq, Structural)]
pub enum Scopes {
    ScopeNone,
    ScopeGlobal,
    ScopeStage,
}

/// How a file is opened.
#[derive(Clone, Copy, Debug, PartialEq, Eq, Structural)]
pub enum FileModes {
    FmodeNone,
    FmodeRb,
    FmodeWb,
    FmodeRbPlus,
}

/// An entry of a data pack's file table.
#[derive(Clone, Copy, Debug)]
pub struct RSDKFileInfo {
    pub hash: [u32; 4],
    pub size: i32,
    pub offset: i32,
    pub encrypted: u8,
    pub use_file_buffer: u8,
    pub pack_id: i32,
}

/// An engine-wide truth value as stored in game data.
#[allow(non_camel_case_types)]
#[derive(Clone, Copy, Debug, PartialEq, Eq, Structural)]
pub enum bool32 {
    False,
    True,
}

/// A registered object class.
#[derive(Clone, Copy, Debug, PartialEq, Eq, Structural)]
pub struct Object {
    pub class_id: u16,
    pub active: u8,
}

} // verus!
