//! Input devices and controller state records.
use vstd::prelude::*;

verus! {

/// Special input device ids.
#[derive(Clone, Copy, Debug, PartialEq, Eq, Structural)]
pub enum InputIDs {
    InputUnassigned,
    InputAutoassign,
    InputNone,
}

/// Controller slots: any, or one of four players.
#[derive(Clone, Copy, Debug, PartialEq, Eq, Structural)]
pub enum InputSlotIDs {
    ContAny,
    ContPlayer1,
    ContPlayer2,
    ContPlayer3,
    ContPlayer4,
}

#[derive(Clone, Copy, Debug, PartialEq, Eq, Structural)]
pub enum InputDeviceTypes {
    DeviceTypeNone,
    DeviceTypeKeyboard,
    DeviceTypeController,
    DeviceTypeUnknown,
    DeviceTypeSteamoverlay,
}

#[derive(Clone, Copy, Debug, PartialEq, Eq, Structural)]
pub enum InputDeviceIDs {
    DeviceKeyboard,
    DeviceXbox,
    DevicePs4,
    DeviceSaturn,
    DeviceSwitchHandheld,
    DeviceSwitchJoyGrip,
    DeviceSwitchJoyL,
    DeviceSwitchJoyR,
    DeviceSwitchPro,
}

/// How one gamepad button maps onto the engine's buttons.
#[derive(Clone, Copy, Debug, PartialEq, Eq, Structural)]
pub struct GamePadButtonMap {
    pub mask_val: i32,
    pub mapping_type: i16,
    pub offset: i16,
}

/// An attached input device.
#[derive(Clone, Copy, Debug)]
pub struct InputDevice {
    pub gamepad_type: i32,
    pub id: u32,
    pub active: u8,
    pub is_assigned: u8,
    pub unused: u8,
    pub disabled: u8,
    pub any_press: u8,
    pub inactive_timer: [i32; 2],
}

/// One button: held, pressed this frame, and its key mapping.
#[derive(Clone, Copy, Debug, PartialEq, Eq, Structural)]
pub struct InputState {
    pub down: bool,
    pub press: bool,
    pub key_map: i32,
}

/// The buttons of one controller.
#[derive(Clone, Copy, Debug, PartialEq, Eq, Structural)]
pub struct ControllerState {
    pub key_up: InputState,
    pub key_down: InputState,
    pub key_left: InputState,
    pub key_right: InputState,
    pub key_a: InputState,
    pub key_b: InputState,
    pub key_c: InputState,
    pub key_x: InputState,
    pub key_y: InputState,
    pub key_z: InputState,
    pub key_start: InputState,
    pub key_select: InputState,
}

} // verus!
