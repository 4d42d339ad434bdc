//! Controllers and keys, and the numbers by which the input service knows
//! them.

use vstd::prelude::*;

verus! {

/// The number of the first player's controller.
pub const CONTROLLER_PLAYER_1: u32 = 0;

/// The number of the eighth player's controller.
pub const CONTROLLER_PLAYER_8: u32 = 7;

/// The number of the controls built into the console.
pub const CONTROLLER_HANDHELD: u32 = 8;

/// The number that stands for no known controller.
pub const CONTROLLER_UNKNOWN: u32 = 9;

/// The number that picks the first player's controller if it is connected,
/// and the built-in controls otherwise.
pub const CONTROLLER_P1_AUTO: u32 = 10;

/// A controller.
#[derive(Clone, Copy, Debug, PartialEq, Eq, Structural)]
pub enum Controller {
    /// No controller.
    Invalid,
    /// The first player's controller or the built-in controls, whichever is
    /// in use.
    Auto,
    /// The controls built into the console.
    Handheld,
    /// The controller of the player with this number, from one to eight.
    Player(u8),
}

/// A key of a controller.
#[derive(Clone, Copy, Debug, PartialEq, Eq, Structural)]
pub enum Key {
    /// No key.
    Nothing,
    /// The A button.
    A,
    /// The B button.
    B,
    /// The X button.
    X,
    /// The Y button.
    Y,
    /// The left stick, pressed.
    LStick,
    /// The right stick, pressed.
    RStick,
    /// The left shoulder button.
    L,
    /// The right shoulder button.
    R,
    /// The left trigger.
    ZL,
    /// The right trigger.
    ZR,
    /// The plus button.
    Plus,
    /// The minus button.
    Minus,
    /// Right on the directional pad.
    DPadRight,
    /// Up on the directional pad.
    DPadUp,
    /// Down on the directional pad.
    DPadDown,
    /// Left on the directional pad.
    DPadLeft,
}

/// How a pair of detachable controllers is held.
#[derive(Clone, Copy, Debug, PartialEq, Eq, Structural)]
pub enum JoyConHoldMode {
    /// One controller in each hand, upright.
    Default,
    /// A single controller held sideways.
    Horizontal,
}

impl Controller {
    /// Whether this names a controller that the input service knows.
    pub open spec fn is_known(self) -> bool {
        match self {
            Controller::Invalid => false,
            Controller::Auto => true,
            Controller::Handheld => true,
            Controller::Player(n) => 1 <= n <= 8,
        }
    }
}

/// The controller that the number `id` stands for.
pub open spec fn ctrlid_to_controller_spec(id: u32) -> Controller {
    if id <= CONTROLLER_PLAYER_8 {
        Controller::Player((id + 1) as u8)
    } else if id == CONTROLLER_HANDHELD {
        Controller::Handheld
    } else if id == CONTROLLER_P1_AUTO {
        Controller::Auto
    } else {
        Controller::Invalid
    }
}

/// The number that stands for the controller `c`.
pub open spec fn controller_to_ctrlid_spec(c: Controller) -> u32 {
    match c {
        Controller::Player(n) => if 1 <= n <= 8 {
            (n - 1) as u32
        } else {
            CONTROLLER_UNKNOWN
        },
        Controller::Handheld => CONTROLLER_HANDHELD,
        Controller::Auto => CONTROLLER_P1_AUTO,
        Controller::Invalid => CONTROLLER_UNKNOWN,
    }
}

/// The controller that the number `id` stands for; `Invalid` for a number
/// that stands for none.
pub fn ctrlid_to_controller(id: u32) -> (c: Controller)
    ensures
        c == ctrlid_to_controller_spec(id),
{
    match id {
        0 => Controller::Player(1),
        1 => Controller::Player(2),
        2 => Controller::Player(3),
        3 => Controller::Player(4),
        4 => Controller::Player(5),
        5 => Controller::Player(6),
        6 => Controller::Player(7),
        7 => Controller::Player(8),
        8 => Controller::Handheld,
        10 => Controller::Auto,
        _ => Controller::Invalid,
    }
}

/// The number that stands for the controller `c`; the number for no known
/// controller if `c` is none, or a player beyond the eighth.
pub fn controller_to_ctrlid(c: Controller) -> (id: u32)
    ensures
        id == controller_to_ctrlid_spec(c),
{
    match c {
        Controller::Player(1) => 0,
        Controller::Player(2) => 1,
        Controller::Player(3) => 2,
        Controller::Player(4) => 3,
        Controller::Player(5) => 4,
        Controller::Player(6) => 5,
        Controller::Player(7) => 6,
        Controller::Player(8) => 7,
        Controller::Handheld => 8,
        Controller::Auto => 10,
        _ => 9,
    }
}

/// A known controller is found again from its number, and every other
/// controller is turned into `Invalid`.
pub proof fn controller_round_trip(c: Controller)
    ensures
        c.is_known() ==> ctrlid_to_controller_spec(controller_to_ctrlid_spec(c)) == c,
        !c.is_known() ==> ctrlid_to_controller_spec(controller_to_ctrlid_spec(c))
            == Controller::Invalid,
        ctrlid_to_controller_spec(controller_to_ctrlid_spec(c)).is_known() == c.is_known(),
{
}

impl Key {
    /// The bit that the input service sets for the key; no bit for `Nothing`.
    pub open spec fn mask_spec(self) -> u64 {
        match self {
            Key::Nothing => 0,
            Key::A => 1,
            Key::B => 2,
            Key::X => 4,
            Key::Y => 8,
            Key::LStick => 16,
            Key::RStick => 32,
            Key::L => 64,
            Key::R => 128,
            Key::ZL => 256,
            Key::ZR => 512,
            Key::Plus => 1024,
            Key::Minus => 2048,
            Key::DPadLeft => 4096,
            Key::DPadUp => 8192,
            Key::DPadRight => 16384,
            Key::DPadDown => 32768,
        }
    }

    /// The bit that the input service sets for the key; no bit for `Nothing`.
    pub fn mask(self) -> (m: u64)
        ensures
            m == self.mask_spec(),
    {
        match self {
            Key::Nothing => 0,
            Key::A => 1,
            Key::B => 2,
            Key::X => 4,
            Key::Y => 8,
            Key::LStick => 16,
            Key::RStick => 32,
            Key::L => 64,
            Key::R => 128,
            Key::ZL => 256,
            Key::ZR => 512,
            Key::Plus => 1024,
            Key::Minus => 2048,
            Key::DPadLeft => 4096,
            Key::DPadUp => 8192,
            Key::DPadRight => 16384,
            Key::DPadDown => 32768,
        }
    }
}

} // verus!
