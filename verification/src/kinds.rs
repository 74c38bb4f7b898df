//! Classification of native controller-family codes into a closed
//! enumeration, and the display label of each family.
//!
//! The codes are the native SDK's `ESteamInputType` values. Three Switch
//! sub-variants (pro controller, joy-con pair, single joy-con) collapse to
//! one family; every unrecognized code maps to `Unknown`, never to an error.

use vstd::prelude::*;

verus! {

/// `ESteamInputType` code of a Steam controller.
pub const CODE_STEAM_CONTROLLER: u32 = 1;

/// `ESteamInputType` code of an Xbox 360 controller.
pub const CODE_XBOX_360: u32 = 2;

/// `ESteamInputType` code of an Xbox One controller.
pub const CODE_XBOX_ONE: u32 = 3;

/// `ESteamInputType` code of a PlayStation 4 controller.
pub const CODE_PS4: u32 = 5;

/// `ESteamInputType` code of a Switch joy-con pair.
pub const CODE_SWITCH_JOYCON_PAIR: u32 = 8;

/// `ESteamInputType` code of a single Switch joy-con.
pub const CODE_SWITCH_JOYCON_SINGLE: u32 = 9;

/// `ESteamInputType` code of a Switch pro controller.
pub const CODE_SWITCH_PRO: u32 = 10;

/// `ESteamInputType` code of a PlayStation 5 controller.
pub const CODE_PS5: u32 = 13;

/// `ESteamInputType` code of a Steam Deck.
pub const CODE_STEAM_DECK: u32 = 14;

/// The closed enumeration of controller families the bridge reports.
#[derive(Clone, Copy, Debug, PartialEq, Eq, Structural)]
pub enum ControllerKind {
    Ps4,
    Ps5,
    Xbox360,
    Xbox,
    Switch,
    SteamDeck,
    SteamController,
    Unknown,
}

/// The family of one native input-type code. Total over `u32`.
pub open spec fn classify_code(code: u32) -> ControllerKind {
    if code == CODE_PS4 {
        ControllerKind::Ps4
    } else if code == CODE_PS5 {
        ControllerKind::Ps5
    } else if code == CODE_XBOX_360 {
        ControllerKind::Xbox360
    } else if code == CODE_XBOX_ONE {
        ControllerKind::Xbox
    } else if code == CODE_SWITCH_PRO || code == CODE_SWITCH_JOYCON_PAIR || code
        == CODE_SWITCH_JOYCON_SINGLE {
        ControllerKind::Switch
    } else if code == CODE_STEAM_DECK {
        ControllerKind::SteamDeck
    } else if code == CODE_STEAM_CONTROLLER {
        ControllerKind::SteamController
    } else {
        ControllerKind::Unknown
    }
}

/// Whether a native code belongs to one of the named families.
pub open spec fn is_recognized_code(code: u32) -> bool {
    code == CODE_PS4 || code == CODE_PS5 || code == CODE_XBOX_360 || code == CODE_XBOX_ONE || code
        == CODE_SWITCH_PRO || code == CODE_SWITCH_JOYCON_PAIR || code == CODE_SWITCH_JOYCON_SINGLE
        || code == CODE_STEAM_DECK || code == CODE_STEAM_CONTROLLER
}

/// Classification is total: every possible native input-type code maps to
/// exactly one family, and exactly the unrecognized codes map to `Unknown`.
pub proof fn lemma_classify_total(code: u32)
    ensures
        classify_code(code) == ControllerKind::Unknown <==> !is_recognized_code(code),
{
}

/// Classification depends on the code alone: two results for the same code
/// are identical, whenever they were computed.
pub proof fn lemma_classify_deterministic(code: u32, r1: ControllerKind, r2: ControllerKind)
    requires
        r1 == classify_code(code),
        r2 == classify_code(code),
    ensures
        r1 == r2,
{
}

/// Maps a native input-type code to its controller family.
pub fn classify_input_type(code: u32) -> (r: ControllerKind)
    ensures
        r == classify_code(code),
{
    if code == CODE_PS4 {
        ControllerKind::Ps4
    } else if code == CODE_PS5 {
        ControllerKind::Ps5
    } else if code == CODE_XBOX_360 {
        ControllerKind::Xbox360
    } else if code == CODE_XBOX_ONE {
        ControllerKind::Xbox
    } else if code == CODE_SWITCH_PRO || code == CODE_SWITCH_JOYCON_PAIR || code
        == CODE_SWITCH_JOYCON_SINGLE {
        ControllerKind::Switch
    } else if code == CODE_STEAM_DECK {
        ControllerKind::SteamDeck
    } else if code == CODE_STEAM_CONTROLLER {
        ControllerKind::SteamController
    } else {
        ControllerKind::Unknown
    }
}

/// The serialized label of each controller family.
pub open spec fn kind_label(k: ControllerKind) -> Seq<char> {
    match k {
        ControllerKind::Ps4 => "ps4"@,
        ControllerKind::Ps5 => "ps5"@,
        ControllerKind::Xbox360 => "xbox360"@,
        ControllerKind::Xbox => "xbox"@,
        ControllerKind::Switch => "switch"@,
        ControllerKind::SteamDeck => "steamdeck"@,
        ControllerKind::SteamController => "steamcontroller"@,
        ControllerKind::Unknown => "unknown"@,
    }
}

impl ControllerKind {
    /// The label used when the family crosses to unverified consumers.
    pub fn label(&self) -> (r: String)
        ensures
            r@ == kind_label(*self),
    {
        match self {
            ControllerKind::Ps4 => "ps4".to_owned(),
            ControllerKind::Ps5 => "ps5".to_owned(),
            ControllerKind::Xbox360 => "xbox360".to_owned(),
            ControllerKind::Xbox => "xbox".to_owned(),
            ControllerKind::Switch => "switch".to_owned(),
            ControllerKind::SteamDeck => "steamdeck".to_owned(),
            ControllerKind::SteamController => "steamcontroller".to_owned(),
            ControllerKind::Unknown => "unknown".to_owned(),
        }
    }
}

} // verus!
