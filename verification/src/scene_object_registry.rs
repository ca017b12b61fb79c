//! The scenes that stand for the objects of a city file: networks and buildings,
//! looked up by the object id the file stores.

use vstd::prelude::*;

verus! {

#[derive(Clone, Copy, Debug, PartialEq, Eq, Structural)]
pub enum Powerlines {
    LeftRight,
    TopBottom,
    HighTopBottom,
    LeftHighRight,
    TopHighBottom,
    HighLeftRight,
    BottomRight,
    BottomLeft,
    TopLeft,
    TopRight,
    RightTopBottom,
    LeftBottomRight,
    TopLeftBottom,
    LeftTopRight,
    LeftTopBottomRight,
    BridgeTopBottom,
}

/// The object id under which a city file stores each kind of `Powerlines`.
pub open spec fn powerline_id(v: Powerlines) -> u8 {
    match v {
        Powerlines::LeftRight => 0x0E,
        Powerlines::TopBottom => 0x0F,
        Powerlines::HighTopBottom => 0x10,
        Powerlines::LeftHighRight => 0x11,
        Powerlines::TopHighBottom => 0x12,
        Powerlines::HighLeftRight => 0x13,
        Powerlines::BottomRight => 0x14,
        Powerlines::BottomLeft => 0x15,
        Powerlines::TopLeft => 0x16,
        Powerlines::TopRight => 0x17,
        Powerlines::RightTopBottom => 0x18,
        Powerlines::LeftBottomRight => 0x19,
        Powerlines::TopLeftBottom => 0x1A,
        Powerlines::LeftTopRight => 0x1B,
        Powerlines::LeftTopBottomRight => 0x1C,
        Powerlines::BridgeTopBottom => 0x5C,
    }
}

/// The kind of `Powerlines` that an object id stands for, if any.
pub open spec fn powerline_of_id(id: u8) -> Option<Powerlines> {
    if id == 0x0E {
        Some(Powerlines::LeftRight)
    } else if id == 0x0F {
        Some(Powerlines::TopBottom)
    } else if id == 0x10 {
        Some(Powerlines::HighTopBottom)
    } else if id == 0x11 {
        Some(Powerlines::LeftHighRight)
    } else if id == 0x12 {
        Some(Powerlines::TopHighBottom)
    } else if id == 0x13 {
        Some(Powerlines::HighLeftRight)
    } else if id == 0x14 {
        Some(Powerlines::BottomRight)
    } else if id == 0x15 {
        Some(Powerlines::BottomLeft)
    } else if id == 0x16 {
        Some(Powerlines::TopLeft)
    } else if id == 0x17 {
        Some(Powerlines::TopRight)
    } else if id == 0x18 {
        Some(Powerlines::RightTopBottom)
    } else if id == 0x19 {
        Some(Powerlines::LeftBottomRight)
    } else if id == 0x1A {
        Some(Powerlines::TopLeftBottom)
    } else if id == 0x1B {
        Some(Powerlines::LeftTopRight)
    } else if id == 0x1C {
        Some(Powerlines::LeftTopBottomRight)
    } else if id == 0x5C {
        Some(Powerlines::BridgeTopBottom)
    } else {
        None
    }
}

/// The scene file of each kind of `Powerlines`.
pub open spec fn powerline_scene(v: Powerlines) -> Seq<char> {
    match v {
        Powerlines::LeftRight => "res://resources/Objects/Networks/Powerline/left_right.tscn"@,
        Powerlines::TopBottom => "res://resources/Objects/Networks/Powerline/top_bottom.tscn"@,
        Powerlines::HighTopBottom => "res://resources/Objects/Networks/Powerline/high_top_bottom.tscn"@,
        Powerlines::LeftHighRight => "res://resources/Objects/Networks/Powerline/left_high_right.tscn"@,
        Powerlines::TopHighBottom => "res://resources/Objects/Networks/Powerline/top_high_bottom.tscn"@,
        Powerlines::HighLeftRight => "res://resources/Objects/Networks/Powerline/high_left_right.tscn"@,
        Powerlines::BottomRight => "res://resources/Objects/Networks/Powerline/bottom_right.tscn"@,
        Powerlines::BottomLeft => "res://resources/Objects/Networks/Powerline/bottom_left.tscn"@,
        Powerlines::TopLeft => "res://resources/Objects/Networks/Powerline/top_left.tscn"@,
        Powerlines::TopRight => "res://resources/Objects/Networks/Powerline/top_right.tscn"@,
        Powerlines::RightTopBottom => "res://resources/Objects/Networks/Powerline/right_top_bottom.tscn"@,
        Powerlines::LeftBottomRight => "res://resources/Objects/Networks/Powerline/left_bottom_right.tscn"@,
        Powerlines::TopLeftBottom => "res://resources/Objects/Networks/Powerline/top_left_bottom.tscn"@,
        Powerlines::LeftTopRight => "res://resources/Objects/Networks/Powerline/left_top_right.tscn"@,
        Powerlines::LeftTopBottomRight => "res://resources/Objects/Networks/Powerline/left_top_bottom_right.tscn"@,
        Powerlines::BridgeTopBottom => "res://resources/Objects/Networks/Powerline/bridge_top_bottom.tscn"@,
    }
}

impl Powerlines {
    /// The object id of this kind.
    pub fn id(&self) -> (r: u8)
        ensures
            r == powerline_id(*self),
    {
        match self {
            Powerlines::LeftRight => 0x0E,
            Powerlines::TopBottom => 0x0F,
            Powerlines::HighTopBottom => 0x10,
            Powerlines::LeftHighRight => 0x11,
            Powerlines::TopHighBottom => 0x12,
            Powerlines::HighLeftRight => 0x13,
            Powerlines::BottomRight => 0x14,
            Powerlines::BottomLeft => 0x15,
            Powerlines::TopLeft => 0x16,
            Powerlines::TopRight => 0x17,
            Powerlines::RightTopBottom => 0x18,
            Powerlines::LeftBottomRight => 0x19,
            Powerlines::TopLeftBottom => 0x1A,
            Powerlines::LeftTopRight => 0x1B,
            Powerlines::LeftTopBottomRight => 0x1C,
            Powerlines::BridgeTopBottom => 0x5C,
        }
    }

    /// The kind that an object id stands for, if it stands for one.
    pub fn try_from_u8(id: u8) -> (r: Option<Self>)
        ensures
            r == powerline_of_id(id),
    {
        match id {
            0x0E => Some(Powerlines::LeftRight),
            0x0F => Some(Powerlines::TopBottom),
            0x10 => Some(Powerlines::HighTopBottom),
            0x11 => Some(Powerlines::LeftHighRight),
            0x12 => Some(Powerlines::TopHighBottom),
            0x13 => Some(Powerlines::HighLeftRight),
            0x14 => Some(Powerlines::BottomRight),
            0x15 => Some(Powerlines::BottomLeft),
            0x16 => Some(Powerlines::TopLeft),
            0x17 => Some(Powerlines::TopRight),
            0x18 => Some(Powerlines::RightTopBottom),
            0x19 => Some(Powerlines::LeftBottomRight),
            0x1A => Some(Powerlines::TopLeftBottom),
            0x1B => Some(Powerlines::LeftTopRight),
            0x1C => Some(Powerlines::LeftTopBottomRight),
            0x5C => Some(Powerlines::BridgeTopBottom),
            _ => None,
        }
    }

    /// The scene file of this kind.
    pub fn as_str(&self) -> (r: &'static str)
        ensures
            r@ == powerline_scene(*self),
    {
        match self {
            Powerlines::LeftRight => "res://resources/Objects/Networks/Powerline/left_right.tscn",
            Powerlines::TopBottom => "res://resources/Objects/Networks/Powerline/top_bottom.tscn",
            Powerlines::HighTopBottom => "res://resources/Objects/Networks/Powerline/high_top_bottom.tscn",
            Powerlines::LeftHighRight => "res://resources/Objects/Networks/Powerline/left_high_right.tscn",
            Powerlines::TopHighBottom => "res://resources/Objects/Networks/Powerline/top_high_bottom.tscn",
            Powerlines::HighLeftRight => "res://resources/Objects/Networks/Powerline/high_left_right.tscn",
            Powerlines::BottomRight => "res://resources/Objects/Networks/Powerline/bottom_right.tscn",
            Powerlines::BottomLeft => "res://resources/Objects/Networks/Powerline/bottom_left.tscn",
            Powerlines::TopLeft => "res://resources/Objects/Networks/Powerline/top_left.tscn",
            Powerlines::TopRight => "res://resources/Objects/Networks/Powerline/top_right.tscn",
            Powerlines::RightTopBottom => "res://resources/Objects/Networks/Powerline/right_top_bottom.tscn",
            Powerlines::LeftBottomRight => "res://resources/Objects/Networks/Powerline/left_bottom_right.tscn",
            Powerlines::TopLeftBottom => "res://resources/Objects/Networks/Powerline/top_left_bottom.tscn",
            Powerlines::LeftTopRight => "res://resources/Objects/Networks/Powerline/left_top_right.tscn",
            Powerlines::LeftTopBottomRight => "res://resources/Objects/Networks/Powerline/left_top_bottom_right.tscn",
            Powerlines::BridgeTopBottom => "res://resources/Objects/Networks/Powerline/bridge_top_bottom.tscn",
        }
    }
}

/// Reading back the id of a kind of `Powerlines` gives that kind, and an id that is read
/// as a kind is that kind's id.
pub proof fn lemma_powerline_id_round_trip(v: Powerlines, id: u8)
    ensures
        powerline_of_id(powerline_id(v)) == Some(v),
        powerline_of_id(id) == Some(v) ==> powerline_id(v) == id,
{
}

#[derive(Clone, Copy, Debug, PartialEq, Eq, Structural)]
pub enum Road {
    LeftRight,
    TopBottom,
    HighTopBottom,
    LeftHighRight,
    TopHighBottom,
    HighLeftRight,
    TopRight,
    BottomRight,
    BottomLeft,
    TopLeft,
    RightTopBottom,
    LeftBottomRight,
    TopLeftBottom,
    LeftTopRight,
    LeftTopBottomRight,
    LeftRightPowerTopBottom,
    TopBottomPowerLeftRight,
}

/// The object id under which a city file stores each kind of `Road`.
pub open spec fn road_id(v: Road) -> u8 {
    match v {
        Road::LeftRight => 0x1D,
        Road::TopBottom => 0x1E,
        Road::HighTopBottom => 0x1F,
        Road::LeftHighRight => 0x20,
        Road::TopHighBottom => 0x21,
        Road::HighLeftRight => 0x22,
        Road::TopRight => 0x23,
        Road::BottomRight => 0x24,
        Road::BottomLeft => 0x25,
        Road::TopLeft => 0x26,
        Road::RightTopBottom => 0x27,
        Road::LeftBottomRight => 0x28,
        Road::TopLeftBottom => 0x29,
        Road::LeftTopRight => 0x2A,
        Road::LeftTopBottomRight => 0x2B,
        Road::LeftRightPowerTopBottom => 0x43,
        Road::TopBottomPowerLeftRight => 0x44,
    }
}

/// The kind of `Road` that an object id stands for, if any.
pub open spec fn road_of_id(id: u8) -> Option<Road> {
    if id == 0x1D {
        Some(Road::LeftRight)
    } else if id == 0x1E {
        Some(Road::TopBottom)
    } else if id == 0x1F {
        Some(Road::HighTopBottom)
    } else if id == 0x20 {
        Some(Road::LeftHighRight)
    } else if id == 0x21 {
        Some(Road::TopHighBottom)
    } else if id == 0x22 {
        Some(Road::HighLeftRight)
    } else if id == 0x23 {
        Some(Road::TopRight)
    } else if id == 0x24 {
        Some(Road::BottomRight)
    } else if id == 0x25 {
        Some(Road::BottomLeft)
    } else if id == 0x26 {
        Some(Road::TopLeft)
    } else if id == 0x27 {
        Some(Road::RightTopBottom)
    } else if id == 0x28 {
        Some(Road::LeftBottomRight)
    } else if id == 0x29 {
        Some(Road::TopLeftBottom)
    } else if id == 0x2A {
        Some(Road::LeftTopRight)
    } else if id == 0x2B {
        Some(Road::LeftTopBottomRight)
    } else if id == 0x43 {
        Some(Road::LeftRightPowerTopBottom)
    } else if id == 0x44 {
        Some(Road::TopBottomPowerLeftRight)
    } else {
        None
    }
}

/// The scene file of each kind of `Road`.
pub open spec fn road_scene(v: Road) -> Seq<char> {
    match v {
        Road::LeftRight => "res://resources/Objects/Networks/Road/left_right.tscn"@,
        Road::TopBottom => "res://resources/Objects/Networks/Road/top_bottom.tscn"@,
        Road::HighTopBottom => "res://resources/Objects/Networks/Road/high_top_bottom.tscn"@,
        Road::LeftHighRight => "res://resources/Objects/Networks/Road/left_high_right.tscn"@,
        Road::TopHighBottom => "res://resources/Objects/Networks/Road/top_high_bottom.tscn"@,
        Road::HighLeftRight => "res://resources/Objects/Networks/Road/high_left_right.tscn"@,
        Road::TopRight => "res://resources/Objects/Networks/Road/top_right.tscn"@,
        Road::BottomRight => "res://resources/Objects/Networks/Road/bottom_right.tscn"@,
        Road::BottomLeft => "res://resources/Objects/Networks/Road/bottom_left.tscn"@,
        Road::TopLeft => "res://resources/Objects/Networks/Road/top_left.tscn"@,
        Road::RightTopBottom => "res://resources/Objects/Networks/Road/right_top_bottom.tscn"@,
        Road::LeftBottomRight => "res://resources/Objects/Networks/Road/left_bottom_right.tscn"@,
        Road::TopLeftBottom => "res://resources/Objects/Networks/Road/top_left_bottom.tscn"@,
        Road::LeftTopRight => "res://resources/Objects/Networks/Road/left_top_right.tscn"@,
        Road::LeftTopBottomRight => "res://resources/Objects/Networks/Road/left_top_bottom_right.tscn"@,
        Road::LeftRightPowerTopBottom => "res://resources/Objects/Networks/Road/left_right_power_top_bottom.tscn"@,
        Road::TopBottomPowerLeftRight => "res://resources/Objects/Networks/Road/top_bottom_power_left_right.tscn"@,
    }
}

impl Road {
    /// The object id of this kind.
    pub fn id(&self) -> (r: u8)
        ensures
            r == road_id(*self),
    {
        match self {
            Road::LeftRight => 0x1D,
            Road::TopBottom => 0x1E,
            Road::HighTopBottom => 0x1F,
            Road::LeftHighRight => 0x20,
            Road::TopHighBottom => 0x21,
            Road::HighLeftRight => 0x22,
            Road::TopRight => 0x23,
            Road::BottomRight => 0x24,
            Road::BottomLeft => 0x25,
            Road::TopLeft => 0x26,
            Road::RightTopBottom => 0x27,
            Road::LeftBottomRight => 0x28,
            Road::TopLeftBottom => 0x29,
            Road::LeftTopRight => 0x2A,
            Road::LeftTopBottomRight => 0x2B,
            Road::LeftRightPowerTopBottom => 0x43,
            Road::TopBottomPowerLeftRight => 0x44,
        }
    }

    /// The kind that an object id stands for, if it stands for one.
    pub fn try_from_u8(id: u8) -> (r: Option<Self>)
        ensures
            r == road_of_id(id),
    {
        match id {
            0x1D => Some(Road::LeftRight),
            0x1E => Some(Road::TopBottom),
            0x1F => Some(Road::HighTopBottom),
            0x20 => Some(Road::LeftHighRight),
            0x21 => Some(Road::TopHighBottom),
            0x22 => Some(Road::HighLeftRight),
            0x23 => Some(Road::TopRight),
            0x24 => Some(Road::BottomRight),
            0x25 => Some(Road::BottomLeft),
            0x26 => Some(Road::TopLeft),
            0x27 => Some(Road::RightTopBottom),
            0x28 => Some(Road::LeftBottomRight),
            0x29 => Some(Road::TopLeftBottom),
            0x2A => Some(Road::LeftTopRight),
            0x2B => Some(Road::LeftTopBottomRight),
            0x43 => Some(Road::LeftRightPowerTopBottom),
            0x44 => Some(Road::TopBottomPowerLeftRight),
            _ => None,
        }
    }

    /// The scene file of this kind.
    pub fn as_str(&self) -> (r: &'static str)
        ensures
            r@ == road_scene(*self),
    {
        match self {
            Road::LeftRight => "res://resources/Objects/Networks/Road/left_right.tscn",
            Road::TopBottom => "res://resources/Objects/Networks/Road/top_bottom.tscn",
            Road::HighTopBottom => "res://resources/Objects/Networks/Road/high_top_bottom.tscn",
            Road::LeftHighRight => "res://resources/Objects/Networks/Road/left_high_right.tscn",
            Road::TopHighBottom => "res://resources/Objects/Networks/Road/top_high_bottom.tscn",
            Road::HighLeftRight => "res://resources/Objects/Networks/Road/high_left_right.tscn",
            Road::TopRight => "res://resources/Objects/Networks/Road/top_right.tscn",
            Road::BottomRight => "res://resources/Objects/Networks/Road/bottom_right.tscn",
            Road::BottomLeft => "res://resources/Objects/Networks/Road/bottom_left.tscn",
            Road::TopLeft => "res://resources/Objects/Networks/Road/top_left.tscn",
            Road::RightTopBottom => "res://resources/Objects/Networks/Road/right_top_bottom.tscn",
            Road::LeftBottomRight => "res://resources/Objects/Networks/Road/left_bottom_right.tscn",
            Road::TopLeftBottom => "res://resources/Objects/Networks/Road/top_left_bottom.tscn",
            Road::LeftTopRight => "res://resources/Objects/Networks/Road/left_top_right.tscn",
            Road::LeftTopBottomRight => "res://resources/Objects/Networks/Road/left_top_bottom_right.tscn",
            Road::LeftRightPowerTopBottom => "res://resources/Objects/Networks/Road/left_right_power_top_bottom.tscn",
            Road::TopBottomPowerLeftRight => "res://resources/Objects/Networks/Road/top_bottom_power_left_right.tscn",
        }
    }
}

/// Reading back the id of a kind of `Road` gives that kind, and an id that is read
/// as a kind is that kind's id.
pub proof fn lemma_road_id_round_trip(v: Road, id: u8)
    ensures
        road_of_id(road_id(v)) == Some(v),
        road_of_id(id) == Some(v) ==> road_id(v) == id,
{
}

#[derive(Clone, Copy, Debug, PartialEq, Eq, Structural)]
pub enum SuspensionBridge {
    StartBottom,
    MiddleBottom,
    Center,
    MiddleTop,
    EndTop,
}

/// The object id under which a city file stores each kind of `SuspensionBridge`.
pub open spec fn suspension_bridge_id(v: SuspensionBridge) -> u8 {
    match v {
        SuspensionBridge::StartBottom => 0x51,
        SuspensionBridge::MiddleBottom => 0x52,
        SuspensionBridge::Center => 0x53,
        SuspensionBridge::MiddleTop => 0x54,
        SuspensionBridge::EndTop => 0x55,
    }
}

/// The kind of `SuspensionBridge` that an object id stands for, if any.
pub open spec fn suspension_bridge_of_id(id: u8) -> Option<SuspensionBridge> {
    if id == 0x51 {
        Some(SuspensionBridge::StartBottom)
    } else if id == 0x52 {
        Some(SuspensionBridge::MiddleBottom)
    } else if id == 0x53 {
        Some(SuspensionBridge::Center)
    } else if id == 0x54 {
        Some(SuspensionBridge::MiddleTop)
    } else if id == 0x55 {
        Some(SuspensionBridge::EndTop)
    } else {
        None
    }
}

/// The scene file of each kind of `SuspensionBridge`.
pub open spec fn suspension_bridge_scene(v: SuspensionBridge) -> Seq<char> {
    match v {
        SuspensionBridge::StartBottom => "res://resources/Objects/Networks/Bridge/bridge_suspension_start_bottom.tscn"@,
        SuspensionBridge::MiddleBottom => "res://resources/Objects/Networks/Bridge/bridge_suspension_middle_bottom.tscn"@,
        SuspensionBridge::Center => "res://resources/Objects/Networks/Bridge/bridge_suspension_center.tscn"@,
        SuspensionBridge::MiddleTop => "res://resources/Objects/Networks/Bridge/bridge_suspension_middle_top.tscn"@,
        SuspensionBridge::EndTop => "res://resources/Objects/Networks/Bridge/bridge_suspension_end_top.tscn"@,
    }
}

impl SuspensionBridge {
    /// The object id of this kind.
    pub fn id(&self) -> (r: u8)
        ensures
            r == suspension_bridge_id(*self),
    {
        match self {
            SuspensionBridge::StartBottom => 0x51,
            SuspensionBridge::MiddleBottom => 0x52,
            SuspensionBridge::Center => 0x53,
            SuspensionBridge::MiddleTop => 0x54,
            SuspensionBridge::EndTop => 0x55,
        }
    }

    /// The kind that an object id stands for, if it stands for one.
    pub fn try_from_u8(id: u8) -> (r: Option<Self>)
        ensures
            r == suspension_bridge_of_id(id),
    {
        match id {
            0x51 => Some(SuspensionBridge::StartBottom),
            0x52 => Some(SuspensionBridge::MiddleBottom),
            0x53 => Some(SuspensionBridge::Center),
            0x54 => Some(SuspensionBridge::MiddleTop),
            0x55 => Some(SuspensionBridge::EndTop),
            _ => None,
        }
    }

    /// The scene file of this kind.
    pub fn as_str(&self) -> (r: &'static str)
        ensures
            r@ == suspension_bridge_scene(*self),
    {
        match self {
            SuspensionBridge::StartBottom => "res://resources/Objects/Networks/Bridge/bridge_suspension_start_bottom.tscn",
            SuspensionBridge::MiddleBottom => "res://resources/Objects/Networks/Bridge/bridge_suspension_middle_bottom.tscn",
            SuspensionBridge::Center => "res://resources/Objects/Networks/Bridge/bridge_suspension_center.tscn",
            SuspensionBridge::MiddleTop => "res://resources/Objects/Networks/Bridge/bridge_suspension_middle_top.tscn",
            SuspensionBridge::EndTop => "res://resources/Objects/Networks/Bridge/bridge_suspension_end_top.tscn",
        }
    }
}

/// Reading back the id of a kind of `SuspensionBridge` gives that kind, and an id that is read
/// as a kind is that kind's id.
pub proof fn lemma_suspension_bridge_id_round_trip(v: SuspensionBridge, id: u8)
    ensures
        suspension_bridge_of_id(suspension_bridge_id(v)) == Some(v),
        suspension_bridge_of_id(id) == Some(v) ==> suspension_bridge_id(v) == id,
{
}

#[derive(Clone, Copy, Debug, PartialEq, Eq, Structural)]
pub enum PylonBridge {
    RaisingTowerTopBottom,
    BridgeTopA,
    BridgeTopB,
}

/// The object id under which a city file stores each kind of `PylonBridge`.
pub open spec fn pylon_bridge_id(v: PylonBridge) -> u8 {
    match v {
        PylonBridge::RaisingTowerTopBottom => 0x56,
        PylonBridge::BridgeTopA => 0x57,
        PylonBridge::BridgeTopB => 0x58,
    }
}

/// The kind of `PylonBridge` that an object id stands for, if any.
pub open spec fn pylon_bridge_of_id(id: u8) -> Option<PylonBridge> {
    if id == 0x56 {
        Some(PylonBridge::RaisingTowerTopBottom)
    } else if id == 0x57 {
        Some(PylonBridge::BridgeTopA)
    } else if id == 0x58 {
        Some(PylonBridge::BridgeTopB)
    } else {
        None
    }
}

/// The scene file of each kind of `PylonBridge`.
pub open spec fn pylon_bridge_scene(v: PylonBridge) -> Seq<char> {
    match v {
        PylonBridge::RaisingTowerTopBottom => "res://resources/Objects/Networks/Bridge/bridge_raising_tower_top_bottom.tscn"@,
        PylonBridge::BridgeTopA => "res://resources/Objects/Networks/Bridge/bridge_top.tscn"@,
        PylonBridge::BridgeTopB => "res://resources/Objects/Networks/Bridge/bridge_top.tscn"@,
    }
}

impl PylonBridge {
    /// The object id of this kind.
    pub fn id(&self) -> (r: u8)
        ensures
            r == pylon_bridge_id(*self),
    {
        match self {
            PylonBridge::RaisingTowerTopBottom => 0x56,
            PylonBridge::BridgeTopA => 0x57,
            PylonBridge::BridgeTopB => 0x58,
        }
    }

    /// The kind that an object id stands for, if it stands for one.
    pub fn try_from_u8(id: u8) -> (r: Option<Self>)
        ensures
            r == pylon_bridge_of_id(id),
    {
        match id {
            0x56 => Some(PylonBridge::RaisingTowerTopBottom),
            0x57 => Some(PylonBridge::BridgeTopA),
            0x58 => Some(PylonBridge::BridgeTopB),
            _ => None,
        }
    }

    /// The scene file of this kind.
    pub fn as_str(&self) -> (r: &'static str)
        ensures
            r@ == pylon_bridge_scene(*self),
    {
        match self {
            PylonBridge::RaisingTowerTopBottom => "res://resources/Objects/Networks/Bridge/bridge_raising_tower_top_bottom.tscn",
            PylonBridge::BridgeTopA => "res://resources/Objects/Networks/Bridge/bridge_top.tscn",
            PylonBridge::BridgeTopB => "res://resources/Objects/Networks/Bridge/bridge_top.tscn",
        }
    }
}

/// Reading back the id of a kind of `PylonBridge` gives that kind, and an id that is read
/// as a kind is that kind's id.
pub proof fn lemma_pylon_bridge_id_round_trip(v: PylonBridge, id: u8)
    ensures
        pylon_bridge_of_id(pylon_bridge_id(v)) == Some(v),
        pylon_bridge_of_id(id) == Some(v) ==> pylon_bridge_id(v) == id,
{
}

#[derive(Clone, Copy, Debug, PartialEq, Eq, Structural)]
pub enum Buildings {
    ParkSmall,
    TreeSingle,
    HomeMiddleClass1,
    HomeMiddleClass2,
    HomeMiddleClass3,
    HomeMiddleClass4,
    HomeMiddleClass5,
    Church,
    OfficeBuildingMedium1,
    OfficeBuildingMedium2,
    OfficeBuildingMedium3,
    OfficeBuildingMedium4,
    OfficeBuildingMedium5,
    OfficeBuildingMedium6,
    AbandonedBuilding1,
    AbandonedBuilding2,
    AbandonedBuilding3,
    AbandonedBuilding4,
    AbandonedBuilding5,
    AbandonedBuilding6,
    HomeUpperClass1,
    HomeUpperClass2,
    HomeUpperClass3,
    HomeUpperClass4,
    Tarmac,
    TarmacRadar,
    Construction1,
    Construction2,
    Construction3,
    Construction4,
    Construction5,
    Construction6,
    Construction7,
    Construction8,
    AirportWarehouse,
    AirportBuilding1,
    AirportBuilding2,
    AirportHangar1,
    AirportRunway,
    AirportRunwayIntersection,
    Hangar2,
    CondominiumsMedium1,
    CondominiumsMedium2,
    CondominiumsMedium3,
    CondominiumsLarge1,
    CondominiumsLarge2,
    FactorySmall1,
    FactorySmall2,
    FactorySmall3,
    FactorySmall4,
    FactorySmall5,
    FactorySmall6,
    StationPolice,
    ApartmentsMedium1,
    ApartmentsMedium2,
    ToyStore,
    IndustrialSubstation,
    OfficesSmall1,
    OfficesSmall2,
    OfficesHistoric,
    WaterPump,
    StationHospital,
    ConvenienceStore,
    StationGas1,
    StationGas2,
    HomeLowerClass1,
    HomeLowerClass2,
    HomeLowerClass3,
    Warehouse,
    AirportCivilianControlTower,
    StationFire,
    PowerplantMicrowave,
    ResortHotel,
    ApartmentsLarge1,
    ApartmentsLarge2,
    ApartmentsSmall1,
    ApartmentsSmall2,
    ApartmentsSmall3,
    TreeCouple,
    ChemicalStorage,
    ChemicalProcessing1,
    ChemicalProcessing2,
    School,
    Library,
    Marina,
    WarehouseLarge1,
    WarehouseLarge2,
    WarehouseSmall1,
    WarehouseSmall2,
    WarehouseMedium,
    BbInn,
    College,
    ArcologyPlymouth,
    ArcologyForest,
    ArcologyDarco,
    ArcologyLaunch,
    MayorsHouse,
    Museum,
    OfficeRetail,
    ParkingLot,
    ShoppingCentre,
    Theatre,
    WaterTreatment,
}

/// The object id under which a city file stores each kind of `Buildings`.
pub open spec fn building_id(v: Buildings) -> u8 {
    match v {
        Buildings::ParkSmall => 0x0D,
        Buildings::TreeSingle => 0x06,
        Buildings::HomeMiddleClass1 => 0x73,
        Buildings::HomeMiddleClass2 => 0x74,
        Buildings::HomeMiddleClass3 => 0x75,
        Buildings::HomeMiddleClass4 => 0x76,
        Buildings::HomeMiddleClass5 => 0x77,
        Buildings::Church => 0xF7,
        Buildings::OfficeBuildingMedium1 => 0x96,
        Buildings::OfficeBuildingMedium2 => 0x98,
        Buildings::OfficeBuildingMedium3 => 0x9A,
        Buildings::OfficeBuildingMedium4 => 0x9B,
        Buildings::OfficeBuildingMedium5 => 0x9C,
        Buildings::OfficeBuildingMedium6 => 0x9D,
        Buildings::AbandonedBuilding1 => 0x8A,
        Buildings::AbandonedBuilding2 => 0x8B,
        Buildings::AbandonedBuilding3 => 0xAA,
        Buildings::AbandonedBuilding4 => 0xAB,
        Buildings::AbandonedBuilding5 => 0xAC,
        Buildings::AbandonedBuilding6 => 0xAD,
        Buildings::HomeUpperClass1 => 0x78,
        Buildings::HomeUpperClass2 => 0x79,
        Buildings::HomeUpperClass3 => 0x7A,
        Buildings::HomeUpperClass4 => 0x7B,
        Buildings::Tarmac => 0xE6,
        Buildings::TarmacRadar => 0xEA,
        Buildings::Construction1 => 0xC2,
        Buildings::Construction2 => 0xC3,
        Buildings::Construction3 => 0xA6,
        Buildings::Construction4 => 0xA7,
        Buildings::Construction5 => 0xA8,
        Buildings::Construction6 => 0xA9,
        Buildings::Construction7 => 0x88,
        Buildings::Construction8 => 0x89,
        Buildings::AirportWarehouse => 0xE3,
        Buildings::AirportBuilding1 => 0xE4,
        Buildings::AirportBuilding2 => 0xE5,
        Buildings::AirportHangar1 => 0xE8,
        Buildings::AirportRunway => 0xDD,
        Buildings::AirportRunwayIntersection => 0xDF,
        Buildings::Hangar2 => 0xF6,
        Buildings::CondominiumsMedium1 => 0x91,
        Buildings::CondominiumsMedium2 => 0x92,
        Buildings::CondominiumsMedium3 => 0x93,
        Buildings::CondominiumsLarge1 => 0xB0,
        Buildings::CondominiumsLarge2 => 0xB1,
        Buildings::FactorySmall1 => 0xA0,
        Buildings::FactorySmall2 => 0xA1,
        Buildings::FactorySmall3 => 0xA2,
        Buildings::FactorySmall4 => 0xA3,
        Buildings::FactorySmall5 => 0xA4,
        Buildings::FactorySmall6 => 0xA5,
        Buildings::StationPolice => 0xD2,
        Buildings::ApartmentsMedium1 => 0x8F,
        Buildings::ApartmentsMedium2 => 0x90,
        Buildings::ToyStore => 0x83,
        Buildings::IndustrialSubstation => 0x87,
        Buildings::OfficesSmall1 => 0x80,
        Buildings::OfficesSmall2 => 0x81,
        Buildings::OfficesHistoric => 0xBA,
        Buildings::WaterPump => 0xDC,
        Buildings::StationHospital => 0xD1,
        Buildings::ConvenienceStore => 0x7E,
        Buildings::StationGas1 => 0x7C,
        Buildings::StationGas2 => 0x7F,
        Buildings::HomeLowerClass1 => 0x70,
        Buildings::HomeLowerClass2 => 0x71,
        Buildings::HomeLowerClass3 => 0x72,
        Buildings::Warehouse => 0x82,
        Buildings::AirportCivilianControlTower => 0xE1,
        Buildings::StationFire => 0xD3,
        Buildings::PowerplantMicrowave => 0xCD,
        Buildings::ResortHotel => 0x97,
        Buildings::ApartmentsLarge1 => 0xAE,
        Buildings::ApartmentsLarge2 => 0xAF,
        Buildings::ApartmentsSmall1 => 0x8C,
        Buildings::ApartmentsSmall2 => 0x8D,
        Buildings::ApartmentsSmall3 => 0x8E,
        Buildings::TreeCouple => 0x07,
        Buildings::ChemicalStorage => 0x85,
        Buildings::ChemicalProcessing1 => 0xBC,
        Buildings::ChemicalProcessing2 => 0x9F,
        Buildings::School => 0xD6,
        Buildings::Library => 0xF5,
        Buildings::Marina => 0xF8,
        Buildings::WarehouseLarge1 => 0xC0,
        Buildings::WarehouseLarge2 => 0xC1,
        Buildings::WarehouseSmall1 => 0x84,
        Buildings::WarehouseSmall2 => 0x86,
        Buildings::WarehouseMedium => 0x9E,
        Buildings::BbInn => 0x7D,
        Buildings::College => 0xD9,
        Buildings::ArcologyPlymouth => 0xFB,
        Buildings::ArcologyForest => 0xFC,
        Buildings::ArcologyDarco => 0xFD,
        Buildings::ArcologyLaunch => 0xFE,
        Buildings::MayorsHouse => 0xF3,
        Buildings::Museum => 0xD4,
        Buildings::OfficeRetail => 0x99,
        Buildings::ParkingLot => 0xB9,
        Buildings::ShoppingCentre => 0x94,
        Buildings::Theatre => 0xB5,
        Buildings::WaterTreatment => 0xF4,
    }
}

/// The kind of `Buildings` that an object id stands for, if any.
pub open spec fn building_of_id(id: u8) -> Option<Buildings> {
    if id == 0x0D {
        Some(Buildings::ParkSmall)
    } else if id == 0x06 {
        Some(Buildings::TreeSingle)
    } else if id == 0x73 {
        Some(Buildings::HomeMiddleClass1)
    } else if id == 0x74 {
        Some(Buildings::HomeMiddleClass2)
    } else if id == 0x75 {
        Some(Buildings::HomeMiddleClass3)
    } else if id == 0x76 {
        Some(Buildings::HomeMiddleClass4)
    } else if id == 0x77 {
        Some(Buildings::HomeMiddleClass5)
    } else if id == 0xF7 {
        Some(Buildings::Church)
    } else if id == 0x96 {
        Some(Buildings::OfficeBuildingMedium1)
    } else if id == 0x98 {
        Some(Buildings::OfficeBuildingMedium2)
    } else if id == 0x9A {
        Some(Buildings::OfficeBuildingMedium3)
    } else if id == 0x9B {
        Some(Buildings::OfficeBuildingMedium4)
    } else if id == 0x9C {
        Some(Buildings::OfficeBuildingMedium5)
    } else if id == 0x9D {
        Some(Buildings::OfficeBuildingMedium6)
    } else if id == 0x8A {
        Some(Buildings::AbandonedBuilding1)
    } else if id == 0x8B {
        Some(Buildings::AbandonedBuilding2)
    } else if id == 0xAA {
        Some(Buildings::AbandonedBuilding3)
    } else if id == 0xAB {
        Some(Buildings::AbandonedBuilding4)
    } else if id == 0xAC {
        Some(Buildings::AbandonedBuilding5)
    } else if id == 0xAD {
        Some(Buildings::AbandonedBuilding6)
    } else if id == 0x78 {
        Some(Buildings::HomeUpperClass1)
    } else if id == 0x79 {
        Some(Buildings::HomeUpperClass2)
    } else if id == 0x7A {
        Some(Buildings::HomeUpperClass3)
    } else if id == 0x7B {
        Some(Buildings::HomeUpperClass4)
    } else if id == 0xE6 {
        Some(Buildings::Tarmac)
    } else if id == 0xEA {
        Some(Buildings::TarmacRadar)
    } else if id == 0xC2 {
        Some(Buildings::Construction1)
    } else if id == 0xC3 {
        Some(Buildings::Construction2)
    } else if id == 0xA6 {
        Some(Buildings::Construction3)
    } else if id == 0xA7 {
        Some(Buildings::Construction4)
    } else if id == 0xA8 {
        Some(Buildings::Construction5)
    } else if id == 0xA9 {
        Some(Buildings::Construction6)
    } else if id == 0x88 {
        Some(Buildings::Construction7)
    } else if id == 0x89 {
        Some(Buildings::Construction8)
    } else if id == 0xE3 {
        Some(Buildings::AirportWarehouse)
    } else if id == 0xE4 {
        Some(Buildings::AirportBuilding1)
    } else if id == 0xE5 {
        Some(Buildings::AirportBuilding2)
    } else if id == 0xE8 {
        Some(Buildings::AirportHangar1)
    } else if id == 0xDD {
        Some(Buildings::AirportRunway)
    } else if id == 0xDF {
        Some(Buildings::AirportRunwayIntersection)
    } else if id == 0xF6 {
        Some(Buildings::Hangar2)
    } else if id == 0x91 {
        Some(Buildings::CondominiumsMedium1)
    } else if id == 0x92 {
        Some(Buildings::CondominiumsMedium2)
    } else if id == 0x93 {
        Some(Buildings::CondominiumsMedium3)
    } else if id == 0xB0 {
        Some(Buildings::CondominiumsLarge1)
    } else if id == 0xB1 {
        Some(Buildings::CondominiumsLarge2)
    } else if id == 0xA0 {
        Some(Buildings::FactorySmall1)
    } else if id == 0xA1 {
        Some(Buildings::FactorySmall2)
    } else if id == 0xA2 {
        Some(Buildings::FactorySmall3)
    } else if id == 0xA3 {
        Some(Buildings::FactorySmall4)
    } else if id == 0xA4 {
        Some(Buildings::FactorySmall5)
    } else if id == 0xA5 {
        Some(Buildings::FactorySmall6)
    } else if id == 0xD2 {
        Some(Buildings::StationPolice)
    } else if id == 0x8F {
        Some(Buildings::ApartmentsMedium1)
    } else if id == 0x90 {
        Some(Buildings::ApartmentsMedium2)
    } else if id == 0x83 {
        Some(Buildings::ToyStore)
    } else if id == 0x87 {
        Some(Buildings::IndustrialSubstation)
    } else if id == 0x80 {
        Some(Buildings::OfficesSmall1)
    } else if id == 0x81 {
        Some(Buildings::OfficesSmall2)
    } else if id == 0xBA {
        Some(Buildings::OfficesHistoric)
    } else if id == 0xDC {
        Some(Buildings::WaterPump)
    } else if id == 0xD1 {
        Some(Buildings::StationHospital)
    } else if id == 0x7E {
        Some(Buildings::ConvenienceStore)
    } else if id == 0x7C {
        Some(Buildings::StationGas1)
    } else if id == 0x7F {
        Some(Buildings::StationGas2)
    } else if id == 0x70 {
        Some(Buildings::HomeLowerClass1)
    } else if id == 0x71 {
        Some(Buildings::HomeLowerClass2)
    } else if id == 0x72 {
        Some(Buildings::HomeLowerClass3)
    } else if id == 0x82 {
        Some(Buildings::Warehouse)
    } else if id == 0xE1 {
        Some(Buildings::AirportCivilianControlTower)
    } else if id == 0xD3 {
        Some(Buildings::StationFire)
    } else if id == 0xCD {
        Some(Buildings::PowerplantMicrowave)
    } else if id == 0x97 {
        Some(Buildings::ResortHotel)
    } else if id == 0xAE {
        Some(Buildings::ApartmentsLarge1)
    } else if id == 0xAF {
        Some(Buildings::ApartmentsLarge2)
    } else if id == 0x8C {
        Some(Buildings::ApartmentsSmall1)
    } else if id == 0x8D {
        Some(Buildings::ApartmentsSmall2)
    } else if id == 0x8E {
        Some(Buildings::ApartmentsSmall3)
    } else if id == 0x07 {
        Some(Buildings::TreeCouple)
    } else if id == 0x85 {
        Some(Buildings::ChemicalStorage)
    } else if id == 0xBC {
        Some(Buildings::ChemicalProcessing1)
    } else if id == 0x9F {
        Some(Buildings::ChemicalProcessing2)
    } else if id == 0xD6 {
        Some(Buildings::School)
    } else if id == 0xF5 {
        Some(Buildings::Library)
    } else if id == 0xF8 {
        Some(Buildings::Marina)
    } else if id == 0xC0 {
        Some(Buildings::WarehouseLarge1)
    } else if id == 0xC1 {
        Some(Buildings::WarehouseLarge2)
    } else if id == 0x84 {
        Some(Buildings::WarehouseSmall1)
    } else if id == 0x86 {
        Some(Buildings::WarehouseSmall2)
    } else if id == 0x9E {
        Some(Buildings::WarehouseMedium)
    } else if id == 0x7D {
        Some(Buildings::BbInn)
    } else if id == 0xD9 {
        Some(Buildings::College)
    } else if id == 0xFB {
        Some(Buildings::ArcologyPlymouth)
    } else if id == 0xFC {
        Some(Buildings::ArcologyForest)
    } else if id == 0xFD {
        Some(Buildings::ArcologyDarco)
    } else if id == 0xFE {
        Some(Buildings::ArcologyLaunch)
    } else if id == 0xF3 {
        Some(Buildings::MayorsHouse)
    } else if id == 0xD4 {
        Some(Buildings::Museum)
    } else if id == 0x99 {
        Some(Buildings::OfficeRetail)
    } else if id == 0xB9 {
        Some(Buildings::ParkingLot)
    } else if id == 0x94 {
        Some(Buildings::ShoppingCentre)
    } else if id == 0xB5 {
        Some(Buildings::Theatre)
    } else if id == 0xF4 {
        Some(Buildings::WaterTreatment)
    } else {
        None
    }
}

/// The scene file of each kind of `Buildings`.
pub open spec fn building_scene_of(v: Buildings) -> Seq<char> {
    match v {
        Buildings::ParkSmall => "res://resources/Objects/Buildings/park_small.tscn"@,
        Buildings::TreeSingle => "res://resources/Objects/Buildings/tree_single.tscn"@,
        Buildings::HomeMiddleClass1 => "res://resources/Objects/Buildings/home_middle_class_1.tscn"@,
        Buildings::HomeMiddleClass2 => "res://resources/Objects/Buildings/home_middle_class_2.tscn"@,
        Buildings::HomeMiddleClass3 => "res://resources/Objects/Buildings/home_middle_class_3.tscn"@,
        Buildings::HomeMiddleClass4 => "res://resources/Objects/Buildings/home_middle_class_4.tscn"@,
        Buildings::HomeMiddleClass5 => "res://resources/Objects/Buildings/home_middle_class_5.tscn"@,
        Buildings::Church => "res://resources/Objects/Buildings/church.tscn"@,
        Buildings::OfficeBuildingMedium1 => "res://resources/Objects/Buildings/office_building_medium_1.tscn"@,
        Buildings::OfficeBuildingMedium2 => "res://resources/Objects/Buildings/office_building_medium_2.tscn"@,
        Buildings::OfficeBuildingMedium3 => "res://resources/Objects/Buildings/office_building_medium_3.tscn"@,
        Buildings::OfficeBuildingMedium4 => "res://resources/Objects/Buildings/office_building_medium_4.tscn"@,
        Buildings::OfficeBuildingMedium5 => "res://resources/Objects/Buildings/office_building_medium_5.tscn"@,
        Buildings::OfficeBuildingMedium6 => "res://resources/Objects/Buildings/office_building_medium_6.tscn"@,
        Buildings::AbandonedBuilding1 => "res://resources/Objects/Buildings/abandoned_building_1.tscn"@,
        Buildings::AbandonedBuilding2 => "res://resources/Objects/Buildings/abandoned_building_2.tscn"@,
        Buildings::AbandonedBuilding3 => "res://resources/Objects/Buildings/abandoned_building_3.tscn"@,
        Buildings::AbandonedBuilding4 => "res://resources/Objects/Buildings/abandoned_building_4.tscn"@,
        Buildings::AbandonedBuilding5 => "res://resources/Objects/Buildings/abandoned_building_5.tscn"@,
        Buildings::AbandonedBuilding6 => "res://resources/Objects/Buildings/abandoned_building_6.tscn"@,
        Buildings::HomeUpperClass1 => "res://resources/Objects/Buildings/home_upper_class_1.tscn"@,
        Buildings::HomeUpperClass2 => "res://resources/Objects/Buildings/home_upper_class_2.tscn"@,
        Buildings::HomeUpperClass3 => "res://resources/Objects/Buildings/home_upper_class_3.tscn"@,
        Buildings::HomeUpperClass4 => "res://resources/Objects/Buildings/home_upper_class_4.tscn"@,
        Buildings::Tarmac => "res://resources/Objects/Ground/tarmac.tscn"@,
        Buildings::TarmacRadar => "res://resources/Objects/Buildings/tarmac_radar.tscn"@,
        Buildings::Construction1 => "res://resources/Objects/Buildings/construction_1-2.tscn"@,
        Buildings::Construction2 => "res://resources/Objects/Buildings/construction_1-2.tscn"@,
        Buildings::Construction3 => "res://resources/Objects/Buildings/construction_3.tscn"@,
        Buildings::Construction4 => "res://resources/Objects/Buildings/construction_4.tscn"@,
        Buildings::Construction5 => "res://resources/Objects/Buildings/construction_5.tscn"@,
        Buildings::Construction6 => "res://resources/Objects/Buildings/construction_6.tscn"@,
        Buildings::Construction7 => "res://resources/Objects/Buildings/construction_7.tscn"@,
        Buildings::Construction8 => "res://resources/Objects/Buildings/construction_8.tscn"@,
        Buildings::AirportWarehouse => "res://resources/Objects/Buildings/airport_warehouse.tscn"@,
        Buildings::AirportBuilding1 => "res://resources/Objects/Buildings/airport_building_1.tscn"@,
        Buildings::AirportBuilding2 => "res://resources/Objects/Buildings/airport_building_2.tscn"@,
        Buildings::AirportHangar1 => "res://resources/Objects/Buildings/airport_hangar_1.tscn"@,
        Buildings::AirportRunway => "res://resources/Objects/Buildings/airport_runway.tscn"@,
        Buildings::AirportRunwayIntersection => "res://resources/Objects/Buildings/airport_runway_intersection.tscn"@,
        Buildings::Hangar2 => "res://resources/Objects/Buildings/hangar_2.tscn"@,
        Buildings::CondominiumsMedium1 => "res://resources/Objects/Buildings/condominiums_medium_1.tscn"@,
        Buildings::CondominiumsMedium2 => "res://resources/Objects/Buildings/condominiums_medium_2.tscn"@,
        Buildings::CondominiumsMedium3 => "res://resources/Objects/Buildings/condominiums_medium_3.tscn"@,
        Buildings::CondominiumsLarge1 => "res://resources/Objects/Buildings/condominiums_large_1.tscn"@,
        Buildings::CondominiumsLarge2 => "res://resources/Objects/Buildings/condominiums_large_2.tscn"@,
        Buildings::FactorySmall1 => "res://resources/Objects/Buildings/factory_small_1.tscn"@,
        Buildings::FactorySmall2 => "res://resources/Objects/Buildings/factory_small_2.tscn"@,
        Buildings::FactorySmall3 => "res://resources/Objects/Buildings/factory_small_3.tscn"@,
        Buildings::FactorySmall4 => "res://resources/Objects/Buildings/factory_small_4.tscn"@,
        Buildings::FactorySmall5 => "res://resources/Objects/Buildings/factory_small_5.tscn"@,
        Buildings::FactorySmall6 => "res://resources/Objects/Buildings/factory_small_6.tscn"@,
        Buildings::StationPolice => "res://resources/Objects/Buildings/station_police.tscn"@,
        Buildings::ApartmentsMedium1 => "res://resources/Objects/Buildings/apartments_medium_1.tscn"@,
        Buildings::ApartmentsMedium2 => "res://resources/Objects/Buildings/apartments_medium_2.tscn"@,
        Buildings::ToyStore => "res://resources/Objects/Buildings/toy_store.tscn"@,
        Buildings::IndustrialSubstation => "res://resources/Objects/Buildings/industrial_substation.tscn"@,
        Buildings::OfficesSmall1 => "res://resources/Objects/Buildings/offices_small_1.tscn"@,
        Buildings::OfficesSmall2 => "res://resources/Objects/Buildings/offices_small_2.tscn"@,
        Buildings::OfficesHistoric => "res://resources/Objects/Buildings/offices_historic.tscn"@,
        Buildings::WaterPump => "res://resources/Objects/Buildings/water_pump.tscn"@,
        Buildings::StationHospital => "res://resources/Objects/Buildings/station_hospital.tscn"@,
        Buildings::ConvenienceStore => "res://resources/Objects/Buildings/convenience_store.tscn"@,
        Buildings::StationGas1 => "res://resources/Objects/Buildings/station_gas_1.tscn"@,
        Buildings::StationGas2 => "res://resources/Objects/Buildings/station_gas_2.tscn"@,
        Buildings::HomeLowerClass1 => "res://resources/Objects/Buildings/home_lower_class_1.tscn"@,
        Buildings::HomeLowerClass2 => "res://resources/Objects/Buildings/home_lower_class_2.tscn"@,
        Buildings::HomeLowerClass3 => "res://resources/Objects/Buildings/home_lower_class_3.tscn"@,
        Buildings::Warehouse => "res://resources/Objects/Buildings/warehouse.tscn"@,
        Buildings::AirportCivilianControlTower => "res://resources/Objects/Buildings/airport_civilian_control_tower.tscn"@,
        Buildings::StationFire => "res://resources/Objects/Buildings/station_fire.tscn"@,
        Buildings::PowerplantMicrowave => "res://resources/Objects/Buildings/powerplant_microwave.tscn"@,
        Buildings::ResortHotel => "res://resources/Objects/Buildings/resort_hotel.tscn"@,
        Buildings::ApartmentsLarge1 => "res://resources/Objects/Buildings/apartments_large_1.tscn"@,
        Buildings::ApartmentsLarge2 => "res://resources/Objects/Buildings/apartments_large_2.tscn"@,
        Buildings::ApartmentsSmall1 => "res://resources/Objects/Buildings/apartments_small_1.tscn"@,
        Buildings::ApartmentsSmall2 => "res://resources/Objects/Buildings/apartments_small_2.tscn"@,
        Buildings::ApartmentsSmall3 => "res://resources/Objects/Buildings/apartments_small_3.tscn"@,
        Buildings::TreeCouple => "res://resources/Objects/Buildings/tree_couple.tscn"@,
        Buildings::ChemicalStorage => "res://resources/Objects/Buildings/chemical_storage.tscn"@,
        Buildings::ChemicalProcessing1 => "res://resources/Objects/Buildings/chemical_processing_1.tscn"@,
        Buildings::ChemicalProcessing2 => "res://resources/Objects/Buildings/chemical_processing_2.tscn"@,
        Buildings::School => "res://resources/Objects/Buildings/school.tscn"@,
        Buildings::Library => "res://resources/Objects/Buildings/library.tscn"@,
        Buildings::Marina => "res://resources/Objects/Buildings/marina.tscn"@,
        Buildings::WarehouseLarge1 => "res://resources/Objects/Buildings/warehouse_large_1.tscn"@,
        Buildings::WarehouseLarge2 => "res://resources/Objects/Buildings/warehouse_large_2.tscn"@,
        Buildings::WarehouseSmall1 => "res://resources/Objects/Buildings/warehouse_small_1.tscn"@,
        Buildings::WarehouseSmall2 => "res://resources/Objects/Buildings/warehouse_small_2.tscn"@,
        Buildings::WarehouseMedium => "res://resources/Objects/Buildings/warehouse_medium.tscn"@,
        Buildings::BbInn => "res://resources/Objects/Buildings/bb_inn.tscn"@,
        Buildings::College => "res://resources/Objects/Buildings/college.tscn"@,
        Buildings::ArcologyPlymouth => "res://resources/Objects/Buildings/arcology_plymouth.tscn"@,
        Buildings::ArcologyForest => "res://resources/Objects/Buildings/arcology_forest.tscn"@,
        Buildings::ArcologyDarco => "res://resources/Objects/Buildings/arcology_darco.tscn"@,
        Buildings::ArcologyLaunch => "res://resources/Objects/Buildings/arcology_launch.tscn"@,
        Buildings::MayorsHouse => "res://resources/Objects/Buildings/mayors_house.tscn"@,
        Buildings::Museum => "res://resources/Objects/Buildings/museum.tscn"@,
        Buildings::OfficeRetail => "res://resources/Objects/Buildings/office_retail.tscn"@,
        Buildings::ParkingLot => "res://resources/Objects/Buildings/parking_lot.tscn"@,
        Buildings::ShoppingCentre => "res://resources/Objects/Buildings/shopping_centre.tscn"@,
        Buildings::Theatre => "res://resources/Objects/Buildings/theatre.tscn"@,
        Buildings::WaterTreatment => "res://resources/Objects/Buildings/water_treatment.tscn"@,
    }
}

impl Buildings {
    /// The object id of this kind.
    pub fn id(&self) -> (r: u8)
        ensures
            r == building_id(*self),
    {
        match self {
            Buildings::ParkSmall => 0x0D,
            Buildings::TreeSingle => 0x06,
            Buildings::HomeMiddleClass1 => 0x73,
            Buildings::HomeMiddleClass2 => 0x74,
            Buildings::HomeMiddleClass3 => 0x75,
            Buildings::HomeMiddleClass4 => 0x76,
            Buildings::HomeMiddleClass5 => 0x77,
            Buildings::Church => 0xF7,
            Buildings::OfficeBuildingMedium1 => 0x96,
            Buildings::OfficeBuildingMedium2 => 0x98,
            Buildings::OfficeBuildingMedium3 => 0x9A,
            Buildings::OfficeBuildingMedium4 => 0x9B,
            Buildings::OfficeBuildingMedium5 => 0x9C,
            Buildings::OfficeBuildingMedium6 => 0x9D,
            Buildings::AbandonedBuilding1 => 0x8A,
            Buildings::AbandonedBuilding2 => 0x8B,
            Buildings::AbandonedBuilding3 => 0xAA,
            Buildings::AbandonedBuilding4 => 0xAB,
            Buildings::AbandonedBuilding5 => 0xAC,
            Buildings::AbandonedBuilding6 => 0xAD,
            Buildings::HomeUpperClass1 => 0x78,
            Buildings::HomeUpperClass2 => 0x79,
            Buildings::HomeUpperClass3 => 0x7A,
            Buildings::HomeUpperClass4 => 0x7B,
            Buildings::Tarmac => 0xE6,
            Buildings::TarmacRadar => 0xEA,
            Buildings::Construction1 => 0xC2,
            Buildings::Construction2 => 0xC3,
            Buildings::Construction3 => 0xA6,
            Buildings::Construction4 => 0xA7,
            Buildings::Construction5 => 0xA8,
            Buildings::Construction6 => 0xA9,
            Buildings::Construction7 => 0x88,
            Buildings::Construction8 => 0x89,
            Buildings::AirportWarehouse => 0xE3,
            Buildings::AirportBuilding1 => 0xE4,
            Buildings::AirportBuilding2 => 0xE5,
            Buildings::AirportHangar1 => 0xE8,
            Buildings::AirportRunway => 0xDD,
            Buildings::AirportRunwayIntersection => 0xDF,
            Buildings::Hangar2 => 0xF6,
            Buildings::CondominiumsMedium1 => 0x91,
            Buildings::CondominiumsMedium2 => 0x92,
            Buildings::CondominiumsMedium3 => 0x93,
            Buildings::CondominiumsLarge1 => 0xB0,
            Buildings::CondominiumsLarge2 => 0xB1,
            Buildings::FactorySmall1 => 0xA0,
            Buildings::FactorySmall2 => 0xA1,
            Buildings::FactorySmall3 => 0xA2,
            Buildings::FactorySmall4 => 0xA3,
            Buildings::FactorySmall5 => 0xA4,
            Buildings::FactorySmall6 => 0xA5,
            Buildings::StationPolice => 0xD2,
            Buildings::ApartmentsMedium1 => 0x8F,
            Buildings::ApartmentsMedium2 => 0x90,
            Buildings::ToyStore => 0x83,
            Buildings::IndustrialSubstation => 0x87,
            Buildings::OfficesSmall1 => 0x80,
            Buildings::OfficesSmall2 => 0x81,
            Buildings::OfficesHistoric => 0xBA,
            Buildings::WaterPump => 0xDC,
            Buildings::StationHospital => 0xD1,
            Buildings::ConvenienceStore => 0x7E,
            Buildings::StationGas1 => 0x7C,
            Buildings::StationGas2 => 0x7F,
            Buildings::HomeLowerClass1 => 0x70,
            Buildings::HomeLowerClass2 => 0x71,
            Buildings::HomeLowerClass3 => 0x72,
            Buildings::Warehouse => 0x82,
            Buildings::AirportCivilianControlTower => 0xE1,
            Buildings::StationFire => 0xD3,
            Buildings::PowerplantMicrowave => 0xCD,
            Buildings::ResortHotel => 0x97,
            Buildings::ApartmentsLarge1 => 0xAE,
            Buildings::ApartmentsLarge2 => 0xAF,
            Buildings::ApartmentsSmall1 => 0x8C,
            Buildings::ApartmentsSmall2 => 0x8D,
            Buildings::ApartmentsSmall3 => 0x8E,
            Buildings::TreeCouple => 0x07,
            Buildings::ChemicalStorage => 0x85,
            Buildings::ChemicalProcessing1 => 0xBC,
            Buildings::ChemicalProcessing2 => 0x9F,
            Buildings::School => 0xD6,
            Buildings::Library => 0xF5,
            Buildings::Marina => 0xF8,
            Buildings::WarehouseLarge1 => 0xC0,
            Buildings::WarehouseLarge2 => 0xC1,
            Buildings::WarehouseSmall1 => 0x84,
            Buildings::WarehouseSmall2 => 0x86,
            Buildings::WarehouseMedium => 0x9E,
            Buildings::BbInn => 0x7D,
            Buildings::College => 0xD9,
            Buildings::ArcologyPlymouth => 0xFB,
            Buildings::ArcologyForest => 0xFC,
            Buildings::ArcologyDarco => 0xFD,
            Buildings::ArcologyLaunch => 0xFE,
            Buildings::MayorsHouse => 0xF3,
            Buildings::Museum => 0xD4,
            Buildings::OfficeRetail => 0x99,
            Buildings::ParkingLot => 0xB9,
            Buildings::ShoppingCentre => 0x94,
            Buildings::Theatre => 0xB5,
            Buildings::WaterTreatment => 0xF4,
        }
    }

    /// The kind that an object id stands for, if it stands for one.
    pub fn try_from_u8(id: u8) -> (r: Option<Self>)
        ensures
            r == building_of_id(id),
    {
        match id {
            0x0D => Some(Buildings::ParkSmall),
            0x06 => Some(Buildings::TreeSingle),
            0x73 => Some(Buildings::HomeMiddleClass1),
            0x74 => Some(Buildings::HomeMiddleClass2),
            0x75 => Some(Buildings::HomeMiddleClass3),
            0x76 => Some(Buildings::HomeMiddleClass4),
            0x77 => Some(Buildings::HomeMiddleClass5),
            0xF7 => Some(Buildings::Church),
            0x96 => Some(Buildings::OfficeBuildingMedium1),
            0x98 => Some(Buildings::OfficeBuildingMedium2),
            0x9A => Some(Buildings::OfficeBuildingMedium3),
            0x9B => Some(Buildings::OfficeBuildingMedium4),
            0x9C => Some(Buildings::OfficeBuildingMedium5),
            0x9D => Some(Buildings::OfficeBuildingMedium6),
            0x8A => Some(Buildings::AbandonedBuilding1),
            0x8B => Some(Buildings::AbandonedBuilding2),
            0xAA => Some(Buildings::AbandonedBuilding3),
            0xAB => Some(Buildings::AbandonedBuilding4),
            0xAC => Some(Buildings::AbandonedBuilding5),
            0xAD => Some(Buildings::AbandonedBuilding6),
            0x78 => Some(Buildings::HomeUpperClass1),
            0x79 => Some(Buildings::HomeUpperClass2),
            0x7A => Some(Buildings::HomeUpperClass3),
            0x7B => Some(Buildings::HomeUpperClass4),
            0xE6 => Some(Buildings::Tarmac),
            0xEA => Some(Buildings::TarmacRadar),
            0xC2 => Some(Buildings::Construction1),
            0xC3 => Some(Buildings::Construction2),
            0xA6 => Some(Buildings::Construction3),
            0xA7 => Some(Buildings::Construction4),
            0xA8 => Some(Buildings::Construction5),
            0xA9 => Some(Buildings::Construction6),
            0x88 => Some(Buildings::Construction7),
            0x89 => Some(Buildings::Construction8),
            0xE3 => Some(Buildings::AirportWarehouse),
            0xE4 => Some(Buildings::AirportBuilding1),
            0xE5 => Some(Buildings::AirportBuilding2),
            0xE8 => Some(Buildings::AirportHangar1),
            0xDD => Some(Buildings::AirportRunway),
            0xDF => Some(Buildings::AirportRunwayIntersection),
            0xF6 => Some(Buildings::Hangar2),
            0x91 => Some(Buildings::CondominiumsMedium1),
            0x92 => Some(Buildings::CondominiumsMedium2),
            0x93 => Some(Buildings::CondominiumsMedium3),
            0xB0 => Some(Buildings::CondominiumsLarge1),
            0xB1 => Some(Buildings::CondominiumsLarge2),
            0xA0 => Some(Buildings::FactorySmall1),
            0xA1 => Some(Buildings::FactorySmall2),
            0xA2 => Some(Buildings::FactorySmall3),
            0xA3 => Some(Buildings::FactorySmall4),
            0xA4 => Some(Buildings::FactorySmall5),
            0xA5 => Some(Buildings::FactorySmall6),
            0xD2 => Some(Buildings::StationPolice),
            0x8F => Some(Buildings::ApartmentsMedium1),
            0x90 => Some(Buildings::ApartmentsMedium2),
            0x83 => Some(Buildings::ToyStore),
            0x87 => Some(Buildings::IndustrialSubstation),
            0x80 => Some(Buildings::OfficesSmall1),
            0x81 => Some(Buildings::OfficesSmall2),
            0xBA => Some(Buildings::OfficesHistoric),
            0xDC => Some(Buildings::WaterPump),
            0xD1 => Some(Buildings::StationHospital),
            0x7E => Some(Buildings::ConvenienceStore),
            0x7C => Some(Buildings::StationGas1),
            0x7F => Some(Buildings::StationGas2),
            0x70 => Some(Buildings::HomeLowerClass1),
            0x71 => Some(Buildings::HomeLowerClass2),
            0x72 => Some(Buildings::HomeLowerClass3),
            0x82 => Some(Buildings::Warehouse),
            0xE1 => Some(Buildings::AirportCivilianControlTower),
            0xD3 => Some(Buildings::StationFire),
            0xCD => Some(Buildings::PowerplantMicrowave),
            0x97 => Some(Buildings::ResortHotel),
            0xAE => Some(Buildings::ApartmentsLarge1),
            0xAF => Some(Buildings::ApartmentsLarge2),
            0x8C => Some(Buildings::ApartmentsSmall1),
            0x8D => Some(Buildings::ApartmentsSmall2),
            0x8E => Some(Buildings::ApartmentsSmall3),
            0x07 => Some(Buildings::TreeCouple),
            0x85 => Some(Buildings::ChemicalStorage),
            0xBC => Some(Buildings::ChemicalProcessing1),
            0x9F => Some(Buildings::ChemicalProcessing2),
            0xD6 => Some(Buildings::School),
            0xF5 => Some(Buildings::Library),
            0xF8 => Some(Buildings::Marina),
            0xC0 => Some(Buildings::WarehouseLarge1),
            0xC1 => Some(Buildings::WarehouseLarge2),
            0x84 => Some(Buildings::WarehouseSmall1),
            0x86 => Some(Buildings::WarehouseSmall2),
            0x9E => Some(Buildings::WarehouseMedium),
            0x7D => Some(Buildings::BbInn),
            0xD9 => Some(Buildings::College),
            0xFB => Some(Buildings::ArcologyPlymouth),
            0xFC => Some(Buildings::ArcologyForest),
            0xFD => Some(Buildings::ArcologyDarco),
            0xFE => Some(Buildings::ArcologyLaunch),
            0xF3 => Some(Buildings::MayorsHouse),
            0xD4 => Some(Buildings::Museum),
            0x99 => Some(Buildings::OfficeRetail),
            0xB9 => Some(Buildings::ParkingLot),
            0x94 => Some(Buildings::ShoppingCentre),
            0xB5 => Some(Buildings::Theatre),
            0xF4 => Some(Buildings::WaterTreatment),
            _ => None,
        }
    }

    /// The scene file of this kind.
    pub fn as_str(&self) -> (r: &'static str)
        ensures
            r@ == building_scene_of(*self),
    {
        match self {
            Buildings::ParkSmall => "res://resources/Objects/Buildings/park_small.tscn",
            Buildings::TreeSingle => "res://resources/Objects/Buildings/tree_single.tscn",
            Buildings::HomeMiddleClass1 => "res://resources/Objects/Buildings/home_middle_class_1.tscn",
            Buildings::HomeMiddleClass2 => "res://resources/Objects/Buildings/home_middle_class_2.tscn",
            Buildings::HomeMiddleClass3 => "res://resources/Objects/Buildings/home_middle_class_3.tscn",
            Buildings::HomeMiddleClass4 => "res://resources/Objects/Buildings/home_middle_class_4.tscn",
            Buildings::HomeMiddleClass5 => "res://resources/Objects/Buildings/home_middle_class_5.tscn",
            Buildings::Church => "res://resources/Objects/Buildings/church.tscn",
            Buildings::OfficeBuildingMedium1 => "res://resources/Objects/Buildings/office_building_medium_1.tscn",
            Buildings::OfficeBuildingMedium2 => "res://resources/Objects/Buildings/office_building_medium_2.tscn",
            Buildings::OfficeBuildingMedium3 => "res://resources/Objects/Buildings/office_building_medium_3.tscn",
            Buildings::OfficeBuildingMedium4 => "res://resources/Objects/Buildings/office_building_medium_4.tscn",
            Buildings::OfficeBuildingMedium5 => "res://resources/Objects/Buildings/office_building_medium_5.tscn",
            Buildings::OfficeBuildingMedium6 => "res://resources/Objects/Buildings/office_building_medium_6.tscn",
            Buildings::AbandonedBuilding1 => "res://resources/Objects/Buildings/abandoned_building_1.tscn",
            Buildings::AbandonedBuilding2 => "res://resources/Objects/Buildings/abandoned_building_2.tscn",
            Buildings::AbandonedBuilding3 => "res://resources/Objects/Buildings/abandoned_building_3.tscn",
            Buildings::AbandonedBuilding4 => "res://resources/Objects/Buildings/abandoned_building_4.tscn",
            Buildings::AbandonedBuilding5 => "res://resources/Objects/Buildings/abandoned_building_5.tscn",
            Buildings::AbandonedBuilding6 => "res://resources/Objects/Buildings/abandoned_building_6.tscn",
            Buildings::HomeUpperClass1 => "res://resources/Objects/Buildings/home_upper_class_1.tscn",
            Buildings::HomeUpperClass2 => "res://resources/Objects/Buildings/home_upper_class_2.tscn",
            Buildings::HomeUpperClass3 => "res://resources/Objects/Buildings/home_upper_class_3.tscn",
            Buildings::HomeUpperClass4 => "res://resources/Objects/Buildings/home_upper_class_4.tscn",
            Buildings::Tarmac => "res://resources/Objects/Ground/tarmac.tscn",
            Buildings::TarmacRadar => "res://resources/Objects/Buildings/tarmac_radar.tscn",
            Buildings::Construction1 => "res://resources/Objects/Buildings/construction_1-2.tscn",
            Buildings::Construction2 => "res://resources/Objects/Buildings/construction_1-2.tscn",
            Buildings::Construction3 => "res://resources/Objects/Buildings/construction_3.tscn",
            Buildings::Construction4 => "res://resources/Objects/Buildings/construction_4.tscn",
            Buildings::Construction5 => "res://resources/Objects/Buildings/construction_5.tscn",
            Buildings::Construction6 => "res://resources/Objects/Buildings/construction_6.tscn",
            Buildings::Construction7 => "res://resources/Objects/Buildings/construction_7.tscn",
            Buildings::Construction8 => "res://resources/Objects/Buildings/construction_8.tscn",
            Buildings::AirportWarehouse => "res://resources/Objects/Buildings/airport_warehouse.tscn",
            Buildings::AirportBuilding1 => "res://resources/Objects/Buildings/airport_building_1.tscn",
            Buildings::AirportBuilding2 => "res://resources/Objects/Buildings/airport_building_2.tscn",
            Buildings::AirportHangar1 => "res://resources/Objects/Buildings/airport_hangar_1.tscn",
            Buildings::AirportRunway => "res://resources/Objects/Buildings/airport_runway.tscn",
            Buildings::AirportRunwayIntersection => "res://resources/Objects/Buildings/airport_runway_intersection.tscn",
            Buildings::Hangar2 => "res://resources/Objects/Buildings/hangar_2.tscn",
            Buildings::CondominiumsMedium1 => "res://resources/Objects/Buildings/condominiums_medium_1.tscn",
            Buildings::CondominiumsMedium2 => "res://resources/Objects/Buildings/condominiums_medium_2.tscn",
            Buildings::CondominiumsMedium3 => "res://resources/Objects/Buildings/condominiums_medium_3.tscn",
            Buildings::CondominiumsLarge1 => "res://resources/Objects/Buildings/condominiums_large_1.tscn",
            Buildings::CondominiumsLarge2 => "res://resources/Objects/Buildings/condominiums_large_2.tscn",
            Buildings::FactorySmall1 => "res://resources/Objects/Buildings/factory_small_1.tscn",
            Buildings::FactorySmall2 => "res://resources/Objects/Buildings/factory_small_2.tscn",
            Buildings::FactorySmall3 => "res://resources/Objects/Buildings/factory_small_3.tscn",
            Buildings::FactorySmall4 => "res://resources/Objects/Buildings/factory_small_4.tscn",
            Buildings::FactorySmall5 => "res://resources/Objects/Buildings/factory_small_5.tscn",
            Buildings::FactorySmall6 => "res://resources/Objects/Buildings/factory_small_6.tscn",
            Buildings::StationPolice => "res://resources/Objects/Buildings/station_police.tscn",
            Buildings::ApartmentsMedium1 => "res://resources/Objects/Buildings/apartments_medium_1.tscn",
            Buildings::ApartmentsMedium2 => "res://resources/Objects/Buildings/apartments_medium_2.tscn",
            Buildings::ToyStore => "res://resources/Objects/Buildings/toy_store.tscn",
            Buildings::IndustrialSubstation => "res://resources/Objects/Buildings/industrial_substation.tscn",
            Buildings::OfficesSmall1 => "res://resources/Objects/Buildings/offices_small_1.tscn",
            Buildings::OfficesSmall2 => "res://resources/Objects/Buildings/offices_small_2.tscn",
            Buildings::OfficesHistoric => "res://resources/Objects/Buildings/offices_historic.tscn",
            Buildings::WaterPump => "res://resources/Objects/Buildings/water_pump.tscn",
            Buildings::StationHospital => "res://resources/Objects/Buildings/station_hospital.tscn",
            Buildings::ConvenienceStore => "res://resources/Objects/Buildings/convenience_store.tscn",
            Buildings::StationGas1 => "res://resources/Objects/Buildings/station_gas_1.tscn",
            Buildings::StationGas2 => "res://resources/Objects/Buildings/station_gas_2.tscn",
            Buildings::HomeLowerClass1 => "res://resources/Objects/Buildings/home_lower_class_1.tscn",
            Buildings::HomeLowerClass2 => "res://resources/Objects/Buildings/home_lower_class_2.tscn",
            Buildings::HomeLowerClass3 => "res://resources/Objects/Buildings/home_lower_class_3.tscn",
            Buildings::Warehouse => "res://resources/Objects/Buildings/warehouse.tscn",
            Buildings::AirportCivilianControlTower => "res://resources/Objects/Buildings/airport_civilian_control_tower.tscn",
            Buildings::StationFire => "res://resources/Objects/Buildings/station_fire.tscn",
            Buildings::PowerplantMicrowave => "res://resources/Objects/Buildings/powerplant_microwave.tscn",
            Buildings::ResortHotel => "res://resources/Objects/Buildings/resort_hotel.tscn",
            Buildings::ApartmentsLarge1 => "res://resources/Objects/Buildings/apartments_large_1.tscn",
            Buildings::ApartmentsLarge2 => "res://resources/Objects/Buildings/apartments_large_2.tscn",
            Buildings::ApartmentsSmall1 => "res://resources/Objects/Buildings/apartments_small_1.tscn",
            Buildings::ApartmentsSmall2 => "res://resources/Objects/Buildings/apartments_small_2.tscn",
            Buildings::ApartmentsSmall3 => "res://resources/Objects/Buildings/apartments_small_3.tscn",
            Buildings::TreeCouple => "res://resources/Objects/Buildings/tree_couple.tscn",
            Buildings::ChemicalStorage => "res://resources/Objects/Buildings/chemical_storage.tscn",
            Buildings::ChemicalProcessing1 => "res://resources/Objects/Buildings/chemical_processing_1.tscn",
            Buildings::ChemicalProcessing2 => "res://resources/Objects/Buildings/chemical_processing_2.tscn",
            Buildings::School => "res://resources/Objects/Buildings/school.tscn",
            Buildings::Library => "res://resources/Objects/Buildings/library.tscn",
            Buildings::Marina => "res://resources/Objects/Buildings/marina.tscn",
            Buildings::WarehouseLarge1 => "res://resources/Objects/Buildings/warehouse_large_1.tscn",
            Buildings::WarehouseLarge2 => "res://resources/Objects/Buildings/warehouse_large_2.tscn",
            Buildings::WarehouseSmall1 => "res://resources/Objects/Buildings/warehouse_small_1.tscn",
            Buildings::WarehouseSmall2 => "res://resources/Objects/Buildings/warehouse_small_2.tscn",
            Buildings::WarehouseMedium => "res://resources/Objects/Buildings/warehouse_medium.tscn",
            Buildings::BbInn => "res://resources/Objects/Buildings/bb_inn.tscn",
            Buildings::College => "res://resources/Objects/Buildings/college.tscn",
            Buildings::ArcologyPlymouth => "res://resources/Objects/Buildings/arcology_plymouth.tscn",
            Buildings::ArcologyForest => "res://resources/Objects/Buildings/arcology_forest.tscn",
            Buildings::ArcologyDarco => "res://resources/Objects/Buildings/arcology_darco.tscn",
            Buildings::ArcologyLaunch => "res://resources/Objects/Buildings/arcology_launch.tscn",
            Buildings::MayorsHouse => "res://resources/Objects/Buildings/mayors_house.tscn",
            Buildings::Museum => "res://resources/Objects/Buildings/museum.tscn",
            Buildings::OfficeRetail => "res://resources/Objects/Buildings/office_retail.tscn",
            Buildings::ParkingLot => "res://resources/Objects/Buildings/parking_lot.tscn",
            Buildings::ShoppingCentre => "res://resources/Objects/Buildings/shopping_centre.tscn",
            Buildings::Theatre => "res://resources/Objects/Buildings/theatre.tscn",
            Buildings::WaterTreatment => "res://resources/Objects/Buildings/water_treatment.tscn",
        }
    }
}

/// Reading back the id of a kind of `Buildings` gives that kind, and an id that is read
/// as a kind is that kind's id.
pub proof fn lemma_building_id_round_trip(v: Buildings, id: u8)
    ensures
        building_of_id(building_id(v)) == Some(v),
        building_of_id(id) == Some(v) ==> building_id(v) == id,
{
}

/// The directory that holds the scenes of all objects.
pub open spec fn objects_dir() -> Seq<char> {
    "res://resources/Objects/"@
}

/// Whether a path starts with a prefix.
pub open spec fn path_begins_with(path: Seq<char>, prefix: Seq<char>) -> bool {
    prefix.len() <= path.len() && path.subrange(0, prefix.len() as int) == prefix
}

/// Whether a path ends with a suffix.
pub open spec fn path_ends_with(path: Seq<char>, suffix: Seq<char>) -> bool {
    suffix.len() <= path.len() && path.subrange(path.len() - suffix.len(), path.len() as int) == suffix
}

/// The two kinds of construction site that share one scene.
pub open spec fn shares_construction_scene(v: Buildings) -> bool {
    v == Buildings::Construction1 || v == Buildings::Construction2
}

/// The character of a path at a position, or the null character past its end.
spec fn char_code_at(path: Seq<char>, i: int) -> int {
    if 0 <= i < path.len() {
        path[i] as int
    } else {
        0
    }
}

/// A number that tells the scene paths of all kinds of buildings apart: the path's length
/// and the characters at a few positions where the paths differ.
spec fn scene_code(path: Seq<char>) -> int {
    path.len() as int
        + char_code_at(path, 37) * 1000
        + char_code_at(path, 48) * 1114112000
        + char_code_at(path, 51) * 1241245548544000
        + char_code_at(path, 39) * 1382886560579452928000
        + char_code_at(path, 53) * 1540690511780295460519936000
        + char_code_at(path, 47) * 1716501787460568536110786936832000
        + char_code_at(path, 52) * 1912375239431268932903461055767773184000
        + char_code_at(path, 57) * 2130600202753249893374940803763545317572608000
        + char_code_at(path, 54) * 2373727253089828745207742048762611000851453444096000
        + char_code_at(path, 50) * 2644598017394415282980887909431010067380614499508682752000
        + char_code_at(path, 46) * 2946378386355326799752402990552001488189551181276617558196224000
}

/// The kind of building whose scene path has a given code.
spec fn building_of_scene_code(code: int) -> Option<Buildings> {
    if code == 338833514430862581971526343913650104818757141163840453858951275049 {
        Some(Buildings::ParkSmall)
    } else if code == 341779892817217908771278746904229570335546061441694843995881573050 {
        Some(Buildings::TreeSingle)
    } else if code == 291691764378224706128969975010631432641918634955279645681975397058 {
        Some(Buildings::HomeMiddleClass1)
    } else if code == 291691764378224706128969976923006672073187567858740701449748581058 {
        Some(Buildings::HomeMiddleClass2)
    } else if code == 291691764378224706128969978835381911504456500762201757217521765058 {
        Some(Buildings::HomeMiddleClass3)
    } else if code == 291691764378224706128969980747757150935725433665662812985294949058 {
        Some(Buildings::HomeMiddleClass4)
    } else if code == 291691764378224706128969982660132390366994366569123868753068133058 {
        Some(Buildings::HomeMiddleClass5)
    } else if code == 143820202300263104626045 {
        Some(Buildings::Church)
    } else if code == 309370018828770936158279270060553593320364139686215401805906025063 {
        Some(Buildings::OfficeBuildingMedium1)
    } else if code == 309370018828770936160409870263306843213739080489978947123478633063 {
        Some(Buildings::OfficeBuildingMedium2)
    } else if code == 309370018828770936162540470466060093107114021293742492441051241063 {
        Some(Buildings::OfficeBuildingMedium3)
    } else if code == 309370018828770936164671070668813343000488962097506037758623849063 {
        Some(Buildings::OfficeBuildingMedium4)
    } else if code == 309370018828770936166801670871566592893863902901269583076196457063 {
        Some(Buildings::OfficeBuildingMedium5)
    } else if code == 309370018828770936168932271074319842787238843705033128393769065063 {
        Some(Buildings::OfficeBuildingMedium6)
    } else if code == 309370021473200419024255175776314617488460861388740756079116398059 {
        Some(Buildings::AbandonedBuilding1)
    } else if code == 309370021473200419024255175776314617490001551900521051539636334059 {
        Some(Buildings::AbandonedBuilding2)
    } else if code == 309370021473200419024255175776314617491542242412301347000156270059 {
        Some(Buildings::AbandonedBuilding3)
    } else if code == 309370021473200419024255175776314617493082932924081642460676206059 {
        Some(Buildings::AbandonedBuilding4)
    } else if code == 309370021473200419024255175776314617494623623435861937921196142059 {
        Some(Buildings::AbandonedBuilding5)
    } else if code == 309370021473200419024255175776314617496164313947642233381716078059 {
        Some(Buildings::AbandonedBuilding6)
    } else if code == 318209116963459925476816824439093961696510478872864060782870629057 {
        Some(Buildings::HomeUpperClass1)
    } else if code == 318209116963459925476816824439093961696510478872865302028419173057 {
        Some(Buildings::HomeUpperClass2)
    } else if code == 318209116963459925476816824439093961696510478872866543273967717057 {
        Some(Buildings::HomeUpperClass3)
    } else if code == 318209116963459925476816824439093961696510478872867784519516261057 {
        Some(Buildings::HomeUpperClass4)
    } else if code == 159031954466637086766042 {
        Some(Buildings::Tarmac)
    } else if code == 135533696678126946174291665463261220075172329062277702410764397051 {
        Some(Buildings::TarmacRadar)
    } else if code == 279906068355525956117421402308493470165875719011391288343593075055 {
        Some(Buildings::Construction1)
    } else if code == 279906250832528046334236037265913604974908377017194685534175347053 {
        Some(Buildings::Construction3)
    } else if code == 279906250832528046334236037265915321476695837585730796321112179053 {
        Some(Buildings::Construction4)
    } else if code == 279906250832528046334236037265917037978483298154266907108049011053 {
        Some(Buildings::Construction5)
    } else if code == 279906250832528046334236037265918754480270758722803017894985843053 {
        Some(Buildings::Construction6)
    } else if code == 279906250832528046334236037265920470982058219291339128681922675053 {
        Some(Buildings::Construction7)
    } else if code == 279906250832528046334236037265922187483845679859875239468859507053 {
        Some(Buildings::Construction8)
    } else if code == 306423619285588743008249606968580879669341533196766718175019120056 {
        Some(Buildings::AirportWarehouse)
    } else if code == 294638089872617311078797600514691681805293749822280324868866160057 {
        Some(Buildings::AirportBuilding1)
    } else if code == 294638089872617311078797600514691681805293749822281566114414704057 {
        Some(Buildings::AirportBuilding2)
    } else if code == 285798825128236609716926208289709045758439758328791724666585200055 {
        Some(Buildings::AirportHangar1)
    } else if code == 285799007605238699933740843247137763076409719177275675736146032053 {
        Some(Buildings::AirportRunway)
    } else if code == 285798994382521591842919364956396939182678537987697633995456624066 {
        Some(Buildings::AirportRunwayIntersection)
    } else if code == 324101622499085947972764328960720163700850787589495837459218535047 {
        Some(Buildings::Hangar2)
    } else if code == 279906224386664185270503630469897745582084635359250101394800740060 {
        Some(Buildings::CondominiumsMedium1)
    } else if code == 279906224386666558997756720298642953324133397970250952848244836060 {
        Some(Buildings::CondominiumsMedium2)
    } else if code == 279906224386668932725009810127388161066182160581251804301688932060 {
        Some(Buildings::CondominiumsMedium3)
    } else if code == 279906219097461029265824165004579236589494875145897480283029604059 {
        Some(Buildings::CondominiumsLarge1)
    } else if code == 279906219097461029265824165004579236591035565657677775743549540059 {
        Some(Buildings::CondominiumsLarge2)
    } else if code == 318209172499745312125432538087925426256548569127774835068436596054 {
        Some(Buildings::FactorySmall1)
    } else if code == 318209172499745312125432538087925426256548569127774835069550708054 {
        Some(Buildings::FactorySmall2)
    } else if code == 318209172499745312125432538087925426256548569127774835070664820054 {
        Some(Buildings::FactorySmall3)
    } else if code == 318209172499745312125432538087925426256548569127774835071778932054 {
        Some(Buildings::FactorySmall4)
    } else if code == 318209172499745312125432538087925426256548569127774835072893044054 {
        Some(Buildings::FactorySmall5)
    } else if code == 318209172499745312125432538087925426256548569127774835074007156054 {
        Some(Buildings::FactorySmall6)
    } else if code == 291691764377949353533245649228207436017039606020447013375443060053 {
        Some(Buildings::StationPolice)
    } else if code == 297584505283347255361983083106394247017937648485856997459689586058 {
        Some(Buildings::ApartmentsMedium1)
    } else if code == 297584505283347255361983085018769486449206581389318053227462770058 {
        Some(Buildings::ApartmentsMedium2)
    } else if code == 291691460249177353175487896064836962527386389900198352041017439048 {
        Some(Buildings::ToyStore)
    } else if code == 344726527729842033072172704318876335919062001574419598732886133060 {
        Some(Buildings::IndustrialSubstation)
    } else if code == 318209172499745312125432538087925426256548551150249547535548521054 {
        Some(Buildings::OfficesSmall1)
    } else if code == 318209172499745312125432538087925426256548551150249547536662633054 {
        Some(Buildings::OfficesSmall2)
    } else if code == 327048122537211184913459850157437066593093456889139082959585385055 {
        Some(Buildings::OfficesHistoric)
    } else if code == 338833514430862581971526343913650104818757113506109242269892709049 {
        Some(Buildings::WaterPump)
    } else if code == 309369852219079224114945432214128490667531084767417204969898100055 {
        Some(Buildings::StationHospital)
    } else if code == 338833781535497337805526039864661478548363893501943822925365366056 {
        Some(Buildings::ConvenienceStore)
    } else if code == 144372802746614735234980761645030065673508018216595569369153652052 {
        Some(Buildings::StationGas1)
    } else if code == 147319181132970062034733164635582067161697569397872186927349876052 {
        Some(Buildings::StationGas2)
    } else if code == 318209116963459925476816824439093961696510466426885015567794277057 {
        Some(Buildings::HomeLowerClass1)
    } else if code == 318209116963459925476816824439093961696510466426886256813342821057 {
        Some(Buildings::HomeLowerClass2)
    } else if code == 318209116963459925476816824439093961696510466426887498058891365057 {
        Some(Buildings::HomeLowerClass3)
    } else if code == 291691460249177353175487896064836962527386382985765549143752805048 {
        Some(Buildings::Warehouse)
    } else if code == 318209116963462299434174860469594452960589024344305925490802800069 {
        Some(Buildings::AirportCivilianControlTower)
    } else if code == 135533696678126946174291665463261220075172345656916429364199540051 {
        Some(Buildings::StationFire)
    } else if code == 309370045274582575573992766588920860850765687472505014302408805059 {
        Some(Buildings::PowerplantMicrowave)
    } else if code == 135533696678126946174291665463261220075172352571349232261464175051 {
        Some(Buildings::ResortHotel)
    } else if code == 285798954713551330679540391543051125856812234480842666371645554057 {
        Some(Buildings::ApartmentsLarge1)
    } else if code == 285798954713551330679540391543051125856812234480843907617194098057 {
        Some(Buildings::ApartmentsLarge2)
    } else if code == 321155495349815252276569227429645963184700018991048193697644658057 {
        Some(Buildings::ApartmentsSmall1)
    } else if code == 321155495349815252276569227429645963184700018991049434943193202057 {
        Some(Buildings::ApartmentsSmall2)
    } else if code == 321155495349815252276569227429645963184700018991050676188741746057 {
        Some(Buildings::ApartmentsSmall3)
    } else if code == 341779892817217908771278746904229570335546039315509874724634725050 {
        Some(Buildings::TreeCouple)
    } else if code == 335887257696277165312717059129063890527275278002081931095113837055 {
        Some(Buildings::ChemicalStorage)
    } else if code == 291691737932085492469513230957840582932929544286427056227680365060 {
        Some(Buildings::ChemicalProcessing1)
    } else if code == 291691737932087866196766320786585790674978306897427907681124461060 {
        Some(Buildings::ChemicalProcessing2)
    } else if code == 149351748542580916335045 {
        Some(Buildings::School)
    } else if code == 157649067906057633906046 {
        Some(Buildings::Library)
    } else if code == 134139996376206934121045 {
        Some(Buildings::Marina)
    } else if code == 335887265630045106496178921867915872124413852520630351253799013056 {
        Some(Buildings::WarehouseLarge1)
    } else if code == 335887268274643123890594204848803781555423919901244850762481765056 {
        Some(Buildings::WarehouseLarge2)
    } else if code == 285798833062004550900388071028540429334128785281608406706946149056 {
        Some(Buildings::WarehouseSmall1)
    } else if code == 285798835706602568294803354009428338765138852662222906215628901056 {
        Some(Buildings::WarehouseSmall2)
    } else if code == 294637960287302590116183417261349601706921262607136898544894053055 {
        Some(Buildings::WarehouseMedium)
    } else if code == 152117521663739822185045 {
        Some(Buildings::BbInn)
    } else if code == 142437315739683651692046 {
        Some(Buildings::College)
    } else if code == 321155519151159429190257470864004615403319487096333622753689711056 {
        Some(Buildings::ArcologyPlymouth)
    } else if code == 297584523795258024527165717154095745874970918080901046236086383054 {
        Some(Buildings::ArcologyForest)
    } else if code == 291691764377949353533245649228224601034914211705808121244811375053 {
        Some(Buildings::ArcologyDarco)
    } else if code == 324101929272455965724937344069036295240077509615812831655493743054 {
        Some(Buildings::ArcologyLaunch)
    } else if code == 135533696678126946174291665463261220075172351188462671682011247051 {
        Some(Buildings::MayorsHouse)
    } else if code == 150734635103160369253045 {
        Some(Buildings::Museum)
    } else if code == 318209127541579016420372538087598153476691524083050399508201577052 {
        Some(Buildings::OfficeRetail)
    } else if code == 341779892817217908771278746904229570335546054527262041098616939050 {
        Some(Buildings::ParkingLot)
    } else if code == 341780199590587926523451762012374051696026716934194835328663664054 {
        Some(Buildings::ShoppingCentre)
    } else if code == 157649067906057633889046 {
        Some(Buildings::Theatre)
    } else if code == 297584523795258024527165717154087163366033593112035523030155365054 {
        Some(Buildings::WaterTreatment)
    } else {
        None
    }
}

/// What holds of the scene path of one kind of building.
spec fn scene_path_facts(v: Buildings) -> bool {
    let path = building_scene_of(v);
    &&& path_begins_with(path, objects_dir())
    &&& path_ends_with(path, ".tscn"@)
    &&& (path_begins_with(path, "res://resources/Objects/Ground/"@) <==> v == Buildings::Tarmac)
    &&& (path_begins_with(path, "res://resources/Objects/Buildings/"@) <==> v != Buildings::Tarmac)
    &&& building_of_scene_code(scene_code(path)) == Some(
        if v == Buildings::Construction2 { Buildings::Construction1 } else { v },
    )
}

proof fn lemma_scene_path_facts_park_small()
    ensures
        scene_path_facts(Buildings::ParkSmall),
{
    reveal_strlit("res://resources/Objects/");
    reveal_strlit("res://resources/Objects/Ground/");
    reveal_strlit("res://resources/Objects/Buildings/");
    reveal_strlit(".tscn");
    reveal_strlit("res://resources/Objects/Buildings/park_small.tscn");
    let path = building_scene_of(Buildings::ParkSmall);
    assert(path.subrange(0, 24) =~= objects_dir());
    assert(path.subrange(44, 49) =~= ".tscn"@);
    assert(path.subrange(0, 34) =~= "res://resources/Objects/Buildings/"@);
    assert(path.subrange(0, 31)[24] != "res://resources/Objects/Ground/"@[24]);
}

proof fn lemma_scene_path_facts_tree_single()
    ensures
        scene_path_facts(Buildings::TreeSingle),
{
    reveal_strlit("res://resources/Objects/");
    reveal_strlit("res://resources/Objects/Ground/");
    reveal_strlit("res://resources/Objects/Buildings/");
    reveal_strlit(".tscn");
    reveal_strlit("res://resources/Objects/Buildings/tree_single.tscn");
    let path = building_scene_of(Buildings::TreeSingle);
    assert(path.subrange(0, 24) =~= objects_dir());
    assert(path.subrange(45, 50) =~= ".tscn"@);
    assert(path.subrange(0, 34) =~= "res://resources/Objects/Buildings/"@);
    assert(path.subrange(0, 31)[24] != "res://resources/Objects/Ground/"@[24]);
}

proof fn lemma_scene_path_facts_home_middle_class_1()
    ensures
        scene_path_facts(Buildings::HomeMiddleClass1),
{
    reveal_strlit("res://resources/Objects/");
    reveal_strlit("res://resources/Objects/Ground/");
    reveal_strlit("res://resources/Objects/Buildings/");
    reveal_strlit(".tscn");
    reveal_strlit("res://resources/Objects/Buildings/home_middle_class_1.tscn");
    let path = building_scene_of(Buildings::HomeMiddleClass1);
    assert(path.subrange(0, 24) =~= objects_dir());
    assert(path.subrange(53, 58) =~= ".tscn"@);
    assert(path.subrange(0, 34) =~= "res://resources/Objects/Buildings/"@);
    assert(path.subrange(0, 31)[24] != "res://resources/Objects/Ground/"@[24]);
}

proof fn lemma_scene_path_facts_home_middle_class_2()
    ensures
        scene_path_facts(Buildings::HomeMiddleClass2),
{
    reveal_strlit("res://resources/Objects/");
    reveal_strlit("res://resources/Objects/Ground/");
    reveal_strlit("res://resources/Objects/Buildings/");
    reveal_strlit(".tscn");
    reveal_strlit("res://resources/Objects/Buildings/home_middle_class_2.tscn");
    let path = building_scene_of(Buildings::HomeMiddleClass2);
    assert(path.subrange(0, 24) =~= objects_dir());
    assert(path.subrange(53, 58) =~= ".tscn"@);
    assert(path.subrange(0, 34) =~= "res://resources/Objects/Buildings/"@);
    assert(path.subrange(0, 31)[24] != "res://resources/Objects/Ground/"@[24]);
}

proof fn lemma_scene_path_facts_home_middle_class_3()
    ensures
        scene_path_facts(Buildings::HomeMiddleClass3),
{
    reveal_strlit("res://resources/Objects/");
    reveal_strlit("res://resources/Objects/Ground/");
    reveal_strlit("res://resources/Objects/Buildings/");
    reveal_strlit(".tscn");
    reveal_strlit("res://resources/Objects/Buildings/home_middle_class_3.tscn");
    let path = building_scene_of(Buildings::HomeMiddleClass3);
    assert(path.subrange(0, 24) =~= objects_dir());
    assert(path.subrange(53, 58) =~= ".tscn"@);
    assert(path.subrange(0, 34) =~= "res://resources/Objects/Buildings/"@);
    assert(path.subrange(0, 31)[24] != "res://resources/Objects/Ground/"@[24]);
}

proof fn lemma_scene_path_facts_home_middle_class_4()
    ensures
        scene_path_facts(Buildings::HomeMiddleClass4),
{
    reveal_strlit("res://resources/Objects/");
    reveal_strlit("res://resources/Objects/Ground/");
    reveal_strlit("res://resources/Objects/Buildings/");
    reveal_strlit(".tscn");
    reveal_strlit("res://resources/Objects/Buildings/home_middle_class_4.tscn");
    let path = building_scene_of(Buildings::HomeMiddleClass4);
    assert(path.subrange(0, 24) =~= objects_dir());
    assert(path.subrange(53, 58) =~= ".tscn"@);
    assert(path.subrange(0, 34) =~= "res://resources/Objects/Buildings/"@);
    assert(path.subrange(0, 31)[24] != "res://resources/Objects/Ground/"@[24]);
}

proof fn lemma_scene_path_facts_home_middle_class_5()
    ensures
        scene_path_facts(Buildings::HomeMiddleClass5),
{
    reveal_strlit("res://resources/Objects/");
    reveal_strlit("res://resources/Objects/Ground/");
    reveal_strlit("res://resources/Objects/Buildings/");
    reveal_strlit(".tscn");
    reveal_strlit("res://resources/Objects/Buildings/home_middle_class_5.tscn");
    let path = building_scene_of(Buildings::HomeMiddleClass5);
    assert(path.subrange(0, 24) =~= objects_dir());
    assert(path.subrange(53, 58) =~= ".tscn"@);
    assert(path.subrange(0, 34) =~= "res://resources/Objects/Buildings/"@);
    assert(path.subrange(0, 31)[24] != "res://resources/Objects/Ground/"@[24]);
}

proof fn lemma_scene_path_facts_church()
    ensures
        scene_path_facts(Buildings::Church),
{
    reveal_strlit("res://resources/Objects/");
    reveal_strlit("res://resources/Objects/Ground/");
    reveal_strlit("res://resources/Objects/Buildings/");
    reveal_strlit(".tscn");
    reveal_strlit("res://resources/Objects/Buildings/church.tscn");
    let path = building_scene_of(Buildings::Church);
    assert(path.subrange(0, 24) =~= objects_dir());
    assert(path.subrange(40, 45) =~= ".tscn"@);
    assert(path.subrange(0, 34) =~= "res://resources/Objects/Buildings/"@);
    assert(path.subrange(0, 31)[24] != "res://resources/Objects/Ground/"@[24]);
}

proof fn lemma_scene_path_facts_office_building_medium_1()
    ensures
        scene_path_facts(Buildings::OfficeBuildingMedium1),
{
    reveal_strlit("res://resources/Objects/");
    reveal_strlit("res://resources/Objects/Ground/");
    reveal_strlit("res://resources/Objects/Buildings/");
    reveal_strlit(".tscn");
    reveal_strlit("res://resources/Objects/Buildings/office_building_medium_1.tscn");
    let path = building_scene_of(Buildings::OfficeBuildingMedium1);
    assert(path.subrange(0, 24) =~= objects_dir());
    assert(path.subrange(58, 63) =~= ".tscn"@);
    assert(path.subrange(0, 34) =~= "res://resources/Objects/Buildings/"@);
    assert(path.subrange(0, 31)[24] != "res://resources/Objects/Ground/"@[24]);
}

proof fn lemma_scene_path_facts_office_building_medium_2()
    ensures
        scene_path_facts(Buildings::OfficeBuildingMedium2),
{
    reveal_strlit("res://resources/Objects/");
    reveal_strlit("res://resources/Objects/Ground/");
    reveal_strlit("res://resources/Objects/Buildings/");
    reveal_strlit(".tscn");
    reveal_strlit("res://resources/Objects/Buildings/office_building_medium_2.tscn");
    let path = building_scene_of(Buildings::OfficeBuildingMedium2);
    assert(path.subrange(0, 24) =~= objects_dir());
    assert(path.subrange(58, 63) =~= ".tscn"@);
    assert(path.subrange(0, 34) =~= "res://resources/Objects/Buildings/"@);
    assert(path.subrange(0, 31)[24] != "res://resources/Objects/Ground/"@[24]);
}

proof fn lemma_scene_path_facts_office_building_medium_3()
    ensures
        scene_path_facts(Buildings::OfficeBuildingMedium3),
{
    reveal_strlit("res://resources/Objects/");
    reveal_strlit("res://resources/Objects/Ground/");
    reveal_strlit("res://resources/Objects/Buildings/");
    reveal_strlit(".tscn");
    reveal_strlit("res://resources/Objects/Buildings/office_building_medium_3.tscn");
    let path = building_scene_of(Buildings::OfficeBuildingMedium3);
    assert(path.subrange(0, 24) =~= objects_dir());
    assert(path.subrange(58, 63) =~= ".tscn"@);
    assert(path.subrange(0, 34) =~= "res://resources/Objects/Buildings/"@);
    assert(path.subrange(0, 31)[24] != "res://resources/Objects/Ground/"@[24]);
}

proof fn lemma_scene_path_facts_office_building_medium_4()
    ensures
        scene_path_facts(Buildings::OfficeBuildingMedium4),
{
    reveal_strlit("res://resources/Objects/");
    reveal_strlit("res://resources/Objects/Ground/");
    reveal_strlit("res://resources/Objects/Buildings/");
    reveal_strlit(".tscn");
    reveal_strlit("res://resources/Objects/Buildings/office_building_medium_4.tscn");
    let path = building_scene_of(Buildings::OfficeBuildingMedium4);
    assert(path.subrange(0, 24) =~= objects_dir());
    assert(path.subrange(58, 63) =~= ".tscn"@);
    assert(path.subrange(0, 34) =~= "res://resources/Objects/Buildings/"@);
    assert(path.subrange(0, 31)[24] != "res://resources/Objects/Ground/"@[24]);
}

proof fn lemma_scene_path_facts_office_building_medium_5()
    ensures
        scene_path_facts(Buildings::OfficeBuildingMedium5),
{
    reveal_strlit("res://resources/Objects/");
    reveal_strlit("res://resources/Objects/Ground/");
    reveal_strlit("res://resources/Objects/Buildings/");
    reveal_strlit(".tscn");
    reveal_strlit("res://resources/Objects/Buildings/office_building_medium_5.tscn");
    let path = building_scene_of(Buildings::OfficeBuildingMedium5);
    assert(path.subrange(0, 24) =~= objects_dir());
    assert(path.subrange(58, 63) =~= ".tscn"@);
    assert(path.subrange(0, 34) =~= "res://resources/Objects/Buildings/"@);
    assert(path.subrange(0, 31)[24] != "res://resources/Objects/Ground/"@[24]);
}

proof fn lemma_scene_path_facts_office_building_medium_6()
    ensures
        scene_path_facts(Buildings::OfficeBuildingMedium6),
{
    reveal_strlit("res://resources/Objects/");
    reveal_strlit("res://resources/Objects/Ground/");
    reveal_strlit("res://resources/Objects/Buildings/");
    reveal_strlit(".tscn");
    reveal_strlit("res://resources/Objects/Buildings/office_building_medium_6.tscn");
    let path = building_scene_of(Buildings::OfficeBuildingMedium6);
    assert(path.subrange(0, 24) =~= objects_dir());
    assert(path.subrange(58, 63) =~= ".tscn"@);
    assert(path.subrange(0, 34) =~= "res://resources/Objects/Buildings/"@);
    assert(path.subrange(0, 31)[24] != "res://resources/Objects/Ground/"@[24]);
}

proof fn lemma_scene_path_facts_abandoned_building_1()
    ensures
        scene_path_facts(Buildings::AbandonedBuilding1),
{
    reveal_strlit("res://resources/Objects/");
    reveal_strlit("res://resources/Objects/Ground/");
    reveal_strlit("res://resources/Objects/Buildings/");
    reveal_strlit(".tscn");
    reveal_strlit("res://resources/Objects/Buildings/abandoned_building_1.tscn");
    let path = building_scene_of(Buildings::AbandonedBuilding1);
    assert(path.subrange(0, 24) =~= objects_dir());
    assert(path.subrange(54, 59) =~= ".tscn"@);
    assert(path.subrange(0, 34) =~= "res://resources/Objects/Buildings/"@);
    assert(path.subrange(0, 31)[24] != "res://resources/Objects/Ground/"@[24]);
}

proof fn lemma_scene_path_facts_abandoned_building_2()
    ensures
        scene_path_facts(Buildings::AbandonedBuilding2),
{
    reveal_strlit("res://resources/Objects/");
    reveal_strlit("res://resources/Objects/Ground/");
    reveal_strlit("res://resources/Objects/Buildings/");
    reveal_strlit(".tscn");
    reveal_strlit("res://resources/Objects/Buildings/abandoned_building_2.tscn");
    let path = building_scene_of(Buildings::AbandonedBuilding2);
    assert(path.subrange(0, 24) =~= objects_dir());
    assert(path.subrange(54, 59) =~= ".tscn"@);
    assert(path.subrange(0, 34) =~= "res://resources/Objects/Buildings/"@);
    assert(path.subrange(0, 31)[24] != "res://resources/Objects/Ground/"@[24]);
}

proof fn lemma_scene_path_facts_abandoned_building_3()
    ensures
        scene_path_facts(Buildings::AbandonedBuilding3),
{
    reveal_strlit("res://resources/Objects/");
    reveal_strlit("res://resources/Objects/Ground/");
    reveal_strlit("res://resources/Objects/Buildings/");
    reveal_strlit(".tscn");
    reveal_strlit("res://resources/Objects/Buildings/abandoned_building_3.tscn");
    let path = building_scene_of(Buildings::AbandonedBuilding3);
    assert(path.subrange(0, 24) =~= objects_dir());
    assert(path.subrange(54, 59) =~= ".tscn"@);
    assert(path.subrange(0, 34) =~= "res://resources/Objects/Buildings/"@);
    assert(path.subrange(0, 31)[24] != "res://resources/Objects/Ground/"@[24]);
}

proof fn lemma_scene_path_facts_abandoned_building_4()
    ensures
        scene_path_facts(Buildings::AbandonedBuilding4),
{
    reveal_strlit("res://resources/Objects/");
    reveal_strlit("res://resources/Objects/Ground/");
    reveal_strlit("res://resources/Objects/Buildings/");
    reveal_strlit(".tscn");
    reveal_strlit("res://resources/Objects/Buildings/abandoned_building_4.tscn");
    let path = building_scene_of(Buildings::AbandonedBuilding4);
    assert(path.subrange(0, 24) =~= objects_dir());
    assert(path.subrange(54, 59) =~= ".tscn"@);
    assert(path.subrange(0, 34) =~= "res://resources/Objects/Buildings/"@);
    assert(path.subrange(0, 31)[24] != "res://resources/Objects/Ground/"@[24]);
}

proof fn lemma_scene_path_facts_abandoned_building_5()
    ensures
        scene_path_facts(Buildings::AbandonedBuilding5),
{
    reveal_strlit("res://resources/Objects/");
    reveal_strlit("res://resources/Objects/Ground/");
    reveal_strlit("res://resources/Objects/Buildings/");
    reveal_strlit(".tscn");
    reveal_strlit("res://resources/Objects/Buildings/abandoned_building_5.tscn");
    let path = building_scene_of(Buildings::AbandonedBuilding5);
    assert(path.subrange(0, 24) =~= objects_dir());
    assert(path.subrange(54, 59) =~= ".tscn"@);
    assert(path.subrange(0, 34) =~= "res://resources/Objects/Buildings/"@);
    assert(path.subrange(0, 31)[24] != "res://resources/Objects/Ground/"@[24]);
}

proof fn lemma_scene_path_facts_abandoned_building_6()
    ensures
        scene_path_facts(Buildings::AbandonedBuilding6),
{
    reveal_strlit("res://resources/Objects/");
    reveal_strlit("res://resources/Objects/Ground/");
    reveal_strlit("res://resources/Objects/Buildings/");
    reveal_strlit(".tscn");
    reveal_strlit("res://resources/Objects/Buildings/abandoned_building_6.tscn");
    let path = building_scene_of(Buildings::AbandonedBuilding6);
    assert(path.subrange(0, 24) =~= objects_dir());
    assert(path.subrange(54, 59) =~= ".tscn"@);
    assert(path.subrange(0, 34) =~= "res://resources/Objects/Buildings/"@);
    assert(path.subrange(0, 31)[24] != "res://resources/Objects/Ground/"@[24]);
}

proof fn lemma_scene_path_facts_home_upper_class_1()
    ensures
        scene_path_facts(Buildings::HomeUpperClass1),
{
    reveal_strlit("res://resources/Objects/");
    reveal_strlit("res://resources/Objects/Ground/");
    reveal_strlit("res://resources/Objects/Buildings/");
    reveal_strlit(".tscn");
    reveal_strlit("res://resources/Objects/Buildings/home_upper_class_1.tscn");
    let path = building_scene_of(Buildings::HomeUpperClass1);
    assert(path.subrange(0, 24) =~= objects_dir());
    assert(path.subrange(52, 57) =~= ".tscn"@);
    assert(path.subrange(0, 34) =~= "res://resources/Objects/Buildings/"@);
    assert(path.subrange(0, 31)[24] != "res://resources/Objects/Ground/"@[24]);
}

proof fn lemma_scene_path_facts_home_upper_class_2()
    ensures
        scene_path_facts(Buildings::HomeUpperClass2),
{
    reveal_strlit("res://resources/Objects/");
    reveal_strlit("res://resources/Objects/Ground/");
    reveal_strlit("res://resources/Objects/Buildings/");
    reveal_strlit(".tscn");
    reveal_strlit("res://resources/Objects/Buildings/home_upper_class_2.tscn");
    let path = building_scene_of(Buildings::HomeUpperClass2);
    assert(path.subrange(0, 24) =~= objects_dir());
    assert(path.subrange(52, 57) =~= ".tscn"@);
    assert(path.subrange(0, 34) =~= "res://resources/Objects/Buildings/"@);
    assert(path.subrange(0, 31)[24] != "res://resources/Objects/Ground/"@[24]);
}

proof fn lemma_scene_path_facts_home_upper_class_3()
    ensures
        scene_path_facts(Buildings::HomeUpperClass3),
{
    reveal_strlit("res://resources/Objects/");
    reveal_strlit("res://resources/Objects/Ground/");
    reveal_strlit("res://resources/Objects/Buildings/");
    reveal_strlit(".tscn");
    reveal_strlit("res://resources/Objects/Buildings/home_upper_class_3.tscn");
    let path = building_scene_of(Buildings::HomeUpperClass3);
    assert(path.subrange(0, 24) =~= objects_dir());
    assert(path.subrange(52, 57) =~= ".tscn"@);
    assert(path.subrange(0, 34) =~= "res://resources/Objects/Buildings/"@);
    assert(path.subrange(0, 31)[24] != "res://resources/Objects/Ground/"@[24]);
}

proof fn lemma_scene_path_facts_home_upper_class_4()
    ensures
        scene_path_facts(Buildings::HomeUpperClass4),
{
    reveal_strlit("res://resources/Objects/");
    reveal_strlit("res://resources/Objects/Ground/");
    reveal_strlit("res://resources/Objects/Buildings/");
    reveal_strlit(".tscn");
    reveal_strlit("res://resources/Objects/Buildings/home_upper_class_4.tscn");
    let path = building_scene_of(Buildings::HomeUpperClass4);
    assert(path.subrange(0, 24) =~= objects_dir());
    assert(path.subrange(52, 57) =~= ".tscn"@);
    assert(path.subrange(0, 34) =~= "res://resources/Objects/Buildings/"@);
    assert(path.subrange(0, 31)[24] != "res://resources/Objects/Ground/"@[24]);
}

proof fn lemma_scene_path_facts_tarmac()
    ensures
        scene_path_facts(Buildings::Tarmac),
{
    reveal_strlit("res://resources/Objects/");
    reveal_strlit("res://resources/Objects/Ground/");
    reveal_strlit("res://resources/Objects/Buildings/");
    reveal_strlit(".tscn");
    reveal_strlit("res://resources/Objects/Ground/tarmac.tscn");
    let path = building_scene_of(Buildings::Tarmac);
    assert(path.subrange(0, 24) =~= objects_dir());
    assert(path.subrange(37, 42) =~= ".tscn"@);
    assert(path.subrange(0, 31) =~= "res://resources/Objects/Ground/"@);
    assert(path.subrange(0, 34)[24] != "res://resources/Objects/Buildings/"@[24]);
}

proof fn lemma_scene_path_facts_tarmac_radar()
    ensures
        scene_path_facts(Buildings::TarmacRadar),
{
    reveal_strlit("res://resources/Objects/");
    reveal_strlit("res://resources/Objects/Ground/");
    reveal_strlit("res://resources/Objects/Buildings/");
    reveal_strlit(".tscn");
    reveal_strlit("res://resources/Objects/Buildings/tarmac_radar.tscn");
    let path = building_scene_of(Buildings::TarmacRadar);
    assert(path.subrange(0, 24) =~= objects_dir());
    assert(path.subrange(46, 51) =~= ".tscn"@);
    assert(path.subrange(0, 34) =~= "res://resources/Objects/Buildings/"@);
    assert(path.subrange(0, 31)[24] != "res://resources/Objects/Ground/"@[24]);
}

proof fn lemma_scene_path_facts_construction_1()
    ensures
        scene_path_facts(Buildings::Construction1),
{
    reveal_strlit("res://resources/Objects/");
    reveal_strlit("res://resources/Objects/Ground/");
    reveal_strlit("res://resources/Objects/Buildings/");
    reveal_strlit(".tscn");
    reveal_strlit("res://resources/Objects/Buildings/construction_1-2.tscn");
    let path = building_scene_of(Buildings::Construction1);
    assert(path.subrange(0, 24) =~= objects_dir());
    assert(path.subrange(50, 55) =~= ".tscn"@);
    assert(path.subrange(0, 34) =~= "res://resources/Objects/Buildings/"@);
    assert(path.subrange(0, 31)[24] != "res://resources/Objects/Ground/"@[24]);
}

proof fn lemma_scene_path_facts_construction_2()
    ensures
        scene_path_facts(Buildings::Construction2),
{
    reveal_strlit("res://resources/Objects/");
    reveal_strlit("res://resources/Objects/Ground/");
    reveal_strlit("res://resources/Objects/Buildings/");
    reveal_strlit(".tscn");
    reveal_strlit("res://resources/Objects/Buildings/construction_1-2.tscn");
    let path = building_scene_of(Buildings::Construction2);
    assert(path.subrange(0, 24) =~= objects_dir());
    assert(path.subrange(50, 55) =~= ".tscn"@);
    assert(path.subrange(0, 34) =~= "res://resources/Objects/Buildings/"@);
    assert(path.subrange(0, 31)[24] != "res://resources/Objects/Ground/"@[24]);
}

proof fn lemma_scene_path_facts_construction_3()
    ensures
        scene_path_facts(Buildings::Construction3),
{
    reveal_strlit("res://resources/Objects/");
    reveal_strlit("res://resources/Objects/Ground/");
    reveal_strlit("res://resources/Objects/Buildings/");
    reveal_strlit(".tscn");
    reveal_strlit("res://resources/Objects/Buildings/construction_3.tscn");
    let path = building_scene_of(Buildings::Construction3);
    assert(path.subrange(0, 24) =~= objects_dir());
    assert(path.subrange(48, 53) =~= ".tscn"@);
    assert(path.subrange(0, 34) =~= "res://resources/Objects/Buildings/"@);
    assert(path.subrange(0, 31)[24] != "res://resources/Objects/Ground/"@[24]);
}

proof fn lemma_scene_path_facts_construction_4()
    ensures
        scene_path_facts(Buildings::Construction4),
{
    reveal_strlit("res://resources/Objects/");
    reveal_strlit("res://resources/Objects/Ground/");
    reveal_strlit("res://resources/Objects/Buildings/");
    reveal_strlit(".tscn");
    reveal_strlit("res://resources/Objects/Buildings/construction_4.tscn");
    let path = building_scene_of(Buildings::Construction4);
    assert(path.subrange(0, 24) =~= objects_dir());
    assert(path.subrange(48, 53) =~= ".tscn"@);
    assert(path.subrange(0, 34) =~= "res://resources/Objects/Buildings/"@);
    assert(path.subrange(0, 31)[24] != "res://resources/Objects/Ground/"@[24]);
}

proof fn lemma_scene_path_facts_construction_5()
    ensures
        scene_path_facts(Buildings::Construction5),
{
    reveal_strlit("res://resources/Objects/");
    reveal_strlit("res://resources/Objects/Ground/");
    reveal_strlit("res://resources/Objects/Buildings/");
    reveal_strlit(".tscn");
    reveal_strlit("res://resources/Objects/Buildings/construction_5.tscn");
    let path = building_scene_of(Buildings::Construction5);
    assert(path.subrange(0, 24) =~= objects_dir());
    assert(path.subrange(48, 53) =~= ".tscn"@);
    assert(path.subrange(0, 34) =~= "res://resources/Objects/Buildings/"@);
    assert(path.subrange(0, 31)[24] != "res://resources/Objects/Ground/"@[24]);
}

proof fn lemma_scene_path_facts_construction_6()
    ensures
        scene_path_facts(Buildings::Construction6),
{
    reveal_strlit("res://resources/Objects/");
    reveal_strlit("res://resources/Objects/Ground/");
    reveal_strlit("res://resources/Objects/Buildings/");
    reveal_strlit(".tscn");
    reveal_strlit("res://resources/Objects/Buildings/construction_6.tscn");
    let path = building_scene_of(Buildings::Construction6);
    assert(path.subrange(0, 24) =~= objects_dir());
    assert(path.subrange(48, 53) =~= ".tscn"@);
    assert(path.subrange(0, 34) =~= "res://resources/Objects/Buildings/"@);
    assert(path.subrange(0, 31)[24] != "res://resources/Objects/Ground/"@[24]);
}

proof fn lemma_scene_path_facts_construction_7()
    ensures
        scene_path_facts(Buildings::Construction7),
{
    reveal_strlit("res://resources/Objects/");
    reveal_strlit("res://resources/Objects/Ground/");
    reveal_strlit("res://resources/Objects/Buildings/");
    reveal_strlit(".tscn");
    reveal_strlit("res://resources/Objects/Buildings/construction_7.tscn");
    let path = building_scene_of(Buildings::Construction7);
    assert(path.subrange(0, 24) =~= objects_dir());
    assert(path.subrange(48, 53) =~= ".tscn"@);
    assert(path.subrange(0, 34) =~= "res://resources/Objects/Buildings/"@);
    assert(path.subrange(0, 31)[24] != "res://resources/Objects/Ground/"@[24]);
}

proof fn lemma_scene_path_facts_construction_8()
    ensures
        scene_path_facts(Buildings::Construction8),
{
    reveal_strlit("res://resources/Objects/");
    reveal_strlit("res://resources/Objects/Ground/");
    reveal_strlit("res://resources/Objects/Buildings/");
    reveal_strlit(".tscn");
    reveal_strlit("res://resources/Objects/Buildings/construction_8.tscn");
    let path = building_scene_of(Buildings::Construction8);
    assert(path.subrange(0, 24) =~= objects_dir());
    assert(path.subrange(48, 53) =~= ".tscn"@);
    assert(path.subrange(0, 34) =~= "res://resources/Objects/Buildings/"@);
    assert(path.subrange(0, 31)[24] != "res://resources/Objects/Ground/"@[24]);
}

proof fn lemma_scene_path_facts_airport_warehouse()
    ensures
        scene_path_facts(Buildings::AirportWarehouse),
{
    reveal_strlit("res://resources/Objects/");
    reveal_strlit("res://resources/Objects/Ground/");
    reveal_strlit("res://resources/Objects/Buildings/");
    reveal_strlit(".tscn");
    reveal_strlit("res://resources/Objects/Buildings/airport_warehouse.tscn");
    let path = building_scene_of(Buildings::AirportWarehouse);
    assert(path.subrange(0, 24) =~= objects_dir());
    assert(path.subrange(51, 56) =~= ".tscn"@);
    assert(path.subrange(0, 34) =~= "res://resources/Objects/Buildings/"@);
    assert(path.subrange(0, 31)[24] != "res://resources/Objects/Ground/"@[24]);
}

proof fn lemma_scene_path_facts_airport_building_1()
    ensures
        scene_path_facts(Buildings::AirportBuilding1),
{
    reveal_strlit("res://resources/Objects/");
    reveal_strlit("res://resources/Objects/Ground/");
    reveal_strlit("res://resources/Objects/Buildings/");
    reveal_strlit(".tscn");
    reveal_strlit("res://resources/Objects/Buildings/airport_building_1.tscn");
    let path = building_scene_of(Buildings::AirportBuilding1);
    assert(path.subrange(0, 24) =~= objects_dir());
    assert(path.subrange(52, 57) =~= ".tscn"@);
    assert(path.subrange(0, 34) =~= "res://resources/Objects/Buildings/"@);
    assert(path.subrange(0, 31)[24] != "res://resources/Objects/Ground/"@[24]);
}

proof fn lemma_scene_path_facts_airport_building_2()
    ensures
        scene_path_facts(Buildings::AirportBuilding2),
{
    reveal_strlit("res://resources/Objects/");
    reveal_strlit("res://resources/Objects/Ground/");
    reveal_strlit("res://resources/Objects/Buildings/");
    reveal_strlit(".tscn");
    reveal_strlit("res://resources/Objects/Buildings/airport_building_2.tscn");
    let path = building_scene_of(Buildings::AirportBuilding2);
    assert(path.subrange(0, 24) =~= objects_dir());
    assert(path.subrange(52, 57) =~= ".tscn"@);
    assert(path.subrange(0, 34) =~= "res://resources/Objects/Buildings/"@);
    assert(path.subrange(0, 31)[24] != "res://resources/Objects/Ground/"@[24]);
}

proof fn lemma_scene_path_facts_airport_hangar_1()
    ensures
        scene_path_facts(Buildings::AirportHangar1),
{
    reveal_strlit("res://resources/Objects/");
    reveal_strlit("res://resources/Objects/Ground/");
    reveal_strlit("res://resources/Objects/Buildings/");
    reveal_strlit(".tscn");
    reveal_strlit("res://resources/Objects/Buildings/airport_hangar_1.tscn");
    let path = building_scene_of(Buildings::AirportHangar1);
    assert(path.subrange(0, 24) =~= objects_dir());
    assert(path.subrange(50, 55) =~= ".tscn"@);
    assert(path.subrange(0, 34) =~= "res://resources/Objects/Buildings/"@);
    assert(path.subrange(0, 31)[24] != "res://resources/Objects/Ground/"@[24]);
}

proof fn lemma_scene_path_facts_airport_runway()
    ensures
        scene_path_facts(Buildings::AirportRunway),
{
    reveal_strlit("res://resources/Objects/");
    reveal_strlit("res://resources/Objects/Ground/");
    reveal_strlit("res://resources/Objects/Buildings/");
    reveal_strlit(".tscn");
    reveal_strlit("res://resources/Objects/Buildings/airport_runway.tscn");
    let path = building_scene_of(Buildings::AirportRunway);
    assert(path.subrange(0, 24) =~= objects_dir());
    assert(path.subrange(48, 53) =~= ".tscn"@);
    assert(path.subrange(0, 34) =~= "res://resources/Objects/Buildings/"@);
    assert(path.subrange(0, 31)[24] != "res://resources/Objects/Ground/"@[24]);
}

proof fn lemma_scene_path_facts_airport_runway_intersection()
    ensures
        scene_path_facts(Buildings::AirportRunwayIntersection),
{
    reveal_strlit("res://resources/Objects/");
    reveal_strlit("res://resources/Objects/Ground/");
    reveal_strlit("res://resources/Objects/Buildings/");
    reveal_strlit(".tscn");
    reveal_strlit("res://resources/Objects/Buildings/airport_runway_intersection.tscn");
    let path = building_scene_of(Buildings::AirportRunwayIntersection);
    assert(path.subrange(0, 24) =~= objects_dir());
    assert(path.subrange(61, 66) =~= ".tscn"@);
    assert(path.subrange(0, 34) =~= "res://resources/Objects/Buildings/"@);
    assert(path.subrange(0, 31)[24] != "res://resources/Objects/Ground/"@[24]);
}

proof fn lemma_scene_path_facts_hangar_2()
    ensures
        scene_path_facts(Buildings::Hangar2),
{
    reveal_strlit("res://resources/Objects/");
    reveal_strlit("res://resources/Objects/Ground/");
    reveal_strlit("res://resources/Objects/Buildings/");
    reveal_strlit(".tscn");
    reveal_strlit("res://resources/Objects/Buildings/hangar_2.tscn");
    let path = building_scene_of(Buildings::Hangar2);
    assert(path.subrange(0, 24) =~= objects_dir());
    assert(path.subrange(42, 47) =~= ".tscn"@);
    assert(path.subrange(0, 34) =~= "res://resources/Objects/Buildings/"@);
    assert(path.subrange(0, 31)[24] != "res://resources/Objects/Ground/"@[24]);
}

proof fn lemma_scene_path_facts_condominiums_medium_1()
    ensures
        scene_path_facts(Buildings::CondominiumsMedium1),
{
    reveal_strlit("res://resources/Objects/");
    reveal_strlit("res://resources/Objects/Ground/");
    reveal_strlit("res://resources/Objects/Buildings/");
    reveal_strlit(".tscn");
    reveal_strlit("res://resources/Objects/Buildings/condominiums_medium_1.tscn");
    let path = building_scene_of(Buildings::CondominiumsMedium1);
    assert(path.subrange(0, 24) =~= objects_dir());
    assert(path.subrange(55, 60) =~= ".tscn"@);
    assert(path.subrange(0, 34) =~= "res://resources/Objects/Buildings/"@);
    assert(path.subrange(0, 31)[24] != "res://resources/Objects/Ground/"@[24]);
}

proof fn lemma_scene_path_facts_condominiums_medium_2()
    ensures
        scene_path_facts(Buildings::CondominiumsMedium2),
{
    reveal_strlit("res://resources/Objects/");
    reveal_strlit("res://resources/Objects/Ground/");
    reveal_strlit("res://resources/Objects/Buildings/");
    reveal_strlit(".tscn");
    reveal_strlit("res://resources/Objects/Buildings/condominiums_medium_2.tscn");
    let path = building_scene_of(Buildings::CondominiumsMedium2);
    assert(path.subrange(0, 24) =~= objects_dir());
    assert(path.subrange(55, 60) =~= ".tscn"@);
    assert(path.subrange(0, 34) =~= "res://resources/Objects/Buildings/"@);
    assert(path.subrange(0, 31)[24] != "res://resources/Objects/Ground/"@[24]);
}

proof fn lemma_scene_path_facts_condominiums_medium_3()
    ensures
        scene_path_facts(Buildings::CondominiumsMedium3),
{
    reveal_strlit("res://resources/Objects/");
    reveal_strlit("res://resources/Objects/Ground/");
    reveal_strlit("res://resources/Objects/Buildings/");
    reveal_strlit(".tscn");
    reveal_strlit("res://resources/Objects/Buildings/condominiums_medium_3.tscn");
    let path = building_scene_of(Buildings::CondominiumsMedium3);
    assert(path.subrange(0, 24) =~= objects_dir());
    assert(path.subrange(55, 60) =~= ".tscn"@);
    assert(path.subrange(0, 34) =~= "res://resources/Objects/Buildings/"@);
    assert(path.subrange(0, 31)[24] != "res://resources/Objects/Ground/"@[24]);
}

proof fn lemma_scene_path_facts_condominiums_large_1()
    ensures
        scene_path_facts(Buildings::CondominiumsLarge1),
{
    reveal_strlit("res://resources/Objects/");
    reveal_strlit("res://resources/Objects/Ground/");
    reveal_strlit("res://resources/Objects/Buildings/");
    reveal_strlit(".tscn");
    reveal_strlit("res://resources/Objects/Buildings/condominiums_large_1.tscn");
    let path = building_scene_of(Buildings::CondominiumsLarge1);
    assert(path.subrange(0, 24) =~= objects_dir());
    assert(path.subrange(54, 59) =~= ".tscn"@);
    assert(path.subrange(0, 34) =~= "res://resources/Objects/Buildings/"@);
    assert(path.subrange(0, 31)[24] != "res://resources/Objects/Ground/"@[24]);
}

proof fn lemma_scene_path_facts_condominiums_large_2()
    ensures
        scene_path_facts(Buildings::CondominiumsLarge2),
{
    reveal_strlit("res://resources/Objects/");
    reveal_strlit("res://resources/Objects/Ground/");
    reveal_strlit("res://resources/Objects/Buildings/");
    reveal_strlit(".tscn");
    reveal_strlit("res://resources/Objects/Buildings/condominiums_large_2.tscn");
    let path = building_scene_of(Buildings::CondominiumsLarge2);
    assert(path.subrange(0, 24) =~= objects_dir());
    assert(path.subrange(54, 59) =~= ".tscn"@);
    assert(path.subrange(0, 34) =~= "res://resources/Objects/Buildings/"@);
    assert(path.subrange(0, 31)[24] != "res://resources/Objects/Ground/"@[24]);
}

proof fn lemma_scene_path_facts_factory_small_1()
    ensures
        scene_path_facts(Buildings::FactorySmall1),
{
    reveal_strlit("res://resources/Objects/");
    reveal_strlit("res://resources/Objects/Ground/");
    reveal_strlit("res://resources/Objects/Buildings/");
    reveal_strlit(".tscn");
    reveal_strlit("res://resources/Objects/Buildings/factory_small_1.tscn");
    let path = building_scene_of(Buildings::FactorySmall1);
    assert(path.subrange(0, 24) =~= objects_dir());
    assert(path.subrange(49, 54) =~= ".tscn"@);
    assert(path.subrange(0, 34) =~= "res://resources/Objects/Buildings/"@);
    assert(path.subrange(0, 31)[24] != "res://resources/Objects/Ground/"@[24]);
}

proof fn lemma_scene_path_facts_factory_small_2()
    ensures
        scene_path_facts(Buildings::FactorySmall2),
{
    reveal_strlit("res://resources/Objects/");
    reveal_strlit("res://resources/Objects/Ground/");
    reveal_strlit("res://resources/Objects/Buildings/");
    reveal_strlit(".tscn");
    reveal_strlit("res://resources/Objects/Buildings/factory_small_2.tscn");
    let path = building_scene_of(Buildings::FactorySmall2);
    assert(path.subrange(0, 24) =~= objects_dir());
    assert(path.subrange(49, 54) =~= ".tscn"@);
    assert(path.subrange(0, 34) =~= "res://resources/Objects/Buildings/"@);
    assert(path.subrange(0, 31)[24] != "res://resources/Objects/Ground/"@[24]);
}

proof fn lemma_scene_path_facts_factory_small_3()
    ensures
        scene_path_facts(Buildings::FactorySmall3),
{
    reveal_strlit("res://resources/Objects/");
    reveal_strlit("res://resources/Objects/Ground/");
    reveal_strlit("res://resources/Objects/Buildings/");
    reveal_strlit(".tscn");
    reveal_strlit("res://resources/Objects/Buildings/factory_small_3.tscn");
    let path = building_scene_of(Buildings::FactorySmall3);
    assert(path.subrange(0, 24) =~= objects_dir());
    assert(path.subrange(49, 54) =~= ".tscn"@);
    assert(path.subrange(0, 34) =~= "res://resources/Objects/Buildings/"@);
    assert(path.subrange(0, 31)[24] != "res://resources/Objects/Ground/"@[24]);
}

proof fn lemma_scene_path_facts_factory_small_4()
    ensures
        scene_path_facts(Buildings::FactorySmall4),
{
    reveal_strlit("res://resources/Objects/");
    reveal_strlit("res://resources/Objects/Ground/");
    reveal_strlit("res://resources/Objects/Buildings/");
    reveal_strlit(".tscn");
    reveal_strlit("res://resources/Objects/Buildings/factory_small_4.tscn");
    let path = building_scene_of(Buildings::FactorySmall4);
    assert(path.subrange(0, 24) =~= objects_dir());
    assert(path.subrange(49, 54) =~= ".tscn"@);
    assert(path.subrange(0, 34) =~= "res://resources/Objects/Buildings/"@);
    assert(path.subrange(0, 31)[24] != "res://resources/Objects/Ground/"@[24]);
}

proof fn lemma_scene_path_facts_factory_small_5()
    ensures
        scene_path_facts(Buildings::FactorySmall5),
{
    reveal_strlit("res://resources/Objects/");
    reveal_strlit("res://resources/Objects/Ground/");
    reveal_strlit("res://resources/Objects/Buildings/");
    reveal_strlit(".tscn");
    reveal_strlit("res://resources/Objects/Buildings/factory_small_5.tscn");
    let path = building_scene_of(Buildings::FactorySmall5);
    assert(path.subrange(0, 24) =~= objects_dir());
    assert(path.subrange(49, 54) =~= ".tscn"@);
    assert(path.subrange(0, 34) =~= "res://resources/Objects/Buildings/"@);
    assert(path.subrange(0, 31)[24] != "res://resources/Objects/Ground/"@[24]);
}

proof fn lemma_scene_path_facts_factory_small_6()
    ensures
        scene_path_facts(Buildings::FactorySmall6),
{
    reveal_strlit("res://resources/Objects/");
    reveal_strlit("res://resources/Objects/Ground/");
    reveal_strlit("res://resources/Objects/Buildings/");
    reveal_strlit(".tscn");
    reveal_strlit("res://resources/Objects/Buildings/factory_small_6.tscn");
    let path = building_scene_of(Buildings::FactorySmall6);
    assert(path.subrange(0, 24) =~= objects_dir());
    assert(path.subrange(49, 54) =~= ".tscn"@);
    assert(path.subrange(0, 34) =~= "res://resources/Objects/Buildings/"@);
    assert(path.subrange(0, 31)[24] != "res://resources/Objects/Ground/"@[24]);
}

proof fn lemma_scene_path_facts_station_police()
    ensures
        scene_path_facts(Buildings::StationPolice),
{
    reveal_strlit("res://resources/Objects/");
    reveal_strlit("res://resources/Objects/Ground/");
    reveal_strlit("res://resources/Objects/Buildings/");
    reveal_strlit(".tscn");
    reveal_strlit("res://resources/Objects/Buildings/station_police.tscn");
    let path = building_scene_of(Buildings::StationPolice);
    assert(path.subrange(0, 24) =~= objects_dir());
    assert(path.subrange(48, 53) =~= ".tscn"@);
    assert(path.subrange(0, 34) =~= "res://resources/Objects/Buildings/"@);
    assert(path.subrange(0, 31)[24] != "res://resources/Objects/Ground/"@[24]);
}

proof fn lemma_scene_path_facts_apartments_medium_1()
    ensures
        scene_path_facts(Buildings::ApartmentsMedium1),
{
    reveal_strlit("res://resources/Objects/");
    reveal_strlit("res://resources/Objects/Ground/");
    reveal_strlit("res://resources/Objects/Buildings/");
    reveal_strlit(".tscn");
    reveal_strlit("res://resources/Objects/Buildings/apartments_medium_1.tscn");
    let path = building_scene_of(Buildings::ApartmentsMedium1);
    assert(path.subrange(0, 24) =~= objects_dir());
    assert(path.subrange(53, 58) =~= ".tscn"@);
    assert(path.subrange(0, 34) =~= "res://resources/Objects/Buildings/"@);
    assert(path.subrange(0, 31)[24] != "res://resources/Objects/Ground/"@[24]);
}

proof fn lemma_scene_path_facts_apartments_medium_2()
    ensures
        scene_path_facts(Buildings::ApartmentsMedium2),
{
    reveal_strlit("res://resources/Objects/");
    reveal_strlit("res://resources/Objects/Ground/");
    reveal_strlit("res://resources/Objects/Buildings/");
    reveal_strlit(".tscn");
    reveal_strlit("res://resources/Objects/Buildings/apartments_medium_2.tscn");
    let path = building_scene_of(Buildings::ApartmentsMedium2);
    assert(path.subrange(0, 24) =~= objects_dir());
    assert(path.subrange(53, 58) =~= ".tscn"@);
    assert(path.subrange(0, 34) =~= "res://resources/Objects/Buildings/"@);
    assert(path.subrange(0, 31)[24] != "res://resources/Objects/Ground/"@[24]);
}

proof fn lemma_scene_path_facts_toy_store()
    ensures
        scene_path_facts(Buildings::ToyStore),
{
    reveal_strlit("res://resources/Objects/");
    reveal_strlit("res://resources/Objects/Ground/");
    reveal_strlit("res://resources/Objects/Buildings/");
    reveal_strlit(".tscn");
    reveal_strlit("res://resources/Objects/Buildings/toy_store.tscn");
    let path = building_scene_of(Buildings::ToyStore);
    assert(path.subrange(0, 24) =~= objects_dir());
    assert(path.subrange(43, 48) =~= ".tscn"@);
    assert(path.subrange(0, 34) =~= "res://resources/Objects/Buildings/"@);
    assert(path.subrange(0, 31)[24] != "res://resources/Objects/Ground/"@[24]);
}

proof fn lemma_scene_path_facts_industrial_substation()
    ensures
        scene_path_facts(Buildings::IndustrialSubstation),
{
    reveal_strlit("res://resources/Objects/");
    reveal_strlit("res://resources/Objects/Ground/");
    reveal_strlit("res://resources/Objects/Buildings/");
    reveal_strlit(".tscn");
    reveal_strlit("res://resources/Objects/Buildings/industrial_substation.tscn");
    let path = building_scene_of(Buildings::IndustrialSubstation);
    assert(path.subrange(0, 24) =~= objects_dir());
    assert(path.subrange(55, 60) =~= ".tscn"@);
    assert(path.subrange(0, 34) =~= "res://resources/Objects/Buildings/"@);
    assert(path.subrange(0, 31)[24] != "res://resources/Objects/Ground/"@[24]);
}

proof fn lemma_scene_path_facts_offices_small_1()
    ensures
        scene_path_facts(Buildings::OfficesSmall1),
{
    reveal_strlit("res://resources/Objects/");
    reveal_strlit("res://resources/Objects/Ground/");
    reveal_strlit("res://resources/Objects/Buildings/");
    reveal_strlit(".tscn");
    reveal_strlit("res://resources/Objects/Buildings/offices_small_1.tscn");
    let path = building_scene_of(Buildings::OfficesSmall1);
    assert(path.subrange(0, 24) =~= objects_dir());
    assert(path.subrange(49, 54) =~= ".tscn"@);
    assert(path.subrange(0, 34) =~= "res://resources/Objects/Buildings/"@);
    assert(path.subrange(0, 31)[24] != "res://resources/Objects/Ground/"@[24]);
}

proof fn lemma_scene_path_facts_offices_small_2()
    ensures
        scene_path_facts(Buildings::OfficesSmall2),
{
    reveal_strlit("res://resources/Objects/");
    reveal_strlit("res://resources/Objects/Ground/");
    reveal_strlit("res://resources/Objects/Buildings/");
    reveal_strlit(".tscn");
    reveal_strlit("res://resources/Objects/Buildings/offices_small_2.tscn");
    let path = building_scene_of(Buildings::OfficesSmall2);
    assert(path.subrange(0, 24) =~= objects_dir());
    assert(path.subrange(49, 54) =~= ".tscn"@);
    assert(path.subrange(0, 34) =~= "res://resources/Objects/Buildings/"@);
    assert(path.subrange(0, 31)[24] != "res://resources/Objects/Ground/"@[24]);
}

proof fn lemma_scene_path_facts_offices_historic()
    ensures
        scene_path_facts(Buildings::OfficesHistoric),
{
    reveal_strlit("res://resources/Objects/");
    reveal_strlit("res://resources/Objects/Ground/");
    reveal_strlit("res://resources/Objects/Buildings/");
    reveal_strlit(".tscn");
    reveal_strlit("res://resources/Objects/Buildings/offices_historic.tscn");
    let path = building_scene_of(Buildings::OfficesHistoric);
    assert(path.subrange(0, 24) =~= objects_dir());
    assert(path.subrange(50, 55) =~= ".tscn"@);
    assert(path.subrange(0, 34) =~= "res://resources/Objects/Buildings/"@);
    assert(path.subrange(0, 31)[24] != "res://resources/Objects/Ground/"@[24]);
}

proof fn lemma_scene_path_facts_water_pump()
    ensures
        scene_path_facts(Buildings::WaterPump),
{
    reveal_strlit("res://resources/Objects/");
    reveal_strlit("res://resources/Objects/Ground/");
    reveal_strlit("res://resources/Objects/Buildings/");
    reveal_strlit(".tscn");
    reveal_strlit("res://resources/Objects/Buildings/water_pump.tscn");
    let path = building_scene_of(Buildings::WaterPump);
    assert(path.subrange(0, 24) =~= objects_dir());
    assert(path.subrange(44, 49) =~= ".tscn"@);
    assert(path.subrange(0, 34) =~= "res://resources/Objects/Buildings/"@);
    assert(path.subrange(0, 31)[24] != "res://resources/Objects/Ground/"@[24]);
}

proof fn lemma_scene_path_facts_station_hospital()
    ensures
        scene_path_facts(Buildings::StationHospital),
{
    reveal_strlit("res://resources/Objects/");
    reveal_strlit("res://resources/Objects/Ground/");
    reveal_strlit("res://resources/Objects/Buildings/");
    reveal_strlit(".tscn");
    reveal_strlit("res://resources/Objects/Buildings/station_hospital.tscn");
    let path = building_scene_of(Buildings::StationHospital);
    assert(path.subrange(0, 24) =~= objects_dir());
    assert(path.subrange(50, 55) =~= ".tscn"@);
    assert(path.subrange(0, 34) =~= "res://resources/Objects/Buildings/"@);
    assert(path.subrange(0, 31)[24] != "res://resources/Objects/Ground/"@[24]);
}

proof fn lemma_scene_path_facts_convenience_store()
    ensures
        scene_path_facts(Buildings::ConvenienceStore),
{
    reveal_strlit("res://resources/Objects/");
    reveal_strlit("res://resources/Objects/Ground/");
    reveal_strlit("res://resources/Objects/Buildings/");
    reveal_strlit(".tscn");
    reveal_strlit("res://resources/Objects/Buildings/convenience_store.tscn");
    let path = building_scene_of(Buildings::ConvenienceStore);
    assert(path.subrange(0, 24) =~= objects_dir());
    assert(path.subrange(51, 56) =~= ".tscn"@);
    assert(path.subrange(0, 34) =~= "res://resources/Objects/Buildings/"@);
    assert(path.subrange(0, 31)[24] != "res://resources/Objects/Ground/"@[24]);
}

proof fn lemma_scene_path_facts_station_gas_1()
    ensures
        scene_path_facts(Buildings::StationGas1),
{
    reveal_strlit("res://resources/Objects/");
    reveal_strlit("res://resources/Objects/Ground/");
    reveal_strlit("res://resources/Objects/Buildings/");
    reveal_strlit(".tscn");
    reveal_strlit("res://resources/Objects/Buildings/station_gas_1.tscn");
    let path = building_scene_of(Buildings::StationGas1);
    assert(path.subrange(0, 24) =~= objects_dir());
    assert(path.subrange(47, 52) =~= ".tscn"@);
    assert(path.subrange(0, 34) =~= "res://resources/Objects/Buildings/"@);
    assert(path.subrange(0, 31)[24] != "res://resources/Objects/Ground/"@[24]);
}

proof fn lemma_scene_path_facts_station_gas_2()
    ensures
        scene_path_facts(Buildings::StationGas2),
{
    reveal_strlit("res://resources/Objects/");
    reveal_strlit("res://resources/Objects/Ground/");
    reveal_strlit("res://resources/Objects/Buildings/");
    reveal_strlit(".tscn");
    reveal_strlit("res://resources/Objects/Buildings/station_gas_2.tscn");
    let path = building_scene_of(Buildings::StationGas2);
    assert(path.subrange(0, 24) =~= objects_dir());
    assert(path.subrange(47, 52) =~= ".tscn"@);
    assert(path.subrange(0, 34) =~= "res://resources/Objects/Buildings/"@);
    assert(path.subrange(0, 31)[24] != "res://resources/Objects/Ground/"@[24]);
}

proof fn lemma_scene_path_facts_home_lower_class_1()
    ensures
        scene_path_facts(Buildings::HomeLowerClass1),
{
    reveal_strlit("res://resources/Objects/");
    reveal_strlit("res://resources/Objects/Ground/");
    reveal_strlit("res://resources/Objects/Buildings/");
    reveal_strlit(".tscn");
    reveal_strlit("res://resources/Objects/Buildings/home_lower_class_1.tscn");
    let path = building_scene_of(Buildings::HomeLowerClass1);
    assert(path.subrange(0, 24) =~= objects_dir());
    assert(path.subrange(52, 57) =~= ".tscn"@);
    assert(path.subrange(0, 34) =~= "res://resources/Objects/Buildings/"@);
    assert(path.subrange(0, 31)[24] != "res://resources/Objects/Ground/"@[24]);
}

proof fn lemma_scene_path_facts_home_lower_class_2()
    ensures
        scene_path_facts(Buildings::HomeLowerClass2),
{
    reveal_strlit("res://resources/Objects/");
    reveal_strlit("res://resources/Objects/Ground/");
    reveal_strlit("res://resources/Objects/Buildings/");
    reveal_strlit(".tscn");
    reveal_strlit("res://resources/Objects/Buildings/home_lower_class_2.tscn");
    let path = building_scene_of(Buildings::HomeLowerClass2);
    assert(path.subrange(0, 24) =~= objects_dir());
    assert(path.subrange(52, 57) =~= ".tscn"@);
    assert(path.subrange(0, 34) =~= "res://resources/Objects/Buildings/"@);
    assert(path.subrange(0, 31)[24] != "res://resources/Objects/Ground/"@[24]);
}

proof fn lemma_scene_path_facts_home_lower_class_3()
    ensures
        scene_path_facts(Buildings::HomeLowerClass3),
{
    reveal_strlit("res://resources/Objects/");
    reveal_strlit("res://resources/Objects/Ground/");
    reveal_strlit("res://resources/Objects/Buildings/");
    reveal_strlit(".tscn");
    reveal_strlit("res://resources/Objects/Buildings/home_lower_class_3.tscn");
    let path = building_scene_of(Buildings::HomeLowerClass3);
    assert(path.subrange(0, 24) =~= objects_dir());
    assert(path.subrange(52, 57) =~= ".tscn"@);
    assert(path.subrange(0, 34) =~= "res://resources/Objects/Buildings/"@);
    assert(path.subrange(0, 31)[24] != "res://resources/Objects/Ground/"@[24]);
}

proof fn lemma_scene_path_facts_warehouse()
    ensures
        scene_path_facts(Buildings::Warehouse),
{
    reveal_strlit("res://resources/Objects/");
    reveal_strlit("res://resources/Objects/Ground/");
    reveal_strlit("res://resources/Objects/Buildings/");
    reveal_strlit(".tscn");
    reveal_strlit("res://resources/Objects/Buildings/warehouse.tscn");
    let path = building_scene_of(Buildings::Warehouse);
    assert(path.subrange(0, 24) =~= objects_dir());
    assert(path.subrange(43, 48) =~= ".tscn"@);
    assert(path.subrange(0, 34) =~= "res://resources/Objects/Buildings/"@);
    assert(path.subrange(0, 31)[24] != "res://resources/Objects/Ground/"@[24]);
}

proof fn lemma_scene_path_facts_airport_civilian_control_tower()
    ensures
        scene_path_facts(Buildings::AirportCivilianControlTower),
{
    reveal_strlit("res://resources/Objects/");
    reveal_strlit("res://resources/Objects/Ground/");
    reveal_strlit("res://resources/Objects/Buildings/");
    reveal_strlit(".tscn");
    reveal_strlit("res://resources/Objects/Buildings/airport_civilian_control_tower.tscn");
    let path = building_scene_of(Buildings::AirportCivilianControlTower);
    assert(path.subrange(0, 24) =~= objects_dir());
    assert(path.subrange(64, 69) =~= ".tscn"@);
    assert(path.subrange(0, 34) =~= "res://resources/Objects/Buildings/"@);
    assert(path.subrange(0, 31)[24] != "res://resources/Objects/Ground/"@[24]);
}

proof fn lemma_scene_path_facts_station_fire()
    ensures
        scene_path_facts(Buildings::StationFire),
{
    reveal_strlit("res://resources/Objects/");
    reveal_strlit("res://resources/Objects/Ground/");
    reveal_strlit("res://resources/Objects/Buildings/");
    reveal_strlit(".tscn");
    reveal_strlit("res://resources/Objects/Buildings/station_fire.tscn");
    let path = building_scene_of(Buildings::StationFire);
    assert(path.subrange(0, 24) =~= objects_dir());
    assert(path.subrange(46, 51) =~= ".tscn"@);
    assert(path.subrange(0, 34) =~= "res://resources/Objects/Buildings/"@);
    assert(path.subrange(0, 31)[24] != "res://resources/Objects/Ground/"@[24]);
}

proof fn lemma_scene_path_facts_powerplant_microwave()
    ensures
        scene_path_facts(Buildings::PowerplantMicrowave),
{
    reveal_strlit("res://resources/Objects/");
    reveal_strlit("res://resources/Objects/Ground/");
    reveal_strlit("res://resources/Objects/Buildings/");
    reveal_strlit(".tscn");
    reveal_strlit("res://resources/Objects/Buildings/powerplant_microwave.tscn");
    let path = building_scene_of(Buildings::PowerplantMicrowave);
    assert(path.subrange(0, 24) =~= objects_dir());
    assert(path.subrange(54, 59) =~= ".tscn"@);
    assert(path.subrange(0, 34) =~= "res://resources/Objects/Buildings/"@);
    assert(path.subrange(0, 31)[24] != "res://resources/Objects/Ground/"@[24]);
}

proof fn lemma_scene_path_facts_resort_hotel()
    ensures
        scene_path_facts(Buildings::ResortHotel),
{
    reveal_strlit("res://resources/Objects/");
    reveal_strlit("res://resources/Objects/Ground/");
    reveal_strlit("res://resources/Objects/Buildings/");
    reveal_strlit(".tscn");
    reveal_strlit("res://resources/Objects/Buildings/resort_hotel.tscn");
    let path = building_scene_of(Buildings::ResortHotel);
    assert(path.subrange(0, 24) =~= objects_dir());
    assert(path.subrange(46, 51) =~= ".tscn"@);
    assert(path.subrange(0, 34) =~= "res://resources/Objects/Buildings/"@);
    assert(path.subrange(0, 31)[24] != "res://resources/Objects/Ground/"@[24]);
}

proof fn lemma_scene_path_facts_apartments_large_1()
    ensures
        scene_path_facts(Buildings::ApartmentsLarge1),
{
    reveal_strlit("res://resources/Objects/");
    reveal_strlit("res://resources/Objects/Ground/");
    reveal_strlit("res://resources/Objects/Buildings/");
    reveal_strlit(".tscn");
    reveal_strlit("res://resources/Objects/Buildings/apartments_large_1.tscn");
    let path = building_scene_of(Buildings::ApartmentsLarge1);
    assert(path.subrange(0, 24) =~= objects_dir());
    assert(path.subrange(52, 57) =~= ".tscn"@);
    assert(path.subrange(0, 34) =~= "res://resources/Objects/Buildings/"@);
    assert(path.subrange(0, 31)[24] != "res://resources/Objects/Ground/"@[24]);
}

proof fn lemma_scene_path_facts_apartments_large_2()
    ensures
        scene_path_facts(Buildings::ApartmentsLarge2),
{
    reveal_strlit("res://resources/Objects/");
    reveal_strlit("res://resources/Objects/Ground/");
    reveal_strlit("res://resources/Objects/Buildings/");
    reveal_strlit(".tscn");
    reveal_strlit("res://resources/Objects/Buildings/apartments_large_2.tscn");
    let path = building_scene_of(Buildings::ApartmentsLarge2);
    assert(path.subrange(0, 24) =~= objects_dir());
    assert(path.subrange(52, 57) =~= ".tscn"@);
    assert(path.subrange(0, 34) =~= "res://resources/Objects/Buildings/"@);
    assert(path.subrange(0, 31)[24] != "res://resources/Objects/Ground/"@[24]);
}

proof fn lemma_scene_path_facts_apartments_small_1()
    ensures
        scene_path_facts(Buildings::ApartmentsSmall1),
{
    reveal_strlit("res://resources/Objects/");
    reveal_strlit("res://resources/Objects/Ground/");
    reveal_strlit("res://resources/Objects/Buildings/");
    reveal_strlit(".tscn");
    reveal_strlit("res://resources/Objects/Buildings/apartments_small_1.tscn");
    let path = building_scene_of(Buildings::ApartmentsSmall1);
    assert(path.subrange(0, 24) =~= objects_dir());
    assert(path.subrange(52, 57) =~= ".tscn"@);
    assert(path.subrange(0, 34) =~= "res://resources/Objects/Buildings/"@);
    assert(path.subrange(0, 31)[24] != "res://resources/Objects/Ground/"@[24]);
}

proof fn lemma_scene_path_facts_apartments_small_2()
    ensures
        scene_path_facts(Buildings::ApartmentsSmall2),
{
    reveal_strlit("res://resources/Objects/");
    reveal_strlit("res://resources/Objects/Ground/");
    reveal_strlit("res://resources/Objects/Buildings/");
    reveal_strlit(".tscn");
    reveal_strlit("res://resources/Objects/Buildings/apartments_small_2.tscn");
    let path = building_scene_of(Buildings::ApartmentsSmall2);
    assert(path.subrange(0, 24) =~= objects_dir());
    assert(path.subrange(52, 57) =~= ".tscn"@);
    assert(path.subrange(0, 34) =~= "res://resources/Objects/Buildings/"@);
    assert(path.subrange(0, 31)[24] != "res://resources/Objects/Ground/"@[24]);
}

proof fn lemma_scene_path_facts_apartments_small_3()
    ensures
        scene_path_facts(Buildings::ApartmentsSmall3),
{
    reveal_strlit("res://resources/Objects/");
    reveal_strlit("res://resources/Objects/Ground/");
    reveal_strlit("res://resources/Objects/Buildings/");
    reveal_strlit(".tscn");
    reveal_strlit("res://resources/Objects/Buildings/apartments_small_3.tscn");
    let path = building_scene_of(Buildings::ApartmentsSmall3);
    assert(path.subrange(0, 24) =~= objects_dir());
    assert(path.subrange(52, 57) =~= ".tscn"@);
    assert(path.subrange(0, 34) =~= "res://resources/Objects/Buildings/"@);
    assert(path.subrange(0, 31)[24] != "res://resources/Objects/Ground/"@[24]);
}

proof fn lemma_scene_path_facts_tree_couple()
    ensures
        scene_path_facts(Buildings::TreeCouple),
{
    reveal_strlit("res://resources/Objects/");
    reveal_strlit("res://resources/Objects/Ground/");
    reveal_strlit("res://resources/Objects/Buildings/");
    reveal_strlit(".tscn");
    reveal_strlit("res://resources/Objects/Buildings/tree_couple.tscn");
    let path = building_scene_of(Buildings::TreeCouple);
    assert(path.subrange(0, 24) =~= objects_dir());
    assert(path.subrange(45, 50) =~= ".tscn"@);
    assert(path.subrange(0, 34) =~= "res://resources/Objects/Buildings/"@);
    assert(path.subrange(0, 31)[24] != "res://resources/Objects/Ground/"@[24]);
}

proof fn lemma_scene_path_facts_chemical_storage()
    ensures
        scene_path_facts(Buildings::ChemicalStorage),
{
    reveal_strlit("res://resources/Objects/");
    reveal_strlit("res://resources/Objects/Ground/");
    reveal_strlit("res://resources/Objects/Buildings/");
    reveal_strlit(".tscn");
    reveal_strlit("res://resources/Objects/Buildings/chemical_storage.tscn");
    let path = building_scene_of(Buildings::ChemicalStorage);
    assert(path.subrange(0, 24) =~= objects_dir());
    assert(path.subrange(50, 55) =~= ".tscn"@);
    assert(path.subrange(0, 34) =~= "res://resources/Objects/Buildings/"@);
    assert(path.subrange(0, 31)[24] != "res://resources/Objects/Ground/"@[24]);
}

proof fn lemma_scene_path_facts_chemical_processing_1()
    ensures
        scene_path_facts(Buildings::ChemicalProcessing1),
{
    reveal_strlit("res://resources/Objects/");
    reveal_strlit("res://resources/Objects/Ground/");
    reveal_strlit("res://resources/Objects/Buildings/");
    reveal_strlit(".tscn");
    reveal_strlit("res://resources/Objects/Buildings/chemical_processing_1.tscn");
    let path = building_scene_of(Buildings::ChemicalProcessing1);
    assert(path.subrange(0, 24) =~= objects_dir());
    assert(path.subrange(55, 60) =~= ".tscn"@);
    assert(path.subrange(0, 34) =~= "res://resources/Objects/Buildings/"@);
    assert(path.subrange(0, 31)[24] != "res://resources/Objects/Ground/"@[24]);
}

proof fn lemma_scene_path_facts_chemical_processing_2()
    ensures
        scene_path_facts(Buildings::ChemicalProcessing2),
{
    reveal_strlit("res://resources/Objects/");
    reveal_strlit("res://resources/Objects/Ground/");
    reveal_strlit("res://resources/Objects/Buildings/");
    reveal_strlit(".tscn");
    reveal_strlit("res://resources/Objects/Buildings/chemical_processing_2.tscn");
    let path = building_scene_of(Buildings::ChemicalProcessing2);
    assert(path.subrange(0, 24) =~= objects_dir());
    assert(path.subrange(55, 60) =~= ".tscn"@);
    assert(path.subrange(0, 34) =~= "res://resources/Objects/Buildings/"@);
    assert(path.subrange(0, 31)[24] != "res://resources/Objects/Ground/"@[24]);
}

proof fn lemma_scene_path_facts_school()
    ensures
        scene_path_facts(Buildings::School),
{
    reveal_strlit("res://resources/Objects/");
    reveal_strlit("res://resources/Objects/Ground/");
    reveal_strlit("res://resources/Objects/Buildings/");
    reveal_strlit(".tscn");
    reveal_strlit("res://resources/Objects/Buildings/school.tscn");
    let path = building_scene_of(Buildings::School);
    assert(path.subrange(0, 24) =~= objects_dir());
    assert(path.subrange(40, 45) =~= ".tscn"@);
    assert(path.subrange(0, 34) =~= "res://resources/Objects/Buildings/"@);
    assert(path.subrange(0, 31)[24] != "res://resources/Objects/Ground/"@[24]);
}

proof fn lemma_scene_path_facts_library()
    ensures
        scene_path_facts(Buildings::Library),
{
    reveal_strlit("res://resources/Objects/");
    reveal_strlit("res://resources/Objects/Ground/");
    reveal_strlit("res://resources/Objects/Buildings/");
    reveal_strlit(".tscn");
    reveal_strlit("res://resources/Objects/Buildings/library.tscn");
    let path = building_scene_of(Buildings::Library);
    assert(path.subrange(0, 24) =~= objects_dir());
    assert(path.subrange(41, 46) =~= ".tscn"@);
    assert(path.subrange(0, 34) =~= "res://resources/Objects/Buildings/"@);
    assert(path.subrange(0, 31)[24] != "res://resources/Objects/Ground/"@[24]);
}

proof fn lemma_scene_path_facts_marina()
    ensures
        scene_path_facts(Buildings::Marina),
{
    reveal_strlit("res://resources/Objects/");
    reveal_strlit("res://resources/Objects/Ground/");
    reveal_strlit("res://resources/Objects/Buildings/");
    reveal_strlit(".tscn");
    reveal_strlit("res://resources/Objects/Buildings/marina.tscn");
    let path = building_scene_of(Buildings::Marina);
    assert(path.subrange(0, 24) =~= objects_dir());
    assert(path.subrange(40, 45) =~= ".tscn"@);
    assert(path.subrange(0, 34) =~= "res://resources/Objects/Buildings/"@);
    assert(path.subrange(0, 31)[24] != "res://resources/Objects/Ground/"@[24]);
}

proof fn lemma_scene_path_facts_warehouse_large_1()
    ensures
        scene_path_facts(Buildings::WarehouseLarge1),
{
    reveal_strlit("res://resources/Objects/");
    reveal_strlit("res://resources/Objects/Ground/");
    reveal_strlit("res://resources/Objects/Buildings/");
    reveal_strlit(".tscn");
    reveal_strlit("res://resources/Objects/Buildings/warehouse_large_1.tscn");
    let path = building_scene_of(Buildings::WarehouseLarge1);
    assert(path.subrange(0, 24) =~= objects_dir());
    assert(path.subrange(51, 56) =~= ".tscn"@);
    assert(path.subrange(0, 34) =~= "res://resources/Objects/Buildings/"@);
    assert(path.subrange(0, 31)[24] != "res://resources/Objects/Ground/"@[24]);
}

proof fn lemma_scene_path_facts_warehouse_large_2()
    ensures
        scene_path_facts(Buildings::WarehouseLarge2),
{
    reveal_strlit("res://resources/Objects/");
    reveal_strlit("res://resources/Objects/Ground/");
    reveal_strlit("res://resources/Objects/Buildings/");
    reveal_strlit(".tscn");
    reveal_strlit("res://resources/Objects/Buildings/warehouse_large_2.tscn");
    let path = building_scene_of(Buildings::WarehouseLarge2);
    assert(path.subrange(0, 24) =~= objects_dir());
    assert(path.subrange(51, 56) =~= ".tscn"@);
    assert(path.subrange(0, 34) =~= "res://resources/Objects/Buildings/"@);
    assert(path.subrange(0, 31)[24] != "res://resources/Objects/Ground/"@[24]);
}

proof fn lemma_scene_path_facts_warehouse_small_1()
    ensures
        scene_path_facts(Buildings::WarehouseSmall1),
{
    reveal_strlit("res://resources/Objects/");
    reveal_strlit("res://resources/Objects/Ground/");
    reveal_strlit("res://resources/Objects/Buildings/");
    reveal_strlit(".tscn");
    reveal_strlit("res://resources/Objects/Buildings/warehouse_small_1.tscn");
    let path = building_scene_of(Buildings::WarehouseSmall1);
    assert(path.subrange(0, 24) =~= objects_dir());
    assert(path.subrange(51, 56) =~= ".tscn"@);
    assert(path.subrange(0, 34) =~= "res://resources/Objects/Buildings/"@);
    assert(path.subrange(0, 31)[24] != "res://resources/Objects/Ground/"@[24]);
}

proof fn lemma_scene_path_facts_warehouse_small_2()
    ensures
        scene_path_facts(Buildings::WarehouseSmall2),
{
    reveal_strlit("res://resources/Objects/");
    reveal_strlit("res://resources/Objects/Ground/");
    reveal_strlit("res://resources/Objects/Buildings/");
    reveal_strlit(".tscn");
    reveal_strlit("res://resources/Objects/Buildings/warehouse_small_2.tscn");
    let path = building_scene_of(Buildings::WarehouseSmall2);
    assert(path.subrange(0, 24) =~= objects_dir());
    assert(path.subrange(51, 56) =~= ".tscn"@);
    assert(path.subrange(0, 34) =~= "res://resources/Objects/Buildings/"@);
    assert(path.subrange(0, 31)[24] != "res://resources/Objects/Ground/"@[24]);
}

proof fn lemma_scene_path_facts_warehouse_medium()
    ensures
        scene_path_facts(Buildings::WarehouseMedium),
{
    reveal_strlit("res://resources/Objects/");
    reveal_strlit("res://resources/Objects/Ground/");
    reveal_strlit("res://resources/Objects/Buildings/");
    reveal_strlit(".tscn");
    reveal_strlit("res://resources/Objects/Buildings/warehouse_medium.tscn");
    let path = building_scene_of(Buildings::WarehouseMedium);
    assert(path.subrange(0, 24) =~= objects_dir());
    assert(path.subrange(50, 55) =~= ".tscn"@);
    assert(path.subrange(0, 34) =~= "res://resources/Objects/Buildings/"@);
    assert(path.subrange(0, 31)[24] != "res://resources/Objects/Ground/"@[24]);
}

proof fn lemma_scene_path_facts_bb_inn()
    ensures
        scene_path_facts(Buildings::BbInn),
{
    reveal_strlit("res://resources/Objects/");
    reveal_strlit("res://resources/Objects/Ground/");
    reveal_strlit("res://resources/Objects/Buildings/");
    reveal_strlit(".tscn");
    reveal_strlit("res://resources/Objects/Buildings/bb_inn.tscn");
    let path = building_scene_of(Buildings::BbInn);
    assert(path.subrange(0, 24) =~= objects_dir());
    assert(path.subrange(40, 45) =~= ".tscn"@);
    assert(path.subrange(0, 34) =~= "res://resources/Objects/Buildings/"@);
    assert(path.subrange(0, 31)[24] != "res://resources/Objects/Ground/"@[24]);
}

proof fn lemma_scene_path_facts_college()
    ensures
        scene_path_facts(Buildings::College),
{
    reveal_strlit("res://resources/Objects/");
    reveal_strlit("res://resources/Objects/Ground/");
    reveal_strlit("res://resources/Objects/Buildings/");
    reveal_strlit(".tscn");
    reveal_strlit("res://resources/Objects/Buildings/college.tscn");
    let path = building_scene_of(Buildings::College);
    assert(path.subrange(0, 24) =~= objects_dir());
    assert(path.subrange(41, 46) =~= ".tscn"@);
    assert(path.subrange(0, 34) =~= "res://resources/Objects/Buildings/"@);
    assert(path.subrange(0, 31)[24] != "res://resources/Objects/Ground/"@[24]);
}

proof fn lemma_scene_path_facts_arcology_plymouth()
    ensures
        scene_path_facts(Buildings::ArcologyPlymouth),
{
    reveal_strlit("res://resources/Objects/");
    reveal_strlit("res://resources/Objects/Ground/");
    reveal_strlit("res://resources/Objects/Buildings/");
    reveal_strlit(".tscn");
    reveal_strlit("res://resources/Objects/Buildings/arcology_plymouth.tscn");
    let path = building_scene_of(Buildings::ArcologyPlymouth);
    assert(path.subrange(0, 24) =~= objects_dir());
    assert(path.subrange(51, 56) =~= ".tscn"@);
    assert(path.subrange(0, 34) =~= "res://resources/Objects/Buildings/"@);
    assert(path.subrange(0, 31)[24] != "res://resources/Objects/Ground/"@[24]);
}

proof fn lemma_scene_path_facts_arcology_forest()
    ensures
        scene_path_facts(Buildings::ArcologyForest),
{
    reveal_strlit("res://resources/Objects/");
    reveal_strlit("res://resources/Objects/Ground/");
    reveal_strlit("res://resources/Objects/Buildings/");
    reveal_strlit(".tscn");
    reveal_strlit("res://resources/Objects/Buildings/arcology_forest.tscn");
    let path = building_scene_of(Buildings::ArcologyForest);
    assert(path.subrange(0, 24) =~= objects_dir());
    assert(path.subrange(49, 54) =~= ".tscn"@);
    assert(path.subrange(0, 34) =~= "res://resources/Objects/Buildings/"@);
    assert(path.subrange(0, 31)[24] != "res://resources/Objects/Ground/"@[24]);
}

proof fn lemma_scene_path_facts_arcology_darco()
    ensures
        scene_path_facts(Buildings::ArcologyDarco),
{
    reveal_strlit("res://resources/Objects/");
    reveal_strlit("res://resources/Objects/Ground/");
    reveal_strlit("res://resources/Objects/Buildings/");
    reveal_strlit(".tscn");
    reveal_strlit("res://resources/Objects/Buildings/arcology_darco.tscn");
    let path = building_scene_of(Buildings::ArcologyDarco);
    assert(path.subrange(0, 24) =~= objects_dir());
    assert(path.subrange(48, 53) =~= ".tscn"@);
    assert(path.subrange(0, 34) =~= "res://resources/Objects/Buildings/"@);
    assert(path.subrange(0, 31)[24] != "res://resources/Objects/Ground/"@[24]);
}

proof fn lemma_scene_path_facts_arcology_launch()
    ensures
        scene_path_facts(Buildings::ArcologyLaunch),
{
    reveal_strlit("res://resources/Objects/");
    reveal_strlit("res://resources/Objects/Ground/");
    reveal_strlit("res://resources/Objects/Buildings/");
    reveal_strlit(".tscn");
    reveal_strlit("res://resources/Objects/Buildings/arcology_launch.tscn");
    let path = building_scene_of(Buildings::ArcologyLaunch);
    assert(path.subrange(0, 24) =~= objects_dir());
    assert(path.subrange(49, 54) =~= ".tscn"@);
    assert(path.subrange(0, 34) =~= "res://resources/Objects/Buildings/"@);
    assert(path.subrange(0, 31)[24] != "res://resources/Objects/Ground/"@[24]);
}

proof fn lemma_scene_path_facts_mayors_house()
    ensures
        scene_path_facts(Buildings::MayorsHouse),
{
    reveal_strlit("res://resources/Objects/");
    reveal_strlit("res://resources/Objects/Ground/");
    reveal_strlit("res://resources/Objects/Buildings/");
    reveal_strlit(".tscn");
    reveal_strlit("res://resources/Objects/Buildings/mayors_house.tscn");
    let path = building_scene_of(Buildings::MayorsHouse);
    assert(path.subrange(0, 24) =~= objects_dir());
    assert(path.subrange(46, 51) =~= ".tscn"@);
    assert(path.subrange(0, 34) =~= "res://resources/Objects/Buildings/"@);
    assert(path.subrange(0, 31)[24] != "res://resources/Objects/Ground/"@[24]);
}

proof fn lemma_scene_path_facts_museum()
    ensures
        scene_path_facts(Buildings::Museum),
{
    reveal_strlit("res://resources/Objects/");
    reveal_strlit("res://resources/Objects/Ground/");
    reveal_strlit("res://resources/Objects/Buildings/");
    reveal_strlit(".tscn");
    reveal_strlit("res://resources/Objects/Buildings/museum.tscn");
    let path = building_scene_of(Buildings::Museum);
    assert(path.subrange(0, 24) =~= objects_dir());
    assert(path.subrange(40, 45) =~= ".tscn"@);
    assert(path.subrange(0, 34) =~= "res://resources/Objects/Buildings/"@);
    assert(path.subrange(0, 31)[24] != "res://resources/Objects/Ground/"@[24]);
}

proof fn lemma_scene_path_facts_office_retail()
    ensures
        scene_path_facts(Buildings::OfficeRetail),
{
    reveal_strlit("res://resources/Objects/");
    reveal_strlit("res://resources/Objects/Ground/");
    reveal_strlit("res://resources/Objects/Buildings/");
    reveal_strlit(".tscn");
    reveal_strlit("res://resources/Objects/Buildings/office_retail.tscn");
    let path = building_scene_of(Buildings::OfficeRetail);
    assert(path.subrange(0, 24) =~= objects_dir());
    assert(path.subrange(47, 52) =~= ".tscn"@);
    assert(path.subrange(0, 34) =~= "res://resources/Objects/Buildings/"@);
    assert(path.subrange(0, 31)[24] != "res://resources/Objects/Ground/"@[24]);
}

proof fn lemma_scene_path_facts_parking_lot()
    ensures
        scene_path_facts(Buildings::ParkingLot),
{
    reveal_strlit("res://resources/Objects/");
    reveal_strlit("res://resources/Objects/Ground/");
    reveal_strlit("res://resources/Objects/Buildings/");
    reveal_strlit(".tscn");
    reveal_strlit("res://resources/Objects/Buildings/parking_lot.tscn");
    let path = building_scene_of(Buildings::ParkingLot);
    assert(path.subrange(0, 24) =~= objects_dir());
    assert(path.subrange(45, 50) =~= ".tscn"@);
    assert(path.subrange(0, 34) =~= "res://resources/Objects/Buildings/"@);
    assert(path.subrange(0, 31)[24] != "res://resources/Objects/Ground/"@[24]);
}

proof fn lemma_scene_path_facts_shopping_centre()
    ensures
        scene_path_facts(Buildings::ShoppingCentre),
{
    reveal_strlit("res://resources/Objects/");
    reveal_strlit("res://resources/Objects/Ground/");
    reveal_strlit("res://resources/Objects/Buildings/");
    reveal_strlit(".tscn");
    reveal_strlit("res://resources/Objects/Buildings/shopping_centre.tscn");
    let path = building_scene_of(Buildings::ShoppingCentre);
    assert(path.subrange(0, 24) =~= objects_dir());
    assert(path.subrange(49, 54) =~= ".tscn"@);
    assert(path.subrange(0, 34) =~= "res://resources/Objects/Buildings/"@);
    assert(path.subrange(0, 31)[24] != "res://resources/Objects/Ground/"@[24]);
}

proof fn lemma_scene_path_facts_theatre()
    ensures
        scene_path_facts(Buildings::Theatre),
{
    reveal_strlit("res://resources/Objects/");
    reveal_strlit("res://resources/Objects/Ground/");
    reveal_strlit("res://resources/Objects/Buildings/");
    reveal_strlit(".tscn");
    reveal_strlit("res://resources/Objects/Buildings/theatre.tscn");
    let path = building_scene_of(Buildings::Theatre);
    assert(path.subrange(0, 24) =~= objects_dir());
    assert(path.subrange(41, 46) =~= ".tscn"@);
    assert(path.subrange(0, 34) =~= "res://resources/Objects/Buildings/"@);
    assert(path.subrange(0, 31)[24] != "res://resources/Objects/Ground/"@[24]);
}

proof fn lemma_scene_path_facts_water_treatment()
    ensures
        scene_path_facts(Buildings::WaterTreatment),
{
    reveal_strlit("res://resources/Objects/");
    reveal_strlit("res://resources/Objects/Ground/");
    reveal_strlit("res://resources/Objects/Buildings/");
    reveal_strlit(".tscn");
    reveal_strlit("res://resources/Objects/Buildings/water_treatment.tscn");
    let path = building_scene_of(Buildings::WaterTreatment);
    assert(path.subrange(0, 24) =~= objects_dir());
    assert(path.subrange(49, 54) =~= ".tscn"@);
    assert(path.subrange(0, 34) =~= "res://resources/Objects/Buildings/"@);
    assert(path.subrange(0, 31)[24] != "res://resources/Objects/Ground/"@[24]);
}

proof fn lemma_scene_path_facts(v: Buildings)
    ensures
        scene_path_facts(v),
{
    match v {
        Buildings::ParkSmall => lemma_scene_path_facts_park_small(),
        Buildings::TreeSingle => lemma_scene_path_facts_tree_single(),
        Buildings::HomeMiddleClass1 => lemma_scene_path_facts_home_middle_class_1(),
        Buildings::HomeMiddleClass2 => lemma_scene_path_facts_home_middle_class_2(),
        Buildings::HomeMiddleClass3 => lemma_scene_path_facts_home_middle_class_3(),
        Buildings::HomeMiddleClass4 => lemma_scene_path_facts_home_middle_class_4(),
        Buildings::HomeMiddleClass5 => lemma_scene_path_facts_home_middle_class_5(),
        Buildings::Church => lemma_scene_path_facts_church(),
        Buildings::OfficeBuildingMedium1 => lemma_scene_path_facts_office_building_medium_1(),
        Buildings::OfficeBuildingMedium2 => lemma_scene_path_facts_office_building_medium_2(),
        Buildings::OfficeBuildingMedium3 => lemma_scene_path_facts_office_building_medium_3(),
        Buildings::OfficeBuildingMedium4 => lemma_scene_path_facts_office_building_medium_4(),
        Buildings::OfficeBuildingMedium5 => lemma_scene_path_facts_office_building_medium_5(),
        Buildings::OfficeBuildingMedium6 => lemma_scene_path_facts_office_building_medium_6(),
        Buildings::AbandonedBuilding1 => lemma_scene_path_facts_abandoned_building_1(),
        Buildings::AbandonedBuilding2 => lemma_scene_path_facts_abandoned_building_2(),
        Buildings::AbandonedBuilding3 => lemma_scene_path_facts_abandoned_building_3(),
        Buildings::AbandonedBuilding4 => lemma_scene_path_facts_abandoned_building_4(),
        Buildings::AbandonedBuilding5 => lemma_scene_path_facts_abandoned_building_5(),
        Buildings::AbandonedBuilding6 => lemma_scene_path_facts_abandoned_building_6(),
        Buildings::HomeUpperClass1 => lemma_scene_path_facts_home_upper_class_1(),
        Buildings::HomeUpperClass2 => lemma_scene_path_facts_home_upper_class_2(),
        Buildings::HomeUpperClass3 => lemma_scene_path_facts_home_upper_class_3(),
        Buildings::HomeUpperClass4 => lemma_scene_path_facts_home_upper_class_4(),
        Buildings::Tarmac => lemma_scene_path_facts_tarmac(),
        Buildings::TarmacRadar => lemma_scene_path_facts_tarmac_radar(),
        Buildings::Construction1 => lemma_scene_path_facts_construction_1(),
        Buildings::Construction2 => lemma_scene_path_facts_construction_2(),
        Buildings::Construction3 => lemma_scene_path_facts_construction_3(),
        Buildings::Construction4 => lemma_scene_path_facts_construction_4(),
        Buildings::Construction5 => lemma_scene_path_facts_construction_5(),
        Buildings::Construction6 => lemma_scene_path_facts_construction_6(),
        Buildings::Construction7 => lemma_scene_path_facts_construction_7(),
        Buildings::Construction8 => lemma_scene_path_facts_construction_8(),
        Buildings::AirportWarehouse => lemma_scene_path_facts_airport_warehouse(),
        Buildings::AirportBuilding1 => lemma_scene_path_facts_airport_building_1(),
        Buildings::AirportBuilding2 => lemma_scene_path_facts_airport_building_2(),
        Buildings::AirportHangar1 => lemma_scene_path_facts_airport_hangar_1(),
        Buildings::AirportRunway => lemma_scene_path_facts_airport_runway(),
        Buildings::AirportRunwayIntersection => lemma_scene_path_facts_airport_runway_intersection(),
        Buildings::Hangar2 => lemma_scene_path_facts_hangar_2(),
        Buildings::CondominiumsMedium1 => lemma_scene_path_facts_condominiums_medium_1(),
        Buildings::CondominiumsMedium2 => lemma_scene_path_facts_condominiums_medium_2(),
        Buildings::CondominiumsMedium3 => lemma_scene_path_facts_condominiums_medium_3(),
        Buildings::CondominiumsLarge1 => lemma_scene_path_facts_condominiums_large_1(),
        Buildings::CondominiumsLarge2 => lemma_scene_path_facts_condominiums_large_2(),
        Buildings::FactorySmall1 => lemma_scene_path_facts_factory_small_1(),
        Buildings::FactorySmall2 => lemma_scene_path_facts_factory_small_2(),
        Buildings::FactorySmall3 => lemma_scene_path_facts_factory_small_3(),
        Buildings::FactorySmall4 => lemma_scene_path_facts_factory_small_4(),
        Buildings::FactorySmall5 => lemma_scene_path_facts_factory_small_5(),
        Buildings::FactorySmall6 => lemma_scene_path_facts_factory_small_6(),
        Buildings::StationPolice => lemma_scene_path_facts_station_police(),
        Buildings::ApartmentsMedium1 => lemma_scene_path_facts_apartments_medium_1(),
        Buildings::ApartmentsMedium2 => lemma_scene_path_facts_apartments_medium_2(),
        Buildings::ToyStore => lemma_scene_path_facts_toy_store(),
        Buildings::IndustrialSubstation => lemma_scene_path_facts_industrial_substation(),
        Buildings::OfficesSmall1 => lemma_scene_path_facts_offices_small_1(),
        Buildings::OfficesSmall2 => lemma_scene_path_facts_offices_small_2(),
        Buildings::OfficesHistoric => lemma_scene_path_facts_offices_historic(),
        Buildings::WaterPump => lemma_scene_path_facts_water_pump(),
        Buildings::StationHospital => lemma_scene_path_facts_station_hospital(),
        Buildings::ConvenienceStore => lemma_scene_path_facts_convenience_store(),
        Buildings::StationGas1 => lemma_scene_path_facts_station_gas_1(),
        Buildings::StationGas2 => lemma_scene_path_facts_station_gas_2(),
        Buildings::HomeLowerClass1 => lemma_scene_path_facts_home_lower_class_1(),
        Buildings::HomeLowerClass2 => lemma_scene_path_facts_home_lower_class_2(),
        Buildings::HomeLowerClass3 => lemma_scene_path_facts_home_lower_class_3(),
        Buildings::Warehouse => lemma_scene_path_facts_warehouse(),
        Buildings::AirportCivilianControlTower => lemma_scene_path_facts_airport_civilian_control_tower(),
        Buildings::StationFire => lemma_scene_path_facts_station_fire(),
        Buildings::PowerplantMicrowave => lemma_scene_path_facts_powerplant_microwave(),
        Buildings::ResortHotel => lemma_scene_path_facts_resort_hotel(),
        Buildings::ApartmentsLarge1 => lemma_scene_path_facts_apartments_large_1(),
        Buildings::ApartmentsLarge2 => lemma_scene_path_facts_apartments_large_2(),
        Buildings::ApartmentsSmall1 => lemma_scene_path_facts_apartments_small_1(),
        Buildings::ApartmentsSmall2 => lemma_scene_path_facts_apartments_small_2(),
        Buildings::ApartmentsSmall3 => lemma_scene_path_facts_apartments_small_3(),
        Buildings::TreeCouple => lemma_scene_path_facts_tree_couple(),
        Buildings::ChemicalStorage => lemma_scene_path_facts_chemical_storage(),
        Buildings::ChemicalProcessing1 => lemma_scene_path_facts_chemical_processing_1(),
        Buildings::ChemicalProcessing2 => lemma_scene_path_facts_chemical_processing_2(),
        Buildings::School => lemma_scene_path_facts_school(),
        Buildings::Library => lemma_scene_path_facts_library(),
        Buildings::Marina => lemma_scene_path_facts_marina(),
        Buildings::WarehouseLarge1 => lemma_scene_path_facts_warehouse_large_1(),
        Buildings::WarehouseLarge2 => lemma_scene_path_facts_warehouse_large_2(),
        Buildings::WarehouseSmall1 => lemma_scene_path_facts_warehouse_small_1(),
        Buildings::WarehouseSmall2 => lemma_scene_path_facts_warehouse_small_2(),
        Buildings::WarehouseMedium => lemma_scene_path_facts_warehouse_medium(),
        Buildings::BbInn => lemma_scene_path_facts_bb_inn(),
        Buildings::College => lemma_scene_path_facts_college(),
        Buildings::ArcologyPlymouth => lemma_scene_path_facts_arcology_plymouth(),
        Buildings::ArcologyForest => lemma_scene_path_facts_arcology_forest(),
        Buildings::ArcologyDarco => lemma_scene_path_facts_arcology_darco(),
        Buildings::ArcologyLaunch => lemma_scene_path_facts_arcology_launch(),
        Buildings::MayorsHouse => lemma_scene_path_facts_mayors_house(),
        Buildings::Museum => lemma_scene_path_facts_museum(),
        Buildings::OfficeRetail => lemma_scene_path_facts_office_retail(),
        Buildings::ParkingLot => lemma_scene_path_facts_parking_lot(),
        Buildings::ShoppingCentre => lemma_scene_path_facts_shopping_centre(),
        Buildings::Theatre => lemma_scene_path_facts_theatre(),
        Buildings::WaterTreatment => lemma_scene_path_facts_water_treatment(),
    }
}

/// The scene of every kind of building lies under the objects directory and is a `.tscn`
/// file; it lies under `Ground/` for the tarmac and under `Buildings/` for every other kind;
/// and no two kinds share a scene but the two construction sites `Construction1` and
/// `Construction2`.
pub proof fn lemma_building_scene_paths(b: Buildings, c: Buildings)
    ensures
        path_begins_with(building_scene_of(b), objects_dir()),
        path_ends_with(building_scene_of(b), ".tscn"@),
        path_begins_with(building_scene_of(b), "res://resources/Objects/Ground/"@) <==> b
            == Buildings::Tarmac,
        path_begins_with(building_scene_of(b), "res://resources/Objects/Buildings/"@) <==> b
            != Buildings::Tarmac,
        building_scene_of(b) == building_scene_of(c) ==> b == c || (shares_construction_scene(b)
            && shares_construction_scene(c)),
{
    lemma_scene_path_facts(b);
    lemma_scene_path_facts(c);
}

/// The scene of a network piece (power line, road or bridge) with this object id;
/// power lines are looked up first, then roads, suspension bridges and pylon bridges.
pub open spec fn network_scene(id: u8) -> Option<Seq<char>> {
    if powerline_of_id(id) is Some {
        Some(powerline_scene(powerline_of_id(id)->0))
    } else if road_of_id(id) is Some {
        Some(road_scene(road_of_id(id)->0))
    } else if suspension_bridge_of_id(id) is Some {
        Some(suspension_bridge_scene(suspension_bridge_of_id(id)->0))
    } else if pylon_bridge_of_id(id) is Some {
        Some(pylon_bridge_scene(pylon_bridge_of_id(id)->0))
    } else {
        None
    }
}

/// The scene of a building with this object id.
pub open spec fn building_scene(id: u8) -> Option<Seq<char>> {
    if building_of_id(id) is Some {
        Some(building_scene_of(building_of_id(id)->0))
    } else {
        None
    }
}

/// Looks up the scene of a network piece by its object id.
pub fn networks(id: u8) -> (r: Option<&'static str>)
    ensures
        match r {
            Some(p) => network_scene(id) == Some(p@),
            None => network_scene(id) is None,
        },
{
    if let Some(p) = Powerlines::try_from_u8(id) {
        return Some(p.as_str());
    }
    if let Some(r) = Road::try_from_u8(id) {
        return Some(r.as_str());
    }
    if let Some(b) = SuspensionBridge::try_from_u8(id) {
        return Some(b.as_str());
    }
    if let Some(b) = PylonBridge::try_from_u8(id) {
        return Some(b.as_str());
    }
    None
}

/// Looks up the scene of a building by its object id.
pub fn buildings(id: u8) -> (r: Option<&'static str>)
    ensures
        match r {
            Some(p) => building_scene(id) == Some(p@),
            None => building_scene(id) is None,
        },
{
    match Buildings::try_from_u8(id) {
        Some(b) => Some(b.as_str()),
        None => None,
    }
}

/// Whether an object id stands for a piece of a bridge.
pub open spec fn is_bridge_id(id: u8) -> bool {
    suspension_bridge_of_id(id) is Some || pylon_bridge_of_id(id) is Some
}

/// Whether an object id stands for a piece of a bridge, suspension or pylon.
pub fn is_bridge(id: u8) -> (r: bool)
    ensures
        r == is_bridge_id(id),
{
    SuspensionBridge::try_from_u8(id).is_some() || PylonBridge::try_from_u8(id).is_some()
}

impl Buildings {
    /// Whether a stored object id is the id of this kind of building.
    pub fn is_id(&self, other: u8) -> (r: bool)
        ensures
            r == (building_id(*self) == other),
    {
        self.id() == other
    }
}

} // verus!
