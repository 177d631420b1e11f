//! What caused a mutation of the mesh path table.
use vstd::prelude::*;

verus! {

/// Cause of a path-table mutation: who triggered it (a transmitted frame, a
/// received frame, a user-space command, or the kernel's expiry timer) and
/// what it did to the path.
#[allow(non_camel_case_types)]
#[derive(Clone, Copy, Debug, PartialEq, Eq, Structural, Hash)]
pub enum Action {
    ACT_TX_UNKNOWN,
    ACT_RX_UNKNOWN,
    ACT_US_UNKNOWN,
    ACT_TX_ADD,
    ACT_TX_ADD_ASG,
    ACT_TX_ASG,
    ACT_TX_CHG,
    ACT_TX_DEL,
    ACT_RX_ADD,
    ACT_RX_ADD_ASG,
    ACT_RX_ASG,
    ACT_RX_CHG,
    ACT_RX_DEL,
    ACT_US_ADD,
    ACT_US_ADD_ASG,
    ACT_US_ASG,
    ACT_US_CHG,
    ACT_US_DEL,
    ACT_KR_EXP,
}

/// The numeric code of an action in the kernel record.
pub open spec fn action_code(a: Action) -> u32 {
    match a {
        Action::ACT_TX_UNKNOWN => 0,
        Action::ACT_RX_UNKNOWN => 1,
        Action::ACT_US_UNKNOWN => 2,
        Action::ACT_TX_ADD => 3,
        Action::ACT_TX_ADD_ASG => 4,
        Action::ACT_TX_ASG => 5,
        Action::ACT_TX_CHG => 6,
        Action::ACT_TX_DEL => 7,
        Action::ACT_RX_ADD => 8,
        Action::ACT_RX_ADD_ASG => 9,
        Action::ACT_RX_ASG => 10,
        Action::ACT_RX_CHG => 11,
        Action::ACT_RX_DEL => 12,
        Action::ACT_US_ADD => 13,
        Action::ACT_US_ADD_ASG => 14,
        Action::ACT_US_ASG => 15,
        Action::ACT_US_CHG => 16,
        Action::ACT_US_DEL => 17,
        Action::ACT_KR_EXP => 18,
    }
}

/// The short name of an action.
pub open spec fn action_name(a: Action) -> Seq<char> {
    match a {
        Action::ACT_TX_UNKNOWN => "TX_UNKNOWN"@,
        Action::ACT_RX_UNKNOWN => "RX_UNKNOWN"@,
        Action::ACT_US_UNKNOWN => "US_UNKNOWN"@,
        Action::ACT_TX_ADD => "TX_ADD"@,
        Action::ACT_TX_ADD_ASG => "TX_ADD_ASG"@,
        Action::ACT_TX_ASG => "TX_ASG"@,
        Action::ACT_TX_CHG => "TX_CHG"@,
        Action::ACT_TX_DEL => "TX_DEL"@,
        Action::ACT_RX_ADD => "RX_ADD"@,
        Action::ACT_RX_ADD_ASG => "RX_ADD_ASG"@,
        Action::ACT_RX_ASG => "RX_ASG"@,
        Action::ACT_RX_CHG => "RX_CHG"@,
        Action::ACT_RX_DEL => "RX_DEL"@,
        Action::ACT_US_ADD => "US_ADD"@,
        Action::ACT_US_ADD_ASG => "US_ADD_ASG"@,
        Action::ACT_US_ASG => "US_ASG"@,
        Action::ACT_US_CHG => "US_CHG"@,
        Action::ACT_US_DEL => "US_DEL"@,
        Action::ACT_KR_EXP => "KR_EXP"@,
    }
}

/// The long description of an action.
pub open spec fn action_description(a: Action) -> Seq<char> {
    match a {
        Action::ACT_TX_UNKNOWN => "Unknown action caused by a packet transmission."@,
        Action::ACT_RX_UNKNOWN => "Unknown action caused by a packet reception."@,
        Action::ACT_US_UNKNOWN => "Unknown action caused by command from user-space."@,
        Action::ACT_TX_ADD => "A packet transmission caused a mesh path to be added (without a nexthop)."@,
        Action::ACT_TX_ADD_ASG => "A packet transmission caused a mesh path to be added (with a nexthop)."@,
        Action::ACT_TX_ASG => "A packet transmission caused the insertion of a nexthop to a mesh path that didn't have one."@,
        Action::ACT_TX_CHG => "A packet transmission caused the update of a nexthop to a mesh path that already had one."@,
        Action::ACT_TX_DEL => "A packet transmission caused a mesh path to be deleted."@,
        Action::ACT_RX_ADD => "A packet reception caused a mesh path to be added (without a nexthop)."@,
        Action::ACT_RX_ADD_ASG => "A packet reception caused a mesh path to be added (with a nexthop)."@,
        Action::ACT_RX_ASG => "A packet reception caused the insertion of a nexthop to a mesh path that didn't have one."@,
        Action::ACT_RX_CHG => "A packet reception caused the update of a nexthop to a mesh path that already had one."@,
        Action::ACT_RX_DEL => "A packet reception caused a mesh path to be deleted."@,
        Action::ACT_US_ADD => "A command from user-space caused a mesh path to be added (without a nexthop)."@,
        Action::ACT_US_ADD_ASG => "A command from user-space caused a mesh path to be added (with a nexthop)."@,
        Action::ACT_US_ASG => "A command from user-space caused the insertion of a nexthop to a mesh path that didn't have one."@,
        Action::ACT_US_CHG => "A command from user-space caused the update of a nexthop to a mesh path that already had one."@,
        Action::ACT_US_DEL => "A command from user-space caused a mesh path to be deleted."@,
        Action::ACT_KR_EXP => "A mesh path was deleted because it expired."@,
    }
}

/// A path was added without a next hop.
pub open spec fn is_add_family(a: Action) -> bool {
    a == Action::ACT_TX_ADD || a == Action::ACT_RX_ADD || a == Action::ACT_US_ADD
}

/// The cause is unknown, or an existing next hop was replaced.
pub open spec fn is_unknown_or_change_family(a: Action) -> bool {
    a == Action::ACT_TX_UNKNOWN || a == Action::ACT_RX_UNKNOWN || a == Action::ACT_US_UNKNOWN
        || a == Action::ACT_TX_CHG || a == Action::ACT_RX_CHG || a == Action::ACT_US_CHG
}

/// A path got a next hop it did not have: added with one, or one inserted.
pub open spec fn is_assign_family(a: Action) -> bool {
    a == Action::ACT_TX_ADD_ASG || a == Action::ACT_RX_ADD_ASG || a == Action::ACT_US_ADD_ASG
        || a == Action::ACT_TX_ASG || a == Action::ACT_RX_ASG || a == Action::ACT_US_ASG
}

/// A path was deleted, or expired.
pub open spec fn is_removal_family(a: Action) -> bool {
    a == Action::ACT_TX_DEL || a == Action::ACT_RX_DEL || a == Action::ACT_US_DEL
        || a == Action::ACT_KR_EXP
}

/// The action was caused by a transmitted or received frame.
pub open spec fn is_frame_caused(a: Action) -> bool {
    match a {
        Action::ACT_TX_UNKNOWN | Action::ACT_TX_ADD | Action::ACT_TX_ADD_ASG | Action::ACT_TX_ASG
        | Action::ACT_TX_CHG | Action::ACT_TX_DEL | Action::ACT_RX_UNKNOWN | Action::ACT_RX_ADD
        | Action::ACT_RX_ADD_ASG | Action::ACT_RX_ASG | Action::ACT_RX_CHG | Action::ACT_RX_DEL => true,
        _ => false,
    }
}

/// Number of actions; codes run from zero up to, not including, this.
pub const ACTION_COUNT: u32 = 19;

impl Action {
    /// The long description of the action.
    pub fn detailed(&self) -> (r: &'static str)
        ensures
            r@ == action_description(*self),
    {
        match self {
            Self::ACT_TX_UNKNOWN => "Unknown action caused by a packet transmission.",
            Self::ACT_RX_UNKNOWN => "Unknown action caused by a packet reception.",
            Self::ACT_US_UNKNOWN => "Unknown action caused by command from user-space.",
            Self::ACT_TX_ADD => "A packet transmission caused a mesh path to be added (without a nexthop).",
            Self::ACT_TX_ADD_ASG => "A packet transmission caused a mesh path to be added (with a nexthop).",
            Self::ACT_TX_ASG => "A packet transmission caused the insertion of a nexthop to a mesh path that didn't have one.",
            Self::ACT_TX_CHG => "A packet transmission caused the update of a nexthop to a mesh path that already had one.",
            Self::ACT_TX_DEL => "A packet transmission caused a mesh path to be deleted.",
            Self::ACT_RX_ADD => "A packet reception caused a mesh path to be added (without a nexthop).",
            Self::ACT_RX_ADD_ASG => "A packet reception caused a mesh path to be added (with a nexthop).",
            Self::ACT_RX_ASG => "A packet reception caused the insertion of a nexthop to a mesh path that didn't have one.",
            Self::ACT_RX_CHG => "A packet reception caused the update of a nexthop to a mesh path that already had one.",
            Self::ACT_RX_DEL => "A packet reception caused a mesh path to be deleted.",
            Self::ACT_US_ADD => "A command from user-space caused a mesh path to be added (without a nexthop).",
            Self::ACT_US_ADD_ASG => "A command from user-space caused a mesh path to be added (with a nexthop).",
            Self::ACT_US_ASG => "A command from user-space caused the insertion of a nexthop to a mesh path that didn't have one.",
            Self::ACT_US_CHG => "A command from user-space caused the update of a nexthop to a mesh path that already had one.",
            Self::ACT_US_DEL => "A command from user-space caused a mesh path to be deleted.",
            Self::ACT_KR_EXP => "A mesh path was deleted because it expired.",
        }
    }

    /// The short name of the action, such as `TX_ADD`.
    pub fn name(&self) -> (r: &'static str)
        ensures
            r@ == action_name(*self),
    {
        match self {
            Self::ACT_TX_UNKNOWN => "TX_UNKNOWN",
            Self::ACT_RX_UNKNOWN => "RX_UNKNOWN",
            Self::ACT_US_UNKNOWN => "US_UNKNOWN",
            Self::ACT_TX_ADD => "TX_ADD",
            Self::ACT_TX_ADD_ASG => "TX_ADD_ASG",
            Self::ACT_TX_ASG => "TX_ASG",
            Self::ACT_TX_CHG => "TX_CHG",
            Self::ACT_TX_DEL => "TX_DEL",
            Self::ACT_RX_ADD => "RX_ADD",
            Self::ACT_RX_ADD_ASG => "RX_ADD_ASG",
            Self::ACT_RX_ASG => "RX_ASG",
            Self::ACT_RX_CHG => "RX_CHG",
            Self::ACT_RX_DEL => "RX_DEL",
            Self::ACT_US_ADD => "US_ADD",
            Self::ACT_US_ADD_ASG => "US_ADD_ASG",
            Self::ACT_US_ASG => "US_ASG",
            Self::ACT_US_CHG => "US_CHG",
            Self::ACT_US_DEL => "US_DEL",
            Self::ACT_KR_EXP => "KR_EXP",
        }
    }

    /// The numeric code of the action in the kernel record.
    pub fn code(&self) -> (r: u32)
        ensures
            r == action_code(*self),
    {
        match self {
            Self::ACT_TX_UNKNOWN => 0,
            Self::ACT_RX_UNKNOWN => 1,
            Self::ACT_US_UNKNOWN => 2,
            Self::ACT_TX_ADD => 3,
            Self::ACT_TX_ADD_ASG => 4,
            Self::ACT_TX_ASG => 5,
            Self::ACT_TX_CHG => 6,
            Self::ACT_TX_DEL => 7,
            Self::ACT_RX_ADD => 8,
            Self::ACT_RX_ADD_ASG => 9,
            Self::ACT_RX_ASG => 10,
            Self::ACT_RX_CHG => 11,
            Self::ACT_RX_DEL => 12,
            Self::ACT_US_ADD => 13,
            Self::ACT_US_ADD_ASG => 14,
            Self::ACT_US_ASG => 15,
            Self::ACT_US_CHG => 16,
            Self::ACT_US_DEL => 17,
            Self::ACT_KR_EXP => 18,
        }
    }

    /// The action with the given numeric code, if there is one.
    pub fn from_code(code: u32) -> (r: Option<Action>)
        ensures
            r is Some <==> code < ACTION_COUNT,
            r matches Some(a) ==> action_code(a) == code,
    {
        match code {
            0 => Some(Self::ACT_TX_UNKNOWN),
            1 => Some(Self::ACT_RX_UNKNOWN),
            2 => Some(Self::ACT_US_UNKNOWN),
            3 => Some(Self::ACT_TX_ADD),
            4 => Some(Self::ACT_TX_ADD_ASG),
            5 => Some(Self::ACT_TX_ASG),
            6 => Some(Self::ACT_TX_CHG),
            7 => Some(Self::ACT_TX_DEL),
            8 => Some(Self::ACT_RX_ADD),
            9 => Some(Self::ACT_RX_ADD_ASG),
            10 => Some(Self::ACT_RX_ASG),
            11 => Some(Self::ACT_RX_CHG),
            12 => Some(Self::ACT_RX_DEL),
            13 => Some(Self::ACT_US_ADD),
            14 => Some(Self::ACT_US_ADD_ASG),
            15 => Some(Self::ACT_US_ASG),
            16 => Some(Self::ACT_US_CHG),
            17 => Some(Self::ACT_US_DEL),
            18 => Some(Self::ACT_KR_EXP),
            _ => None,
        }
    }
}

} // verus!
