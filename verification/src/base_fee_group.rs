use vstd::prelude::*;

use crate::error::TipRouterError;

verus! {

/// The groups that base fees are paid to.
#[derive(Debug, Clone, Copy, PartialEq, Eq, Structural)]
pub enum BaseFeeGroupType {
    DAO,
    Reserved1,
    Reserved2,
    Reserved3,
    Reserved4,
    Reserved5,
    Reserved6,
    Reserved7,
}

/// The number that stands for each group type.
pub open spec fn base_fee_group_type_value(t: BaseFeeGroupType) -> u8 {
    match t {
        BaseFeeGroupType::DAO => 0,
        BaseFeeGroupType::Reserved1 => 1,
        BaseFeeGroupType::Reserved2 => 2,
        BaseFeeGroupType::Reserved3 => 3,
        BaseFeeGroupType::Reserved4 => 4,
        BaseFeeGroupType::Reserved5 => 5,
        BaseFeeGroupType::Reserved6 => 6,
        BaseFeeGroupType::Reserved7 => 7,
    }
}

impl BaseFeeGroupType {
    /// The number that stands for this group type.
    pub fn value(&self) -> (v: u8)
        ensures
            v == base_fee_group_type_value(*self),
    {
        match self {
            BaseFeeGroupType::DAO => 0,
            BaseFeeGroupType::Reserved1 => 1,
            BaseFeeGroupType::Reserved2 => 2,
            BaseFeeGroupType::Reserved3 => 3,
            BaseFeeGroupType::Reserved4 => 4,
            BaseFeeGroupType::Reserved5 => 5,
            BaseFeeGroupType::Reserved6 => 6,
            BaseFeeGroupType::Reserved7 => 7,
        }
    }
}

#[derive(Debug, Clone, Copy, PartialEq, Eq, Structural, Hash)]
pub struct BaseFeeGroup {
    pub group: u8,
}

/// The groups in the order `all_groups` lists them: group `i` at index `i`.
pub open spec fn base_fee_group_all_groups_spec() -> Seq<BaseFeeGroup> {
    Seq::new(8, |i: int| BaseFeeGroup { group: i as u8 })
}

/// What converting a raw group number gives.
pub open spec fn base_fee_group_from_u8(group: u8) -> Result<BaseFeeGroup, TipRouterError> {
    if group < 8 {
        Ok(BaseFeeGroup { group })
    } else {
        Err(TipRouterError::InvalidBaseFeeGroup)
    }
}

impl Default for BaseFeeGroup {
    fn default() -> (g: Self)
        ensures
            g.group == 0,
    {
        BaseFeeGroup { group: 0 }
    }
}

impl TryFrom<u8> for BaseFeeGroup {
    type Error = TipRouterError;

    fn try_from(group: u8) -> (r: Result<Self, Self::Error>) {
        if group < 8 {
            Ok(BaseFeeGroup { group })
        } else {
            Err(TipRouterError::InvalidBaseFeeGroup)
        }
    }
}

impl vstd::std_specs::convert::TryFromSpecImpl<u8> for BaseFeeGroup {
    open spec fn obeys_try_from_spec() -> bool {
        true
    }

    open spec fn try_from_spec(group: u8) -> Result<Self, TipRouterError> {
        base_fee_group_from_u8(group)
    }
}

impl BaseFeeGroup {
    pub const FEE_GROUP_COUNT: usize = 8;

    pub fn new(group: BaseFeeGroupType) -> (g: Self)
        ensures
            g.group == base_fee_group_type_value(group),
    {
        BaseFeeGroup { group: group.value() }
    }

    pub fn dao() -> (g: Self)
        ensures
            g.group == 0,
    {
        Self::new(BaseFeeGroupType::DAO)
    }

    /// The group type, for group numbers below eight.
    pub fn group_type(&self) -> (r: Result<BaseFeeGroupType, TipRouterError>)
        ensures
            self.group < 8 ==> (r matches Ok(t) && base_fee_group_type_value(t) == self.group),
            self.group >= 8 ==> r == Err::<BaseFeeGroupType, TipRouterError>(TipRouterError::InvalidNcnFeeGroup),
    {
        match self.group {
            0 => Ok(BaseFeeGroupType::DAO),
            1 => Ok(BaseFeeGroupType::Reserved1),
            2 => Ok(BaseFeeGroupType::Reserved2),
            3 => Ok(BaseFeeGroupType::Reserved3),
            4 => Ok(BaseFeeGroupType::Reserved4),
            5 => Ok(BaseFeeGroupType::Reserved5),
            6 => Ok(BaseFeeGroupType::Reserved6),
            7 => Ok(BaseFeeGroupType::Reserved7),
            _ => Err(TipRouterError::InvalidNcnFeeGroup),
        }
    }

    /// The position of the group among all groups.
    pub fn group_index(&self) -> (r: Result<usize, TipRouterError>)
        ensures
            self.group < 8 ==> r == Ok::<usize, TipRouterError>(self.group as usize),
            self.group >= 8 ==> r == Err::<usize, TipRouterError>(TipRouterError::InvalidNcnFeeGroup),
    {
        let group = self.group_type()?;
        Ok(group.value() as usize)
    }

    /// Every group, in order.
    pub fn all_groups() -> (groups: Vec<Self>)
        ensures
            groups@ == base_fee_group_all_groups_spec(),
    {
        let mut groups: Vec<Self> = Vec::new();
        let mut i: u8 = 0;
        while i < 8
            invariant
                i <= 8,
                groups@ == base_fee_group_all_groups_spec().take(i as int),
            decreases 8 - i,
        {
            groups.push(BaseFeeGroup { group: i });
            i = i + 1;
            assert(groups@ =~= base_fee_group_all_groups_spec().take(i as int));
        }
        assert(groups@ =~= base_fee_group_all_groups_spec());
        groups
    }
}

} // verus!
