use vstd::prelude::*;

use crate::error::TipRouterError;

verus! {

/// The groups that NCN fees and stake weights are split into.
#[derive(Debug, Clone, Copy, PartialEq, Eq, Structural)]
pub enum NcnFeeGroupType {
    Default,
    JTO,
    Reserved2,
    Reserved3,
    Reserved4,
    Reserved5,
    Reserved6,
    Reserved7,
}

/// The number that stands for each group type.
pub open spec fn ncn_fee_group_type_value(t: NcnFeeGroupType) -> u8 {
    match t {
        NcnFeeGroupType::Default => 0,
        NcnFeeGroupType::JTO => 1,
        NcnFeeGroupType::Reserved2 => 2,
        NcnFeeGroupType::Reserved3 => 3,
        NcnFeeGroupType::Reserved4 => 4,
        NcnFeeGroupType::Reserved5 => 5,
        NcnFeeGroupType::Reserved6 => 6,
        NcnFeeGroupType::Reserved7 => 7,
    }
}

impl NcnFeeGroupType {
    /// The number that stands for this group type.
    pub fn value(&self) -> (v: u8)
        ensures
            v == ncn_fee_group_type_value(*self),
    {
        match self {
            NcnFeeGroupType::Default => 0,
            NcnFeeGroupType::JTO => 1,
            NcnFeeGroupType::Reserved2 => 2,
            NcnFeeGroupType::Reserved3 => 3,
            NcnFeeGroupType::Reserved4 => 4,
            NcnFeeGroupType::Reserved5 => 5,
            NcnFeeGroupType::Reserved6 => 6,
            NcnFeeGroupType::Reserved7 => 7,
        }
    }
}

#[derive(Debug, Clone, Copy, PartialEq, Eq, Structural, Hash)]
pub struct NcnFeeGroup {
    pub group: u8,
}

/// The groups in the order `all_groups` lists them: group `i` at index `i`.
pub open spec fn ncn_fee_group_all_groups_spec() -> Seq<NcnFeeGroup> {
    Seq::new(8, |i: int| NcnFeeGroup { group: i as u8 })
}

/// What converting a raw group number gives.
pub open spec fn ncn_fee_group_from_u8(group: u8) -> Result<NcnFeeGroup, TipRouterError> {
    if group < 8 {
        Ok(NcnFeeGroup { group })
    } else {
        Err(TipRouterError::InvalidNcnFeeGroup)
    }
}

impl Default for NcnFeeGroup {
    fn default() -> (g: Self)
        ensures
            g.group == 0,
    {
        NcnFeeGroup { group: 0 }
    }
}

impl TryFrom<u8> for NcnFeeGroup {
    type Error = TipRouterError;

    fn try_from(group: u8) -> (r: Result<Self, Self::Error>) {
        if group < 8 {
            Ok(NcnFeeGroup { group })
        } else {
            Err(TipRouterError::InvalidNcnFeeGroup)
        }
    }
}

impl vstd::std_specs::convert::TryFromSpecImpl<u8> for NcnFeeGroup {
    open spec fn obeys_try_from_spec() -> bool {
        true
    }

    open spec fn try_from_spec(group: u8) -> Result<Self, TipRouterError> {
        ncn_fee_group_from_u8(group)
    }
}

impl NcnFeeGroup {
    pub const FEE_GROUP_COUNT: usize = 8;

    pub fn new(group: NcnFeeGroupType) -> (g: Self)
        ensures
            g.group == ncn_fee_group_type_value(group),
    {
        NcnFeeGroup { group: group.value() }
    }

    pub fn lst() -> (g: Self)
        ensures
            g.group == 0,
    {
        Self::new(NcnFeeGroupType::Default)
    }

    pub fn jto() -> (g: Self)
        ensures
            g.group == 1,
    {
        Self::new(NcnFeeGroupType::JTO)
    }

    /// The group type, for group numbers below eight.
    pub fn group_type(&self) -> (r: Result<NcnFeeGroupType, TipRouterError>)
        ensures
            self.group < 8 ==> (r matches Ok(t) && ncn_fee_group_type_value(t) == self.group),
            self.group >= 8 ==> r == Err::<NcnFeeGroupType, TipRouterError>(TipRouterError::InvalidNcnFeeGroup),
    {
        match self.group {
            0 => Ok(NcnFeeGroupType::Default),
            1 => Ok(NcnFeeGroupType::JTO),
            2 => Ok(NcnFeeGroupType::Reserved2),
            3 => Ok(NcnFeeGroupType::Reserved3),
            4 => Ok(NcnFeeGroupType::Reserved4),
            5 => Ok(NcnFeeGroupType::Reserved5),
            6 => Ok(NcnFeeGroupType::Reserved6),
            7 => Ok(NcnFeeGroupType::Reserved7),
            _ => Err(TipRouterError::InvalidNcnFeeGroup),
        }
    }

    /// The position of the group among all groups.
    pub fn group_index(&self) -> (r: Result<usize, TipRouterError>)
        ensures
            self.group < 8 ==> r == Ok::<usize, TipRouterError>(self.group as usize),
            self.group >= 8 ==> r == Err::<usize, TipRouterError>(TipRouterError::InvalidNcnFeeGroup),
    {
        let group = self.group_type()?;
        Ok(group.value() as usize)
    }

    /// Every group, in order.
    pub fn all_groups() -> (groups: Vec<Self>)
        ensures
            groups@ == ncn_fee_group_all_groups_spec(),
    {
        let mut groups: Vec<Self> = Vec::new();
        let mut i: u8 = 0;
        while i < 8
            invariant
                i <= 8,
                groups@ == ncn_fee_group_all_groups_spec().take(i as int),
            decreases 8 - i,
        {
            groups.push(NcnFeeGroup { group: i });
            i = i + 1;
            assert(groups@ =~= ncn_fee_group_all_groups_spec().take(i as int));
        }
        assert(groups@ =~= ncn_fee_group_all_groups_spec());
        groups
    }
}

} // verus!
