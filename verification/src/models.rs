//! Small enumerations that are stored as numbers.
use vstd::prelude::*;

verus! {

/// The state of an administrator account.
#[derive(Debug, Clone, Copy, PartialEq, Eq, Structural)]
pub enum AdminUserState {
    /// Not known.
    Unknown,
    /// In use.
    Normal,
    /// Switched off.
    Disable,
}

impl AdminUserState {
    /// The number that stands for this state.
    pub open spec fn number(self) -> u8 {
        match self {
            AdminUserState::Unknown => 0,
            AdminUserState::Normal => 1,
            AdminUserState::Disable => 2,
        }
    }

    /// The number that stands for this state.
    pub fn to_primitive(self) -> (number: u8)
        ensures
            number == self.number(),
    {
        match self {
            AdminUserState::Unknown => 0,
            AdminUserState::Normal => 1,
            AdminUserState::Disable => 2,
        }
    }

    /// The state that `number` stands for; a number that stands for none
    /// comes back as the error.
    pub fn try_from_primitive(number: u8) -> (state: Result<Self, u8>)
        ensures
            match state {
                Ok(found) => found.number() == number,
                Err(rejected) => rejected == number && number > 2,
            },
    {
        if number == 0 {
            Ok(AdminUserState::Unknown)
        } else if number == 1 {
            Ok(AdminUserState::Normal)
        } else if number == 2 {
            Ok(AdminUserState::Disable)
        } else {
            Err(number)
        }
    }
}

/// The gender recorded for an account.
#[derive(Debug, Clone, Copy, PartialEq, Eq, Structural)]
pub enum Gender {
    /// Not known.
    Unknown,
    /// Male.
    Male,
    /// Female.
    Female,
}

impl Gender {
    /// The number that stands for this gender.
    pub open spec fn number(self) -> u8 {
        match self {
            Gender::Unknown => 0,
            Gender::Male => 1,
            Gender::Female => 2,
        }
    }

    /// The number that stands for this gender.
    pub fn to_primitive(self) -> (number: u8)
        ensures
            number == self.number(),
    {
        match self {
            Gender::Unknown => 0,
            Gender::Male => 1,
            Gender::Female => 2,
        }
    }

    /// The gender that `number` stands for; a number that stands for none
    /// comes back as the error.
    pub fn try_from_primitive(number: u8) -> (gender: Result<Self, u8>)
        ensures
            match gender {
                Ok(found) => found.number() == number,
                Err(rejected) => rejected == number && number > 2,
            },
    {
        if number == 0 {
            Ok(Gender::Unknown)
        } else if number == 1 {
            Ok(Gender::Male)
        } else if number == 2 {
            Ok(Gender::Female)
        } else {
            Err(number)
        }
    }
}

} // verus!
