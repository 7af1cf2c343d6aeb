//! Houses and tutor groups.

use crate::data::user::User;
use vstd::prelude::*;

verus! {

/// A tutor group: the students of one house under one member of staff.
#[derive(Debug)]
pub struct TutorGroup {
    pub id: u128,
    pub staff_member: Box<User>,
    pub house_id: i32,
}

/// What is needed to add a tutor group.
#[derive(Clone, Copy, Debug)]
pub struct NewTutorGroup {
    pub staff_id: u128,
    pub house_id: i32,
}

/// A house.
#[derive(Clone, Debug)]
pub struct HouseGroup {
    pub id: i32,
    pub name: String,
}

/// What is needed to add a house.
#[derive(Clone, Debug)]
pub struct NewHouse {
    pub name: String,
}

} // verus!
