//! A student as an import or a form gives it.

use vstd::prelude::*;

verus! {

#[derive(Clone, Debug)]
pub struct Student {
    pub id: i32,
    pub first_name: String,
    pub preferred_name: Option<String>,
    pub last_name: String,
}

#[derive(Clone, Debug)]
pub struct FormStudent {
    pub first_name: String,
    pub preferred_name: Option<String>,
    pub last_name: String,
}

} // verus!
