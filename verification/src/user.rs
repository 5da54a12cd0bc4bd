//! The account of a user as the user service keeps it.

use std::collections::HashMap;
use vstd::prelude::*;

use crate::entity::OptionallyPrivate;
use crate::oid::ObjectId;

verus! {

pub struct User {
    pub id: ObjectId,
    pub login: String,
    pub email: String,
    pub contacts: HashMap<String, OptionallyPrivate<String>>,
}

} // verus!
