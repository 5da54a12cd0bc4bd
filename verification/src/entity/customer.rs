//! The profile of a customer. Each contact is shown only if its owner says so.

use std::collections::HashMap;
use vstd::prelude::*;

use crate::entity::OptionallyPrivate;
use crate::oid::ObjectId;

verus! {

pub struct Customer {
    pub id: ObjectId,
    pub avatar: String,
    pub first_name: String,
    pub second_name: String,
    pub about: String,
    pub company: String,
    pub contacts: HashMap<String, OptionallyPrivate<String>>,
    pub tags: Vec<String>,
    pub last_modified: i64,
}

} // verus!
