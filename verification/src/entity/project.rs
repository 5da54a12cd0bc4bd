//! A project that a customer offers for audit.

use vstd::prelude::*;

use crate::oid::ObjectId;

verus! {

/// Whether and on which terms a project is open to auditors.
#[derive(Debug, Clone)]
pub struct PublishOptions {
    pub publish: bool,
    pub prise_from: String,
    pub prise_to: String,
    pub ready_to_wait: bool,
}

#[derive(Debug, Clone)]
pub struct Project {
    pub id: ObjectId,
    pub customer_id: ObjectId,
    pub name: String,
    pub description: String,
    pub scope: Vec<String>,
    pub tags: Vec<String>,
    pub publish_options: PublishOptions,
    pub status: String,
    pub last_modified: i64,
}

} // verus!
