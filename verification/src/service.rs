//! What the workshop answers to a request.
//!
//! Each function takes the registry and what the request carried, and gives
//! the answer to send; the caller holds the registry's lock for the length of
//! the call and does the sending.

use crate::error::UpgradeError;
use crate::motorcycle::{first_named, Motorcycle, MAX_UPGRADES};
use crate::registry::Registry;
use crate::upgrade::Upgrade;
use vstd::prelude::*;

verus! {

/// An answer to a request, before it is put on the wire.
#[derive(Debug)]
pub enum Response {
    /// Success; carries the record as it now stands.
    Success(Motorcycle),
    /// No record stands under the identifier asked for. Carries nothing.
    NotFound,
    /// The record refused the change; carries the reason as text.
    BadRequest(String),
}

impl Response {
    /// The HTTP status code that goes with the answer.
    pub fn status_code(&self) -> (code: u16)
        ensures
            self is Success ==> code == 200,
            self is NotFound ==> code == 404,
            self is BadRequest ==> code == 400,
    {
        match self {
            Response::Success(_) => 200,
            Response::NotFound => 404,
            Response::BadRequest(_) => 400,
        }
    }
}

/// Answers a request for the record under `id`.
pub fn get_motorcycle(registry: &Registry, id: &str) -> (response: Response)
    ensures
        registry@.contains_key(id@) ==> {
            &&& response matches Response::Success(record)
            &&& record@ == registry@[id@]
        },
        !registry@.contains_key(id@) ==> response is NotFound,
{
    match registry.get(id) {
        Some(record) => Response::Success(record.clone()),
        None => Response::NotFound,
    }
}

/// Answers a request to fit `upgrade` to the record under `id`.
pub fn add_upgrade(registry: &mut Registry, id: &str, upgrade: Upgrade) -> (response: Response)
    ensures
        !old(registry)@.contains_key(id@) ==> {
            &&& response is NotFound
            &&& final(registry)@ == old(registry)@
        },
        old(registry)@.contains_key(id@) && old(registry)@[id@].upgrades.len() >= MAX_UPGRADES
            ==> {
            &&& response matches Response::BadRequest(text)
            &&& text@ == UpgradeError::CapacityExceeded.message_text()
            &&& final(registry)@ == old(registry)@
        },
        old(registry)@.contains_key(id@) && old(registry)@[id@].upgrades.len() < MAX_UPGRADES
            ==> {
            &&& response matches Response::Success(record)
            &&& record@ == old(registry)@[id@].with_upgrades(
                old(registry)@[id@].upgrades.push(upgrade@),
            )
            &&& final(registry)@ == old(registry)@.insert(id@, record@)
        },
        old(registry).consistent() ==> final(registry).consistent(),
{
    let mut record = match registry.get(id) {
        Some(found) => found.clone(),
        None => { return Response::NotFound; },
    };
    match record.add_upgrade(upgrade) {
        Ok(()) => {
            registry.insert(id.to_owned(), record.clone());
            Response::Success(record)
        },
        Err(e) => Response::BadRequest(e.message()),
    }
}

/// Answers a request to take the upgrade named `upgrade_name` off the record
/// under `id`.
pub fn remove_upgrade(registry: &mut Registry, id: &str, upgrade_name: &str) -> (response:
    Response)
    ensures
        !old(registry)@.contains_key(id@) ==> {
            &&& response is NotFound
            &&& final(registry)@ == old(registry)@
        },
        old(registry)@.contains_key(id@) ==> match first_named(
            old(registry)@[id@].upgrades,
            upgrade_name@,
        ) {
            Some(i) => {
                &&& response matches Response::Success(record)
                &&& record@ == old(registry)@[id@].with_upgrades(
                    old(registry)@[id@].upgrades.remove(i),
                )
                &&& final(registry)@ == old(registry)@.insert(id@, record@)
            },
            None => {
                &&& response matches Response::BadRequest(text)
                &&& text@ == UpgradeError::NotFound.message_text()
                &&& final(registry)@ == old(registry)@
            },
        },
        old(registry).consistent() ==> final(registry).consistent(),
{
    let mut record = match registry.get(id) {
        Some(found) => found.clone(),
        None => { return Response::NotFound; },
    };
    match record.remove_upgrade(upgrade_name) {
        Ok(()) => {
            registry.insert(id.to_owned(), record.clone());
            Response::Success(record)
        },
        Err(e) => Response::BadRequest(e.message()),
    }
}

} // verus!
