//! The embedded-contract endpoints' own logic: what a new contract must be,
//! how its change is recorded, and what a removal does.
use vstd::prelude::*;
use crate::api::errors::{bare_error, BareError};
use crate::json::Json;
use crate::text::{append_chars, chars_of, lit, string_of};

verus! {

broadcast use vstd::string::group_string_axioms;

/// A contract to store must be a JSON object.
pub fn contract_body_check(body: &Json) -> (r: Result<(), BareError>)
    ensures
        r is Ok <==> body is Object,
        r matches Err(e) ==> e.status == 400 && e.error@ == "契约必须是 JSON 对象"@,
{
    match body {
        Json::Object(_) => Ok(()),
        _ => Err(bare_error(400, "契约必须是 JSON 对象")),
    }
}

/// The recorded origin of a contract change.
#[derive(Debug, Clone, Copy, PartialEq, Eq, Structural)]
pub enum ChangeSource {
    /// The first contract of a character.
    ContractInit,
    /// A change made by hand.
    Manual,
}

/// The origin a replacement is recorded with: the first contract of a
/// character is its initialisation, any later one a manual change.
pub fn put_source(had_contract: bool) -> (r: ChangeSource)
    ensures
        r == if had_contract { ChangeSource::Manual } else { ChangeSource::ContractInit },
{
    if had_contract { ChangeSource::Manual } else { ChangeSource::ContractInit }
}

/// What a removal does: an unknown character is not found; a character
/// without a contract is answered with nothing to do (no record, no cache
/// change); otherwise the contract is removed and recorded.
#[derive(Debug, Clone, Copy, PartialEq, Eq, Structural)]
pub enum DeleteStep {
    NotFound,
    NothingToRemove,
    Remove,
}

/// What a removal does (see `DeleteStep`).
pub fn delete_step(has_contract: bool, character_exists: bool) -> (r: DeleteStep)
    ensures
        r == if has_contract {
            DeleteStep::Remove
        } else if character_exists {
            DeleteStep::NothingToRemove
        } else {
            DeleteStep::NotFound
        },
{
    if has_contract {
        DeleteStep::Remove
    } else if character_exists {
        DeleteStep::NothingToRemove
    } else {
        DeleteStep::NotFound
    }
}

/// The warning of a change whose history record could not be written.
pub fn changelog_warning(removed: bool, error: &str) -> (r: String)
    ensures
        r@ == (if removed { "契约已移除,但变更历史写入失败: "@ } else { "契约已更新,但变更历史写入失败: "@ }) + error@,
{
    let mut m = if removed { lit("契约已移除,但变更历史写入失败: ") } else { lit("契约已更新,但变更历史写入失败: ") };
    append_chars(&mut m, &chars_of(error));
    string_of(&m)
}

} // verus!
