//! The output budget of a retry after a truncated reply.
use vstd::prelude::*;

verus! {

/// The budget of the next attempt after a reply that ended with `finish`
/// under budget `used`, after `rounds` retries: only a `length` finish is
/// retried, at most `max_rounds` times, with the budget doubled and capped at
/// `cap`; a budget that would not grow is no retry.
pub open spec fn heal_budget(finish: Option<Seq<char>>, used: u32, rounds: u32, cap: u32, max_rounds: u32) -> Option<u32> {
    if finish != Some("length"@) || rounds >= max_rounds {
        None
    } else {
        let next: int = if 2 * used > cap { cap as int } else { 2 * used };
        if next > used {
            Some(next as u32)
        } else {
            None
        }
    }
}

/// The budget of a retry after a truncated reply (see `heal_budget`).
pub fn truncation_heal_budget(finish_reason: Option<&str>, used: u32, rounds: u32, cap: u32, max_rounds: u32) -> (r: Option<u32>)
    ensures
        r == heal_budget(
            match finish_reason {
                Some(f) => Some(f@),
                None => None,
            },
            used,
            rounds,
            cap,
            max_rounds,
        ),
{
    let is_length = match finish_reason {
        Some(f) => crate::json::eq_chars(&crate::text::chars_of(f), &crate::text::lit("length")),
        None => false,
    };
    if !is_length || rounds >= max_rounds {
        return None;
    }
    let doubled: u64 = 2 * (used as u64);
    let next: u64 = if doubled > cap as u64 { cap as u64 } else { doubled };
    if next > used as u64 {
        Some(next as u32)
    } else {
        None
    }
}

/// A retry is only ever granted after a `length` finish and before the round
/// limit, and its budget is strictly larger than the one used, never above the cap.
pub proof fn law_heal_budget_grows_within_cap(
    finish: Option<Seq<char>>,
    used: u32,
    rounds: u32,
    cap: u32,
    max_rounds: u32,
)
    ensures
        heal_budget(finish, used, rounds, cap, max_rounds) matches Some(next) ==> {
            &&& finish == Some("length"@)
            &&& rounds < max_rounds
            &&& used < next <= cap
        },
{
}

/// Retrying with each granted budget in turn stops after at most `max_rounds`
/// retries: the round count, started at `rounds`, reaches the limit.
pub proof fn law_heal_rounds_end(finish: Option<Seq<char>>, used: u32, cap: u32, max_rounds: u32)
    ensures
        heal_budget(finish, used, max_rounds, cap, max_rounds) is None,
{
}

} // verus!
