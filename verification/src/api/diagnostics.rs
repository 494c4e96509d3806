//! The cache diagnosis endpoint's own logic: its window and the request whose
//! input is held against the context limit.
use vstd::prelude::*;

verus! {

/// The session and window of a cache diagnosis.
pub struct CacheQuery {
    pub session_id: Option<String>,
    pub window: Option<usize>,
}

/// The number of recent requests a diagnosis looks at: 20 when none is
/// named, otherwise the value clamped to `[1, 500]`.
pub open spec fn window_of(window: Option<usize>) -> int {
    match window {
        Some(w) => if w < 1 { 1 } else if w > 500 { 500 } else { w as int },
        None => 20,
    }
}

impl CacheQuery {
    /// The number of recent requests the diagnosis looks at (see `window_of`).
    pub fn window_size(&self) -> (r: usize)
        ensures
            r as int == window_of(self.window),
            1 <= r <= 500,
    {
        match self.window {
            Some(w) => if w < 1 {
                1
            } else if w > 500 {
                500
            } else {
                w
            },
            None => 20,
        }
    }
}

/// The input tokens held against the context limit: those of the latest
/// request (the last in time order), 0 when there is none.
pub fn latest_prompt_tokens(prompt_tokens: &[i64]) -> (r: i64)
    ensures
        r == if prompt_tokens@.len() == 0 { 0 } else { prompt_tokens@.last() },
{
    if prompt_tokens.len() == 0 {
        0
    } else {
        prompt_tokens[prompt_tokens.len() - 1]
    }
}

} // verus!
