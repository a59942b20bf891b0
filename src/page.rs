//! The state that a watch page embeds as a JavaScript assignment.

use vstd::prelude::*;
use crate::error::CbcError;
use crate::text::{chars_of, find, find_from, lemma_find_from};

verus! {

/// The assignment that opens the embedded state.
pub const STATE_MARKER: &'static str = "window.__INITIAL_STATE__ = ";

/// What closes the embedded state.
pub const STATE_END: &'static str = ";</script>";

/// The text between the first state marker and the first closing
/// `;</script>` after it.
pub open spec fn embedded_state(page: Seq<char>) -> Option<Seq<char>> {
    match find_from(page, STATE_MARKER@, 0) {
        None => None,
        Some(m) => {
            let start = m + STATE_MARKER@.len();
            match find_from(page, STATE_END@, start) {
                None => None,
                Some(e) => Some(page.subrange(start, e)),
            }
        },
    }
}

/// The JSON text of the state that the watch page `page` embeds.
pub fn extract_initial_state(page: &str) -> (r: Result<String, CbcError>)
    ensures
        match embedded_state(page@) {
            Some(s) => r matches Ok(t) && t@ == s,
            None => r matches Err(CbcError::MissingInitialState),
        },
{
    let cs = chars_of(page);
    let marker = chars_of(STATE_MARKER);
    let end = chars_of(STATE_END);
    proof {
        lemma_find_from(page@, STATE_MARKER@, 0);
    }
    let m = match find(&cs, &marker, 0) {
        Some(m) => m,
        None => return Err(CbcError::MissingInitialState),
    };
    assert(crate::text::occurs_at(page@, STATE_MARKER@, m as int));
    let n = cs.len();
    let k = marker.len();
    assert(m + k <= n);
    let start = m + k;
    proof {
        lemma_find_from(page@, STATE_END@, start as int);
    }
    let e = match find(&cs, &end, start) {
        Some(e) => e,
        None => return Err(CbcError::MissingInitialState),
    };
    Ok(page.substring_char(start, e).to_owned())
}

} // verus!
