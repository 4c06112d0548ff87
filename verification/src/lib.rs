//! Text indexing and search core for a plain-text editor: line/column
//! location, case-insensitive substring search with cyclic navigation and
//! flash highlighting, syntax-aware span building, scroll synchronization,
//! and the editor's pure state decisions (history, themes, view state).

pub mod highlight;
pub mod history;
pub mod language;
pub mod locator;
pub mod scroll;
pub mod search;
pub mod session;
pub mod theme;
pub mod view_state;

use vstd::prelude::*;

verus! {

/// Whether two string slices hold the same characters.
pub fn str_eq(a: &str, b: &str) -> (r: bool)
    ensures
        r == (a@ == b@),
{
    let sa = String::from_str(a);
    let sb = String::from_str(b);
    sa.eq(&sb)
}

} // verus!
