//! Error texts.

use crate::external::debug_text;
use core::fmt::Debug;
use vstd::prelude::*;

verus! {

/// `text` is `prefix` followed by what `{:?}` prints for `error`.
pub open spec fn describes<X: Debug>(text: Seq<char>, prefix: Seq<char>, error: X) -> bool {
    exists|shown: Seq<char>| #[trigger]
        crate::external::debug_prints(error, shown) && text == prefix + shown
}

/// The text for `error`, which starts with `prefix`.
pub(crate) fn describe<X: Debug>(prefix: &str, error: &X) -> (text: String)
    ensures
        describes(text@, prefix@, *error),
{
    let shown = debug_text(error);
    let mut text = prefix.to_owned();
    text.append(shown.as_str());
    text
}

} // verus!
