//! The automatic language-selection policy.
//!
//! In automatic mode the pipeline uses whatever language the platform
//! considers primary: the first entry of the platform-reported list, in the
//! platform's order, with no further ranking.

use vstd::prelude::*;

use crate::error::OcrError;

verus! {

/// Chooses the recognition language in automatic mode: the first entry of
/// the platform-reported list, or `NoLanguageAvailable` when the list is
/// empty.
pub fn select_auto_language(tags: Vec<String>) -> (r: Result<String, OcrError>)
    ensures
        tags@.len() == 0 ==> r == Result::<String, OcrError>::Err(OcrError::NoLanguageAvailable),
        tags@.len() > 0 ==> (r matches Ok(t) && t@ == tags@[0]@),
{
    let mut tags = tags;
    if tags.len() == 0 {
        Err(OcrError::NoLanguageAvailable)
    } else {
        let first = tags.remove(0);
        Ok(first)
    }
}

} // verus!
