//! The check that a request's attributes can be served together.

use vstd::prelude::*;
use vstd::string::StringExecFns;
use crate::errors::ErrorKind;
use crate::errors::ErrorKindView;
use crate::model::TreeAttributes;

verus! {

/// What a request is told when it asks for child metadata and augmented
/// trees together.
pub open spec fn conflicting_attributes_text() -> Seq<char> {
    "Augmented trees and child metadata cannot be requested at the same time"@
}

/// Passes consistent attributes through unchanged and rejects the others.
pub fn validate_attributes(attributes: TreeAttributes) -> (r: Result<TreeAttributes, ErrorKind>)
    ensures
        attributes.consistent() ==> r == Ok::<TreeAttributes, ErrorKind>(attributes),
        !attributes.consistent() ==> r is Err && r->Err_0@ == ErrorKindView::InvalidRequest(
            conflicting_attributes_text(),
        ),
{
    if attributes.child_metadata && attributes.augmented_trees {
        Err(
            ErrorKind::InvalidRequest(
                String::from_str(
                    "Augmented trees and child metadata cannot be requested at the same time",
                ),
            ),
        )
    } else {
        Ok(attributes)
    }
}

} // verus!
