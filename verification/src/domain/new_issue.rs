use vstd::prelude::*;

verus! {

/// An issue as the upload form sends it in its `data` field.
#[derive(Clone, Debug)]
pub struct NewIssue {
    pub name: String,
    pub description: String,
    pub location: String,
}

} // verus!
