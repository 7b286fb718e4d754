use vstd::prelude::*;

verus! {

/// A file attached to an issue, as the `files` table records it.
pub struct NewFile {
    /// Record id; also the name under which the file is stored.
    pub id: u128,
    /// The uploaded file's stem.
    pub name: String,
    /// Where the stored file is published.
    pub url: String,
}

} // verus!
