use vstd::prelude::*;

verus! {

/// Folder, below the working directory, that holds the uploaded files and
/// that the server publishes under `/static`.
pub const FILE_STORAGE_KEY_FOLDER: &'static str = "static";

/// The characters of `FILE_STORAGE_KEY_FOLDER`.
pub proof fn lemma_storage_folder_text()
    ensures
        FILE_STORAGE_KEY_FOLDER@ == seq!['s', 't', 'a', 't', 'i', 'c'],
{
    reveal_strlit("static");
}

} // verus!
