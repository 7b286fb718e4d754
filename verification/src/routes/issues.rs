//! Issues: where an issue's attached file is stored and published, and how
//! the fields of the upload form are told apart and collected.
use vstd::prelude::*;

use crate::consts::{lemma_storage_folder_text, FILE_STORAGE_KEY_FOLDER};
use crate::domain::new_file::NewFile;
use crate::file_names::{
    has_no_char, law_extension_and_stem_have_no_separator, law_file_name_is_stem_dot_extension,
    path_extension, path_file_name, path_file_stem,
    sanitize_file_name, sanitized_name, windows_sanitized_name,
};
use crate::ids::{lemma_uuid_text_shape, uuid_new_v4, uuid_text, uuid_to_text};
use crate::routes::floor_plans::{get_extension_from_filename, get_stem_from_filename};

verus! {

/// Path parameters of the routes `/floor_plans/{floor_plan_id}/...`.
pub struct Parameters {
    pub floor_plan_id: String,
}

/// The host under which attached files are published.
pub const FILE_HOST: &'static str = "localhost:8000";

/// `{base_url}/{FILE_STORAGE_KEY_FOLDER}/{id}`.
pub open spec fn file_url_text(base_url: Seq<char>, file_id: u128) -> Seq<char> {
    base_url + "/"@ + FILE_STORAGE_KEY_FOLDER@ + "/"@ + uuid_text(file_id)
}

/// `./{FILE_STORAGE_KEY_FOLDER}/{id}`.
pub open spec fn file_path_text(file_id: u128) -> Seq<char> {
    "./"@ + FILE_STORAGE_KEY_FOLDER@ + "/"@ + uuid_text(file_id)
}

/// The public address of the stored file `file_id`.
pub fn file_url(base_url: &str, file_id: u128) -> (url: String)
    ensures
        url@ == file_url_text(base_url@, file_id),
{
    let mut url = String::from_str(base_url);
    url.append("/");
    url.append(FILE_STORAGE_KEY_FOLDER);
    url.append("/");
    let id = uuid_to_text(file_id);
    url.append(id.as_str());
    url
}

/// Where the file `file_id` is stored, relative to the working directory
/// (what `Path::new(".").join("{FILE_STORAGE_KEY_FOLDER}/{id}")` names).
pub fn parse_file_path_with_file_id(file_id: u128) -> (path: String)
    ensures
        path@ == file_path_text(file_id),
{
    let mut path = String::from_str("./");
    path.append(FILE_STORAGE_KEY_FOLDER);
    path.append("/");
    let id = uuid_to_text(file_id);
    path.append(id.as_str());
    path
}

/// A file of the upload form: the record to insert, and where to write the
/// file's bytes.
pub struct StoredFile {
    pub file: NewFile,
    pub path: String,
}

/// What `new_stored_file` makes of the (sanitized) file name `name` and the
/// id `file_id`.
pub open spec fn is_stored_file(stored: StoredFile, name: Seq<char>, file_id: u128) -> bool {
    let ext = path_extension(name).unwrap();
    let stem = path_file_stem(name).unwrap();
    &&& stored.file.id == file_id
    &&& stored.file.name@ == stem
    &&& stored.file.url@ == file_url_text(FILE_HOST@, file_id) + "."@ + ext
    &&& stored.path@ == file_path_text(file_id) + "."@ + ext
}

/// The record and the storage path of an attached file whose sanitized name
/// is `name`: it is stored as `./static/{id}.{ext}`, published at
/// `localhost:8000/static/{id}.{ext}` and recorded under its stem.
pub fn new_stored_file(name: &str, file_id: u128) -> (stored: StoredFile)
    requires
        path_extension(name@) is Some,
    ensures
        is_stored_file(stored, name@, file_id),
{
    let ext = match get_extension_from_filename(name) {
        Some(e) => e,
        None => {
            proof {
                assert(false);
            }
            ""
        },
    };
    let stem = match get_stem_from_filename(name) {
        Some(s) => s,
        None => {
            proof {
                assert(path_file_stem(name@) is Some);
            }
            ""
        },
    };
    let mut path = parse_file_path_with_file_id(file_id);
    path.append(".");
    path.append(ext);
    let mut url = file_url(FILE_HOST, file_id);
    url.append(".");
    url.append(ext);
    StoredFile { file: NewFile { id: file_id, name: String::from_str(stem), url }, path }
}

/// What `receive_uploaded_file` gives for an upload whose sanitized name is
/// `name`: a stored file exactly when the name has an extension, placed as
/// `new_stored_file` says under the id it was given.
pub open spec fn is_receipt_for(stored: Option<StoredFile>, name: Seq<char>) -> bool {
    &&& (stored is Some <==> path_extension(name) is Some)
    &&& (stored matches Some(s) ==> is_stored_file(s, name, s.file.id))
}

/// A file field of the upload form named `filename`: the name is
/// sanitized (with the Windows rules on a Windows target), a fresh id is drawn, and the file is placed as
/// `new_stored_file` says. `None` where the sanitized name has no extension,
/// an upload the service does not accept.
pub fn receive_uploaded_file(filename: &str) -> (stored: Option<StoredFile>)
    ensures
        is_receipt_for(stored, sanitized_name(filename@)) || is_receipt_for(
            stored,
            windows_sanitized_name(filename@),
        ),
        stored matches Some(s) ==> (s.file.id >> 76u128) & 15 == 4 && (s.file.id >> 62u128) & 3
            == 2,
{
    let name = sanitize_file_name(filename);
    if get_extension_from_filename(name.as_str()).is_none() {
        return None;
    }
    let file_id = uuid_new_v4();
    Some(new_stored_file(name.as_str(), file_id))
}

/// Law: an attached file is stored directly in the storage folder. Its path
/// is `./static/` followed by a name that holds no `/`.
pub proof fn law_stored_file_stays_in_storage_folder(
    stored: StoredFile,
    name: Seq<char>,
    file_id: u128,
)
    requires
        path_extension(name) is Some,
        is_stored_file(stored, name, file_id),
    ensures
        exists|rest: Seq<char>|
            #![trigger has_no_char(rest, '/')]
            stored.path@ == seq!['.', '/', 's', 't', 'a', 't', 'i', 'c', '/'] + rest && has_no_char(
                rest,
                '/',
            ),
{
    lemma_storage_folder_text();
    reveal_strlit("./");
    reveal_strlit("/");
    reveal_strlit(".");
    lemma_uuid_text_shape(file_id);
    law_extension_and_stem_have_no_separator(name);
    let ext = path_extension(name).unwrap();
    let rest = uuid_text(file_id) + "."@ + ext;
    assert(stored.path@ =~= seq!['.', '/', 's', 't', 'a', 't', 'i', 'c', '/'] + rest);
    assert forall|i: int| 0 <= i < rest.len() implies rest[i] != '/' by {
        if i < 36 {
            assert(rest[i] == uuid_text(file_id)[i]);
        } else if i > 36 {
            assert(rest[i] == ext[i - 37]);
        }
    }
    assert(has_no_char(rest, '/'));
}

/// Law: an attached file is published where it is stored: its address is
/// the host followed by its storage path without the leading `.` (the server
/// publishes the storage folder under `/static`).
pub proof fn law_stored_file_is_published_at_its_path(
    stored: StoredFile,
    name: Seq<char>,
    file_id: u128,
)
    requires
        path_extension(name) is Some,
        is_stored_file(stored, name, file_id),
    ensures
        stored.file.url@ == FILE_HOST@ + stored.path@.skip(1),
{
    reveal_strlit("./");
    reveal_strlit("/");
    let ext = path_extension(name).unwrap();
    let tail = "/"@ + FILE_STORAGE_KEY_FOLDER@ + "/"@ + uuid_text(file_id) + "."@ + ext;
    assert(stored.path@ =~= seq!['.'] + tail);
    assert(stored.path@.skip(1) =~= tail);
    assert(stored.file.url@ =~= FILE_HOST@ + tail);
}

/// Law: an attached file is recorded under the stem of its file name: the
/// recorded name, a `.` and the extension that ends the storage path give
/// back the file name.
pub proof fn law_stored_file_name_is_file_stem(stored: StoredFile, name: Seq<char>, file_id: u128)
    requires
        path_extension(name) is Some,
        is_stored_file(stored, name, file_id),
    ensures
        stored.path@ == file_path_text(file_id) + "."@ + path_extension(name).unwrap(),
        path_file_name(name) == Some(stored.file.name@ + seq!['.'] + path_extension(name).unwrap()),
{
    law_file_name_is_stem_dot_extension(name);
}

/// Whether two texts are the same.
pub(crate) fn same_text(a: &str, b: &str) -> (same: bool)
    ensures
        same == (a@ == b@),
{
    let n = a.unicode_len();
    if n != b.unicode_len() {
        return false;
    }
    let mut i: usize = 0;
    while i < n
        invariant
            i <= n == a@.len() == b@.len(),
            forall|j: int| 0 <= j < i ==> a@[j] == b@[j],
        decreases n - i,
    {
        if a.get_char(i) != b.get_char(i) {
            return false;
        }
        i = i + 1;
    }
    assert(a@ =~= b@);
    true
}

/// What a field of the issue upload form carries.
#[derive(Debug, PartialEq, Eq, Structural)]
pub enum FieldRole {
    /// The field named `data`: the issue itself, as JSON.
    Data,
    /// Any other field that names a file: an attached file.
    File,
    /// Any other field: skipped.
    Ignored,
}

/// Tells the fields of the issue upload form apart by their name and the
/// file name they carry, if any.
pub fn field_role(name: &str, filename: Option<&str>) -> (role: FieldRole)
    ensures
        role == (if name@ == "data"@ {
            FieldRole::Data
        } else if filename is Some {
            FieldRole::File
        } else {
            FieldRole::Ignored
        }),
{
    if same_text(name, "data") {
        FieldRole::Data
    } else if filename.is_some() {
        FieldRole::File
    } else {
        FieldRole::Ignored
    }
}

/// What the issue upload form has delivered so far: the content of its
/// `data` field and the attached files, in the order they came.
pub struct SplitPayload {
    pub data: Vec<u8>,
    pub files: Vec<NewFile>,
}

impl SplitPayload {
    /// Nothing received yet.
    pub fn new() -> (payload: SplitPayload)
        ensures
            payload.data@ == Seq::<u8>::empty(),
            payload.files@ == Seq::<NewFile>::empty(),
    {
        SplitPayload { data: Vec::new(), files: Vec::new() }
    }

    /// A chunk of the `data` field arrived. The field's content is its last
    /// chunk: each chunk takes the place of what came before it.
    pub fn receive_data_chunk(&mut self, chunk: Vec<u8>)
        ensures
            final(self).data@ == chunk@,
            final(self).files@ == old(self).files@,
    {
        self.data = chunk;
    }

    /// An attached file has been stored.
    pub fn receive_file(&mut self, file: NewFile)
        ensures
            final(self).data@ == old(self).data@,
            final(self).files@ == old(self).files@.push(file),
    {
        self.files.push(file);
    }
}

} // verus!
