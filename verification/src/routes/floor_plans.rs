//! Floor plans: the parts of an uploaded file name, and the record and the
//! storage path of an uploaded floor-plan image.
use vstd::prelude::*;

use crate::consts::lemma_storage_folder_text;
use crate::file_names::{
    last_index_of, law_file_name_is_stem_dot_extension, lemma_last_index_of, path_extension,
    path_file_name, path_file_stem, sanitize_file_name, sanitized_name, windows_sanitized_name,
};
use crate::ids::{uuid_new_v4, uuid_text, uuid_to_text};
use crate::routes::issues::file_path_text;

verus! {

/// Path parameters of the route `/projects/{project_id}/floor_plans`.
pub struct Parameters {
    pub project_id: String,
}

/// The relative position of the last `c` in `s[from..to]`, if there is one.
fn last_index_within(s: &str, c: char, from: usize, to: usize) -> (found: Option<usize>)
    requires
        from <= to <= s@.len(),
    ensures
        match found {
            Some(k) => k as int == last_index_of(s@.subrange(from as int, to as int), c),
            None => last_index_of(s@.subrange(from as int, to as int), c) == -1,
        },
        found matches Some(k) ==> k < to - from,
{
    let mut i = to;
    while i > from
        invariant
            from <= i <= to <= s@.len(),
            last_index_of(s@.subrange(from as int, to as int), c) == last_index_of(
                s@.subrange(from as int, i as int),
                c,
            ),
        decreases i,
    {
        let ghost prefix = s@.subrange(from as int, i as int);
        if s.get_char(i - 1) == c {
            assert(prefix.last() == s@[i - 1]);
            proof {
                lemma_last_index_of(prefix, c);
            }
            return Some(i - 1 - from);
        }
        assert(prefix.drop_last() =~= s@.subrange(from as int, i - 1));
        i = i - 1;
    }
    assert(s@.subrange(from as int, i as int).len() == 0);
    None
}

/// Where the file name of `path` begins and ends, in characters.
fn file_name_bounds(path: &str) -> (bounds: Option<(usize, usize)>)
    ensures
        match bounds {
            Some((a, b)) => a <= b <= path@.len() && path_file_name(path@) == Some(
                path@.subrange(a as int, b as int),
            ),
            None => path_file_name(path@) is None,
        },
{
    let len = path.unicode_len();
    let mut end = len;
    assert(path@.subrange(0, len as int) =~= path@);
    loop
        invariant
            end <= len == path@.len(),
            path_file_name(path@) == path_file_name(path@.subrange(0, end as int)),
        decreases end,
    {
        let ghost prefix = path@.subrange(0, end as int);
        if end == 0 {
            return None;
        }
        if path.get_char(end - 1) == '/' {
            assert(prefix.drop_last() =~= path@.subrange(0, end - 1));
            end = end - 1;
        } else {
            let start = match last_index_within(path, '/', 0, end) {
                Some(k) => k + 1,
                None => 0,
            };
            proof {
                lemma_last_index_of(prefix, '/');
            }
            let ghost component = prefix.subrange(start as int, end as int);
            assert(component =~= path@.subrange(start as int, end as int));
            if end - start == 1 && path.get_char(start) == '.' {
                assert(component =~= seq!['.']);
                assert(prefix.subrange(0, start as int) =~= path@.subrange(0, start as int));
                end = start;
            } else if end - start == 2 && path.get_char(start) == '.' && path.get_char(start + 1)
                == '.' {
                assert(component =~= seq!['.', '.']);
                return None;
            } else {
                assert(component != seq!['.']) by {
                    if end - start == 1 {
                        assert(component[0] != '.');
                    }
                }
                assert(component != seq!['.', '.']) by {
                    if end - start == 2 {
                        assert(component[0] != '.' || component[1] != '.');
                    }
                }
                return Some((start, end));
            }
        }
    }
}

/// The extension of `filename`, as `std::path::Path::extension` gives it.
pub fn get_extension_from_filename(filename: &str) -> (ext: Option<&str>)
    ensures
        match ext {
            Some(e) => path_extension(filename@) == Some(e@),
            None => path_extension(filename@) is None,
        },
{
    match file_name_bounds(filename) {
        None => None,
        Some((a, b)) => {
            let ghost name = filename@.subrange(a as int, b as int);
            match last_index_within(filename, '.', a, b) {
                Some(k) if k > 0 => {
                    let e = filename.substring_char(a + k + 1, b);
                    assert(e@ =~= name.subrange(k + 1, name.len() as int));
                    Some(e)
                },
                _ => None,
            }
        },
    }
}

/// The stem of `filename`, as `std::path::Path::file_stem` gives it.
pub fn get_stem_from_filename(filename: &str) -> (stem: Option<&str>)
    ensures
        match stem {
            Some(s) => path_file_stem(filename@) == Some(s@),
            None => path_file_stem(filename@) is None,
        },
{
    match file_name_bounds(filename) {
        None => None,
        Some((a, b)) => {
            let ghost name = filename@.subrange(a as int, b as int);
            match last_index_within(filename, '.', a, b) {
                Some(k) if k > 0 => {
                    let s = filename.substring_char(a, a + k);
                    assert(s@ =~= name.subrange(0, k as int));
                    Some(s)
                },
                _ => {
                    let s = filename.substring_char(a, b);
                    Some(s)
                },
            }
        },
    }
}

/// A floor plan as the `floor_plans` table records it.
pub struct NewFloorPlan {
    /// Record id; also the name under which the image is stored.
    pub id: u128,
    /// The uploaded image's stem.
    pub name: String,
    /// Where the image is published.
    pub image_url: String,
}

/// An uploaded floor-plan image: the record to insert, and where to write
/// the image's bytes.
pub struct FloorPlanUpload {
    pub floor_plan: NewFloorPlan,
    pub path: String,
}

/// The address prefix of published floor-plan images.
pub const IMAGE_HOST: &'static str = "http://localhost:8000";

/// What `new_floor_plan_upload` makes of the (sanitized) file name `name`
/// and the id `id`: the image is stored as `./static/{id}.{ext}` and
/// published at `http://localhost:8000/static/` followed by that path.
pub open spec fn is_floor_plan_upload(upload: FloorPlanUpload, name: Seq<char>, id: u128) -> bool {
    let ext = path_extension(name).unwrap();
    let stem = path_file_stem(name).unwrap();
    &&& upload.floor_plan.id == id
    &&& upload.floor_plan.name@ == stem
    &&& upload.path@ == "./static/"@ + uuid_text(id) + "."@ + ext
    &&& upload.floor_plan.image_url@ == IMAGE_HOST@ + "/static/"@ + upload.path@
}

/// The record and the storage path of a floor-plan image whose sanitized
/// name is `name`.
pub fn new_floor_plan_upload(name: &str, id: u128) -> (upload: FloorPlanUpload)
    requires
        path_extension(name@) is Some,
    ensures
        is_floor_plan_upload(upload, name@, id),
{
    let ext = match get_extension_from_filename(name) {
        Some(e) => e,
        None => {
            proof {
                assert(false);
            }
            ""
        },
    };
    let stem = match get_stem_from_filename(name) {
        Some(s) => s,
        None => {
            proof {
                assert(path_file_stem(name@) is Some);
            }
            ""
        },
    };
    let mut path = String::from_str("./static/");
    let id_text = uuid_to_text(id);
    path.append(id_text.as_str());
    path.append(".");
    path.append(ext);
    let mut image_url = String::from_str(IMAGE_HOST);
    image_url.append("/static/");
    image_url.append(path.as_str());
    FloorPlanUpload {
        floor_plan: NewFloorPlan { id, name: String::from_str(stem), image_url },
        path,
    }
}

/// What `receive_floor_plan` gives for an upload whose sanitized name is
/// `name`: an upload exactly when the name has an extension, placed as
/// `new_floor_plan_upload` says under the id it was given.
pub open spec fn is_floor_plan_receipt_for(upload: Option<FloorPlanUpload>, name: Seq<char>) -> bool {
    &&& (upload is Some <==> path_extension(name) is Some)
    &&& (upload matches Some(u) ==> is_floor_plan_upload(u, name, u.floor_plan.id))
}

/// An uploaded floor-plan image named `filename`: the name is sanitized
/// (with the Windows rules on a Windows target), a
/// fresh id is drawn, and the image is placed as `new_floor_plan_upload`
/// says. `None` where the sanitized name has no extension, an upload the
/// service does not accept.
pub fn receive_floor_plan(filename: &str) -> (upload: Option<FloorPlanUpload>)
    ensures
        is_floor_plan_receipt_for(upload, sanitized_name(filename@)) || is_floor_plan_receipt_for(
            upload,
            windows_sanitized_name(filename@),
        ),
        upload matches Some(u) ==> (u.floor_plan.id >> 76u128) & 15 == 4 && (u.floor_plan.id
            >> 62u128) & 3 == 2,
{
    let name = sanitize_file_name(filename);
    if get_extension_from_filename(name.as_str()).is_none() {
        return None;
    }
    let id = uuid_new_v4();
    Some(new_floor_plan_upload(name.as_str(), id))
}

/// Law: a floor-plan image is stored where an attached file with the same
/// id and extension is stored, in the storage folder.
pub proof fn law_floor_plan_stored_like_attached_files(
    upload: FloorPlanUpload,
    name: Seq<char>,
    id: u128,
)
    requires
        path_extension(name) is Some,
        is_floor_plan_upload(upload, name, id),
    ensures
        upload.path@ == file_path_text(id) + "."@ + path_extension(name).unwrap(),
{
    lemma_storage_folder_text();
    reveal_strlit("./static/");
    reveal_strlit("./");
    reveal_strlit("/");
    assert("./static/"@ =~= "./"@ + seq!['s', 't', 'a', 't', 'i', 'c'] + "/"@);
    let ext = path_extension(name).unwrap();
    assert(upload.path@ =~= file_path_text(id) + "."@ + ext);
}

/// Law: the recorded floor-plan name is the stem of the uploaded file name:
/// the name, a `.` and the extension that ends the storage path give back
/// the file name.
pub proof fn law_floor_plan_name_is_file_stem(upload: FloorPlanUpload, name: Seq<char>, id: u128)
    requires
        path_extension(name) is Some,
        is_floor_plan_upload(upload, name, id),
    ensures
        upload.path@ == "./static/"@ + uuid_text(id) + "."@ + path_extension(name).unwrap(),
        path_file_name(name) == Some(
            upload.floor_plan.name@ + seq!['.'] + path_extension(name).unwrap(),
        ),
{
    law_file_name_is_stem_dot_extension(name);
}

} // verus!
