use condo_plan_reporter_api::consts::FILE_STORAGE_KEY_FOLDER;
use condo_plan_reporter_api::ids::{parse_record_id, IdError};
use condo_plan_reporter_api::routes::floor_plans::{new_floor_plan_upload, receive_floor_plan, IMAGE_HOST};
use condo_plan_reporter_api::routes::issues::{
    field_role, file_url, new_stored_file, parse_file_path_with_file_id, receive_uploaded_file,
    FieldRole, SplitPayload, FILE_HOST,
};
use condo_plan_reporter_api::domain::new_file::NewFile;
use sqlx::types::Uuid;

const ID: u128 = 0x67e5_5044_10b1_426f_9247_bb68_0e5f_e0c8;
const ID_TEXT: &str = "67e55044-10b1-426f-9247-bb680e5fe0c8";

#[test]
fn storage_folder_and_hosts() {
    assert_eq!(FILE_STORAGE_KEY_FOLDER, "static");
    assert_eq!(FILE_HOST, "localhost:8000");
    assert_eq!(IMAGE_HOST, "http://localhost:8000");
}

#[test]
fn file_url_is_base_folder_and_id() {
    assert_eq!(
        file_url("localhost:8000", ID),
        "localhost:8000/static/67e55044-10b1-426f-9247-bb680e5fe0c8"
    );
    assert_eq!(file_url("", 0), "/static/00000000-0000-0000-0000-000000000000");
}

#[test]
fn file_path_is_below_the_storage_folder() {
    assert_eq!(parse_file_path_with_file_id(ID), "./static/67e55044-10b1-426f-9247-bb680e5fe0c8");
    let joined = std::path::Path::new(".").join(format!("{}/{}", "static", Uuid::from_u128(ID)));
    assert_eq!(parse_file_path_with_file_id(ID), joined.to_string_lossy());
}

#[test]
fn id_text_matches_uuid_display() {
    for v in [0u128, 1, u128::MAX, ID, 0xabcdef, 1 << 127] {
        let text = file_url("", v);
        assert_eq!(text, format!("/static/{}", Uuid::from_u128(v)));
    }
}

#[test]
fn record_ids_parse() {
    assert_eq!(parse_record_id(ID_TEXT), Ok(ID));
    assert_eq!(parse_record_id("67E55044-10B1-426F-9247-BB680E5FE0C8"), Ok(ID));
    assert_eq!(parse_record_id("67e5504410b1426f9247bb680e5fe0c8"), Ok(ID));
    assert_eq!(parse_record_id("not-an-id"), Err(IdError::Invalid));
    assert_eq!(parse_record_id(""), Err(IdError::Invalid));
    assert_eq!(parse_record_id("67e55044-10b1-426f-9247-bb680e5fe0c"), Err(IdError::Invalid));
}

#[test]
fn record_id_text_round_trips() {
    for v in [0u128, 7, u128::MAX, ID] {
        let text = Uuid::from_u128(v).to_string();
        assert_eq!(parse_record_id(&text), Ok(v));
    }
}

#[test]
fn stored_file_record_and_path() {
    let stored = new_stored_file("plan.final.png", ID);
    assert_eq!(stored.file.id, ID);
    assert_eq!(stored.file.name, "plan.final");
    assert_eq!(stored.file.url, format!("localhost:8000/static/{}.png", ID_TEXT));
    assert_eq!(stored.path, format!("./static/{}.png", ID_TEXT));
}

#[test]
fn uploaded_file_is_sanitized() {
    let stored = receive_uploaded_file("../../etc/pass:wd.txt").unwrap();
    assert_eq!(stored.file.name, "....etcpasswd");
    assert!(stored.file.url.starts_with("localhost:8000/static/"));
    assert!(stored.file.url.ends_with(".txt"));
    let id_text = Uuid::from_u128(stored.file.id).to_string();
    assert_eq!(stored.path, format!("./static/{}.txt", id_text));
    assert_eq!(Uuid::from_u128(stored.file.id).get_version_num(), 4);
}

#[test]
fn upload_without_extension_is_refused() {
    assert!(receive_uploaded_file("README").is_none());
    assert!(receive_uploaded_file("..").is_none());
    assert!(receive_uploaded_file("/?*").is_none());
    assert!(receive_floor_plan(".bashrc").is_none());
}

#[test]
fn sanitizing_matches_the_crate() {
    let names = ["a/b.png", "c\u{7}d.jpg", "x<y>.gif", "...", "é.png", "f\u{85}g.bmp"];
    for n in names {
        let clean = sanitize_filename::sanitize(n);
        let stored = receive_uploaded_file(n);
        let expected_ext = std::path::Path::new(&clean).extension().map(|e| e.to_str().unwrap().to_string());
        match stored {
            Some(s) => {
                let ext = expected_ext.unwrap();
                assert!(s.path.ends_with(&format!(".{}", ext)));
                let stem = std::path::Path::new(&clean).file_stem().unwrap().to_str().unwrap();
                assert_eq!(s.file.name, stem);
            }
            None => assert!(expected_ext.is_none()),
        }
    }
}

#[test]
fn long_names_are_cut_to_255_bytes() {
    let long = format!("{}.png", "é".repeat(200));
    assert!(receive_uploaded_file(&long).is_none());
    let long = format!("{}.jpeg", "a".repeat(250));
    let stored = receive_uploaded_file(&long).unwrap();
    assert_eq!(stored.file.name, "a".repeat(250));
    assert!(stored.path.ends_with(".jpeg"));
    let long = format!("{}.jpeg", "a".repeat(252));
    let stored = receive_uploaded_file(&long).unwrap();
    assert_eq!(stored.file.name, "a".repeat(252));
    assert!(stored.path.ends_with(".jp"));
}

#[test]
fn floor_plan_record_and_path() {
    let upload = new_floor_plan_upload("ground floor.jpg", ID);
    assert_eq!(upload.floor_plan.id, ID);
    assert_eq!(upload.floor_plan.name, "ground floor");
    assert_eq!(upload.path, format!("./static/{}.jpg", ID_TEXT));
    assert_eq!(
        upload.floor_plan.image_url,
        format!("http://localhost:8000/static/./static/{}.jpg", ID_TEXT)
    );
}

#[test]
fn floor_plan_upload_is_sanitized() {
    let upload = receive_floor_plan("level|2.png").unwrap();
    assert_eq!(upload.floor_plan.name, "level2");
    let id_text = Uuid::from_u128(upload.floor_plan.id).to_string();
    assert_eq!(upload.path, format!("./static/{}.png", id_text));
    assert_eq!(upload.path, format!("{}.png", parse_file_path_with_file_id(upload.floor_plan.id)));
}

#[test]
fn form_fields_are_told_apart() {
    assert_eq!(field_role("data", None), FieldRole::Data);
    assert_eq!(field_role("data", Some("x.png")), FieldRole::Data);
    assert_eq!(field_role("myFile", Some("x.png")), FieldRole::File);
    assert_eq!(field_role("text", None), FieldRole::Ignored);
    assert_eq!(field_role("Data", None), FieldRole::Ignored);
}

#[test]
fn payload_keeps_the_last_data_chunk_and_every_file() {
    let mut payload = SplitPayload::new();
    assert!(payload.data.is_empty() && payload.files.is_empty());
    payload.receive_data_chunk(b"{\"name\":".to_vec());
    payload.receive_data_chunk(b"\"x\"}".to_vec());
    assert_eq!(payload.data, b"\"x\"}".to_vec());
    payload.receive_file(NewFile { id: 1, name: "a".to_string(), url: "u1".to_string() });
    payload.receive_file(NewFile { id: 2, name: "b".to_string(), url: "u2".to_string() });
    assert_eq!(payload.files.len(), 2);
    assert_eq!(payload.files[0].id, 1);
    assert_eq!(payload.files[1].name, "b");
    assert_eq!(payload.data, b"\"x\"}".to_vec());
}

#[test]
fn stored_file_is_published_at_its_path() {
    let stored = new_stored_file("photo.jpeg", ID);
    assert_eq!(stored.file.url, format!("{}{}", FILE_HOST, &stored.path[1..]));
}

#[test]
fn record_id_forms() {
    assert_eq!(parse_record_id("{67e55044-10b1-426f-9247-bb680e5fe0c8}"), Ok(ID));
    assert_eq!(parse_record_id("URN:uuid:67e55044-10b1-426f-9247-bb680e5fe0c8"), Ok(ID));
    assert_eq!(parse_record_id("urn:uuid:67e55044x10b1-426f-9247-bb680e5fe0c8"), Err(IdError::Invalid));
    assert_eq!(parse_record_id("[67e55044-10b1-426f-9247-bb680e5fe0c8]"), Err(IdError::Invalid));
    assert_eq!(parse_record_id("67e55044-10b1-426f-9247-bb680e5fe0cé"), Err(IdError::Invalid));
    assert_eq!(parse_record_id("67e5504410b1426f9247bb680e5fe0cg"), Err(IdError::Invalid));
}
