use condo_plan_reporter_api::routes::floor_plans::{get_extension_from_filename, get_stem_from_filename};
use std::path::Path;

const SAMPLES: &[&str] = &[
    "", ".", "..", "...", "/", "//", "./", "../", "./.", "a/.", "a/..", "a/./", "/a/b/",
    "plan.png", "plan.tar.gz", ".hidden", ".hidden.txt", "noext", "trailing.", "a.b/c",
    "a.b/c.d", "dir/.cfg", "x/./y.z", "x//y.z//", "..png", "...png", "a..b", "é.jpg",
    "résumé.pdf", "chart/..", "/abs/path/img.jpeg", "a b.c d", "ünï/çødé.ẞ",
];

#[test]
fn extension_matches_std_path() {
    for s in SAMPLES {
        let expected = Path::new(s).extension().and_then(|e| e.to_str());
        assert_eq!(get_extension_from_filename(s), expected, "extension of {:?}", s);
    }
}

#[test]
fn stem_matches_std_path() {
    for s in SAMPLES {
        let expected = Path::new(s).file_stem().and_then(|e| e.to_str());
        assert_eq!(get_stem_from_filename(s), expected, "stem of {:?}", s);
    }
}

#[test]
fn extension_and_stem_of_plain_names() {
    assert_eq!(get_extension_from_filename("plan.png"), Some("png"));
    assert_eq!(get_stem_from_filename("plan.png"), Some("plan"));
    assert_eq!(get_extension_from_filename("archive.tar.gz"), Some("gz"));
    assert_eq!(get_stem_from_filename("archive.tar.gz"), Some("archive.tar"));
    assert_eq!(get_extension_from_filename(".env"), None);
    assert_eq!(get_stem_from_filename(".env"), Some(".env"));
    assert_eq!(get_extension_from_filename("notes"), None);
    assert_eq!(get_stem_from_filename("notes"), Some("notes"));
    assert_eq!(get_extension_from_filename("end."), Some(""));
    assert_eq!(get_stem_from_filename("end."), Some("end"));
}

#[test]
fn no_file_name_gives_nothing() {
    for s in ["", ".", "..", "/", "a/..", "./"] {
        assert_eq!(get_extension_from_filename(s), None);
        assert_eq!(get_stem_from_filename(s), None);
    }
}

#[test]
fn stem_dot_extension_is_the_file_name() {
    for s in SAMPLES {
        if let Some(ext) = get_extension_from_filename(s) {
            let stem = get_stem_from_filename(s).unwrap();
            let name = Path::new(s).file_name().unwrap().to_str().unwrap();
            assert_eq!(format!("{}.{}", stem, ext), name);
            assert!(!ext.contains('/') && !stem.contains('/'));
        }
    }
}

#[test]
fn exhaustive_short_names_match_std_path() {
    let alphabet = ['a', '.', '/'];
    let mut names = vec![String::new()];
    for _ in 0..5 {
        let mut next = Vec::new();
        for n in &names {
            for c in alphabet {
                let mut m = n.clone();
                m.push(c);
                next.push(m);
            }
        }
        names.extend(next.iter().cloned());
        names = names.into_iter().collect::<std::collections::BTreeSet<_>>().into_iter().collect();
    }
    for s in &names {
        let p = Path::new(s);
        assert_eq!(get_extension_from_filename(s), p.extension().and_then(|e| e.to_str()), "{:?}", s);
        assert_eq!(get_stem_from_filename(s), p.file_stem().and_then(|e| e.to_str()), "{:?}", s);
    }
}
