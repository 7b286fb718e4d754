use condo_plan_reporter_api::domain::new_project::{ProjectName, MAX_PROJECT_NAME_CHARS};
use condo_plan_reporter_api::routes::projects::{parse_project, ProjectInput};

#[test]
fn ordinary_names_are_accepted() {
    for n in ["Tower A", "condo 12", "  padded  ", "ñandú", "a"] {
        let name = ProjectName::parse(n.to_string()).unwrap();
        assert_eq!(name.as_ref(), n);
    }
}

#[test]
fn blank_names_are_refused() {
    for n in ["", " ", "\t\n", "\u{3000}\u{a0}"] {
        assert_eq!(
            ProjectName::parse(n.to_string()).err().unwrap(),
            format!("{} is not a valid project name.", n)
        );
    }
}

#[test]
fn forbidden_characters_are_refused() {
    for c in ['/', '(', ')', '"', '<', '>', '\\', '{', '}'] {
        let n = format!("tower{}b", c);
        assert!(ProjectName::parse(n).is_err());
    }
}

#[test]
fn length_limit() {
    assert_eq!(MAX_PROJECT_NAME_CHARS, 256);
    assert!(ProjectName::parse("é".repeat(256)).is_ok());
    assert!(ProjectName::parse("é".repeat(257)).is_err());
}

#[test]
fn white_space_is_unicode_white_space() {
    let forbidden = ['/', '(', ')', '"', '<', '>', '\\', '{', '}'];
    for u in 0u32..=0x10ffff {
        if let Some(c) = char::from_u32(u) {
            let accepted = ProjectName::parse(c.to_string()).is_ok();
            assert_eq!(accepted, !c.is_whitespace() && !forbidden.contains(&c), "{:x}", u);
        }
    }
}

#[test]
fn accepted_names_are_accepted_again() {
    let name = ProjectName::parse("Block C".to_string()).unwrap();
    let again = ProjectName::parse(name.as_ref().to_string()).unwrap();
    assert_eq!(again.as_ref(), name.as_ref());
}

#[test]
fn parse_project_checks_the_name() {
    let p = parse_project(ProjectInput { name: "Riverside".to_string() }).unwrap();
    assert_eq!(p.name.as_ref(), "Riverside");
    let e = parse_project(ProjectInput { name: "<script>".to_string() }).err().unwrap();
    assert_eq!(e, "<script> is not a valid project name.");
}
