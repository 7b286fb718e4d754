use condo_plan_reporter_api::routes::report::{report_issue, NewReport, ProjectReportView};

fn row(i: u32) -> ProjectReportView {
    ProjectReportView {
        id: 42,
        project_name: "Riverside".to_string(),
        floor_plan_name: format!("floor {}", i),
        image_url: format!("img{}", i),
        issue_name: format!("issue {}", i),
        issue_description: format!("desc {}", i),
        issue_location: format!("loc {}", i),
        filename: format!("f{}", i),
        file_url: format!("url{}", i),
    }
}

#[test]
fn report_lists_every_row_in_order() {
    let rows: Vec<_> = (0..3).map(row).collect();
    let report = NewReport::from_rows(&rows);
    assert_eq!(report.project_name, "Riverside");
    assert_eq!(report.floor_plan_room, "floor 0");
    assert_eq!(report.floor_plan_url, "img0");
    assert_eq!(report.issues.len(), 3);
    for (i, issue) in report.issues.iter().enumerate() {
        assert_eq!(issue.name, format!("issue {}", i));
        assert_eq!(issue.description, format!("desc {}", i));
        assert_eq!(issue.location, format!("loc {}", i));
        assert_eq!(issue.url, format!("url{}", i));
    }
}

#[test]
fn one_row_report() {
    let issue = report_issue(&row(7));
    assert_eq!(issue.name, "issue 7");
    assert_eq!(issue.url, "url7");
}
