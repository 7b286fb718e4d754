//! The overall report of a project: its header and one entry per issue.
use vstd::prelude::*;

verus! {

/// A row of the `project_report_view` view: one issue of a project's floor
/// plan, with its attached file.
#[derive(Debug, Clone)]
pub struct ProjectReportView {
    /// The project's id.
    pub id: u128,
    pub project_name: String,
    pub floor_plan_name: String,
    pub image_url: String,
    pub issue_name: String,
    pub issue_description: String,
    pub issue_location: String,
    pub filename: String,
    pub file_url: String,
}

/// The report that the template renders.
#[derive(Debug)]
pub struct NewReport {
    pub project_name: String,
    pub floor_plan_room: String,
    pub floor_plan_url: String,
    pub issues: Vec<NewReportIssue>,
}

/// An issue as the report lists it.
#[derive(Clone, Debug)]
pub struct NewReportIssue {
    pub name: String,
    pub description: String,
    pub location: String,
    pub url: String,
}

/// The report entry that `row` gives.
pub open spec fn is_issue_of_row(issue: NewReportIssue, row: ProjectReportView) -> bool {
    &&& issue.name@ == row.issue_name@
    &&& issue.description@ == row.issue_description@
    &&& issue.location@ == row.issue_location@
    &&& issue.url@ == row.file_url@
}

/// The report entry of one row.
pub fn report_issue(row: &ProjectReportView) -> (issue: NewReportIssue)
    ensures
        is_issue_of_row(issue, *row),
        issue.name@ == row.issue_name@,
        issue.description@ == row.issue_description@,
        issue.location@ == row.issue_location@,
        issue.url@ == row.file_url@,
{
    NewReportIssue {
        name: row.issue_name.clone(),
        description: row.issue_description.clone(),
        location: row.issue_location.clone(),
        url: row.file_url.clone(),
    }
}

/// Law: a report entry carries its row's texts unchanged: the issue's name,
/// description and location, and the attached file's address.
pub proof fn law_report_entry_keeps_row_texts(issue: NewReportIssue, row: ProjectReportView)
    requires
        is_issue_of_row(issue, row),
    ensures
        issue.name@ == row.issue_name@,
        issue.description@ == row.issue_description@,
        issue.location@ == row.issue_location@,
        issue.url@ == row.file_url@,
{
}

impl NewReport {
    /// The report of a project from the rows of its report view: one entry
    /// per row, in the rows' order; the header (project, floor plan and its
    /// image) is taken from the first row, since all rows belong to the same
    /// project.
    pub fn from_rows(rows: &Vec<ProjectReportView>) -> (report: NewReport)
        requires
            rows.len() > 0,
        ensures
            report.project_name@ == rows[0].project_name@,
            report.floor_plan_room@ == rows[0].floor_plan_name@,
            report.floor_plan_url@ == rows[0].image_url@,
            report.issues.len() == rows.len(),
            forall|i: int| 0 <= i < rows.len() ==> is_issue_of_row(#[trigger] report.issues[i], rows[i]),
            forall|i: int|
                0 <= i < rows.len() ==> {
                    &&& (#[trigger] report.issues[i]).name@ == rows[i].issue_name@
                    &&& report.issues[i].description@ == rows[i].issue_description@
                    &&& report.issues[i].location@ == rows[i].issue_location@
                    &&& report.issues[i].url@ == rows[i].file_url@
                },
    {
        let mut issues: Vec<NewReportIssue> = Vec::new();
        let mut i: usize = 0;
        while i < rows.len()
            invariant
                i <= rows.len(),
                issues.len() == i,
                forall|j: int| 0 <= j < i ==> is_issue_of_row(#[trigger] issues[j], rows[j]),
            decreases rows.len() - i,
        {
            issues.push(report_issue(&rows[i]));
            i = i + 1;
        }
        let first = &rows[0];
        NewReport {
            project_name: first.project_name.clone(),
            floor_plan_room: first.floor_plan_name.clone(),
            floor_plan_url: first.image_url.clone(),
            issues,
        }
    }
}

} // verus!
