use condo_plan_reporter_api::routes::replies::{reply_to_failure, Failure, Reply, Route};

#[test]
fn database_failures_are_server_errors() {
    assert_eq!(reply_to_failure(Route::ListProjects, Failure::DatabaseFailed), Some(Reply::InternalServerError));
    assert_eq!(reply_to_failure(Route::CreateIssue, Failure::UploadFailed), Some(Reply::InternalServerError));
    assert_eq!(reply_to_failure(Route::CreateOverallReport, Failure::RenderFailed), Some(Reply::InternalServerError));
}

#[test]
fn bad_input_is_a_bad_request() {
    assert_eq!(reply_to_failure(Route::CreateProject, Failure::InvalidInput), Some(Reply::BadRequest));
    assert_eq!(reply_to_failure(Route::CreateIssue, Failure::InvalidInput), Some(Reply::BadRequest));
    assert_eq!(reply_to_failure(Route::CreateFloorPlan, Failure::IncompleteUploadField), Some(Reply::BadRequest));
}

#[test]
fn upload_failures_depend_on_the_route() {
    assert_eq!(reply_to_failure(Route::CreateFloorPlan, Failure::UploadFailed), Some(Reply::StatusOfError));
    assert_eq!(reply_to_failure(Route::CreateIssue, Failure::UploadFailed), Some(Reply::InternalServerError));
    assert_eq!(reply_to_failure(Route::CreateIssue, Failure::IncompleteUploadField), None);
}

#[test]
fn missing_records() {
    assert_eq!(reply_to_failure(Route::GetFloorPlanDetails, Failure::RecordMissing), Some(Reply::NotFound));
    assert_eq!(reply_to_failure(Route::GetProjectDetails, Failure::RecordMissing), Some(Reply::InternalServerError));
}

#[test]
fn invalid_ids() {
    assert_eq!(reply_to_failure(Route::CreateOverallReport, Failure::InvalidId), Some(Reply::BadRequest));
    assert_eq!(reply_to_failure(Route::ListIssue, Failure::InvalidId), Some(Reply::InternalServerError));
    assert_eq!(reply_to_failure(Route::GetProjectDetails, Failure::InvalidId), None);
    assert_eq!(reply_to_failure(Route::RenameProject, Failure::InvalidId), None);
}

#[test]
fn requests_that_are_dropped() {
    assert_eq!(reply_to_failure(Route::CreateFloorPlan, Failure::MissingExtension), None);
    assert_eq!(reply_to_failure(Route::CreateIssue, Failure::NoUploadedFile), None);
    assert_eq!(reply_to_failure(Route::CreateOverallReport, Failure::EmptyReport), None);
}
