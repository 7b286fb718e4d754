//! How each route answers when one of its steps fails.
use vstd::prelude::*;

verus! {

/// The status a route answers with.
#[derive(Debug, PartialEq, Eq, Structural)]
pub enum Reply {
    /// 200, with or without a body.
    Success,
    /// The status that the error which stopped the upload carries itself
    /// (400 for a malformed multipart stream, 415 for a request that is not
    /// multipart, 500 where writing the file failed).
    StatusOfError,
    BadRequest,
    NotFound,
    InternalServerError,
}

/// The routes of the service.
#[derive(Debug, PartialEq, Eq, Structural)]
pub enum Route {
    CreateFloorPlan,
    ListFloorPlans,
    GetFloorPlanDetails,
    ListIssue,
    CreateIssue,
    ListProjects,
    GetProjectDetails,
    CreateProject,
    RenameProject,
    CreateOverallReport,
}

/// What can go wrong while a route runs.
#[derive(Debug, PartialEq, Eq, Structural)]
pub enum Failure {
    /// A field of an upload form lacks its content disposition, its name or
    /// its file name.
    IncompleteUploadField,
    /// An uploaded file name has no extension.
    MissingExtension,
    /// The body does not hold a valid input (JSON, or a project name).
    InvalidInput,
    /// A path parameter is no record id.
    InvalidId,
    /// Reading the upload form, or storing a file, failed.
    UploadFailed,
    /// The database refused a query.
    DatabaseFailed,
    /// The record asked for does not exist.
    RecordMissing,
    /// An issue upload holds no file.
    NoUploadedFile,
    /// A project has no row in its report view.
    EmptyReport,
    /// The report template could not be rendered.
    RenderFailed,
}

/// The answer of `route` when `failure` stops it, or `None` where the route
/// gives up on the request altogether (the server drops it): an id that is
/// no id where the route takes ids on trust, an incomplete field or a file
/// without extension in the issue upload form, an issue upload without file,
/// and a report without rows. Upload failures concern the two upload routes;
/// the other routes never meet them.
pub fn reply_to_failure(route: Route, failure: Failure) -> (reply: Option<Reply>)
    ensures
        failure == Failure::DatabaseFailed ==> reply == Some(Reply::InternalServerError),
        failure == Failure::UploadFailed ==> reply == Some(
            if route == Route::CreateFloorPlan {
                Reply::StatusOfError
            } else {
                Reply::InternalServerError
            },
        ),
        failure == Failure::RenderFailed ==> reply == Some(Reply::InternalServerError),
        failure == Failure::InvalidInput ==> reply == Some(Reply::BadRequest),
        failure == Failure::IncompleteUploadField ==> reply == (if route
            == Route::CreateFloorPlan {
            Some(Reply::BadRequest)
        } else {
            None
        }),
        failure == Failure::RecordMissing ==> reply == Some(
            if route == Route::GetFloorPlanDetails {
                Reply::NotFound
            } else {
                Reply::InternalServerError
            },
        ),
        failure == Failure::InvalidId ==> reply == (if route == Route::CreateOverallReport {
            Some(Reply::BadRequest)
        } else if route == Route::ListIssue {
            Some(Reply::InternalServerError)
        } else {
            None
        }),
        failure == Failure::MissingExtension ==> reply is None,
        failure == Failure::NoUploadedFile ==> reply is None,
        failure == Failure::EmptyReport ==> reply is None,
        reply != Some(Reply::Success),
{
    match failure {
        Failure::DatabaseFailed | Failure::RenderFailed => Some(Reply::InternalServerError),
        Failure::UploadFailed => match route {
            Route::CreateFloorPlan => Some(Reply::StatusOfError),
            _ => Some(Reply::InternalServerError),
        },
        Failure::InvalidInput => Some(Reply::BadRequest),
        Failure::IncompleteUploadField => match route {
            Route::CreateFloorPlan => Some(Reply::BadRequest),
            _ => None,
        },
        Failure::RecordMissing => match route {
            Route::GetFloorPlanDetails => Some(Reply::NotFound),
            _ => Some(Reply::InternalServerError),
        },
        Failure::InvalidId => match route {
            Route::CreateOverallReport => Some(Reply::BadRequest),
            Route::ListIssue => Some(Reply::InternalServerError),
            _ => None,
        },
        Failure::MissingExtension | Failure::NoUploadedFile | Failure::EmptyReport => None,
    }
}

} // verus!
