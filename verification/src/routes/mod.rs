pub mod floor_plans;
pub mod issues;
pub mod projects;
pub mod replies;
pub mod report;
