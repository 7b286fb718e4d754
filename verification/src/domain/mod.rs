pub mod new_file;
pub mod new_issue;
pub mod new_project;
