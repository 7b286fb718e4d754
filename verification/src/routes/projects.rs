//! Projects: the input of the create and rename routes.
use vstd::prelude::*;

use crate::domain::new_project::{
    invalid_name_message, is_forbidden_name_char, is_valid_project_name, NewProject, ProjectName,
};

verus! {

/// Body of the create and rename routes.
pub struct ProjectInput {
    pub name: String,
}

/// Path parameters of the routes `/projects/{project_id}/...`.
pub struct Parameters {
    pub project_id: String,
}

/// Checks the input of the create and rename routes.
pub fn parse_project(input: ProjectInput) -> (project: Result<NewProject, String>)
    ensures
        project is Ok <==> is_valid_project_name(input.name@),
        project matches Ok(p) ==> p.name@ == input.name@,
        project matches Err(message) ==> message@ == invalid_name_message(input.name@),
        (exists|i: int|
            0 <= i < input.name@.len() && is_forbidden_name_char(#[trigger] input.name@[i]))
            ==> project is Err,
{
    let name = ProjectName::parse(input.name)?;
    Ok(NewProject { name })
}

} // verus!
