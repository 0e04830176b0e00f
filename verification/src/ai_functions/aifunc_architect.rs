use vstd::prelude::*;

verus! {

/// What the model is told about the task of judging a project's scope.
pub const PRINT_PROJECT_SCOPE: &'static str =
    "fn print_project_scope(project_description: &str) -> String\n/// Input: a description of a website to build\n/// Function: decides what the build needs\n/// Important: at least one of the three answers must be true\n/// Output: prints one JSON object in exactly this form:\n///   {\n///     \"is_crud_required\": bool, // true if the site stores and edits records\n///     \"is_user_login_and_logout\": bool, // true if users log in and out\n///     \"is_external_urls_required\": bool // true if the site reads data from other providers\n///   }\n/// Example: for \"a shop with accounts that shows live exchange rates\"\n/// prints {\"is_crud_required\": true, \"is_user_login_and_logout\": true, \"is_external_urls_required\": true}";

/// What the model is told about the task of naming outside endpoints.
pub const PRINT_SITE_URLS: &'static str =
    "fn print_site_urls(project_description: &str) -> String\n/// Input: a description of a website to build\n/// Function: names public API endpoints that need no key and serve the data the site shows\n/// Important: every endpoint must answer a plain GET request\n/// Output: prints one JSON array of URL strings and nothing else\n/// Example: for \"a site that shows live exchange rates\"\n/// prints [\"https://api.exchangerate.host/latest\"]";

/// Describes the task of judging a project's scope. The input plays no part
/// in the description.
pub fn print_project_scope(_project_description: &str) -> (description: &'static str)
    ensures
        description@ == PRINT_PROJECT_SCOPE@,
{
    PRINT_PROJECT_SCOPE
}

/// Describes the task of naming outside endpoints. The input plays no part
/// in the description.
pub fn print_site_urls(_project_description: &str) -> (description: &'static str)
    ensures
        description@ == PRINT_SITE_URLS@,
{
    PRINT_SITE_URLS
}

} // verus!
