use vstd::prelude::*;

verus! {

/// What the model is told about the task of turning a user's request into a
/// goal.
pub const CONVERT_USER_INPUT_TO_GOAL: &'static str =
    "fn convert_user_input_to_goal(user_request: &str) -> String\n/// Input: a user's request for a piece of software\n/// Function: restates the request as one short goal, in plain words\n/// Output: prints the goal and nothing else\n/// Example: for \"I need a site that lets users log in and see live prices\"\n/// prints \"build a website with user login that shows live prices\"";

/// Describes the task of turning a user's request into a goal. The input
/// plays no part in the description.
pub fn convert_user_input_to_goal(_user_request: &str) -> (description: &'static str)
    ensures
        description@ == CONVERT_USER_INPUT_TO_GOAL@,
{
    CONVERT_USER_INPUT_TO_GOAL
}

} // verus!
