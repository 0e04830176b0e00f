use crate::apis::call_request::GatewayError;
use crate::helpers::general::{
    check_views, DecodeError, TaskPipeline, TaskPipelineView, UrlCheck, UrlCheckView,
};
use vstd::prelude::*;

verus! {

/// What a project needs, as the model judged it from the description.
#[derive(Clone, Copy, Debug, PartialEq, Eq, Structural)]
pub struct ProjectScope {
    pub is_crud_required: bool,
    pub is_user_login_and_logout: bool,
    pub is_external_urls_required: bool,
}

/// The project record that the agents fill in, one after the other.
///
/// The caller supplies the description; every other field starts unset.
#[derive(Debug, Clone, PartialEq, Eq)]
pub struct FactSheet {
    pub project_description: String,
    pub project_scope: Option<ProjectScope>,
    pub external_urls: Option<Vec<String>>,
    pub api_endpoint_schema: Option<String>,
    pub backend_code: Option<String>,
}

/// The mathematical value of a [`FactSheet`].
pub struct FactSheetView {
    pub project_description: Seq<char>,
    pub project_scope: Option<ProjectScope>,
    pub external_urls: Option<Seq<Seq<char>>>,
    pub api_endpoint_schema: Option<Seq<char>>,
    pub backend_code: Option<Seq<char>>,
}

impl View for FactSheet {
    type V = FactSheetView;

    open spec fn view(&self) -> FactSheetView {
        FactSheetView {
            project_description: self.project_description@,
            project_scope: self.project_scope,
            external_urls: self.external_urls.deep_view(),
            api_endpoint_schema: self.api_endpoint_schema.deep_view(),
            backend_code: self.backend_code.deep_view(),
        }
    }
}

impl FactSheet {
    /// A record that holds the description and nothing else yet.
    pub fn new(project_description: String) -> (sheet: Self)
        ensures
            sheet@ == (FactSheetView {
                project_description: project_description@,
                project_scope: None,
                external_urls: None,
                api_endpoint_schema: None,
                backend_code: None,
            }),
    {
        FactSheet {
            project_description,
            project_scope: None,
            external_urls: None,
            api_endpoint_schema: None,
            backend_code: None,
        }
    }
}

/// What the caller reports to an agent.
#[derive(Debug, PartialEq, Eq)]
pub enum AgentEvent {
    /// Nothing yet: the agent is asked what it needs.
    Start,
    /// The outcome of the task that the agent asked for: the model's text,
    /// or the failure that ended the pipeline.
    ModelReply(Result<String, GatewayError>),
    /// The outcome of the status checks that the agent asked for.
    UrlsChecked(Vec<UrlCheck>),
}

/// The mathematical value of an [`AgentEvent`].
pub enum AgentEventView {
    Start,
    ModelReply(Result<Seq<char>, GatewayError>),
    UrlsChecked(Seq<UrlCheckView>),
}

impl View for AgentEvent {
    type V = AgentEventView;

    open spec fn view(&self) -> AgentEventView {
        match self {
            AgentEvent::Start => AgentEventView::Start,
            AgentEvent::ModelReply(Ok(text)) => AgentEventView::ModelReply(Ok(text@)),
            AgentEvent::ModelReply(Err(error)) => AgentEventView::ModelReply(Err(*error)),
            AgentEvent::UrlsChecked(checks) => AgentEventView::UrlsChecked(check_views(checks@)),
        }
    }
}

/// What an agent asks its caller to do before the next step.
#[derive(Debug, Clone, PartialEq, Eq)]
pub enum AgentAction {
    /// Send what the pipeline holds to the model and hand back what came of it.
    AskModel(TaskPipeline),
    /// Fetch the status of each of these URLs and hand back what came of it.
    CheckUrls(Vec<String>),
    /// Nothing: the agent has finished.
    Done,
}

/// The mathematical value of an [`AgentAction`].
pub enum AgentActionView {
    AskModel(TaskPipelineView),
    CheckUrls(Seq<Seq<char>>),
    Done,
}

impl View for AgentAction {
    type V = AgentActionView;

    open spec fn view(&self) -> AgentActionView {
        match self {
            AgentAction::AskModel(pipeline) => AgentActionView::AskModel(pipeline@),
            AgentAction::CheckUrls(urls) => AgentActionView::CheckUrls(urls.deep_view()),
            AgentAction::Done => AgentActionView::Done,
        }
    }
}

/// Why an agent cannot go on. Each of these ends the run.
#[derive(Clone, Copy, Debug, PartialEq, Eq, Structural)]
pub enum AgentError {
    /// The model stayed out of reach.
    Gateway(GatewayError),
    /// The model's text was not the data that was asked for.
    Decode(DecodeError),
    /// The URLs are to be tested, and the fact sheet holds no list of them.
    MissingUrls,
}

/// The mathematical value of what a step returns.
pub open spec fn outcome_view(outcome: Result<AgentAction, AgentError>) -> Result<
    AgentActionView,
    AgentError,
> {
    match outcome {
        Ok(action) => Ok(action@),
        Err(error) => Err(error),
    }
}

} // verus!
