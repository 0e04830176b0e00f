use crate::ai_functions::aifunc_architect::{
    print_project_scope, print_site_urls, PRINT_PROJECT_SCOPE, PRINT_SITE_URLS,
};
use crate::helpers::general::{
    ai_task_request, debug_format, debug_text, decode_project_scope, decode_url_list,
    decoded_project_scope, decoded_url_list, exclude_faulty_urls, lemma_surviving_urls_exact,
    surviving_urls, task_request_for, TaskPipeline, TaskPipelineView, MAX_RETRIES,
};
use crate::models::agent_basic::basic_agent::{AgentState, BasicAgent, BasicAgentView};
use crate::models::agents::agent_traits::{
    outcome_view, AgentAction, AgentActionView, AgentError, AgentEvent, AgentEventView,
    FactSheet, FactSheetView, ProjectScope,
};
use crate::models::general::llm::MessageView;
use vstd::prelude::*;

verus! {

/// What the solutions architect is there for.
pub const ARCHITECT_OBJECTIVE: &'static str =
    "Gathers information and design solutions for website development";

/// The role name of the solutions architect.
pub const ARCHITECT_POSITION: &'static str = "Solutions Architect";

/// The label of the task that judges the project's scope.
pub const PROJECT_SCOPE_OPERATION: &'static str = "print_project_scope";

/// The label of the task that names the outside endpoints.
pub const SITE_URLS_OPERATION: &'static str = "print_site_urls";

/// Which answer of the model an architect in discovery waits for.
#[derive(Clone, Copy, Debug, PartialEq, Eq, Structural)]
pub enum DiscoveryPhase {
    ProjectScope,
    ExternalUrls,
}

/// The agent that finds out what a project needs: its scope, and the
/// outside endpoints it can rely on.
///
/// The agent does no outside work itself. Each call of [`Self::step`] takes
/// what the caller reports, updates the agent and the fact sheet, and says
/// what the caller is to do next.
#[derive(Debug)]
pub struct AgentSolutionArchitect {
    attributes: BasicAgent,
    phase: DiscoveryPhase,
}

/// The mathematical value of an [`AgentSolutionArchitect`].
pub struct ArchitectView {
    pub attributes: BasicAgentView,
    pub phase: DiscoveryPhase,
}

impl ArchitectView {
    /// The same agent in another state.
    pub open spec fn with_state(self, state: AgentState) -> ArchitectView {
        ArchitectView { attributes: BasicAgentView { state, ..self.attributes }, ..self }
    }

    /// The same agent in another phase of discovery.
    pub open spec fn with_phase(self, phase: DiscoveryPhase) -> ArchitectView {
        ArchitectView { phase, ..self }
    }
}

impl View for AgentSolutionArchitect {
    type V = ArchitectView;

    closed spec fn view(&self) -> ArchitectView {
        ArchitectView { attributes: self.attributes@, phase: self.phase }
    }
}

/// The architect as it is made: in discovery, waiting for the scope, with
/// nothing remembered.
pub open spec fn new_architect() -> ArchitectView {
    ArchitectView {
        attributes: BasicAgentView {
            objective: ARCHITECT_OBJECTIVE@,
            position: ARCHITECT_POSITION@,
            state: AgentState::Discovery,
            memory: Seq::<MessageView>::empty(),
        },
        phase: DiscoveryPhase::ProjectScope,
    }
}

/// The task that asks for the project's scope. Its input is the project
/// description as `{:?}` writes it.
pub open spec fn project_scope_request(agent: ArchitectView, sheet: FactSheetView) -> TaskPipelineView {
    TaskPipelineView {
        request: task_request_for(
            PRINT_PROJECT_SCOPE@,
            debug_format(sheet.project_description),
            agent.attributes.position,
            PROJECT_SCOPE_OPERATION@,
        ),
        retries_left: MAX_RETRIES as nat,
    }
}

/// The task that asks for the outside endpoints. Its input is the project
/// description as it is.
pub open spec fn site_urls_request(agent: ArchitectView, sheet: FactSheetView) -> TaskPipelineView {
    TaskPipelineView {
        request: task_request_for(
            PRINT_SITE_URLS@,
            sheet.project_description,
            agent.attributes.position,
            SITE_URLS_OPERATION@,
        ),
        retries_left: MAX_RETRIES as nat,
    }
}

/// The task that an architect in discovery waits for.
pub open spec fn pending_request(agent: ArchitectView, sheet: FactSheetView) -> TaskPipelineView {
    match agent.phase {
        DiscoveryPhase::ProjectScope => project_scope_request(agent, sheet),
        DiscoveryPhase::ExternalUrls => site_urls_request(agent, sheet),
    }
}

/// What the model's text for the scope task leads to.
///
/// A text that does not decode is fatal and changes nothing. A scope is
/// written to the fact sheet; where it asks for outside endpoints the
/// agent goes on to ask for them, and else it has finished.
pub open spec fn accept_project_scope(
    agent: ArchitectView,
    sheet: FactSheetView,
    text: Seq<char>,
) -> (ArchitectView, FactSheetView, Result<AgentActionView, AgentError>) {
    match decoded_project_scope(text) {
        Err(error) => (agent, sheet, Err(AgentError::Decode(error))),
        Ok(scope) => {
            let written = FactSheetView { project_scope: Some(scope), ..sheet };
            if scope.is_external_urls_required {
                let asking = agent.with_phase(DiscoveryPhase::ExternalUrls);
                (asking, written, Ok(AgentActionView::AskModel(site_urls_request(asking, written))))
            } else {
                (agent.with_state(AgentState::Finished), written, Ok(AgentActionView::Done))
            }
        },
    }
}

/// What the model's text for the endpoints task leads to.
///
/// A text that does not decode is fatal and changes nothing. A list is
/// written to the fact sheet, and the agent goes on to test it.
pub open spec fn accept_external_urls(
    agent: ArchitectView,
    sheet: FactSheetView,
    text: Seq<char>,
) -> (ArchitectView, FactSheetView, Result<AgentActionView, AgentError>) {
    match decoded_url_list(text) {
        Err(error) => (agent, sheet, Err(AgentError::Decode(error))),
        Ok(urls) => (
            agent.with_state(AgentState::UnitTesting),
            FactSheetView { external_urls: Some(urls), ..sheet },
            Ok(AgentActionView::CheckUrls(urls)),
        ),
    }
}

/// One step of an architect in discovery.
///
/// A text from the model is taken as the answer that the agent waits
/// for. A failed pipeline is fatal. Any other event makes the agent say
/// which task it waits for.
pub open spec fn discovery_step(
    agent: ArchitectView,
    sheet: FactSheetView,
    event: AgentEventView,
) -> (ArchitectView, FactSheetView, Result<AgentActionView, AgentError>) {
    match event {
        AgentEventView::ModelReply(Ok(text)) => match agent.phase {
            DiscoveryPhase::ProjectScope => accept_project_scope(agent, sheet, text),
            DiscoveryPhase::ExternalUrls => accept_external_urls(agent, sheet, text),
        },
        AgentEventView::ModelReply(Err(error)) => (agent, sheet, Err(AgentError::Gateway(error))),
        _ => (agent, sheet, Ok(AgentActionView::AskModel(pending_request(agent, sheet)))),
    }
}

/// One step of an architect that tests the endpoints.
///
/// Without a list in the fact sheet the step is fatal. A report of checks
/// drops the URLs that failed one, and the agent has finished. Any other
/// event makes the agent say which URLs it wants checked.
pub open spec fn unit_testing_step(
    agent: ArchitectView,
    sheet: FactSheetView,
    event: AgentEventView,
) -> (ArchitectView, FactSheetView, Result<AgentActionView, AgentError>) {
    match sheet.external_urls {
        None => (agent, sheet, Err(AgentError::MissingUrls)),
        Some(urls) => match event {
            AgentEventView::UrlsChecked(checks) => (
                agent.with_state(AgentState::Finished),
                FactSheetView { external_urls: Some(surviving_urls(urls, checks)), ..sheet },
                Ok(AgentActionView::Done),
            ),
            _ => (agent, sheet, Ok(AgentActionView::CheckUrls(urls))),
        },
    }
}

/// One step of an architect: the agent and the fact sheet after it, and
/// what the caller gets back.
///
/// A finished agent changes nothing and says so. A state that the
/// architect has no work for is finished at once.
pub open spec fn architect_step(
    agent: ArchitectView,
    sheet: FactSheetView,
    event: AgentEventView,
) -> (ArchitectView, FactSheetView, Result<AgentActionView, AgentError>) {
    match agent.attributes.state {
        AgentState::Discovery => discovery_step(agent, sheet, event),
        AgentState::UnitTesting => unit_testing_step(agent, sheet, event),
        AgentState::Finished => (agent, sheet, Ok(AgentActionView::Done)),
        AgentState::Working => (
            agent.with_state(AgentState::Finished),
            sheet,
            Ok(AgentActionView::Done),
        ),
    }
}

/// The agent and the fact sheet after a run of events, each handed to one
/// step. A step that fails changes nothing, so the run goes on from where
/// it stood.
pub open spec fn architect_run(
    agent: ArchitectView,
    sheet: FactSheetView,
    events: Seq<AgentEventView>,
) -> (ArchitectView, FactSheetView)
    decreases events.len(),
{
    if events.len() == 0 {
        (agent, sheet)
    } else {
        let before = architect_run(agent, sheet, events.drop_last());
        let after = architect_step(before.0, before.1, events.last());
        (after.0, after.1)
    }
}

/// What holds of an architect and the fact sheet it works on, at every
/// point of a run that began with a new architect: past discovery the
/// scope is written, and so is the list of endpoints where the scope asks
/// for one.
pub open spec fn discovery_settled(agent: ArchitectView, sheet: FactSheetView) -> bool {
    match agent.attributes.state {
        AgentState::Discovery => agent.phase == DiscoveryPhase::ExternalUrls ==> (
        sheet.project_scope matches Some(scope) && scope.is_external_urls_required),
        AgentState::UnitTesting => sheet.project_scope is Some,
        AgentState::Finished => sheet.project_scope matches Some(scope) && (
        scope.is_external_urls_required ==> sheet.external_urls is Some),
        AgentState::Working => false,
    }
}

/// A finished agent is idle: a further step changes neither the agent nor
/// the fact sheet, whatever the event, and reports that nothing is left.
pub proof fn lemma_finished_is_idle(
    agent: ArchitectView,
    sheet: FactSheetView,
    event: AgentEventView,
)
    requires
        agent.attributes.state == AgentState::Finished,
    ensures
        architect_step(agent, sheet, event) == (agent, sheet, Ok::<
            AgentActionView,
            AgentError,
        >(AgentActionView::Done)),
{
}

/// A step that fails changes neither the agent nor the fact sheet.
pub proof fn lemma_failure_changes_nothing(
    agent: ArchitectView,
    sheet: FactSheetView,
    event: AgentEventView,
)
    requires
        architect_step(agent, sheet, event).2 is Err,
    ensures
        architect_step(agent, sheet, event).0 == agent,
        architect_step(agent, sheet, event).1 == sheet,
{
}

/// No step takes back what the fact sheet holds: the description and the
/// two fields of later agents stay as they are, a field that is set stays
/// set, the scope changes only in discovery, and the list of endpoints
/// never grows while it is tested.
pub proof fn lemma_step_keeps_what_is_written(
    agent: ArchitectView,
    sheet: FactSheetView,
    event: AgentEventView,
)
    ensures
        ({
            let after = architect_step(agent, sheet, event).1;
            &&& after.project_description == sheet.project_description
            &&& after.api_endpoint_schema == sheet.api_endpoint_schema
            &&& after.backend_code == sheet.backend_code
            &&& sheet.project_scope is Some ==> after.project_scope is Some
            &&& sheet.external_urls is Some ==> after.external_urls is Some
            &&& agent.attributes.state != AgentState::Discovery ==> after.project_scope
                == sheet.project_scope
            &&& agent.attributes.state == AgentState::UnitTesting && sheet.external_urls
                is Some ==> after.external_urls->0.len() <= sheet.external_urls->0.len()
        }),
{
    if agent.attributes.state == AgentState::UnitTesting && sheet.external_urls is Some {
        if let AgentEventView::UrlsChecked(checks) = event {
            lemma_surviving_urls_exact(
                sheet.external_urls->0,
                checks,
                Seq::<char>::empty(),
            );
        }
    }
}

/// One step keeps `discovery_settled`.
pub proof fn lemma_step_keeps_settled(
    agent: ArchitectView,
    sheet: FactSheetView,
    event: AgentEventView,
)
    requires
        discovery_settled(agent, sheet),
    ensures
        discovery_settled(
            architect_step(agent, sheet, event).0,
            architect_step(agent, sheet, event).1,
        ),
{
}

/// Once a run that began with a new architect has left discovery, the
/// fact sheet holds a scope, and it holds a list of endpoints once the agent
/// has finished and the scope asks for one.
pub proof fn lemma_after_discovery(sheet: FactSheetView, events: Seq<AgentEventView>)
    ensures
        discovery_settled(
            architect_run(new_architect(), sheet, events).0,
            architect_run(new_architect(), sheet, events).1,
        ),
    decreases events.len(),
{
    if events.len() > 0 {
        lemma_after_discovery(sheet, events.drop_last());
        let before = architect_run(new_architect(), sheet, events.drop_last());
        lemma_step_keeps_settled(before.0, before.1, events.last());
    }
}

impl AgentSolutionArchitect {
    /// An architect at the start of its work.
    pub fn new() -> (agent: Self)
        ensures
            agent@ == new_architect(),
    {
        let attributes = BasicAgent::new(
            String::from_str(ARCHITECT_OBJECTIVE),
            String::from_str(ARCHITECT_POSITION),
        );
        Self { attributes, phase: DiscoveryPhase::ProjectScope }
    }

    /// What every agent carries.
    pub fn get_attributes_from_agent(&self) -> (attributes: &BasicAgent)
        ensures
            attributes@ == self@.attributes,
    {
        &self.attributes
    }

    /// Which answer the agent waits for while it is in discovery.
    pub fn get_phase(&self) -> (phase: DiscoveryPhase)
        ensures
            phase == self@.phase,
    {
        self.phase
    }

    /// Builds the task that the agent waits for while it is in discovery.
    fn ask_model(&self, factsheet: &FactSheet) -> (pipeline: TaskPipeline)
        ensures
            pipeline@ == pending_request(self@, factsheet@),
    {
        match self.phase {
            DiscoveryPhase::ProjectScope => {
                let msg_context = debug_text(factsheet.project_description.as_str());
                ai_task_request(
                    msg_context.as_str(),
                    self.attributes.position.as_str(),
                    PROJECT_SCOPE_OPERATION,
                    print_project_scope,
                )
            },
            DiscoveryPhase::ExternalUrls => ai_task_request(
                factsheet.project_description.as_str(),
                self.attributes.position.as_str(),
                SITE_URLS_OPERATION,
                print_site_urls,
            ),
        }
    }

    /// Takes the model's text for the scope task.
    fn call_project_scope(&mut self, factsheet: &mut FactSheet, text: &str) -> (outcome: Result<
        AgentAction,
        AgentError,
    >)
        ensures
            (final(self)@, final(factsheet)@, outcome_view(outcome)) == accept_project_scope(
                old(self)@,
                old(factsheet)@,
                text@,
            ),
    {
        match decode_project_scope(text) {
            Err(error) => Err(AgentError::Decode(error)),
            Ok(scope) => {
                factsheet.project_scope = Some(scope);
                if scope.is_external_urls_required {
                    self.phase = DiscoveryPhase::ExternalUrls;
                    Ok(AgentAction::AskModel(self.ask_model(factsheet)))
                } else {
                    self.attributes.update_state(AgentState::Finished);
                    Ok(AgentAction::Done)
                }
            },
        }
    }

    /// Takes the model's text for the endpoints task.
    fn call_determine_external_urls(&mut self, factsheet: &mut FactSheet, text: &str) -> (outcome:
        Result<AgentAction, AgentError>)
        ensures
            (final(self)@, final(factsheet)@, outcome_view(outcome)) == accept_external_urls(
                old(self)@,
                old(factsheet)@,
                text@,
            ),
    {
        match decode_url_list(text) {
            Err(error) => Err(AgentError::Decode(error)),
            Ok(urls) => {
                let to_check = urls.clone();
                factsheet.external_urls = Some(urls);
                self.attributes.update_state(AgentState::UnitTesting);
                Ok(AgentAction::CheckUrls(to_check))
            },
        }
    }

    /// Takes what the caller reports while the endpoints are tested.
    fn test_external_urls(&mut self, factsheet: &mut FactSheet, event: AgentEvent) -> (outcome:
        Result<AgentAction, AgentError>)
        ensures
            (final(self)@, final(factsheet)@, outcome_view(outcome)) == unit_testing_step(
                old(self)@,
                old(factsheet)@,
                event@,
            ),
    {
        let kept = match &factsheet.external_urls {
            None => {
                return Err(AgentError::MissingUrls);
            },
            Some(urls) => match event {
                AgentEvent::UrlsChecked(checks) => exclude_faulty_urls(urls, &checks),
                _ => {
                    return Ok(AgentAction::CheckUrls(urls.clone()));
                },
            },
        };
        factsheet.external_urls = Some(kept);
        self.attributes.update_state(AgentState::Finished);
        Ok(AgentAction::Done)
    }

    /// Advances the agent by one step.
    ///
    /// `event` is what the caller reports: nothing yet, the outcome of the
    /// task that the last step asked for, or the outcome of the status
    /// checks that it asked for. The result says what the caller is to do
    /// before the next step, or why the run cannot go on. A step that fails
    /// changes nothing, and a finished agent changes nothing either.
    pub fn step(&mut self, factsheet: &mut FactSheet, event: AgentEvent) -> (outcome: Result<
        AgentAction,
        AgentError,
    >)
        ensures
            (final(self)@, final(factsheet)@, outcome_view(outcome)) == architect_step(
                old(self)@,
                old(factsheet)@,
                event@,
            ),
    {
        match self.attributes.state {
            AgentState::Discovery => match event {
                AgentEvent::ModelReply(Ok(text)) => match self.phase {
                    DiscoveryPhase::ProjectScope => self.call_project_scope(
                        factsheet,
                        text.as_str(),
                    ),
                    DiscoveryPhase::ExternalUrls => self.call_determine_external_urls(
                        factsheet,
                        text.as_str(),
                    ),
                },
                AgentEvent::ModelReply(Err(error)) => Err(AgentError::Gateway(error)),
                _ => Ok(AgentAction::AskModel(self.ask_model(factsheet))),
            },
            AgentState::UnitTesting => self.test_external_urls(factsheet, event),
            AgentState::Finished => Ok(AgentAction::Done),
            AgentState::Working => {
                self.attributes.update_state(AgentState::Finished);
                Ok(AgentAction::Done)
            },
        }
    }
}

} // verus!
