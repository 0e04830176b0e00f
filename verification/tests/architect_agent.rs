use auto_gippity::ai_functions::aifunc_architect::{print_project_scope, print_site_urls};
use auto_gippity::apis::call_request::GatewayError;
use auto_gippity::helpers::general::{
    exclude_faulty_urls, extend_ai_function, url_is_faulty, DecodeError, NetworkError,
    PipelineStep, UrlCheck,
};
use auto_gippity::models::agent_basic::basic_agent::{AgentState, BasicAgent};
use auto_gippity::models::agents::agent_architect::{AgentSolutionArchitect, DiscoveryPhase};
use auto_gippity::models::agents::agent_traits::{
    AgentAction, AgentError, AgentEvent, FactSheet, ProjectScope,
};

fn check(url: &str, outcome: Result<u16, NetworkError>) -> UrlCheck {
    UrlCheck { url: url.to_string(), outcome }
}

fn texts(items: &[&str]) -> Vec<String> {
    items.iter().map(|s| s.to_string()).collect()
}

fn state_of(agent: &AgentSolutionArchitect) -> AgentState {
    *agent.get_attributes_from_agent().get_state()
}

const SCOPE_WITH_URLS: &str = "{\"is_crud_required\": true, \"is_user_login_and_logout\": true, \"is_external_urls_required\": true}";
const SCOPE_WITHOUT_URLS: &str = "{\"is_crud_required\": true, \"is_user_login_and_logout\": true, \"is_external_urls_required\": false}";

/// Drives the agent as a caller would, with scripted answers in place of
/// the model and of the status checks.
fn run_agent(
    agent: &mut AgentSolutionArchitect,
    factsheet: &mut FactSheet,
    mut replies: Vec<Result<String, GatewayError>>,
    statuses: &[(&str, Result<u16, NetworkError>)],
) -> Result<(), AgentError> {
    replies.reverse();
    let mut event = AgentEvent::Start;
    loop {
        match agent.step(factsheet, event)? {
            AgentAction::Done => return Ok(()),
            AgentAction::AskModel(mut pipeline) => loop {
                let reply = replies.pop().expect("the script has no more replies");
                match pipeline.on_reply(reply) {
                    PipelineStep::Resend => {}
                    PipelineStep::Deliver(text) => {
                        event = AgentEvent::ModelReply(Ok(text));
                        break;
                    }
                    PipelineStep::Abort(error) => {
                        event = AgentEvent::ModelReply(Err(error));
                        break;
                    }
                }
            },
            AgentAction::CheckUrls(urls) => {
                let mut checks = Vec::new();
                for url in urls {
                    let outcome = statuses
                        .iter()
                        .find(|(known, _)| *known == url)
                        .map(|(_, outcome)| *outcome)
                        .unwrap_or(Err(NetworkError::Connect));
                    checks.push(UrlCheck { url, outcome });
                }
                event = AgentEvent::UrlsChecked(checks);
            }
        }
    }
}

#[test]
fn test_solution_architect() {
    let mut agent: AgentSolutionArchitect = AgentSolutionArchitect::new();

    let mut factsheet: FactSheet = FactSheet {
        project_description:
            "Build a fullstack website with user login and logout that show latest Forex prices"
                .to_string(),
        project_scope: None,
        external_urls: None,
        api_endpoint_schema: None,
        backend_code: None,
    };

    run_agent(
        &mut agent,
        &mut factsheet,
        vec![
            Ok(SCOPE_WITH_URLS.to_string()),
            Ok("[\"https://api.exchangerate.host/latest\"]".to_string()),
        ],
        &[("https://api.exchangerate.host/latest", Ok(200))],
    )
    .expect("Unable to execute Solutions Architect Agent");

    assert!(factsheet.project_scope != None);
    assert!(factsheet.external_urls.is_some());
}

#[test]
fn new_architect_starts_in_discovery() {
    let agent = AgentSolutionArchitect::new();
    let attributes = agent.get_attributes_from_agent();
    assert_eq!(
        attributes.get_objective(),
        "Gathers information and design solutions for website development"
    );
    assert_eq!(attributes.get_position(), "Solutions Architect");
    assert_eq!(*attributes.get_state(), AgentState::Discovery);
    assert!(attributes.get_memory().is_empty());
    assert_eq!(agent.get_phase(), DiscoveryPhase::ProjectScope);
}

#[test]
fn basic_agent_updates_its_state_only() {
    let mut agent = BasicAgent::new("goal".to_string(), "role".to_string());
    assert_eq!(agent.state, AgentState::Discovery);
    agent.update_state(AgentState::Working);
    assert_eq!(agent.state, AgentState::Working);
    assert_eq!(agent.objective, "goal");
    assert_eq!(agent.position, "role");
    assert!(agent.memory.is_empty());
}

#[test]
fn fact_sheet_starts_with_the_description_alone() {
    let sheet = FactSheet::new("a shop".to_string());
    assert_eq!(sheet.project_description, "a shop");
    assert_eq!(sheet.project_scope, None);
    assert_eq!(sheet.external_urls, None);
    assert_eq!(sheet.api_endpoint_schema, None);
    assert_eq!(sheet.backend_code, None);
}

#[test]
fn first_step_asks_for_the_scope_with_the_quoted_description() {
    let mut agent = AgentSolutionArchitect::new();
    let mut sheet = FactSheet::new("Build a \"shop\"".to_string());
    let action = agent.step(&mut sheet, AgentEvent::Start).unwrap();
    match action {
        AgentAction::AskModel(pipeline) => {
            assert_eq!(pipeline.retries_left, 1);
            assert_eq!(pipeline.request.agent_position, "Solutions Architect");
            assert_eq!(pipeline.request.agent_operation, "print_project_scope");
            assert_eq!(
                pipeline.request.message,
                extend_ai_function(print_project_scope, "\"Build a \\\"shop\\\"\"")
            );
            assert_ne!(
                pipeline.request.message,
                extend_ai_function(print_project_scope, "Build a \"shop\"")
            );
        }
        other => panic!("unexpected action {:?}", other),
    }
    assert_eq!(state_of(&agent), AgentState::Discovery);
    assert_eq!(sheet, FactSheet::new("Build a \"shop\"".to_string()));
}

#[test]
fn scope_without_urls_finishes_the_agent() {
    let mut agent = AgentSolutionArchitect::new();
    let mut sheet = FactSheet::new("a notebook".to_string());
    let action = agent
        .step(&mut sheet, AgentEvent::ModelReply(Ok(SCOPE_WITHOUT_URLS.to_string())))
        .unwrap();
    assert_eq!(action, AgentAction::Done);
    assert_eq!(state_of(&agent), AgentState::Finished);
    assert_eq!(
        sheet.project_scope,
        Some(ProjectScope {
            is_crud_required: true,
            is_user_login_and_logout: true,
            is_external_urls_required: false,
        })
    );
    assert_eq!(sheet.external_urls, None);
}

#[test]
fn scope_with_urls_asks_for_them_with_the_plain_description() {
    let mut agent = AgentSolutionArchitect::new();
    let mut sheet = FactSheet::new("prices".to_string());
    let action = agent
        .step(&mut sheet, AgentEvent::ModelReply(Ok(SCOPE_WITH_URLS.to_string())))
        .unwrap();
    match action {
        AgentAction::AskModel(pipeline) => {
            assert_eq!(pipeline.request.agent_operation, "print_site_urls");
            assert_eq!(pipeline.request.agent_position, "Solutions Architect");
            assert_eq!(
                pipeline.request.message,
                extend_ai_function(print_site_urls, "prices")
            );
        }
        other => panic!("unexpected action {:?}", other),
    }
    assert_eq!(state_of(&agent), AgentState::Discovery);
    assert_eq!(agent.get_phase(), DiscoveryPhase::ExternalUrls);
    assert!(sheet.project_scope.unwrap().is_external_urls_required);
    assert_eq!(sheet.external_urls, None);

    let action = agent
        .step(&mut sheet, AgentEvent::ModelReply(Ok("[\"https://a.example\"]".to_string())))
        .unwrap();
    assert_eq!(action, AgentAction::CheckUrls(texts(&["https://a.example"])));
    assert_eq!(state_of(&agent), AgentState::UnitTesting);
    assert_eq!(sheet.external_urls, Some(texts(&["https://a.example"])));
}

#[test]
fn malformed_scope_is_an_error_and_changes_nothing() {
    let mut agent = AgentSolutionArchitect::new();
    let mut sheet = FactSheet::new("prices".to_string());
    let outcome = agent.step(&mut sheet, AgentEvent::ModelReply(Ok("{\"is_crud".to_string())));
    assert_eq!(outcome, Err(AgentError::Decode(DecodeError::InvalidJson)));
    let outcome = agent.step(&mut sheet, AgentEvent::ModelReply(Ok("[1]".to_string())));
    assert_eq!(outcome, Err(AgentError::Decode(DecodeError::UnexpectedShape)));
    assert_eq!(sheet, FactSheet::new("prices".to_string()));
    assert_eq!(state_of(&agent), AgentState::Discovery);
    assert_eq!(agent.get_phase(), DiscoveryPhase::ProjectScope);
}

#[test]
fn malformed_url_list_is_an_error_and_changes_nothing() {
    let mut agent = AgentSolutionArchitect::new();
    let mut sheet = FactSheet::new("prices".to_string());
    agent.step(&mut sheet, AgentEvent::ModelReply(Ok(SCOPE_WITH_URLS.to_string()))).unwrap();
    let before = sheet.clone();
    let outcome = agent.step(&mut sheet, AgentEvent::ModelReply(Ok("[\"a\", 2]".to_string())));
    assert_eq!(outcome, Err(AgentError::Decode(DecodeError::UnexpectedShape)));
    assert_eq!(sheet, before);
    assert_eq!(state_of(&agent), AgentState::Discovery);
    assert_eq!(agent.get_phase(), DiscoveryPhase::ExternalUrls);
}

#[test]
fn gateway_failing_twice_aborts_the_run() {
    let mut agent = AgentSolutionArchitect::new();
    let mut sheet = FactSheet::new("prices".to_string());
    let outcome = run_agent(
        &mut agent,
        &mut sheet,
        vec![Err(GatewayError::Network), Err(GatewayError::Auth)],
        &[],
    );
    assert_eq!(outcome, Err(AgentError::Gateway(GatewayError::Auth)));
    assert_eq!(sheet, FactSheet::new("prices".to_string()));
    assert_eq!(state_of(&agent), AgentState::Discovery);
}

#[test]
fn gateway_failing_once_is_retried() {
    let mut agent = AgentSolutionArchitect::new();
    let mut sheet = FactSheet::new("a notebook".to_string());
    let outcome = run_agent(
        &mut agent,
        &mut sheet,
        vec![Err(GatewayError::Network), Ok(SCOPE_WITHOUT_URLS.to_string())],
        &[],
    );
    assert_eq!(outcome, Ok(()));
    assert_eq!(state_of(&agent), AgentState::Finished);
    assert!(sheet.project_scope.is_some());
}

#[test]
fn url_filtering_keeps_only_the_url_that_answered_200() {
    let mut agent = AgentSolutionArchitect::new();
    let mut sheet = FactSheet::new("prices".to_string());
    let outcome = run_agent(
        &mut agent,
        &mut sheet,
        vec![
            Ok(SCOPE_WITH_URLS.to_string()),
            Ok("[\"https://a.example\", \"https://b.example\", \"https://c.example\"]".to_string()),
        ],
        &[
            ("https://a.example", Ok(200)),
            ("https://b.example", Ok(404)),
            ("https://c.example", Err(NetworkError::Timeout)),
        ],
    );
    assert_eq!(outcome, Ok(()));
    assert_eq!(sheet.external_urls, Some(texts(&["https://a.example"])));
    assert_eq!(state_of(&agent), AgentState::Finished);
}

#[test]
fn end_to_end_scenario() {
    let mut agent = AgentSolutionArchitect::new();
    let mut sheet =
        FactSheet::new("Build a site with login/logout showing forex prices".to_string());
    let outcome = run_agent(
        &mut agent,
        &mut sheet,
        vec![
            Ok(SCOPE_WITH_URLS.to_string()),
            Ok("[\"https://good.example\", \"https://bad.example\"]".to_string()),
        ],
        &[("https://good.example", Ok(200)), ("https://bad.example", Ok(500))],
    );
    assert_eq!(outcome, Ok(()));
    assert_eq!(sheet.external_urls, Some(vec!["https://good.example".to_string()]));
    assert_eq!(sheet.project_scope.unwrap().is_external_urls_required, true);
    assert_eq!(state_of(&agent), AgentState::Finished);
    assert_eq!(
        sheet.project_description,
        "Build a site with login/logout showing forex prices"
    );
    assert_eq!(sheet.api_endpoint_schema, None);
    assert_eq!(sheet.backend_code, None);
}

#[test]
fn finished_agent_is_idle() {
    let mut agent = AgentSolutionArchitect::new();
    let mut sheet = FactSheet::new("a notebook".to_string());
    agent.step(&mut sheet, AgentEvent::ModelReply(Ok(SCOPE_WITHOUT_URLS.to_string()))).unwrap();
    assert_eq!(state_of(&agent), AgentState::Finished);
    let before = sheet.clone();
    assert_eq!(agent.step(&mut sheet, AgentEvent::Start), Ok(AgentAction::Done));
    assert_eq!(
        agent.step(&mut sheet, AgentEvent::ModelReply(Ok(SCOPE_WITH_URLS.to_string()))),
        Ok(AgentAction::Done)
    );
    assert_eq!(
        agent.step(&mut sheet, AgentEvent::ModelReply(Err(GatewayError::Network))),
        Ok(AgentAction::Done)
    );
    assert_eq!(
        agent.step(&mut sheet, AgentEvent::UrlsChecked(vec![check("x", Ok(500))])),
        Ok(AgentAction::Done)
    );
    assert_eq!(sheet, before);
    assert_eq!(state_of(&agent), AgentState::Finished);
}

#[test]
fn unit_testing_repeats_its_request_until_it_gets_a_report() {
    let mut agent = AgentSolutionArchitect::new();
    let mut sheet = FactSheet::new("prices".to_string());
    agent.step(&mut sheet, AgentEvent::ModelReply(Ok(SCOPE_WITH_URLS.to_string()))).unwrap();
    agent.step(&mut sheet, AgentEvent::ModelReply(Ok("[\"u\", \"v\"]".to_string()))).unwrap();
    assert_eq!(
        agent.step(&mut sheet, AgentEvent::Start),
        Ok(AgentAction::CheckUrls(texts(&["u", "v"])))
    );
    assert_eq!(
        agent.step(&mut sheet, AgentEvent::ModelReply(Ok("[]".to_string()))),
        Ok(AgentAction::CheckUrls(texts(&["u", "v"])))
    );
    assert_eq!(state_of(&agent), AgentState::UnitTesting);
    let scope = sheet.project_scope;
    assert_eq!(agent.step(&mut sheet, AgentEvent::UrlsChecked(vec![])), Ok(AgentAction::Done));
    assert_eq!(sheet.external_urls, Some(texts(&["u", "v"])));
    assert_eq!(sheet.project_scope, scope);
}

#[test]
fn unit_testing_without_a_list_is_an_error() {
    let mut agent = AgentSolutionArchitect::new();
    let mut sheet = FactSheet::new("prices".to_string());
    agent.step(&mut sheet, AgentEvent::ModelReply(Ok(SCOPE_WITH_URLS.to_string()))).unwrap();
    agent.step(&mut sheet, AgentEvent::ModelReply(Ok("[\"u\"]".to_string()))).unwrap();
    let mut other = FactSheet::new("prices".to_string());
    assert_eq!(
        agent.step(&mut other, AgentEvent::UrlsChecked(vec![])),
        Err(AgentError::MissingUrls)
    );
    assert_eq!(other, FactSheet::new("prices".to_string()));
    assert_eq!(state_of(&agent), AgentState::UnitTesting);
}

#[test]
fn faulty_urls_are_dropped_by_value_and_order_is_kept() {
    let urls = texts(&["a", "b", "a", "c", "d"]);
    let checks = vec![
        check("a", Ok(200)),
        check("b", Ok(200)),
        check("a", Ok(503)),
        check("c", Ok(200)),
        check("e", Ok(404)),
    ];
    assert_eq!(exclude_faulty_urls(&urls, &checks), texts(&["b", "c", "d"]));
    assert_eq!(exclude_faulty_urls(&urls, &vec![]), urls);
    assert_eq!(exclude_faulty_urls(&vec![], &checks), Vec::<String>::new());
    assert!(url_is_faulty("a", &checks));
    assert!(!url_is_faulty("b", &checks));
    assert!(!url_is_faulty("d", &checks));
}

#[test]
fn only_status_200_passes() {
    assert!(check("u", Ok(200)).passed());
    assert!(!check("u", Ok(201)).passed());
    assert!(!check("u", Ok(301)).passed());
    assert!(!check("u", Ok(404)).passed());
    assert!(!check("u", Ok(0)).passed());
    assert!(!check("u", Err(NetworkError::Timeout)).passed());
    assert!(!check("u", Err(NetworkError::Connect)).passed());
    assert!(!check("u", Err(NetworkError::Other)).passed());
}
