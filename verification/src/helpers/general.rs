use crate::apis::call_request::GatewayError;
use crate::helpers::json::{
    bool_member, json_doc, json_docs, json_parse, parse_value, value_as_array, value_as_str,
    JsonDoc,
};
use crate::models::agents::agent_traits::ProjectScope;
use crate::models::general::llm::{Message, MessageView, Role};
use serde_json::Value;
use vstd::prelude::*;

verus! {

/// What precedes the task's description in an extended prompt.
pub const PROMPT_HEAD: &'static str = "FUNCTION ";

/// What stands between the task's description and the echoed input.
pub const PROMPT_INSTRUCTION: &'static str =
    "\n        INSTRUCTION: You are a function printer. You ONLY print the results of functions.\n        Nothing else. No commentary, please. Here is the input to the function: ";

/// What follows the echoed input.
pub const PROMPT_TAIL: &'static str = ".\n        Print out what the function will return.";

/// The text of the prompt that wraps a task's description and its input.
pub open spec fn extended_prompt(description: Seq<char>, input: Seq<char>) -> Seq<char> {
    PROMPT_HEAD@ + description + PROMPT_INSTRUCTION@ + input + PROMPT_TAIL@
}

/// Whether `part` occurs in `text` as one unbroken run.
pub open spec fn contains_text(text: Seq<char>, part: Seq<char>) -> bool {
    exists|at: int|
        0 <= at && at + part.len() <= text.len() && #[trigger] text.subrange(
            at,
            at + part.len(),
        ) == part
}

/// The message that the prompt extender builds from a description and an
/// input.
pub open spec fn extended_message(description: Seq<char>, input: Seq<char>) -> MessageView {
    MessageView { role: Role::System, content: extended_prompt(description, input) }
}

/// An extended prompt holds both the task's description and the input,
/// each verbatim.
pub proof fn lemma_prompt_embeds_parts(description: Seq<char>, input: Seq<char>)
    ensures
        contains_text(extended_prompt(description, input), description),
        contains_text(extended_prompt(description, input), input),
{
    let text = extended_prompt(description, input);
    let at_description = PROMPT_HEAD@.len() as int;
    let at_input = at_description + description.len() + PROMPT_INSTRUCTION@.len();
    assert(text.subrange(at_description, at_description + description.len()) =~= description);
    assert(text.subrange(at_input, at_input + input.len()) =~= input);
}

/// Wraps a task into a message for the model.
///
/// `ai_func` describes the task; it is called once, with `func_input`. The
/// message has the system role, and its content is the extended prompt of
/// what `ai_func` returned and of the input, so it holds the input verbatim.
pub fn extend_ai_function<F: Fn(&str) -> &'static str>(ai_func: F, func_input: &str) -> (msg:
    Message)
    requires
        call_requires(ai_func, (func_input,)),
    ensures
        msg.role == Role::System,
        exists|description: &'static str| #[trigger]
            call_ensures(ai_func, (func_input,), description) && msg@ == extended_message(
                description@,
                func_input@,
            ),
        contains_text(msg.content@, func_input@),
{
    let ai_function_str: &'static str = ai_func(func_input);
    let mut content = String::from_str(PROMPT_HEAD);
    content.append(ai_function_str);
    content.append(PROMPT_INSTRUCTION);
    content.append(func_input);
    content.append(PROMPT_TAIL);
    proof {
        assert(content@ =~= extended_prompt(ai_function_str@, func_input@));
        lemma_prompt_embeds_parts(ai_function_str@, func_input@);
    }
    Message { role: Role::System, content }
}

/// The text that `{:?}` writes for a string: the string between double
/// quotes, with its special characters escaped.
pub uninterp spec fn debug_format(text: Seq<char>) -> Seq<char>;

/// Formats a string with `{:?}`, that is with `<str as Debug>::fmt`.
/// Trusted: the outcome depends on the characters alone, so it is named
/// `debug_format`; nothing more is claimed of it.
#[verifier::external_body]
pub(crate) fn debug_text(text: &str) -> (quoted: String)
    ensures
        quoted@ == debug_format(text@),
{
    format!("{:?}", text)
}

/// One task for the model, ready to send: the message, and the two labels
/// that say who asks and for what.
#[derive(Debug, Clone, PartialEq, Eq)]
pub struct TaskRequest {
    pub message: Message,
    pub agent_position: String,
    pub agent_operation: String,
}

/// The mathematical value of a [`TaskRequest`].
pub struct TaskRequestView {
    pub message: MessageView,
    pub agent_position: Seq<char>,
    pub agent_operation: Seq<char>,
}

impl View for TaskRequest {
    type V = TaskRequestView;

    open spec fn view(&self) -> TaskRequestView {
        TaskRequestView {
            message: self.message@,
            agent_position: self.agent_position@,
            agent_operation: self.agent_operation@,
        }
    }
}

/// The request for a task with a known description.
pub open spec fn task_request_for(
    description: Seq<char>,
    msg_context: Seq<char>,
    agent_position: Seq<char>,
    agent_operation: Seq<char>,
) -> TaskRequestView {
    TaskRequestView {
        message: extended_message(description, msg_context),
        agent_position,
        agent_operation,
    }
}

/// How many times a failed call is sent again before the pipeline gives up.
pub const MAX_RETRIES: u8 = 1;

/// A task on its way to the model, with the number of further attempts it
/// is still allowed after a failure.
#[derive(Debug, Clone, PartialEq, Eq)]
pub struct TaskPipeline {
    pub request: TaskRequest,
    pub retries_left: u8,
}

/// The mathematical value of a [`TaskPipeline`].
pub struct TaskPipelineView {
    pub request: TaskRequestView,
    pub retries_left: nat,
}

impl View for TaskPipeline {
    type V = TaskPipelineView;

    open spec fn view(&self) -> TaskPipelineView {
        TaskPipelineView { request: self.request@, retries_left: self.retries_left as nat }
    }
}

/// What the caller of a pipeline does next.
#[derive(Debug, Clone, PartialEq, Eq)]
pub enum PipelineStep {
    /// Send the same messages once more.
    Resend,
    /// The model answered: here is its text, untouched.
    Deliver(String),
    /// The model is out of reach: the run cannot go on.
    Abort(GatewayError),
}

/// The mathematical value of a [`PipelineStep`].
pub enum PipelineStepView {
    Resend,
    Deliver(Seq<char>),
    Abort(GatewayError),
}

impl View for PipelineStep {
    type V = PipelineStepView;

    open spec fn view(&self) -> PipelineStepView {
        match self {
            PipelineStep::Resend => PipelineStepView::Resend,
            PipelineStep::Deliver(text) => PipelineStepView::Deliver(text@),
            PipelineStep::Abort(error) => PipelineStepView::Abort(*error),
        }
    }
}

/// The mathematical value of what the gateway reported for one call.
pub open spec fn reply_view(reply: Result<String, GatewayError>) -> Result<Seq<char>, GatewayError> {
    match reply {
        Ok(text) => Ok(text@),
        Err(error) => Err(error),
    }
}

/// The retry policy: an answer is delivered as it is; a failure is retried
/// while attempts are left, and is final after that.
pub open spec fn pipeline_step(
    pipeline: TaskPipelineView,
    reply: Result<Seq<char>, GatewayError>,
) -> (TaskPipelineView, PipelineStepView) {
    match reply {
        Ok(text) => (pipeline, PipelineStepView::Deliver(text)),
        Err(error) => if pipeline.retries_left > 0 {
            (
                TaskPipelineView { retries_left: (pipeline.retries_left - 1) as nat, ..pipeline },
                PipelineStepView::Resend,
            )
        } else {
            (pipeline, PipelineStepView::Abort(error))
        },
    }
}

/// The step that follows a run of failed calls, one after the other.
pub open spec fn step_after_failures(
    pipeline: TaskPipelineView,
    errors: Seq<GatewayError>,
) -> PipelineStepView
    recommends
        errors.len() > 0,
    decreases errors.len(),
{
    if errors.len() <= 1 {
        pipeline_step(pipeline, Err(errors[0])).1
    } else {
        step_after_failures(pipeline_step(pipeline, Err(errors[0])).0, errors.skip(1))
    }
}

/// A pipeline in its first attempt aborts when the gateway fails twice in a
/// row: the first failure is retried, the second is final, and no text is
/// delivered.
pub proof fn lemma_two_failures_abort(
    pipeline: TaskPipelineView,
    first: GatewayError,
    second: GatewayError,
)
    requires
        pipeline.retries_left == MAX_RETRIES,
    ensures
        pipeline_step(pipeline, Err(first)).1 == PipelineStepView::Resend,
        pipeline_step(pipeline_step(pipeline, Err(first)).0, Err(second)).1
            == PipelineStepView::Abort(second),
        step_after_failures(pipeline, seq![first, second]) == PipelineStepView::Abort(second),
{
    let errors = seq![first, second];
    assert(errors.skip(1) =~= seq![second]);
    assert(errors[0] == first);
    assert(errors.skip(1)[0] == second);
    reveal_with_fuel(step_after_failures, 2);
}

/// A pipeline never delivers text that the gateway did not return, and
/// delivers every text that it did return.
pub proof fn lemma_delivery_is_verbatim(
    pipeline: TaskPipelineView,
    reply: Result<Seq<char>, GatewayError>,
)
    ensures
        reply is Ok <==> pipeline_step(pipeline, reply).1 is Deliver,
        reply matches Ok(text) ==> pipeline_step(pipeline, reply).1 == PipelineStepView::Deliver(
            text,
        ),
{
}

/// Prepares a task for the model: extends the prompt and starts a pipeline
/// in its first attempt.
///
/// The two labels are carried along for whoever reports that the call goes
/// out.
pub fn ai_task_request<F: Fn(&str) -> &'static str>(
    msg_context: &str,
    agent_position: &str,
    agent_operation: &str,
    function_pass: F,
) -> (pipeline: TaskPipeline)
    requires
        call_requires(function_pass, (msg_context,)),
    ensures
        pipeline@.retries_left == MAX_RETRIES,
        exists|description: &'static str| #[trigger]
            call_ensures(function_pass, (msg_context,), description) && pipeline@.request
                == task_request_for(
                description@,
                msg_context@,
                agent_position@,
                agent_operation@,
            ),
{
    let message = extend_ai_function(function_pass, msg_context);
    let request = TaskRequest {
        message,
        agent_position: String::from_str(agent_position),
        agent_operation: String::from_str(agent_operation),
    };
    TaskPipeline { request, retries_left: MAX_RETRIES }
}

impl TaskPipeline {
    /// A pipeline in its first attempt.
    pub fn new(request: TaskRequest) -> (pipeline: Self)
        ensures
            pipeline@ == (TaskPipelineView {
                request: request@,
                retries_left: MAX_RETRIES as nat,
            }),
    {
        TaskPipeline { request, retries_left: MAX_RETRIES }
    }

    /// The messages of one call: the extended prompt alone.
    pub fn messages(&self) -> (messages: Vec<Message>)
        ensures
            messages@.len() == 1,
            messages@[0]@ == self@.request.message,
    {
        let mut messages: Vec<Message> = Vec::new();
        messages.push(self.request.message.clone());
        messages
    }

    /// Takes what the gateway reported for the call in flight and says what
    /// to do next, by the retry policy.
    pub fn on_reply(&mut self, reply: Result<String, GatewayError>) -> (step: PipelineStep)
        ensures
            (final(self)@, step@) == pipeline_step(old(self)@, reply_view(reply)),
    {
        match reply {
            Ok(text) => PipelineStep::Deliver(text),
            Err(error) => {
                if self.retries_left > 0 {
                    self.retries_left = self.retries_left - 1;
                    PipelineStep::Resend
                } else {
                    PipelineStep::Abort(error)
                }
            },
        }
    }
}

/// Why a text from the model could not be read as the expected data.
#[derive(Clone, Copy, Debug, PartialEq, Eq, Structural)]
pub enum DecodeError {
    /// The text is not one JSON document.
    InvalidJson,
    /// The document is not of the expected shape.
    UnexpectedShape,
}

/// Why a status check of a URL gave no status code.
#[derive(Clone, Copy, Debug, PartialEq, Eq, Structural)]
pub enum NetworkError {
    /// No answer came within the time allowed.
    Timeout,
    /// No connection could be made.
    Connect,
    /// The exchange failed in some other way.
    Other,
}

/// What the status check of one URL gave: a status code, or the reason why
/// there is none.
#[derive(Debug, PartialEq, Eq)]
pub struct UrlCheck {
    pub url: String,
    pub outcome: Result<u16, NetworkError>,
}

/// The mathematical value of a [`UrlCheck`].
pub struct UrlCheckView {
    pub url: Seq<char>,
    pub outcome: Result<u16, NetworkError>,
}

impl View for UrlCheck {
    type V = UrlCheckView;

    open spec fn view(&self) -> UrlCheckView {
        UrlCheckView { url: self.url@, outcome: self.outcome }
    }
}

impl Clone for UrlCheck {
    fn clone(&self) -> (copy: Self)
        ensures
            copy@ == self@,
    {
        UrlCheck { url: self.url.clone(), outcome: self.outcome }
    }
}

/// The views of a run of checks, in order.
pub open spec fn check_views(checks: Seq<UrlCheck>) -> Seq<UrlCheckView> {
    checks.map_values(|c: UrlCheck| c@)
}

/// The one status code that lets a URL pass.
pub const STATUS_OK: u16 = 200;

/// Whether a check lets its URL pass: only a status of 200 does. Any other
/// status fails it, and so does a check that gave no status.
pub open spec fn check_passed(outcome: Result<u16, NetworkError>) -> bool {
    outcome == Ok::<u16, NetworkError>(STATUS_OK)
}

/// Whether some check of `url` failed.
pub open spec fn is_faulty(url: Seq<char>, checks: Seq<UrlCheckView>) -> bool {
    exists|i: int|
        0 <= i < checks.len() && (#[trigger] checks[i]).url == url && !check_passed(
            checks[i].outcome,
        )
}

/// The URLs that stay after the checks: those of which no check failed, in
/// their old order. A URL that was not checked stays.
pub open spec fn surviving_urls(urls: Seq<Seq<char>>, checks: Seq<UrlCheckView>) -> Seq<
    Seq<char>,
> {
    urls.filter(|url: Seq<char>| !is_faulty(url, checks))
}

/// A URL stays exactly if it was listed and no check of it failed, and the
/// list never grows.
pub proof fn lemma_surviving_urls_exact(
    urls: Seq<Seq<char>>,
    checks: Seq<UrlCheckView>,
    url: Seq<char>,
)
    ensures
        surviving_urls(urls, checks).contains(url) <==> urls.contains(url) && !is_faulty(
            url,
            checks,
        ),
        surviving_urls(urls, checks).len() <= urls.len(),
{
    let keep = |url: Seq<char>| !is_faulty(url, checks);
    let kept = urls.filter(keep);
    urls.lemma_filter_len(keep);
    if kept.contains(url) {
        let i = choose|i: int| 0 <= i < kept.len() && kept[i] == url;
        urls.lemma_filter_pred(keep, i);
        urls.lemma_filter_contains_rev(keep, url);
    }
    if urls.contains(url) && !is_faulty(url, checks) {
        let i = choose|i: int| 0 <= i < urls.len() && urls[i] == url;
        urls.lemma_filter_contains(keep, i);
    }
}

impl UrlCheck {
    /// Whether this check lets its URL pass.
    pub fn passed(&self) -> (passed: bool)
        ensures
            passed == check_passed(self@.outcome),
    {
        match self.outcome {
            Ok(status) => status == STATUS_OK,
            Err(_) => false,
        }
    }
}

/// Says whether some check of `url` failed.
pub fn url_is_faulty(url: &str, checks: &Vec<UrlCheck>) -> (faulty: bool)
    ensures
        faulty == is_faulty(url@, check_views(checks@)),
{
    let wanted = String::from_str(url);
    let mut i: usize = 0;
    while i < checks.len()
        invariant
            i <= checks.len(),
            wanted@ == url@,
            forall|k: int|
                0 <= k < i ==> !((#[trigger] check_views(checks@)[k]).url == url@ && !check_passed(
                    check_views(checks@)[k].outcome,
                )),
        decreases checks.len() - i,
    {
        if checks[i].url == wanted && !checks[i].passed() {
            assert(check_views(checks@)[i as int] == checks@[i as int]@);
            return true;
        }
        assert(check_views(checks@)[i as int] == checks@[i as int]@);
        i = i + 1;
    }
    false
}

/// Drops from `urls` every URL of which some check failed, and keeps the
/// others in their order.
pub fn exclude_faulty_urls(urls: &Vec<String>, checks: &Vec<UrlCheck>) -> (kept: Vec<String>)
    ensures
        kept.deep_view() == surviving_urls(urls.deep_view(), check_views(checks@)),
{
    let ghost listed = urls.deep_view();
    let ghost keep = |url: Seq<char>| !is_faulty(url, check_views(checks@));
    let mut kept: Vec<String> = Vec::new();
    let mut i: usize = 0;
    assert(listed.take(0) =~= Seq::<Seq<char>>::empty());
    assert(kept.deep_view() =~= listed.take(0).filter(keep)) by {
        reveal(Seq::filter);
    }
    while i < urls.len()
        invariant
            i <= urls.len(),
            listed == urls.deep_view(),
            keep == (|url: Seq<char>| !is_faulty(url, check_views(checks@))),
            kept.deep_view() == listed.take(i as int).filter(keep),
        decreases urls.len() - i,
    {
        let ghost before = kept.deep_view();
        let faulty = url_is_faulty(urls[i].as_str(), checks);
        proof {
            assert(listed.take(i as int + 1).drop_last() =~= listed.take(i as int));
            assert(listed.take(i as int + 1).last() == urls@[i as int]@);
            reveal(Seq::filter);
        }
        if !faulty {
            kept.push(urls[i].clone());
            assert(kept.deep_view() =~= before.push(urls@[i as int]@));
        }
        i = i + 1;
    }
    assert(listed.take(urls.len() as int) =~= listed);
    kept
}

/// The project scope that a document states: an object whose three flags
/// are all present as booleans. Other members are ignored.
pub open spec fn project_scope_of(doc: JsonDoc) -> Option<ProjectScope> {
    match (
        doc.bool_field("is_crud_required"@),
        doc.bool_field("is_user_login_and_logout"@),
        doc.bool_field("is_external_urls_required"@),
    ) {
        (Some(crud), Some(login), Some(urls)) => Some(
            ProjectScope {
                is_crud_required: crud,
                is_user_login_and_logout: login,
                is_external_urls_required: urls,
            },
        ),
        _ => None,
    }
}

/// The list of strings that a document states: an array whose elements are
/// all strings.
pub open spec fn url_list_of(doc: JsonDoc) -> Option<Seq<Seq<char>>> {
    match doc.as_items() {
        Some(items) => if forall|i: int| 0 <= i < items.len() ==> (#[trigger] items[i]) is Text {
            Some(items.map_values(|item: JsonDoc| item->Text_0))
        } else {
            None
        },
        None => None,
    }
}

/// What decoding makes of a parsed text, given what the expected shape
/// makes of a document.
pub open spec fn decoded<T>(parsed: Option<JsonDoc>, shape: spec_fn(JsonDoc) -> Option<T>) -> Result<
    T,
    DecodeError,
> {
    match parsed {
        None => Err(DecodeError::InvalidJson),
        Some(doc) => match shape(doc) {
            Some(data) => Ok(data),
            None => Err(DecodeError::UnexpectedShape),
        },
    }
}

/// The project scope that a text from the model states.
pub open spec fn decoded_project_scope(text: Seq<char>) -> Result<ProjectScope, DecodeError> {
    decoded(json_parse(text), |doc: JsonDoc| project_scope_of(doc))
}

/// The list of strings that a text from the model states.
pub open spec fn decoded_url_list(text: Seq<char>) -> Result<Seq<Seq<char>>, DecodeError> {
    decoded(json_parse(text), |doc: JsonDoc| url_list_of(doc))
}

/// An object that gives the three flags as booleans decodes to a scope with
/// exactly those flags, whatever else it holds.
pub proof fn lemma_project_scope_fields_survive(
    fields: Map<Seq<char>, JsonDoc>,
    crud: bool,
    login: bool,
    urls: bool,
)
    requires
        fields.contains_key("is_crud_required"@),
        fields["is_crud_required"@] == JsonDoc::Bool(crud),
        fields.contains_key("is_user_login_and_logout"@),
        fields["is_user_login_and_logout"@] == JsonDoc::Bool(login),
        fields.contains_key("is_external_urls_required"@),
        fields["is_external_urls_required"@] == JsonDoc::Bool(urls),
    ensures
        project_scope_of(JsonDoc::Object(fields)) == Some(
            ProjectScope {
                is_crud_required: crud,
                is_user_login_and_logout: login,
                is_external_urls_required: urls,
            },
        ),
{
}

/// Reads a project scope out of a parsed document.
pub fn project_scope_from_value(value: &Value) -> (scope: Result<ProjectScope, DecodeError>)
    ensures
        scope == decoded(Some(json_doc(*value)), |doc: JsonDoc| project_scope_of(doc)),
{
    let crud = bool_member(value, "is_crud_required");
    let login = bool_member(value, "is_user_login_and_logout");
    let urls = bool_member(value, "is_external_urls_required");
    match (crud, login, urls) {
        (Some(crud), Some(login), Some(urls)) => Ok(
            ProjectScope {
                is_crud_required: crud,
                is_user_login_and_logout: login,
                is_external_urls_required: urls,
            },
        ),
        _ => Err(DecodeError::UnexpectedShape),
    }
}

/// Reads a list of strings out of a parsed document.
pub fn url_list_from_value(value: &Value) -> (urls: Result<Vec<String>, DecodeError>)
    ensures
        match urls {
            Ok(list) => url_list_of(json_doc(*value)) == Some(list.deep_view()),
            Err(error) => error == DecodeError::UnexpectedShape && url_list_of(json_doc(*value))
                is None,
        },
{
    let items = match value_as_array(value) {
        Some(items) => items,
        None => {
            return Err(DecodeError::UnexpectedShape);
        },
    };
    let ghost docs = json_docs(items@);
    let mut list: Vec<String> = Vec::new();
    let mut i: usize = 0;
    while i < items.len()
        invariant
            i <= items.len(),
            docs == json_docs(items@),
            json_doc(*value).as_items() == Some(docs),
            list@.len() == i,
            forall|k: int| 0 <= k < i ==> (#[trigger] docs[k]) == JsonDoc::Text(list@[k]@),
        decreases items.len() - i,
    {
        match value_as_str(&items[i]) {
            Some(text) => {
                list.push(String::from_str(text));
            },
            None => {
                assert(!(docs[i as int] is Text));
                return Err(DecodeError::UnexpectedShape);
            },
        }
        i = i + 1;
    }
    proof {
        assert(list.deep_view() =~= docs.map_values(|item: JsonDoc| item->Text_0));
    }
    Ok(list)
}

/// Decodes a text from the model as a project scope.
///
/// The text must be one JSON document, and that document an object with
/// the three flags as booleans.
pub fn decode_project_scope(text: &str) -> (scope: Result<ProjectScope, DecodeError>)
    ensures
        scope == decoded_project_scope(text@),
{
    match parse_value(text) {
        Ok(value) => project_scope_from_value(&value),
        Err(_) => Err(DecodeError::InvalidJson),
    }
}

/// Decodes a text from the model as a list of strings.
///
/// The text must be one JSON document, and that document an array of
/// strings.
pub fn decode_url_list(text: &str) -> (urls: Result<Vec<String>, DecodeError>)
    ensures
        match urls {
            Ok(list) => decoded_url_list(text@) == Ok::<Seq<Seq<char>>, DecodeError>(
                list.deep_view(),
            ),
            Err(error) => decoded_url_list(text@) == Err::<Seq<Seq<char>>, DecodeError>(error),
        },
{
    match parse_value(text) {
        Ok(value) => url_list_from_value(&value),
        Err(_) => Err(DecodeError::InvalidJson),
    }
}

} // verus!
