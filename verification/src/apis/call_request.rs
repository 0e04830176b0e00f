use crate::helpers::json::{
    json_doc, json_docs, json_parse, parse_value, text_member, value_as_array, value_field,
    JsonDoc,
};
use crate::models::general::llm::{
    message_views, APIChoice, APIResponse, ChatCompletion, ChatCompletionView, Message,
    MessageView, Role,
};
use serde_json::Value;
use vstd::prelude::*;

verus! {

/// Why a call to the model gave no text.
#[derive(Clone, Copy, Debug, PartialEq, Eq, Structural)]
pub enum GatewayError {
    /// The request did not get through, or no answer came back.
    Network,
    /// The endpoint refused the credentials.
    Auth,
    /// The answer was not a response with at least one choice.
    Decode,
}

/// The one model that requests are made to.
pub const MODEL_NAME: &'static str = "gpt-3.5-turbo";

/// The sampling temperature of every request, in thousandths: low, so that
/// the same prompt tends to give the same answer.
pub const TEMPERATURE_MILLI: u16 = 100;

/// Builds the request that carries `messages` to the model.
pub fn chat_completion(messages: Vec<Message>) -> (request: ChatCompletion)
    ensures
        request@ == (ChatCompletionView {
            model: MODEL_NAME@,
            messages: message_views(messages@),
            temperature_milli: TEMPERATURE_MILLI as nat,
        }),
        request.well_formed(),
{
    ChatCompletion {
        model: String::from_str(MODEL_NAME),
        messages,
        temperature_milli: TEMPERATURE_MILLI,
    }
}

/// The message that a document states: an object with a role, by its wire
/// name, and a content, both strings.
pub open spec fn message_of(doc: JsonDoc) -> Option<MessageView> {
    match (doc.text_field("role"@), doc.text_field("content"@)) {
        (Some(name), Some(content)) => match Role::of_wire_name(name) {
            Some(role) => Some(MessageView { role, content }),
            None => None,
        },
        _ => None,
    }
}

/// The message of the choice that a document states: an object with a
/// message.
pub open spec fn choice_of(doc: JsonDoc) -> Option<MessageView> {
    match doc.field("message"@) {
        Some(message) => message_of(message),
        None => None,
    }
}

/// The messages of the choices that a response document states: an object
/// with an array of choices, every one of them well formed.
pub open spec fn api_response_of(doc: JsonDoc) -> Option<Seq<MessageView>> {
    match doc.field("choices"@) {
        Some(choices) => match choices.as_items() {
            Some(items) => if forall|i: int|
                0 <= i < items.len() ==> choice_of(#[trigger] items[i]) is Some {
                Some(items.map_values(|item: JsonDoc| choice_of(item)->0))
            } else {
                None
            },
            None => None,
        },
        None => None,
    }
}

/// The text that a response gives: the content of its first choice. A
/// response without choices gives none.
pub open spec fn first_choice(choices: Seq<MessageView>) -> Result<Seq<char>, GatewayError> {
    if choices.len() > 0 {
        Ok(choices[0].content)
    } else {
        Err(GatewayError::Decode)
    }
}

/// The response that a body states, if it is one JSON document of the
/// shape of a response.
pub open spec fn decoded_api_response(body: Seq<char>) -> Option<Seq<MessageView>> {
    match json_parse(body) {
        Some(doc) => api_response_of(doc),
        None => None,
    }
}

/// The text that a response body gives.
pub open spec fn response_text_of(body: Seq<char>) -> Result<Seq<char>, GatewayError> {
    match decoded_api_response(body) {
        Some(choices) => first_choice(choices),
        None => Err(GatewayError::Decode),
    }
}

/// Reads a message out of a parsed document.
pub fn message_from_value(value: &Value) -> (message: Option<Message>)
    ensures
        match message {
            Some(found) => message_of(json_doc(*value)) == Some(found@),
            None => message_of(json_doc(*value)) is None,
        },
{
    let name = match text_member(value, "role") {
        Some(name) => name,
        None => {
            return None;
        },
    };
    let content = match text_member(value, "content") {
        Some(content) => content,
        None => {
            return None;
        },
    };
    match Role::from_name(name) {
        Some(role) => Some(Message { role, content: String::from_str(content) }),
        None => None,
    }
}

/// Reads a response out of a parsed document.
pub fn api_response_from_value(value: &Value) -> (response: Result<APIResponse, GatewayError>)
    ensures
        match response {
            Ok(found) => api_response_of(json_doc(*value)) == Some(found@),
            Err(error) => error == GatewayError::Decode && api_response_of(json_doc(*value))
                is None,
        },
{
    let choices = match value_field(value, "choices") {
        Some(choices) => choices,
        None => {
            return Err(GatewayError::Decode);
        },
    };
    let items = match value_as_array(choices) {
        Some(items) => items,
        None => {
            return Err(GatewayError::Decode);
        },
    };
    let ghost docs = json_docs(items@);
    let mut read: Vec<APIChoice> = Vec::new();
    let mut i: usize = 0;
    while i < items.len()
        invariant
            i <= items.len(),
            docs == json_docs(items@),
            json_doc(*value).field("choices"@) == Some(json_doc(*choices)),
            json_doc(*choices).as_items() == Some(docs),
            read@.len() == i,
            forall|k: int| 0 <= k < i ==> choice_of(#[trigger] docs[k]) == Some(read@[k].message@),
        decreases items.len() - i,
    {
        let message = match value_field(&items[i], "message") {
            Some(inner) => message_from_value(inner),
            None => None,
        };
        match message {
            Some(found) => {
                read.push(APIChoice { message: found });
            },
            None => {
                assert(choice_of(docs[i as int]) is None);
                return Err(GatewayError::Decode);
            },
        }
        i = i + 1;
    }
    let response = APIResponse { choices: read };
    proof {
        assert(response@ =~= docs.map_values(|item: JsonDoc| choice_of(item)->0));
    }
    Ok(response)
}

/// Decodes the body of an answer as a response.
pub fn decode_api_response(body: &str) -> (response: Result<APIResponse, GatewayError>)
    ensures
        match response {
            Ok(found) => decoded_api_response(body@) == Some(found@),
            Err(error) => error == GatewayError::Decode && decoded_api_response(body@) is None,
        },
{
    match parse_value(body) {
        Ok(value) => api_response_from_value(&value),
        Err(_) => Err(GatewayError::Decode),
    }
}

/// Picks the text of a response: the content of the first choice, as it
/// is. A response without choices is a decode error.
pub fn first_choice_content(response: &APIResponse) -> (text: Result<String, GatewayError>)
    ensures
        match text {
            Ok(found) => first_choice(response@) == Ok::<Seq<char>, GatewayError>(found@),
            Err(error) => first_choice(response@) == Err::<Seq<char>, GatewayError>(error),
        },
{
    if response.choices.len() > 0 {
        Ok(response.choices[0].message.content.clone())
    } else {
        Err(GatewayError::Decode)
    }
}

/// Reads the model's text out of the body of an answer.
///
/// The body must be one JSON document of the shape of a response, with at
/// least one choice; anything else is a decode error.
pub fn response_text(body: &str) -> (text: Result<String, GatewayError>)
    ensures
        match text {
            Ok(found) => response_text_of(body@) == Ok::<Seq<char>, GatewayError>(found@),
            Err(error) => response_text_of(body@) == Err::<Seq<char>, GatewayError>(error),
        },
{
    match decode_api_response(body) {
        Ok(response) => first_choice_content(&response),
        Err(error) => Err(error),
    }
}

} // verus!
