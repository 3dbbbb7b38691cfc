//! OpenAI-compatible `/chat/completions` adapter with native tool-calling: the
//! request that is sent and the response that comes back, as plain values. Works
//! against OpenAI, GLM, and most compatible gateways.

use vstd::prelude::*;
use vstd::string::{StrSliceExecFns, StringExecFns};

use crate::error::{ErrorClass, ProviderError, ProviderErrorView};
use crate::json::{json_compact, Json};
use crate::provider::{
    call_views, completion_view, Message, MessageView, ModelRequest, ModelResponse, RequestView,
    ResponseView, ToolCall, ToolCallView, Usage,
};
use crate::text::{optional_text, trim_end_of, trimmed_end};
use crate::tool::{schema_views, ToolSchema, ToolSchemaView};

verus! {

broadcast use vstd::string::group_string_axioms;

/// An OpenAI-compatible chat-completions endpoint.
#[derive(Debug, PartialEq, Eq)]
pub struct OpenAiProvider {
    base_url: String,
    api_key: String,
    model: String,
}

/// What an [`OpenAiProvider`] holds.
pub struct OpenAiView {
    pub base_url: Seq<char>,
    pub api_key: Seq<char>,
    pub model: Seq<char>,
}

impl View for OpenAiProvider {
    type V = OpenAiView;

    closed spec fn view(&self) -> OpenAiView {
        OpenAiView { base_url: self.base_url@, api_key: self.api_key@, model: self.model@ }
    }
}

impl OpenAiProvider {
    /// `base_url` is the API root, e.g. `https://api.openai.com/v1` (trailing
    /// slashes are trimmed).
    pub fn new(base_url: &str, api_key: &str, model: &str) -> (provider: Self)
        ensures
            provider@ == (OpenAiView {
                base_url: trimmed_end(base_url@, '/'),
                api_key: api_key@,
                model: model@,
            }),
    {
        OpenAiProvider {
            base_url: trim_end_of(base_url, '/'),
            api_key: api_key.to_owned(),
            model: model.to_owned(),
        }
    }

    /// Build from settings. Returns `None` if any is unset.
    pub fn from_vars(
        base_url: Option<String>,
        api_key: Option<String>,
        model: Option<String>,
    ) -> (provider: Option<Self>)
        ensures
            provider is Some <==> base_url is Some && api_key is Some && model is Some,
            provider is Some ==> provider->0@ == (OpenAiView {
                base_url: trimmed_end(base_url->0@, '/'),
                api_key: api_key->0@,
                model: model->0@,
            }),
    {
        match (base_url, api_key, model) {
            (Some(base_url), Some(api_key), Some(model)) => Some(
                Self::new(base_url.as_str(), api_key.as_str(), model.as_str()),
            ),
            _ => None,
        }
    }

    /// Where requests are posted.
    pub fn endpoint(&self) -> (url: String)
        ensures
            url@ == self@.base_url + "/chat/completions"@,
    {
        self.base_url.clone().concat("/chat/completions")
    }

    /// The key that requests carry as their bearer token.
    pub fn api_key(&self) -> (key: &str)
        ensures
            key@ == self@.api_key,
    {
        self.api_key.as_str()
    }

    /// The body to post for `request`.
    pub fn body(&self, request: &ModelRequest) -> (body: ChatRequest)
        ensures
            body@ == chat_request(request@, self@.model),
    {
        build_body(request, self.model.as_str())
    }
}

// --- the request on the wire ---

/// The body of a chat-completions request. `tools` is left out where it is empty.
#[derive(Debug, PartialEq, Eq)]
pub struct ChatRequest {
    pub model: String,
    pub messages: Vec<ChatMessage>,
    pub tools: Vec<ChatTool>,
}

/// One message of a request. Fields that are `None` are left out.
#[derive(Debug, PartialEq, Eq)]
pub struct ChatMessage {
    pub role: String,
    pub content: Option<String>,
    pub tool_calls: Option<Vec<ChatToolCallOut>>,
    pub tool_call_id: Option<String>,
}

/// A tool call of an earlier assistant turn; `kind` goes out as `type`.
#[derive(Debug, PartialEq, Eq)]
pub struct ChatToolCallOut {
    pub id: String,
    pub kind: String,
    pub function: FunctionOut,
}

/// The function that a tool call names.
#[derive(Debug, PartialEq, Eq)]
pub struct FunctionOut {
    pub name: String,
    /// OpenAI expects the arguments as a JSON-encoded *string*.
    pub arguments: String,
}

/// A tool that the request advertises; `kind` goes out as `type`.
#[derive(Debug, PartialEq, Eq)]
pub struct ChatTool {
    pub kind: String,
    pub function: ToolFunction,
}

/// The function of an advertised tool.
#[derive(Debug, PartialEq, Eq)]
pub struct ToolFunction {
    pub name: String,
    pub description: String,
    pub parameters: Json,
}

/// What a [`ChatToolCallOut`] says.
pub struct ChatToolCallView {
    pub id: Seq<char>,
    pub kind: Seq<char>,
    pub name: Seq<char>,
    pub arguments: Seq<char>,
}

impl View for ChatToolCallOut {
    type V = ChatToolCallView;

    open spec fn view(&self) -> ChatToolCallView {
        ChatToolCallView {
            id: self.id@,
            kind: self.kind@,
            name: self.function.name@,
            arguments: self.function.arguments@,
        }
    }
}

/// What a [`ChatMessage`] says.
pub struct ChatMessageView {
    pub role: Seq<char>,
    pub content: Option<Seq<char>>,
    pub tool_calls: Option<Seq<ChatToolCallView>>,
    pub tool_call_id: Option<Seq<char>>,
}

impl View for ChatMessage {
    type V = ChatMessageView;

    open spec fn view(&self) -> ChatMessageView {
        ChatMessageView {
            role: self.role@,
            content: optional_text(self.content),
            tool_calls: match self.tool_calls {
                Some(calls) => Some(calls@.map_values(|call: ChatToolCallOut| call@)),
                None => None,
            },
            tool_call_id: optional_text(self.tool_call_id),
        }
    }
}

/// What a [`ChatTool`] says.
pub struct ChatToolView {
    pub kind: Seq<char>,
    pub name: Seq<char>,
    pub description: Seq<char>,
    pub parameters: Seq<char>,
}

impl View for ChatTool {
    type V = ChatToolView;

    open spec fn view(&self) -> ChatToolView {
        ChatToolView {
            kind: self.kind@,
            name: self.function.name@,
            description: self.function.description@,
            parameters: self.function.parameters@,
        }
    }
}

/// What a [`ChatRequest`] says.
pub struct ChatRequestView {
    pub model: Seq<char>,
    pub messages: Seq<ChatMessageView>,
    pub tools: Seq<ChatToolView>,
}

impl View for ChatRequest {
    type V = ChatRequestView;

    open spec fn view(&self) -> ChatRequestView {
        ChatRequestView {
            model: self.model@,
            messages: self.messages@.map_values(|message: ChatMessage| message@),
            tools: self.tools@.map_values(|tool: ChatTool| tool@),
        }
    }
}

/// A tool call on the wire.
pub open spec fn chat_call(call: ToolCallView) -> ChatToolCallView {
    ChatToolCallView {
        id: call.id,
        kind: "function"@,
        name: call.name,
        arguments: call.arguments,
    }
}

/// A message on the wire. An assistant turn without tool calls has none, not an
/// empty list of them.
pub open spec fn chat_message(message: MessageView) -> ChatMessageView {
    match message {
        MessageView::User { content } => ChatMessageView {
            role: "user"@,
            content: Some(content),
            tool_calls: None,
            tool_call_id: None,
        },
        MessageView::Assistant { content, tool_calls } => ChatMessageView {
            role: "assistant"@,
            content,
            tool_calls: if tool_calls.len() > 0 {
                Some(tool_calls.map_values(|call: ToolCallView| chat_call(call)))
            } else {
                None
            },
            tool_call_id: None,
        },
        MessageView::Tool { call_id, content } => ChatMessageView {
            role: "tool"@,
            content: Some(content),
            tool_calls: None,
            tool_call_id: Some(call_id),
        },
    }
}

/// A tool on the wire.
pub open spec fn chat_tool(schema: ToolSchemaView) -> ChatToolView {
    ChatToolView {
        kind: "function"@,
        name: schema.name,
        description: schema.description,
        parameters: schema.parameters,
    }
}

/// The messages that stand before the transcript: the system prompt, where there is
/// one.
pub open spec fn system_messages(system: Seq<char>) -> Seq<ChatMessageView> {
    if system.len() > 0 {
        seq![
            ChatMessageView {
                role: "system"@,
                content: Some(system),
                tool_calls: None,
                tool_call_id: None,
            },
        ]
    } else {
        seq![]
    }
}

/// A request on the wire.
pub open spec fn chat_request(request: RequestView, model: Seq<char>) -> ChatRequestView {
    ChatRequestView {
        model,
        messages: system_messages(request.system) + request.messages.map_values(
            |message: MessageView| chat_message(message),
        ),
        tools: request.tools.map_values(|schema: ToolSchemaView| chat_tool(schema)),
    }
}

fn put_calls(calls: &Vec<ToolCall>) -> (out: Vec<ChatToolCallOut>)
    ensures
        out@.map_values(|call: ChatToolCallOut| call@) == call_views(calls@).map_values(
            |call: ToolCallView| chat_call(call),
        ),
{
    let mut out: Vec<ChatToolCallOut> = Vec::new();
    let mut i: usize = 0;
    while i < calls.len()
        invariant
            i <= calls@.len(),
            out@.len() == i,
            forall|k: int| 0 <= k < i ==> (#[trigger] out@[k])@ == chat_call(calls@[k]@),
        decreases calls@.len() - i,
    {
        let call = &calls[i];
        out.push(
            ChatToolCallOut {
                id: call.id.clone(),
                kind: "function".to_owned(),
                function: FunctionOut {
                    name: call.name.clone(),
                    arguments: call.arguments.text().to_owned(),
                },
            },
        );
        i = i + 1;
    }
    assert(out@.map_values(|call: ChatToolCallOut| call@) =~= call_views(calls@).map_values(
        |call: ToolCallView| chat_call(call),
    ));
    out
}

fn put_message(message: &Message) -> (out: ChatMessage)
    ensures
        out@ == chat_message(message@),
{
    match message {
        Message::User { content } => ChatMessage {
            role: "user".to_owned(),
            content: Some(content.clone()),
            tool_calls: None,
            tool_call_id: None,
        },
        Message::Assistant { content, tool_calls } => ChatMessage {
            role: "assistant".to_owned(),
            content: content.clone(),
            tool_calls: if tool_calls.len() > 0 {
                Some(put_calls(tool_calls))
            } else {
                None
            },
            tool_call_id: None,
        },
        Message::Tool { call_id, content } => ChatMessage {
            role: "tool".to_owned(),
            content: Some(content.clone()),
            tool_calls: None,
            tool_call_id: Some(call_id.clone()),
        },
    }
}

fn put_tools(tools: &Vec<ToolSchema>) -> (out: Vec<ChatTool>)
    ensures
        out@.map_values(|tool: ChatTool| tool@) == schema_views(tools@).map_values(
            |schema: ToolSchemaView| chat_tool(schema),
        ),
{
    let mut out: Vec<ChatTool> = Vec::new();
    let mut i: usize = 0;
    while i < tools.len()
        invariant
            i <= tools@.len(),
            out@.len() == i,
            forall|k: int| 0 <= k < i ==> (#[trigger] out@[k])@ == chat_tool(tools@[k]@),
        decreases tools@.len() - i,
    {
        let schema = &tools[i];
        out.push(
            ChatTool {
                kind: "function".to_owned(),
                function: ToolFunction {
                    name: schema.name.clone(),
                    description: schema.description.clone(),
                    parameters: schema.parameters.clone(),
                },
            },
        );
        i = i + 1;
    }
    assert(out@.map_values(|tool: ChatTool| tool@) =~= schema_views(tools@).map_values(
        |schema: ToolSchemaView| chat_tool(schema),
    ));
    out
}

/// Build the chat-completions request body from a provider-agnostic request.
pub fn build_body(request: &ModelRequest, model: &str) -> (body: ChatRequest)
    ensures
        body@ == chat_request(request@, model@),
{
    let mut messages: Vec<ChatMessage> = Vec::new();
    if request.system.as_str().unicode_len() > 0 {
        messages.push(
            ChatMessage {
                role: "system".to_owned(),
                content: Some(request.system.clone()),
                tool_calls: None,
                tool_call_id: None,
            },
        );
    }
    let ghost front = system_messages(request.system@);
    let mut i: usize = 0;
    while i < request.messages.len()
        invariant
            i <= request.messages@.len(),
            front == system_messages(request.system@),
            messages@.len() == front.len() + i,
            forall|k: int| 0 <= k < front.len() ==> (#[trigger] messages@[k])@ == front[k],
            forall|k: int|
                front.len() <= k < messages@.len() ==> (#[trigger] messages@[k])@ == chat_message(
                    request.messages@[k - front.len()]@,
                ),
        decreases request.messages@.len() - i,
    {
        messages.push(put_message(&request.messages[i]));
        i = i + 1;
    }
    let body = ChatRequest {
        model: model.to_owned(),
        messages,
        tools: put_tools(&request.tools),
    };
    assert(body@.messages =~= chat_request(request@, model@).messages);
    body
}

/// The transcript is sent whole and in order: the system prompt comes first, where
/// there is one, and then each message at its place.
pub proof fn law_transcripts_are_sent_in_order(request: RequestView, model: Seq<char>, i: int)
    requires
        0 <= i < request.messages.len(),
    ensures
        ({
            let sent = chat_request(request, model).messages;
            let front: int = if request.system.len() > 0 {
                1
            } else {
                0
            };
            &&& sent.len() == front + request.messages.len()
            &&& front == 1 ==> sent[0].content == Some(request.system)
            &&& sent[front + i] == chat_message(request.messages[i])
        }),
{
}

// --- the response on the wire ---

/// The body of a chat-completions response. Missing fields are empty or `None`.
#[derive(Debug, PartialEq, Eq)]
pub struct ChatResponse {
    pub choices: Vec<Choice>,
    pub usage: Option<UsageIn>,
}

/// One of the answers in a response.
#[derive(Debug, PartialEq, Eq)]
pub struct Choice {
    pub message: ChoiceMessage,
}

/// The message of an answer.
#[derive(Debug, PartialEq, Eq)]
pub struct ChoiceMessage {
    pub content: Option<String>,
    pub tool_calls: Vec<ToolCallIn>,
}

/// A tool call in an answer.
#[derive(Debug, PartialEq, Eq)]
pub struct ToolCallIn {
    pub id: String,
    pub function: FunctionIn,
}

/// The function that a tool call names, with its arguments as JSON text.
#[derive(Debug, PartialEq, Eq)]
pub struct FunctionIn {
    pub name: String,
    pub arguments: String,
}

/// Token counts of a response. A missing count is zero.
#[derive(Debug, Clone, Copy, PartialEq, Eq, Structural)]
pub struct UsageIn {
    pub prompt_tokens: u64,
    pub completion_tokens: u64,
}

/// The arguments of a tool call: the JSON value that their text denotes, or `null`
/// where it denotes none.
pub open spec fn read_arguments(text: Seq<char>) -> Seq<char> {
    match json_compact(text) {
        Some(compact) => compact,
        None => Json::null_text(),
    }
}

/// A tool call as the mind gets it. Arguments that denote no JSON value are marked as
/// unreadable.
pub open spec fn read_call(call: ToolCallIn) -> ToolCallView {
    ToolCallView {
        id: call.id@,
        name: call.function.name@,
        arguments: read_arguments(call.function.arguments@),
        readable: json_compact(call.function.arguments@) is Some,
    }
}

/// What a response body amounts to: its first choice and its token counts. A body
/// that could not be read and a body without choices are decoding errors.
pub open spec fn read_response(parsed: Result<ChatResponse, String>) -> Result<
    ResponseView,
    ProviderErrorView,
> {
    match parsed {
        Err(why) => Err(ProviderErrorView::Decode(why@)),
        Ok(response) => if response.choices@.len() == 0 {
            Err(ProviderErrorView::Decode("response had no choices"@))
        } else {
            let message = response.choices@[0].message;
            Ok(
                ResponseView {
                    text: optional_text(message.content),
                    tool_calls: message.tool_calls@.map_values(|call: ToolCallIn| read_call(call)),
                    usage: match response.usage {
                        Some(usage) => Usage {
                            input_tokens: usage.prompt_tokens,
                            output_tokens: usage.completion_tokens,
                        },
                        None => Usage { input_tokens: 0, output_tokens: 0 },
                    },
                },
            )
        },
    }
}

fn take_calls(calls: &Vec<ToolCallIn>) -> (taken: Vec<ToolCall>)
    ensures
        call_views(taken@) == calls@.map_values(|call: ToolCallIn| read_call(call)),
{
    let mut taken: Vec<ToolCall> = Vec::new();
    let mut i: usize = 0;
    while i < calls.len()
        invariant
            i <= calls@.len(),
            taken@.len() == i,
            forall|k: int| 0 <= k < i ==> (#[trigger] taken@[k])@ == read_call(calls@[k]),
        decreases calls@.len() - i,
    {
        let call = &calls[i];
        let (arguments, readable) = match Json::parse(call.function.arguments.as_str()) {
            Some(value) => (value, true),
            None => (Json::null(), false),
        };
        taken.push(
            ToolCall { id: call.id.clone(), name: call.function.name.clone(), arguments, readable },
        );
        i = i + 1;
    }
    assert(call_views(taken@) =~= calls@.map_values(|call: ToolCallIn| read_call(call)));
    taken
}

/// Turn a chat-completions response body into a provider-agnostic response. `parsed`
/// is the body, or why it could not be read.
pub fn parse_response(parsed: Result<ChatResponse, String>) -> (result: Result<
    ModelResponse,
    ProviderError,
>)
    ensures
        completion_view(result) == read_response(parsed),
        parsed matches Err(why) ==> (result matches Err(error) && error@
            == ProviderErrorView::Decode(why@)),
        parsed matches Ok(body) ==> (result is Ok <==> body.choices@.len() > 0),
        (parsed matches Ok(body) && result matches Ok(response)) ==> ({
            let message = parsed->Ok_0.choices@[0].message;
            let response = result->Ok_0;
            &&& response.text is Some <==> message.content is Some
            &&& message.content is Some ==> response.text->0@ == message.content->0@
            &&& response.tool_calls@.len() == message.tool_calls@.len()
            &&& forall|i: int|
                0 <= i < message.tool_calls@.len() ==> {
                    &&& (#[trigger] response.tool_calls@[i]).id@ == message.tool_calls@[i].id@
                    &&& response.tool_calls@[i].name@ == message.tool_calls@[i].function.name@
                }
        }),
{
    match parsed {
        Err(why) => Err(ProviderError::Decode(why)),
        Ok(response) => {
            if response.choices.len() == 0 {
                return Err(ProviderError::Decode("response had no choices".to_owned()));
            }
            let message = &response.choices[0].message;
            let ghost calls = message.tool_calls@;
            let usage = match response.usage {
                Some(usage) => Usage {
                    input_tokens: usage.prompt_tokens,
                    output_tokens: usage.completion_tokens,
                },
                None => Usage::default(),
            };
            let tool_calls = take_calls(&message.tool_calls);
            proof {
                assert(call_views(tool_calls@).len() == calls.len());
                assert forall|i: int| 0 <= i < calls.len() implies {
                    &&& (#[trigger] tool_calls@[i]).id@ == calls[i].id@
                    &&& tool_calls@[i].name@ == calls[i].function.name@
                } by {
                    assert(call_views(tool_calls@)[i] == read_call(calls[i]));
                    assert(call_views(tool_calls@)[i] == tool_calls@[i]@);
                }
            }
            Ok(ModelResponse { text: message.content.clone(), tool_calls, usage })
        },
    }
}

/// What an answer with this status and body amounts to.
pub open spec fn acceptance(status: u16, body: Seq<char>) -> Result<Seq<char>, ProviderErrorView> {
    if 200 <= status <= 299 {
        Ok(body)
    } else {
        Err(ProviderErrorView::Api { status, body })
    }
}

/// Every status from 200 to 299 gives the body as it is, and no other does: the error
/// then carries the status and the body.
pub proof fn law_success_statuses_give_the_body(status: u16, body: Seq<char>)
    ensures
        acceptance(status, body) is Ok <==> 200 <= status <= 299,
        200 <= status <= 299 ==> acceptance(status, body) == Ok::<Seq<char>, ProviderErrorView>(
            body,
        ),
        !(200 <= status <= 299) ==> acceptance(status, body) == Err::<
            Seq<char>,
            ProviderErrorView,
        >(ProviderErrorView::Api { status, body }),
{
}

/// The body of an answer with a success status (200 to 299). Any other status is an
/// error that carries it.
pub fn accept(status: u16, body: String) -> (accepted: Result<String, ProviderError>)
    ensures
        accepted is Ok <==> acceptance(status, body@) is Ok,
        accepted matches Ok(same) ==> acceptance(status, body@) == Ok::<
            Seq<char>,
            ProviderErrorView,
        >(same@),
        accepted matches Err(error) ==> acceptance(status, body@) == Err::<
            Seq<char>,
            ProviderErrorView,
        >(error@),
        200 <= status <= 299 ==> (accepted matches Ok(same) && same@ == body@),
        !(200 <= status <= 299) ==> (accepted matches Err(error) && error@ == (
        ProviderErrorView::Api { status, body: body@ })),
{
    if 200 <= status && status <= 299 {
        Ok(body)
    } else {
        Err(ProviderError::Api { status, body })
    }
}

/// Every message goes out with its own content, under the role of who said it: what
/// the user said, what the assistant said and called, and what a tool answered to
/// which call.
pub proof fn law_messages_keep_their_content(request: RequestView, model: Seq<char>, i: int)
    requires
        0 <= i < request.messages.len(),
    ensures
        ({
            let front: int = if request.system.len() > 0 {
                1
            } else {
                0
            };
            let sent = chat_request(request, model).messages[front + i];
            match request.messages[i] {
                MessageView::User { content } => {
                    &&& sent.role == "user"@
                    &&& sent.content == Some(content)
                    &&& sent.tool_calls is None
                    &&& sent.tool_call_id is None
                },
                MessageView::Assistant { content, .. } => {
                    &&& sent.role == "assistant"@
                    &&& sent.content == content
                    &&& sent.tool_call_id is None
                },
                MessageView::Tool { call_id, content } => {
                    &&& sent.role == "tool"@
                    &&& sent.content == Some(content)
                    &&& sent.tool_calls is None
                    &&& sent.tool_call_id == Some(call_id)
                },
            }
        }),
{
}

/// The calls of an assistant turn go out with it, each with its own id, name and
/// arguments; a turn without calls has no list of them.
pub proof fn law_calls_are_sent_with_their_turn(
    request: RequestView,
    model: Seq<char>,
    i: int,
    content: Option<Seq<char>>,
    calls: Seq<ToolCallView>,
)
    requires
        0 <= i < request.messages.len(),
        request.messages[i] == (MessageView::Assistant { content, tool_calls: calls }),
    ensures
        ({
            let front: int = if request.system.len() > 0 {
                1
            } else {
                0
            };
            let sent = chat_request(request, model).messages[front + i].tool_calls;
            &&& sent is Some <==> calls.len() > 0
            &&& sent is Some ==> sent->0.len() == calls.len()
            &&& sent is Some ==> forall|k: int|
                0 <= k < calls.len() ==> {
                    &&& (#[trigger] sent->0[k]).id == calls[k].id
                    &&& sent->0[k].name == calls[k].name
                    &&& sent->0[k].arguments == calls[k].arguments
                    &&& sent->0[k].kind == "function"@
                }
        }),
{
}

/// A request names the model, puts the system prompt first under its role, and
/// advertises every tool as the tool describes itself.
pub proof fn law_requests_name_the_model_and_the_tools(request: RequestView, model: Seq<char>)
    ensures
        ({
            let sent = chat_request(request, model);
            &&& sent.model == model
            &&& request.system.len() > 0 ==> {
                &&& sent.messages[0].role == "system"@
                &&& sent.messages[0].content == Some(request.system)
                &&& sent.messages[0].tool_calls is None
                &&& sent.messages[0].tool_call_id is None
            }
            &&& sent.tools.len() == request.tools.len()
            &&& forall|k: int|
                0 <= k < request.tools.len() ==> {
                    &&& (#[trigger] sent.tools[k]).name == request.tools[k].name
                    &&& sent.tools[k].description == request.tools[k].description
                    &&& sent.tools[k].parameters == request.tools[k].parameters
                    &&& sent.tools[k].kind == "function"@
                }
        }),
{
}

/// The views of a request on the wire keep everything that goes out.
pub proof fn law_wire_views(
    call: ChatToolCallOut,
    message: ChatMessage,
    tool: ChatTool,
    request: ChatRequest,
)
    ensures
        call@.id == call.id@,
        call@.kind == call.kind@,
        call@.name == call.function.name@,
        call@.arguments == call.function.arguments@,
        message@.role == message.role@,
        message@.content == optional_text(message.content),
        message@.tool_call_id == optional_text(message.tool_call_id),
        message@.tool_calls is Some <==> message.tool_calls is Some,
        message.tool_calls matches Some(calls) ==> {
            &&& message@.tool_calls->0.len() == calls@.len()
            &&& forall|i: int|
                0 <= i < calls@.len() ==> #[trigger] message@.tool_calls->0[i] == calls@[i]@
        },
        tool@.kind == tool.kind@,
        tool@.name == tool.function.name@,
        tool@.description == tool.function.description@,
        tool@.parameters == tool.function.parameters@,
        request@.model == request.model@,
        request@.messages.len() == request.messages@.len(),
        forall|i: int|
            0 <= i < request.messages@.len() ==> #[trigger] request@.messages[i]
                == request.messages@[i]@,
        request@.tools.len() == request.tools@.len(),
        forall|i: int|
            0 <= i < request.tools@.len() ==> #[trigger] request@.tools[i] == request.tools@[i]@,
{
}

/// What comes back is the first choice: its text, and its calls in order, each with
/// its own id, the name of its function, and the JSON value of its arguments. Other
/// choices do not count.
pub proof fn law_the_first_choice_is_read(parsed: ChatResponse, i: int)
    requires
        parsed.choices@.len() > 0,
    ensures
        ({
            let message = parsed.choices@[0].message;
            let calls = message.tool_calls@;
            read_response(Ok(parsed)) matches Ok(response) && {
                &&& response.text is Some <==> message.content is Some
                &&& message.content is Some ==> response.text->0 == message.content->0@
                &&& response.tool_calls.len() == calls.len()
                &&& 0 <= i < calls.len() ==> {
                    &&& response.tool_calls[i].id == calls[i].id@
                    &&& response.tool_calls[i].name == calls[i].function.name@
                    &&& match json_compact(calls[i].function.arguments@) {
                        Some(value) => response.tool_calls[i].readable
                            && response.tool_calls[i].arguments == value,
                        None => !response.tool_calls[i].readable
                            && response.tool_calls[i].arguments == "null"@,
                    }
                }
            }
        }),
{
}

/// Token counts are read as they are, each on its side, and count as zero where they
/// are missing.
pub proof fn law_token_counts_are_read(parsed: ChatResponse)
    requires
        parsed.choices@.len() > 0,
    ensures
        read_response(Ok(parsed)) matches Ok(response) && match parsed.usage {
            Some(usage) => response.usage.input_tokens == usage.prompt_tokens
                && response.usage.output_tokens == usage.completion_tokens,
            None => response.usage.input_tokens == 0 && response.usage.output_tokens == 0,
        },
{
}

/// A body that cannot be read, or that has no choice, is a decoding error, which is
/// tried again; every other body is a response.
pub proof fn law_unreadable_bodies_are_decoding_errors(parsed: Result<ChatResponse, String>)
    ensures
        parsed matches Err(why) ==> read_response(parsed) == Err::<ResponseView, ProviderErrorView>(
            ProviderErrorView::Decode(why@),
        ),
        parsed matches Ok(body) ==> (read_response(parsed) is Ok <==> body.choices@.len() > 0),
        read_response(parsed) is Err ==> read_response(parsed)->Err_0.class()
            == ErrorClass::Transient,
{
}

} // verus!
