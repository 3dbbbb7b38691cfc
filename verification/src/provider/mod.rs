//! The model provider boundary: provider-agnostic requests and responses. Concrete
//! adapters (OpenAI-compatible, fake) live in submodules.

use vstd::prelude::*;

use crate::error::{ProviderError, ProviderErrorView};
use crate::json::Json;
use crate::text::optional_text;
use crate::tool::{clone_schemas, schema_views, ToolSchema, ToolSchemaView};

pub mod fake;
pub mod openai;

verus! {

broadcast use vstd::string::group_string_axioms;

/// A request from the model to invoke a tool. `arguments` is already parsed JSON.
#[derive(Debug, PartialEq, Eq)]
pub struct ToolCall {
    pub id: String,
    pub name: String,
    pub arguments: Json,
    /// Whether the arguments that the model gave could be read. Where they could not,
    /// `arguments` is `null`.
    pub readable: bool,
}

/// What a [`ToolCall`] says.
pub struct ToolCallView {
    pub id: Seq<char>,
    pub name: Seq<char>,
    pub arguments: Seq<char>,
    pub readable: bool,
}

impl View for ToolCall {
    type V = ToolCallView;

    open spec fn view(&self) -> ToolCallView {
        ToolCallView {
            id: self.id@,
            name: self.name@,
            arguments: self.arguments@,
            readable: self.readable,
        }
    }
}

impl Clone for ToolCall {
    fn clone(&self) -> (copy: Self)
        ensures
            copy@ == self@,
    {
        ToolCall {
            id: self.id.clone(),
            name: self.name.clone(),
            arguments: self.arguments.clone(),
            readable: self.readable,
        }
    }
}

/// What a sequence of tool calls says.
pub open spec fn call_views(calls: Seq<ToolCall>) -> Seq<ToolCallView> {
    calls.map_values(|call: ToolCall| call@)
}

/// A copy of `calls`.
pub fn clone_calls(calls: &Vec<ToolCall>) -> (copy: Vec<ToolCall>)
    ensures
        call_views(copy@) == call_views(calls@),
{
    let copy = calls.clone();
    assert(call_views(copy@) =~= call_views(calls@));
    copy
}

/// One message in the transcript sent to the model.
#[derive(Debug, PartialEq, Eq)]
pub enum Message {
    /// A user/goal message.
    User { content: String },
    /// An assistant turn that may carry text and/or tool-call requests.
    Assistant { content: Option<String>, tool_calls: Vec<ToolCall> },
    /// A tool result, keyed back to the call that produced it.
    Tool { call_id: String, content: String },
}

/// What a [`Message`] says.
pub enum MessageView {
    User { content: Seq<char> },
    Assistant { content: Option<Seq<char>>, tool_calls: Seq<ToolCallView> },
    Tool { call_id: Seq<char>, content: Seq<char> },
}

impl View for Message {
    type V = MessageView;

    open spec fn view(&self) -> MessageView {
        match self {
            Message::User { content } => MessageView::User { content: content@ },
            Message::Assistant { content, tool_calls } => MessageView::Assistant {
                content: optional_text(*content),
                tool_calls: call_views(tool_calls@),
            },
            Message::Tool { call_id, content } => MessageView::Tool {
                call_id: call_id@,
                content: content@,
            },
        }
    }
}

impl Clone for Message {
    fn clone(&self) -> (copy: Self)
        ensures
            copy@ == self@,
    {
        match self {
            Message::User { content } => Message::User { content: content.clone() },
            Message::Assistant { content, tool_calls } => Message::Assistant {
                content: content.clone(),
                tool_calls: clone_calls(tool_calls),
            },
            Message::Tool { call_id, content } => Message::Tool {
                call_id: call_id.clone(),
                content: content.clone(),
            },
        }
    }
}

/// What a sequence of messages says.
pub open spec fn message_views(messages: Seq<Message>) -> Seq<MessageView> {
    messages.map_values(|message: Message| message@)
}

/// A copy of `messages`.
pub fn clone_messages(messages: &Vec<Message>) -> (copy: Vec<Message>)
    ensures
        message_views(copy@) == message_views(messages@),
{
    let copy = messages.clone();
    assert(message_views(copy@) =~= message_views(messages@));
    copy
}

/// A full, stateless request to the model — rebuilt from memory each turn.
#[derive(Debug, PartialEq, Eq)]
pub struct ModelRequest {
    pub system: String,
    pub messages: Vec<Message>,
    pub tools: Vec<ToolSchema>,
}

/// What a [`ModelRequest`] says.
pub struct RequestView {
    pub system: Seq<char>,
    pub messages: Seq<MessageView>,
    pub tools: Seq<ToolSchemaView>,
}

impl View for ModelRequest {
    type V = RequestView;

    open spec fn view(&self) -> RequestView {
        RequestView {
            system: self.system@,
            messages: message_views(self.messages@),
            tools: schema_views(self.tools@),
        }
    }
}

impl Clone for ModelRequest {
    fn clone(&self) -> (copy: Self)
        ensures
            copy@ == self@,
    {
        ModelRequest {
            system: self.system.clone(),
            messages: clone_messages(&self.messages),
            tools: clone_schemas(self.tools.as_slice()),
        }
    }
}

/// Token usage for one completion.
#[derive(Debug, Clone, Copy, PartialEq, Eq, Structural)]
pub struct Usage {
    pub input_tokens: u64,
    pub output_tokens: u64,
}

impl Default for Usage {
    fn default() -> (usage: Self)
        ensures
            usage == (Usage { input_tokens: 0, output_tokens: 0 }),
    {
        Usage { input_tokens: 0, output_tokens: 0 }
    }
}

impl Usage {
    /// All tokens of the completion.
    pub open spec fn sum(self) -> nat {
        (self.input_tokens + self.output_tokens) as nat
    }

    /// All tokens of the completion. Their number must fit 64 bits.
    pub fn total(&self) -> (total: u64)
        requires
            self.sum() <= u64::MAX,
        ensures
            total == self.sum(),
    {
        self.input_tokens + self.output_tokens
    }
}

/// What the model returned: free text, tool-call requests, and token usage.
#[derive(Debug, PartialEq, Eq)]
pub struct ModelResponse {
    pub text: Option<String>,
    pub tool_calls: Vec<ToolCall>,
    pub usage: Usage,
}

/// What a [`ModelResponse`] says.
pub struct ResponseView {
    pub text: Option<Seq<char>>,
    pub tool_calls: Seq<ToolCallView>,
    pub usage: Usage,
}

impl View for ModelResponse {
    type V = ResponseView;

    open spec fn view(&self) -> ResponseView {
        ResponseView {
            text: optional_text(self.text),
            tool_calls: call_views(self.tool_calls@),
            usage: self.usage,
        }
    }
}

impl Clone for ModelResponse {
    fn clone(&self) -> (copy: Self)
        ensures
            copy@ == self@,
    {
        ModelResponse {
            text: self.text.clone(),
            tool_calls: clone_calls(&self.tool_calls),
            usage: self.usage,
        }
    }
}

impl ModelResponse {
    /// A plain text completion (no tool calls).
    pub fn text(message: &str) -> (response: Self)
        ensures
            response@ == (ResponseView {
                text: Some(message@),
                tool_calls: seq![],
                usage: Usage { input_tokens: 0, output_tokens: 0 },
            }),
    {
        let response = ModelResponse {
            text: Some(message.to_owned()),
            tool_calls: Vec::new(),
            usage: Usage::default(),
        };
        assert(response@.tool_calls =~= seq![]);
        response
    }

    /// A single tool-call completion.
    pub fn tool_call(id: &str, name: &str, arguments: Json) -> (response: Self)
        ensures
            response@ == (ResponseView {
                text: None,
                tool_calls: seq![
                    ToolCallView { id: id@, name: name@, arguments: arguments@, readable: true },
                ],
                usage: Usage { input_tokens: 0, output_tokens: 0 },
            }),
    {
        let mut tool_calls: Vec<ToolCall> = Vec::new();
        tool_calls.push(
            ToolCall { id: id.to_owned(), name: name.to_owned(), arguments, readable: true },
        );
        assert(call_views(tool_calls@) =~= seq![
            ToolCallView { id: id@, name: name@, arguments: arguments@, readable: true },
        ]);
        ModelResponse { text: None, tool_calls, usage: Usage::default() }
    }

    /// Attach token usage (builder style).
    pub fn with_usage(self, input_tokens: u64, output_tokens: u64) -> (response: Self)
        ensures
            response@ == (ResponseView { usage: Usage { input_tokens, output_tokens }, ..self@ }),
    {
        ModelResponse {
            text: self.text,
            tool_calls: self.tool_calls,
            usage: Usage { input_tokens, output_tokens },
        }
    }
}

/// What the result of a completion says.
pub open spec fn completion_view(result: Result<ModelResponse, ProviderError>) -> Result<
    ResponseView,
    ProviderErrorView,
> {
    match result {
        Ok(response) => Ok(response@),
        Err(error) => Err(error@),
    }
}

/// The views of what goes to and comes from a provider keep everything that it holds.
pub proof fn law_provider_views(
    call: ToolCall,
    calls: Seq<ToolCall>,
    message: Message,
    messages: Seq<Message>,
    request: ModelRequest,
    response: ModelResponse,
)
    ensures
        call@.id == call.id@,
        call@.name == call.name@,
        call@.arguments == call.arguments@,
        call@.readable == call.readable,
        call_views(calls).len() == calls.len(),
        forall|i: int| 0 <= i < calls.len() ==> #[trigger] call_views(calls)[i] == calls[i]@,
        message matches Message::User { content } ==> message@ == (MessageView::User {
            content: content@,
        }),
        message matches Message::Assistant { content: Some(content), tool_calls } ==> message@ == (
        MessageView::Assistant {
            content: Some(content@),
            tool_calls: call_views(tool_calls@),
        }),
        message matches Message::Assistant { content: None, tool_calls } ==> message@ == (
        MessageView::Assistant { content: None, tool_calls: call_views(tool_calls@) }),
        message matches Message::Tool { call_id, content } ==> message@ == (MessageView::Tool {
            call_id: call_id@,
            content: content@,
        }),
        message_views(messages).len() == messages.len(),
        forall|i: int|
            0 <= i < messages.len() ==> #[trigger] message_views(messages)[i] == messages[i]@,
        request@.system == request.system@,
        request@.messages == message_views(request.messages@),
        request@.tools == schema_views(request.tools@),
        response@.text is Some <==> response.text is Some,
        response.text matches Some(text) ==> response@.text == Some(text@),
        response@.tool_calls == call_views(response.tool_calls@),
        response@.usage == response.usage,
{
}

/// All tokens count: those that went in and those that came out.
pub proof fn law_usage_counts_both_ways(input_tokens: u64, output_tokens: u64)
    ensures
        (Usage { input_tokens, output_tokens }).sum() == input_tokens as nat + output_tokens as nat,
{
}

/// A completion is what came back, a response or an error.
pub proof fn law_completion_views(result: Result<ModelResponse, ProviderError>)
    ensures
        result matches Ok(response) ==> completion_view(result) == Ok::<
            ResponseView,
            ProviderErrorView,
        >(response@),
        result matches Err(error) ==> completion_view(result) == Err::<
            ResponseView,
            ProviderErrorView,
        >(error@),
{
}

} // verus!
