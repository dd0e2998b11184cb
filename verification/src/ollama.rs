//! The records exchanged with the local inference server.

use vstd::prelude::*;
use vstd::string::*;

verus! {

/// What a `Model` stands for in contracts.
pub ghost struct ModelView {
    pub name: Seq<char>,
    pub model: Seq<char>,
    pub size: i64,
    pub digest: Seq<char>,
    pub modified_at: Option<Seq<char>>,
}

/// An installed model, as the server lists it.
#[derive(Debug)]
pub struct Model {
    pub name: String,
    pub model: String,
    pub size: i64,
    pub digest: String,
    pub modified_at: Option<String>,
}

impl View for Model {
    type V = ModelView;

    open spec fn view(&self) -> ModelView {
        ModelView {
            name: self.name@,
            model: self.model@,
            size: self.size,
            digest: self.digest@,
            modified_at: match self.modified_at {
                Some(t) => Some(t@),
                None => None,
            },
        }
    }
}

impl Clone for Model {
    fn clone(&self) -> (copy: Self)
        ensures
            copy@ == self@,
    {
        let modified_at = match &self.modified_at {
            Some(t) => Some(t.clone()),
            None => None,
        };
        Model {
            name: self.name.clone(),
            model: self.model.clone(),
            size: self.size,
            digest: self.digest.clone(),
            modified_at,
        }
    }
}

/// The views of a list of models, in order.
pub open spec fn models_view(models: Seq<Model>) -> Seq<ModelView> {
    models.map_values(|m: Model| m@)
}

/// A copy of a list of models.
pub fn clone_models(models: &Vec<Model>) -> (copy: Vec<Model>)
    ensures
        models_view(copy@) == models_view(models@),
{
    let mut copy: Vec<Model> = Vec::new();
    let mut i: usize = 0;
    while i < models.len()
        invariant
            i <= models@.len(),
            copy@.len() == i,
            forall|j: int| 0 <= j < i ==> (#[trigger] copy@[j])@ == models@[j]@,
        decreases models@.len() - i,
    {
        copy.push(models[i].clone());
        i += 1;
    }
    assert(models_view(copy@) =~= models_view(models@));
    copy
}

/// The answer to a listing request.
#[derive(Debug)]
pub struct ListResponse {
    pub models: Vec<Model>,
}

impl Clone for ListResponse {
    fn clone(&self) -> (copy: Self)
        ensures
            models_view(copy.models@) == models_view(self.models@),
    {
        ListResponse { models: clone_models(&self.models) }
    }
}

/// What a `ChatMessage` stands for in contracts.
pub ghost struct TurnView {
    pub role: Seq<char>,
    pub content: Seq<char>,
}

/// One turn of a conversation.
#[derive(Debug)]
pub struct ChatMessage {
    pub role: String,
    pub content: String,
}

impl View for ChatMessage {
    type V = TurnView;

    open spec fn view(&self) -> TurnView {
        TurnView { role: self.role@, content: self.content@ }
    }
}

impl Clone for ChatMessage {
    fn clone(&self) -> (copy: Self)
        ensures
            copy@ == self@,
    {
        ChatMessage { role: self.role.clone(), content: self.content.clone() }
    }
}

/// The views of a list of turns, in order.
pub open spec fn turns_view(turns: Seq<ChatMessage>) -> Seq<TurnView> {
    turns.map_values(|m: ChatMessage| m@)
}

/// The role of the turns that the user writes.
pub open spec fn user_role() -> Seq<char> {
    "user"@
}

/// The role of the turns that the model writes.
pub open spec fn assistant_role() -> Seq<char> {
    "assistant"@
}

/// How a turn is shown: `You` for the user and `AI` for the model, any
/// other role by its name; then a colon and the text.
pub open spec fn display_line(turn: TurnView) -> Seq<char> {
    let label = if turn.role == user_role() {
        "You"@
    } else if turn.role == assistant_role() {
        "AI"@
    } else {
        turn.role
    };
    label + ": "@ + turn.content
}

impl ChatMessage {
    /// A turn of the user with the given text.
    pub fn user(content: String) -> (turn: Self)
        ensures
            turn@ == (TurnView { role: user_role(), content: content@ }),
    {
        ChatMessage { role: String::from_str("user"), content }
    }

    /// A turn of the model with the given text.
    pub fn assistant(content: String) -> (turn: Self)
        ensures
            turn@ == (TurnView { role: assistant_role(), content: content@ }),
    {
        ChatMessage { role: String::from_str("assistant"), content }
    }

    /// How the turn is shown: `You` or `AI` for the writer, then the text.
    pub fn display_line(&self) -> (line: String)
        ensures
            line@ == display_line(self@),
    {
        let user = String::from_str("user");
        let label = if self.role == user {
            String::from_str("You")
        } else if self.is_assistant() {
            String::from_str("AI")
        } else {
            self.role.clone()
        };
        label.concat(": ").concat(self.content.as_str())
    }

    /// Whether the model wrote this turn.
    pub fn is_assistant(&self) -> (yes: bool)
        ensures
            yes == (self@.role == assistant_role()),
    {
        let role = String::from_str("assistant");
        self.role == role
    }
}

/// A copy of a list of turns.
pub fn clone_turns(turns: &Vec<ChatMessage>) -> (copy: Vec<ChatMessage>)
    ensures
        turns_view(copy@) == turns_view(turns@),
{
    let mut copy: Vec<ChatMessage> = Vec::new();
    let mut i: usize = 0;
    while i < turns.len()
        invariant
            i <= turns@.len(),
            copy@.len() == i,
            forall|j: int| 0 <= j < i ==> (#[trigger] copy@[j])@ == turns@[j]@,
        decreases turns@.len() - i,
    {
        copy.push(turns[i].clone());
        i += 1;
    }
    assert(turns_view(copy@) =~= turns_view(turns@));
    copy
}

/// The body of a chat request.
#[derive(Debug)]
pub struct ChatRequest {
    pub model: String,
    pub messages: Vec<ChatMessage>,
    pub stream: bool,
}

impl Clone for ChatRequest {
    fn clone(&self) -> (copy: Self)
        ensures
            copy.model@ == self.model@,
            turns_view(copy.messages@) == turns_view(self.messages@),
            copy.stream == self.stream,
    {
        ChatRequest {
            model: self.model.clone(),
            messages: clone_turns(&self.messages),
            stream: self.stream,
        }
    }
}

/// One frame of a chat reply.
#[derive(Debug)]
pub struct ChatResponse {
    pub model: String,
    pub message: ChatMessage,
    pub done: bool,
}

impl Clone for ChatResponse {
    fn clone(&self) -> (copy: Self)
        ensures
            copy.model@ == self.model@,
            copy.message@ == self.message@,
            copy.done == self.done,
    {
        ChatResponse { model: self.model.clone(), message: self.message.clone(), done: self.done }
    }
}

/// The body of a deletion request.
#[derive(Debug)]
pub struct DeleteRequest {
    pub name: String,
}

impl Clone for DeleteRequest {
    fn clone(&self) -> (copy: Self)
        ensures
            copy.name@ == self.name@,
    {
        DeleteRequest { name: self.name.clone() }
    }
}

/// The address of the server when none is given.
pub open spec fn default_base_url() -> Seq<char> {
    "http://localhost:11434"@
}

/// Where the local inference server is reached.
#[derive(Debug)]
pub struct OllamaClient {
    pub base_url: String,
}

impl OllamaClient {
    /// A client for the server at `base_url`, or at the default address.
    pub fn new(base_url: Option<String>) -> (client: Self)
        ensures
            client.base_url@ == match base_url {
                Some(url) => url@,
                None => default_base_url(),
            },
    {
        let base_url = match base_url {
            Some(url) => url,
            None => String::from_str("http://localhost:11434"),
        };
        OllamaClient { base_url }
    }

    /// The address that lists the installed models.
    pub fn tags_url(&self) -> (url: String)
        ensures
            url@ == self.base_url@ + "/api/tags"@,
    {
        self.base_url.clone().concat("/api/tags")
    }

    /// The address that deletes a model.
    pub fn delete_url(&self) -> (url: String)
        ensures
            url@ == self.base_url@ + "/api/delete"@,
    {
        self.base_url.clone().concat("/api/delete")
    }

    /// The address that answers a chat request.
    pub fn chat_url(&self) -> (url: String)
        ensures
            url@ == self.base_url@ + "/api/chat"@,
    {
        self.base_url.clone().concat("/api/chat")
    }

    /// The request that deletes the model `name`.
    pub fn delete_request(name: &str) -> (request: DeleteRequest)
        ensures
            request.name@ == name@,
    {
        DeleteRequest { name: String::from_str(name) }
    }

    /// The request for a streamed reply of `model` to `messages`.
    pub fn chat_request(model: String, messages: Vec<ChatMessage>) -> (request: ChatRequest)
        ensures
            request.model == model,
            request.messages == messages,
            request.stream,
    {
        ChatRequest { model, messages, stream: true }
    }
}

} // verus!
