//! Chat messages.

use vstd::prelude::*;

use crate::ids;
use crate::json;
use crate::json::{Json, JsonTree};
use crate::text;

verus! {

#[derive(Clone, Copy, PartialEq, Eq, Structural, Debug)]
pub enum AiChatRole {
    User,
    Assistant,
    System,
    Tool,
}

/// A call that a model asked for.
pub struct AiToolCall {
    pub id: String,
    pub name: String,
    pub arguments: String,
}

impl AiToolCall {
    /// A copy of the call.
    pub fn duplicate(&self) -> (res: AiToolCall)
        ensures
            res == *self,
    {
        AiToolCall { id: self.id.clone(), name: self.name.clone(), arguments: self.arguments.clone() }
    }
}

/// Provider wire state attached to a message.
pub struct ProviderParts {
    pub key: String,
    pub parts: Vec<JsonTree>,
}

/// Alternative continuations of a conversation that start at a message.
pub struct AiBranches {
    pub tails: Vec<(String, Vec<AiChatMessage>)>,
}

pub struct AiChatMessage {
    pub id: String,
    pub role: AiChatRole,
    pub content: String,
    pub timestamp_ms: i64,
    pub model: Option<String>,
    pub context: Option<String>,
    pub is_streaming: bool,
    pub thinking_content: Option<String>,
    /// The messages that this one stands for after a compaction.
    pub original_messages: Option<Vec<AiChatMessage>>,
    pub provider_parts: Option<ProviderParts>,
    pub tool_call_id: Option<String>,
    pub tool_calls: Vec<JsonTree>,
    pub turn: Option<JsonTree>,
    pub transcript_ref: Option<JsonTree>,
    pub summary_ref: Option<JsonTree>,
    pub branches: Option<AiBranches>,
    pub suggestions: Vec<String>,
}

impl AiChatMessage {
    /// A message that carries its text and nothing else.
    pub open spec fn is_plain(
        self,
        id: Seq<char>,
        role: AiChatRole,
        content: Seq<char>,
        timestamp_ms: i64,
    ) -> bool {
        &&& self.id@ == id
        &&& self.role == role
        &&& self.content@ == content
        &&& self.timestamp_ms == timestamp_ms
        &&& self.model is None
        &&& self.context is None
        &&& !self.is_streaming
        &&& self.thinking_content is None
        &&& self.original_messages is None
        &&& self.provider_parts is None
        &&& self.tool_call_id is None
        &&& self.tool_calls@.len() == 0
        &&& self.turn is None
        &&& self.transcript_ref is None
        &&& self.summary_ref is None
        &&& self.branches is None
        &&& self.suggestions@.len() == 0
    }

    /// Builds a message that carries its text and nothing else.
    pub fn plain(id: String, role: AiChatRole, content: String, timestamp_ms: i64) -> (res: AiChatMessage)
        ensures
            res.is_plain(id@, role, content@, timestamp_ms),
            res.id == id,
            res.content == content,
    {
        AiChatMessage {
            id,
            role,
            content,
            timestamp_ms,
            model: None,
            context: None,
            is_streaming: false,
            thinking_content: None,
            original_messages: None,
            provider_parts: None,
            tool_call_id: None,
            tool_calls: Vec::new(),
            turn: None,
            transcript_ref: None,
            summary_ref: None,
            branches: None,
            suggestions: Vec::new(),
        }
    }
}

/// The position of the first message called `id`, or the number of messages.
pub open spec fn message_position(messages: Seq<AiChatMessage>, id: Seq<char>) -> int
    decreases messages.len(),
{
    if messages.len() == 0 || messages[0].id@ == id {
        0
    } else {
        1 + message_position(messages.drop_first(), id)
    }
}

pub open spec fn has_message(messages: Seq<AiChatMessage>, id: Seq<char>) -> bool {
    exists|i: int| 0 <= i < messages.len() && (#[trigger] messages[i]).id@ == id
}

/// The first position is where no earlier message has the identity.
pub proof fn lemma_message_position(messages: Seq<AiChatMessage>, id: Seq<char>, at: int)
    requires
        0 <= at <= messages.len(),
        forall|j: int| 0 <= j < at ==> (#[trigger] messages[j]).id@ != id,
        at < messages.len() ==> messages[at].id@ == id,
    ensures
        message_position(messages, id) == at,
    decreases messages.len(),
{
    if at > 0 {
        assert(messages[0].id@ != id);
        assert forall|j: int| 0 <= j < at - 1 implies (#[trigger] messages.drop_first()[j]).id@ != id by {
            assert(messages[j + 1].id@ != id);
        }
        lemma_message_position(messages.drop_first(), id, at - 1);
    }
}

/// Finds the first message called `id`.
pub fn find_message(messages: &Vec<AiChatMessage>, id: &str) -> (res: Option<usize>)
    ensures
        match res {
            Some(i) => {
                &&& i < messages@.len()
                &&& messages@[i as int].id@ == id@
                &&& i == message_position(messages@, id@)
                &&& has_message(messages@, id@)
            },
            None => !has_message(messages@, id@) && message_position(messages@, id@) == messages@.len(),
        },
{
    let mut i: usize = 0;
    while i < messages.len()
        invariant
            i <= messages.len(),
            forall|j: int| 0 <= j < i ==> (#[trigger] messages@[j]).id@ != id@,
        decreases messages.len() - i,
    {
        if text::same(messages[i].id.as_str(), id) {
            proof {
                lemma_message_position(messages@, id@, i as int);
            }
            return Some(i);
        }
        i += 1;
    }
    proof {
        lemma_message_position(messages@, id@, i as int);
    }
    None
}

/// A new message of the running task.
pub fn agent_chat_message(role: AiChatRole, content: String, now_ms: i64) -> (res: AiChatMessage)
    ensures
        res.id@.len() == 36,
        res.is_plain(res.id@, role, content@, now_ms),
        res.content == content,
{
    AiChatMessage::plain(ids::random_id(), role, content, now_ms)
}

/// The identity of the message that describes the running application to the model.
pub open spec fn runtime_context_id() -> Seq<char> {
    "runtime-context-v2"@
}

/// How a history looks after the application was described to the model: the description takes
/// the place of an earlier one, or the front.
pub open spec fn runtime_context_placed(
    before: Seq<AiChatMessage>,
    after: Seq<AiChatMessage>,
    content: Seq<char>,
    now_ms: i64,
) -> bool {
    if has_message(before, runtime_context_id()) {
        let at = message_position(before, runtime_context_id());
        &&& after == before.update(at, after[at])
        &&& after[at].is_plain(runtime_context_id(), AiChatRole::System, content, now_ms)
    } else {
        &&& after == seq![after[0]] + before
        &&& after[0].is_plain(runtime_context_id(), AiChatRole::System, content, now_ms)
    }
}

/// Puts the current application state before the model.
pub fn replace_ai_runtime_context_message(history: &mut Vec<AiChatMessage>, content: String, now_ms: i64)
    ensures
        runtime_context_placed(old(history)@, final(history)@, content@, now_ms),
{
    let message = AiChatMessage::plain(
        "runtime-context-v2".to_owned(),
        AiChatRole::System,
        content,
        now_ms,
    );
    match find_message(history, "runtime-context-v2") {
        Some(at) => {
            history.set(at, message);
        },
        None => {
            let ghost before = history@;
            history.insert(0, message);
            assert(history@ =~= seq![history@[0]] + before);
        },
    }
}

/// Describing the application twice leaves what the later description alone leaves.
pub proof fn law_runtime_context_is_replaced(
    before: Seq<AiChatMessage>,
    middle: Seq<AiChatMessage>,
    after: Seq<AiChatMessage>,
    first: Seq<char>,
    first_ms: i64,
    second: Seq<char>,
    second_ms: i64,
)
    requires
        runtime_context_placed(before, middle, first, first_ms),
        runtime_context_placed(middle, after, second, second_ms),
    ensures
        runtime_context_placed(before, after, second, second_ms),
{
    let id = runtime_context_id();
    if has_message(before, id) {
        let witness = choose|i: int| 0 <= i < before.len() && (#[trigger] before[i]).id@ == id;
        lemma_position_of_present(before, id, witness);
        let at = message_position(before, id);
        assert(middle[at].id@ == id);
        assert forall|j: int| 0 <= j < at implies (#[trigger] middle[j]).id@ != id by {
            assert(middle[j] == before[j]);
        }
        lemma_message_position(middle, id, at);
        assert(has_message(middle, id));
        assert(after =~= before.update(at, after[at]));
    } else {
        assert(middle.len() == before.len() + 1);
        assert(middle[0].id@ == id);
        assert(has_message(middle, id));
        lemma_message_position(middle, id, 0);
        assert(after =~= seq![after[0]] + before);
    }
}

/// A present identity has a first position, with no earlier one.
proof fn lemma_position_of_present(messages: Seq<AiChatMessage>, id: Seq<char>, witness: int)
    requires
        0 <= witness < messages.len(),
        messages[witness].id@ == id,
    ensures
        0 <= message_position(messages, id) <= witness,
        messages[message_position(messages, id)].id@ == id,
        forall|j: int| 0 <= j < message_position(messages, id) ==> (#[trigger] messages[j]).id@ != id,
    decreases messages.len(),
{
    if messages[0].id@ != id {
        let rest = messages.drop_first();
        assert(rest[witness - 1] == messages[witness]);
        lemma_position_of_present(rest, id, witness - 1);
        assert forall|j: int| 0 <= j < message_position(messages, id) implies (#[trigger] messages[j]).id@ != id by {
            if j > 0 {
                assert(rest[j - 1] == messages[j]);
            }
        }
    }
}

/// The last message from the user, by its name.
pub open spec fn last_user_id(history: Seq<AiChatMessage>) -> Option<Seq<char>>
    decreases history.len(),
{
    if history.len() == 0 {
        None
    } else if history.last().role == AiChatRole::User {
        Some(history.last().id@)
    } else {
        last_user_id(history.drop_last())
    }
}

/// The position of the last message from the user, or `None`.
pub fn last_user_message(history: &Vec<AiChatMessage>) -> (res: Option<usize>)
    ensures
        match res {
            Some(i) => {
                &&& i < history@.len()
                &&& history@[i as int].role == AiChatRole::User
                &&& forall|j: int| i < j < history@.len() ==> (#[trigger] history@[j]).role != AiChatRole::User
                &&& last_user_id(history@) == Some(history@[i as int].id@)
            },
            None => {
                &&& forall|j: int| 0 <= j < history@.len() ==> (#[trigger] history@[j]).role != AiChatRole::User
                &&& last_user_id(history@) is None
            },
        },
{
    let mut i: usize = history.len();
    assert(history@.take(i as int) =~= history@);
    while i > 0
        invariant
            i <= history.len(),
            last_user_id(history@) == last_user_id(history@.take(i as int)),
            forall|j: int| i <= j < history@.len() ==> (#[trigger] history@[j]).role != AiChatRole::User,
        decreases i,
    {
        assert(history@.take(i as int).drop_last() =~= history@.take(i - 1));
        i -= 1;
        if history[i].role == AiChatRole::User {
            return Some(i);
        }
    }
    None
}

/// What a chat message says.
pub struct ChatMessage {
    pub id: Seq<char>,
    pub role: AiChatRole,
    pub content: Seq<char>,
    pub timestamp_ms: i64,
    pub model: Option<Seq<char>>,
    pub context: Option<Seq<char>>,
    pub is_streaming: bool,
    pub thinking_content: Option<Seq<char>>,
    pub original_messages: Option<Seq<ChatMessage>>,
    pub provider_parts: Option<(Seq<char>, Seq<Json>)>,
    pub tool_call_id: Option<Seq<char>>,
    pub tool_calls: Seq<Json>,
    pub turn: Option<Json>,
    pub transcript_ref: Option<Json>,
    pub summary_ref: Option<Json>,
    pub branches: Option<Seq<(Seq<char>, Seq<ChatMessage>)>>,
    pub suggestions: Seq<Seq<char>>,
}

pub open spec fn opt_json_view(value: Option<JsonTree>) -> Option<Json> {
    match value {
        Some(value) => Some(value@),
        None => None,
    }
}

impl AiChatMessage {
    pub open spec fn view(self) -> ChatMessage
        decreases self, 0nat,
    {
        ChatMessage {
            id: self.id@,
            role: self.role,
            content: self.content@,
            timestamp_ms: self.timestamp_ms,
            model: text::opt_view(self.model),
            context: text::opt_view(self.context),
            is_streaming: self.is_streaming,
            thinking_content: text::opt_view(self.thinking_content),
            original_messages: match self.original_messages {
                Some(messages) => Some(messages_view(messages@)),
                None => None,
            },
            provider_parts: match self.provider_parts {
                Some(parts) => Some((parts.key@, json::list_view(parts.parts@))),
                None => None,
            },
            tool_call_id: text::opt_view(self.tool_call_id),
            tool_calls: json::list_view(self.tool_calls@),
            turn: opt_json_view(self.turn),
            transcript_ref: opt_json_view(self.transcript_ref),
            summary_ref: opt_json_view(self.summary_ref),
            branches: match self.branches {
                Some(branches) => Some(tails_view(branches.tails@)),
                None => None,
            },
            suggestions: text::seq_view(self.suggestions@),
        }
    }
}

/// What the messages of a list say.
pub open spec fn messages_view(messages: Seq<AiChatMessage>) -> Seq<ChatMessage>
    decreases messages, 1nat,
{
    Seq::new(
        messages.len(),
        |i: int|
            if 0 <= i < messages.len() {
                messages[i].view()
            } else {
                arbitrary()
            },
    )
}

/// What the continuations of a branch point say.
pub open spec fn tails_view(tails: Seq<(String, Vec<AiChatMessage>)>) -> Seq<(Seq<char>, Seq<ChatMessage>)>
    decreases tails, 2nat,
{
    Seq::new(
        tails.len(),
        |i: int|
            if 0 <= i < tails.len() {
                (tails[i].0@, messages_view(tails[i].1@))
            } else {
                arbitrary()
            },
    )
}

/// What a message says, as one piece.
#[verifier::opaque]
pub open spec fn said(message: AiChatMessage) -> ChatMessage {
    message@
}

/// What some messages say, each as one piece.
pub open spec fn said_all(messages: Seq<AiChatMessage>) -> Seq<ChatMessage> {
    messages.map_values(|message: AiChatMessage| said(message))
}

fn duplicate_json_option(value: &Option<JsonTree>) -> (res: Option<JsonTree>)
    ensures
        opt_json_view(res) == opt_json_view(*value),
{
    match value {
        Some(value) => Some(value.duplicate()),
        None => None,
    }
}

impl AiChatMessage {
    /// A copy of the message.
    pub fn duplicate(&self) -> (res: AiChatMessage)
        ensures
            res@ == self@,
            said(res) == said(*self),
            res.id == self.id,
            res.role == self.role,
            res.is_streaming == self.is_streaming,
        decreases self, 0nat,
    {
        proof {
            reveal(said);
        }
        let original_messages = match &self.original_messages {
            Some(messages) => {
                assert(decreases_to!(self => self.original_messages));
                assert(decreases_to!(self.original_messages => self.original_messages->0));
                assert(decreases_to!(self.original_messages->0 => self.original_messages->0@));
                Some(duplicate_messages(messages))
            },
            None => None,
        };
        let branches = match &self.branches {
            Some(branches) => {
                let mut tails: Vec<(String, Vec<AiChatMessage>)> = Vec::new();
                let mut i: usize = 0;
                while i < branches.tails.len()
                    invariant
                        i <= branches.tails.len(),
                        self.branches == Some(*branches),
                        tails@.len() == i,
                        forall|j: int|
                            0 <= j < i ==> (#[trigger] tails@[j]).0@ == branches.tails@[j].0@
                                && messages_view(tails@[j].1@) == messages_view(branches.tails@[j].1@),
                    decreases branches.tails.len() - i,
                {
                    assert(decreases_to!(self => self.branches));
                    assert(decreases_to!(self.branches => self.branches->0));
                    assert(decreases_to!(self.branches->0 => self.branches->0.tails));
                    assert(decreases_to!(self.branches->0.tails => self.branches->0.tails@));
                    assert(decreases_to!(self.branches->0.tails@ => self.branches->0.tails@[i as int]));
                    assert(decreases_to!(self.branches->0.tails@[i as int] => self.branches->0.tails@[i as int].1));
                    assert(decreases_to!(self.branches->0.tails@[i as int].1 => self.branches->0.tails@[i as int].1@));
                    tails.push(
                        (branches.tails[i].0.clone(), duplicate_messages(&branches.tails[i].1)),
                    );
                    i += 1;
                }
                assert(tails_view(tails@) =~= tails_view(branches.tails@));
                Some(AiBranches { tails })
            },
            None => None,
        };
        AiChatMessage {
            id: self.id.clone(),
            role: self.role,
            content: self.content.clone(),
            timestamp_ms: self.timestamp_ms,
            model: text::duplicate_option(&self.model),
            context: text::duplicate_option(&self.context),
            is_streaming: self.is_streaming,
            thinking_content: text::duplicate_option(&self.thinking_content),
            original_messages,
            provider_parts: match &self.provider_parts {
                Some(parts) => Some(
                    ProviderParts {
                        key: parts.key.clone(),
                        parts: json::duplicate_list(&parts.parts),
                    },
                ),
                None => None,
            },
            tool_call_id: text::duplicate_option(&self.tool_call_id),
            tool_calls: json::duplicate_list(&self.tool_calls),
            turn: duplicate_json_option(&self.turn),
            transcript_ref: duplicate_json_option(&self.transcript_ref),
            summary_ref: duplicate_json_option(&self.summary_ref),
            branches,
            suggestions: text::duplicate_list(&self.suggestions),
        }
    }
}

/// A copy of some messages.
pub fn duplicate_messages(messages: &Vec<AiChatMessage>) -> (res: Vec<AiChatMessage>)
    ensures
        messages_view(res@) == messages_view(messages@),
        said_all(res@) == said_all(messages@),
    decreases messages@, 1nat,
{
    let mut out: Vec<AiChatMessage> = Vec::new();
    let mut i: usize = 0;
    while i < messages.len()
        invariant
            i <= messages.len(),
            out@.len() == i,
            forall|j: int| 0 <= j < i ==> (#[trigger] out@[j])@ == messages@[j]@ && said(out@[j]) == said(messages@[j]),
        decreases messages.len() - i,
    {
        assert(decreases_to!(messages@ => messages@[i as int]));
        out.push(messages[i].duplicate());
        i += 1;
    }
    assert(messages_view(out@) =~= messages_view(messages@));
    assert(said_all(out@) =~= said_all(messages@));
    out
}

} // verus!
