//! Removal of message contents from memory.

use vstd::prelude::*;
use zeroize::Zeroize;

use crate::ai::messages::{
    messages_view, opt_json_view, tails_view, AiBranches, AiChatMessage, ChatMessage,
};
use crate::json;
use crate::json::{Json, JsonTree};
use crate::text;

verus! {

/// `Zeroize::zeroize` of a `String`: its bytes are overwritten and it is left empty.
#[verifier::external_body]
pub(crate) fn wipe(secret: &mut String)
    ensures
        final(secret)@.len() == 0,
{
    secret.zeroize();
}

/// A JSON value without its texts. An object loses its members.
pub open spec fn wiped_json(value: Json) -> Json
    decreases value,
{
    match value {
        Json::Text(_) => Json::Text(Seq::empty()),
        Json::List(items) => Json::List(
            Seq::new(
                items.len(),
                |i: int|
                    if 0 <= i < items.len() {
                        wiped_json(items[i])
                    } else {
                        Json::Null
                    },
            ),
        ),
        Json::Object(_) => Json::Object(Seq::empty()),
        other => other,
    }
}

pub open spec fn wiped_text(value: Option<Seq<char>>) -> Option<Seq<char>> {
    match value {
        Some(_) => Some(Seq::empty()),
        None => None,
    }
}

pub open spec fn wiped_option(value: Option<Json>) -> Option<Json> {
    match value {
        Some(value) => Some(wiped_json(value)),
        None => None,
    }
}

/// A message of which nothing can be read any more: its texts are empty, and so are those of the
/// messages within it. What identifies it stays.
pub open spec fn wiped(message: ChatMessage) -> ChatMessage
    decreases message, 0nat,
{
    ChatMessage {
        content: Seq::empty(),
        model: wiped_text(message.model),
        context: wiped_text(message.context),
        thinking_content: wiped_text(message.thinking_content),
        tool_calls: message.tool_calls.map_values(|value: Json| wiped_json(value)),
        turn: wiped_option(message.turn),
        transcript_ref: wiped_option(message.transcript_ref),
        summary_ref: wiped_option(message.summary_ref),
        suggestions: message.suggestions.map_values(|value: Seq<char>| Seq::<char>::empty()),
        original_messages: match message.original_messages {
            Some(messages) => Some(wiped_list(messages)),
            None => None,
        },
        branches: match message.branches {
            Some(tails) => Some(
                Seq::new(
                    tails.len(),
                    |i: int|
                        if 0 <= i < tails.len() {
                            (tails[i].0, wiped_list(tails[i].1))
                        } else {
                            arbitrary()
                        },
                ),
            ),
            None => None,
        },
        ..message
    }
}

pub open spec fn wiped_list(messages: Seq<ChatMessage>) -> Seq<ChatMessage>
    decreases messages, 1nat,
{
    Seq::new(
        messages.len(),
        |i: int|
            if 0 <= i < messages.len() {
                wiped(messages[i])
            } else {
                arbitrary()
            },
    )
}

fn wipe_json(value: &mut JsonTree)
    ensures
        final(value)@ == wiped_json(old(value)@),
    decreases *old(value),
{
    let mut taken = JsonTree::Null;
    std::mem::swap(&mut taken, value);
    let ghost before = taken;
    match taken {
        JsonTree::Text(secret) => {
            let mut secret = secret;
            wipe(&mut secret);
            assert(secret@ =~= Seq::empty());
            *value = JsonTree::Text(secret);
        },
        JsonTree::List(items) => {
            let ghost original = items@;
            let mut items = items;
            let mut i: usize = 0;
            while i < items.len()
                invariant
                    i <= items.len(),
                    before is List,
                    before->List_0@ == original,
                    *old(value) == before,
                    items@.len() == original.len(),
                    forall|j: int| 0 <= j < i ==> (#[trigger] items@[j])@ == wiped_json(original[j]@),
                    forall|j: int| i <= j < items@.len() ==> #[trigger] items@[j] == original[j],
                decreases items.len() - i,
            {
                assert(decreases_to!(before => before->List_0));
                assert(decreases_to!(before->List_0 => before->List_0@));
                assert(decreases_to!(before->List_0@ => before->List_0@[i as int]));
                wipe_json(&mut items[i]);
                i += 1;
            }
            *value = JsonTree::List(items);
            assert(value@->List_0 =~= wiped_json(before@)->List_0);
        },
        JsonTree::Object(members) => {
            let ghost original = members@;
            let mut members = members;
            while members.len() > 0
                invariant
                    before is Object,
                    before->Object_0@ == original,
                    *old(value) == before,
                    members@.len() <= original.len(),
                    members@ == original.take(members@.len() as int),
                decreases members.len(),
            {
                let ghost last = members@.len() - 1;
                let entry = members.pop();
                assert(decreases_to!(before => before->Object_0));
                assert(decreases_to!(before->Object_0 => before->Object_0@));
                assert(decreases_to!(before->Object_0@ => before->Object_0@[last]));
                assert(decreases_to!(before->Object_0@[last] => before->Object_0@[last].1));
                if let Some((key, member)) = entry {
                    let mut key = key;
                    let mut member = member;
                    assert(member == original[last].1);
                    wipe(&mut key);
                    wipe_json(&mut member);
                }
                assert(members@ =~= original.take(members@.len() as int));
            }
            *value = JsonTree::Object(members);
            assert(value@->Object_0 =~= Seq::empty());
        },
        other => {
            *value = other;
        },
    }
}

fn wipe_option(value: &mut Option<String>)
    ensures
        text::opt_view(*final(value)) == wiped_text(text::opt_view(*old(value))),
{
    let mut taken: Option<String> = None;
    std::mem::swap(&mut taken, value);
    match taken {
        Some(secret) => {
            let mut secret = secret;
            wipe(&mut secret);
            assert(secret@ =~= Seq::empty());
            *value = Some(secret);
        },
        None => {},
    }
}

fn wipe_json_option(value: &mut Option<JsonTree>)
    ensures
        opt_json_view(*final(value)) == wiped_option(opt_json_view(*old(value))),
{
    let mut taken: Option<JsonTree> = None;
    std::mem::swap(&mut taken, value);
    match taken {
        Some(tree) => {
            let mut tree = tree;
            wipe_json(&mut tree);
            *value = Some(tree);
        },
        None => {},
    }
}

fn wipe_json_list(values: &mut Vec<JsonTree>)
    ensures
        json::list_view(final(values)@) == json::list_view(old(values)@).map_values(
            |value: Json| wiped_json(value),
        ),
{
    let ghost original = values@;
    let mut i: usize = 0;
    while i < values.len()
        invariant
            i <= values.len(),
            values@.len() == original.len(),
            forall|j: int| 0 <= j < i ==> (#[trigger] values@[j])@ == wiped_json(original[j]@),
            forall|j: int| i <= j < values@.len() ==> #[trigger] values@[j] == original[j],
        decreases values.len() - i,
    {
        wipe_json(&mut values[i]);
        i += 1;
    }
    assert(json::list_view(values@) =~= json::list_view(original).map_values(
        |value: Json| wiped_json(value),
    ));
}

fn wipe_texts(values: &mut Vec<String>)
    ensures
        text::seq_view(final(values)@) == text::seq_view(old(values)@).map_values(
            |value: Seq<char>| Seq::<char>::empty(),
        ),
{
    let ghost original = values@;
    let mut i: usize = 0;
    while i < values.len()
        invariant
            i <= values.len(),
            values@.len() == original.len(),
            forall|j: int| 0 <= j < i ==> (#[trigger] values@[j])@ == Seq::<char>::empty(),
        decreases values.len() - i,
    {
        wipe(&mut values[i]);
        assert(values@[i as int]@ =~= Seq::empty());
        i += 1;
    }
    assert(text::seq_view(values@) =~= text::seq_view(original).map_values(
        |value: Seq<char>| Seq::<char>::empty(),
    ));
}

/// Removes a message's contents from memory.
pub fn clear_history_source(message: &mut AiChatMessage)
    ensures
        final(message)@ == wiped(old(message)@),
    decreases *old(message), 0nat,
{
    wipe(&mut message.content);
    assert(message.content@ =~= Seq::empty());
    wipe_option(&mut message.context);
    wipe_option(&mut message.thinking_content);
    wipe_option(&mut message.model);
    wipe_json_list(&mut message.tool_calls);
    wipe_json_option(&mut message.turn);
    wipe_json_option(&mut message.transcript_ref);
    wipe_json_option(&mut message.summary_ref);
    wipe_texts(&mut message.suggestions);
    let mut originals: Option<Vec<AiChatMessage>> = None;
    std::mem::swap(&mut originals, &mut message.original_messages);
    match originals {
        Some(messages) => {
            let mut messages = messages;
            assert(decreases_to!(*old(message) => old(message).original_messages));
            assert(decreases_to!(old(message).original_messages => old(message).original_messages->0));
            assert(decreases_to!(old(message).original_messages->0 => old(message).original_messages->0@));
            wipe_messages(&mut messages);
            message.original_messages = Some(messages);
        },
        None => {},
    }
    let mut branches: Option<AiBranches> = None;
    std::mem::swap(&mut branches, &mut message.branches);
    match branches {
        Some(branches) => {
            let ghost original = branches.tails@;
            let ghost whole = *old(message);
            let mut tails = branches.tails;
            let mut i: usize = 0;
            while i < tails.len()
                invariant
                    i <= tails.len(),
                    whole == *old(message),
                    whole.branches is Some,
                    whole.branches->0.tails@ == original,
                    tails@.len() == original.len(),
                    forall|j: int|
                        0 <= j < i ==> (#[trigger] tails@[j]).0 == original[j].0 && messages_view(
                            tails@[j].1@,
                        ) == wiped_list(messages_view(original[j].1@)),
                    forall|j: int| i <= j < tails@.len() ==> #[trigger] tails@[j] == original[j],
                decreases tails.len() - i,
            {
                assert(decreases_to!(whole => whole.branches));
                assert(decreases_to!(whole.branches => whole.branches->0));
                assert(decreases_to!(whole.branches->0 => whole.branches->0.tails));
                assert(decreases_to!(whole.branches->0.tails => whole.branches->0.tails@));
                assert(decreases_to!(whole.branches->0.tails@ => whole.branches->0.tails@[i as int]));
                assert(decreases_to!(whole.branches->0.tails@[i as int] => whole.branches->0.tails@[i as int].1));
                assert(decreases_to!(whole.branches->0.tails@[i as int].1 => whole.branches->0.tails@[i as int].1@));
                wipe_messages(&mut tails[i].1);
                i += 1;
            }
            assert(tails_view(tails@) =~= wiped(old(message)@).branches->0);
            message.branches = Some(AiBranches { tails });
        },
        None => {},
    }
}

fn wipe_messages(messages: &mut Vec<AiChatMessage>)
    ensures
        messages_view(final(messages)@) == wiped_list(messages_view(old(messages)@)),
    decreases old(messages)@, 1nat,
{
    let ghost original = messages@;
    let mut i: usize = 0;
    while i < messages.len()
        invariant
            i <= messages.len(),
            original == old(messages)@,
            messages@.len() == original.len(),
            forall|j: int| 0 <= j < i ==> (#[trigger] messages@[j])@ == wiped(original[j]@),
            forall|j: int| i <= j < messages@.len() ==> #[trigger] messages@[j] == original[j],
        decreases messages.len() - i,
    {
        assert(decreases_to!(original => original[i as int]));
        clear_history_source(&mut messages[i]);
        i += 1;
    }
    assert(messages_view(messages@) =~= wiped_list(messages_view(original)));
}

} // verus!
