//! A window of stored messages: merging pages into it and keeping it small.

use vstd::prelude::*;

use crate::ai::messages::AiChatMessage;
use crate::ai_state::entity::{HistoryPageState, PageDirection};
use crate::ai_state::model::{HistoryCursor, MessageDescriptor, MessagePage};
use crate::table::Table;
use crate::text;

verus! {

/// The most messages that a window lists.
pub const WINDOW_MESSAGES: usize = 100;

/// A list of descriptors in the order of the branch.
pub open spec fn in_sequence(list: Seq<MessageDescriptor>) -> bool {
    forall|i: int, j: int| 0 <= i <= j < list.len() ==> (#[trigger] list[i]).sequence <= (#[trigger] list[j]).sequence
}

/// No message is listed twice.
pub open spec fn listed_once(list: Seq<MessageDescriptor>) -> bool {
    forall|i: int, j: int| 0 <= i < j < list.len() ==> (#[trigger] list[i]).id@ != (#[trigger] list[j]).id@
}

/// Whether a list names a message.
pub open spec fn lists(list: Seq<MessageDescriptor>, id: Seq<char>) -> bool {
    exists|i: int| 0 <= i < list.len() && (#[trigger] list[i]).id@ == id
}

/// A list holds exactly the descriptors of a map.
pub open spec fn lists_all_of(list: Seq<MessageDescriptor>, map: Map<Seq<char>, MessageDescriptor>) -> bool {
    &&& listed_once(list)
    &&& forall|id: Seq<char>| #[trigger] map.dom().contains(id) == lists(list, id)
    &&& forall|i: int| 0 <= i < list.len() ==> map[(#[trigger] list[i]).id@] == list[i]
}

/// Every descriptor stands under its own identity.
pub open spec fn keyed_by_id(map: Map<Seq<char>, MessageDescriptor>) -> bool {
    forall|id: Seq<char>| map.dom().contains(id) ==> (#[trigger] map[id]).id@ == id
}

/// Puts a descriptor into its place in a sorted list.
fn insert_in_sequence(list: &mut Vec<MessageDescriptor>, entry: MessageDescriptor)
    requires
        in_sequence(old(list)@),
        listed_once(old(list)@),
        !lists(old(list)@, entry.id@),
    ensures
        in_sequence(final(list)@),
        listed_once(final(list)@),
        final(list)@.len() == old(list)@.len() + 1,
        exists|at: int|
            0 <= at <= old(list)@.len() && final(list)@ == #[trigger] old(list)@.insert(at, entry),
{
    let ghost before = list@;
    let mut at: usize = 0;
    while at < list.len() && list[at].sequence <= entry.sequence
        invariant
            at <= list.len(),
            list@ == before,
            forall|j: int| 0 <= j < at ==> (#[trigger] before[j]).sequence <= entry.sequence,
        decreases list.len() - at,
    {
        at += 1;
    }
    list.insert(at, entry);
    let ghost now = before.insert(at as int, entry);
    assert(list@ =~= now);
    assert forall|i: int, j: int| 0 <= i <= j < now.len() implies (#[trigger] now[i]).sequence <= (
    #[trigger] now[j]).sequence by {
        let a = if i < at {
            i
        } else {
            i - 1
        };
        let b = if j < at {
            j
        } else {
            j - 1
        };
        if i != at && j != at {
            assert(now[i] == before[a]);
            assert(now[j] == before[b]);
        } else if i == at && j != at {
            assert(now[j] == before[b]);
            assert(before[at as int].sequence <= before[b].sequence);
        } else if i != at {
            assert(now[i] == before[a]);
        }
    }
    assert forall|i: int, j: int| 0 <= i < j < now.len() implies (#[trigger] now[i]).id@ != (
    #[trigger] now[j]).id@ by {
        let a = if i < at {
            i
        } else {
            i - 1
        };
        let b = if j < at {
            j
        } else {
            j - 1
        };
        if i != at {
            assert(now[i] == before[a]);
        }
        if j != at {
            assert(now[j] == before[b]);
        }
    }
}

/// The descriptors of a window in the order of the branch.
pub fn sorted_descriptions(table: &Table<String, MessageDescriptor>) -> (res: Vec<MessageDescriptor>)
    requires
        table.wf(),
        keyed_by_id(table@),
    ensures
        in_sequence(res@),
        lists_all_of(res@, table@),
        res@.len() == table.entries@.len(),
{
    let mut out: Vec<MessageDescriptor> = Vec::new();
    let mut i: usize = 0;
    while i < table.entries.len()
        invariant
            i <= table.entries.len(),
            table.wf(),
            keyed_by_id(table@),
            in_sequence(out@),
            listed_once(out@),
            out@.len() == i,
            forall|k: int| 0 <= k < out@.len() ==> table@[(#[trigger] out@[k]).id@] == out@[k],
            forall|k: int|
                0 <= k < out@.len() ==> exists|j: int|
                    0 <= j < i && #[trigger] table.entries@[j].0@ == (#[trigger] out@[k]).id@,
            forall|j: int| 0 <= j < i ==> lists(out@, #[trigger] table.entries@[j].0@),
        decreases table.entries.len() - i,
    {
        proof {
            table.lemma_entry(i as int);
        }
        let entry = table.entries[i].1.duplicate();
        let ghost before = out@;
        assert(entry.id@ == table.entries@[i as int].0@);
        assert(!lists(before, entry.id@)) by {
            if lists(before, entry.id@) {
                let k = choose|k: int| 0 <= k < before.len() && (#[trigger] before[k]).id@ == entry.id@;
                let j = choose|j: int|
                    0 <= j < i && #[trigger] table.entries@[j].0@ == before[k].id@;
                table.lemma_distinct(j, i as int);
            }
        }
        insert_in_sequence(&mut out, entry);
        proof {
            let at = choose|at: int|
                0 <= at <= before.len() && out@ == #[trigger] before.insert(at, entry);
            assert forall|k: int| 0 <= k < out@.len() implies table@[(#[trigger] out@[k]).id@] == out@[k] by {
                if k != at {
                    assert(out@[k] == before[if k < at { k } else { k - 1 }]);
                }
            }
            assert forall|k: int| 0 <= k < out@.len() implies exists|j: int|
                0 <= j < i + 1 && #[trigger] table.entries@[j].0@ == (#[trigger] out@[k]).id@ by {
                if k == at {
                    assert(table.entries@[i as int].0@ == out@[k].id@);
                } else {
                    let b = if k < at {
                        k
                    } else {
                        k - 1
                    };
                    assert(out@[k] == before[b]);
                    let j = choose|j: int|
                        0 <= j < i && #[trigger] table.entries@[j].0@ == before[b].id@;
                    assert(table.entries@[j].0@ == out@[k].id@);
                }
            }
            assert forall|j: int| 0 <= j < i + 1 implies lists(out@, #[trigger] table.entries@[j].0@) by {
                if j == i {
                    assert(out@[at].id@ == table.entries@[j].0@);
                } else {
                    assert(lists(before, table.entries@[j].0@));
                    let k = choose|k: int|
                        0 <= k < before.len() && (#[trigger] before[k]).id@ == table.entries@[j].0@;
                    assert(out@[if k < at { k } else { k + 1 }] == before[k]);
                }
            }
        }
        i += 1;
    }
    assert forall|id: Seq<char>| #[trigger] table@.dom().contains(id) == lists(out@, id) by {
        if table@.dom().contains(id) {
            let j = table.lemma_position(id);
            assert(lists(out@, table.entries@[j].0@));
        }
        if lists(out@, id) {
            let k = choose|k: int| 0 <= k < out@.len() && (#[trigger] out@[k]).id@ == id;
            let j = choose|j: int| 0 <= j < i && #[trigger] table.entries@[j].0@ == out@[k].id@;
            table.lemma_entry(j);
        }
    }
    out
}

/// Keeps the entries whose key is in a list.
fn keep_ids<V>(table: &mut Table<String, V>, ids: &Vec<String>)
    requires
        old(table).wf(),
    ensures
        final(table).wf(),
        final(table)@ == kept_of(old(table)@, text::seq_view(ids@)),
{
    let keep = |key: &String, value: &V| -> (kept: bool)
        ensures
            kept == text::seq_view(ids@).contains(key@),
        { text::list_contains(ids, key.as_str()) };
    table.retain(keep, Ghost(|key: Seq<char>, value: V| text::seq_view(ids@).contains(key)));
    assert(table@ =~= kept_of(old(table)@, text::seq_view(ids@)));
}

/// The entries of a map whose key is in a list.
pub open spec fn kept_of<V>(map: Map<Seq<char>, V>, ids: Seq<Seq<char>>) -> Map<Seq<char>, V> {
    map.restrict(Set::new(|key: Seq<char>| map.dom().contains(key) && ids.contains(key)))
}

/// The identities of a list.
pub open spec fn ids_of(list: Seq<MessageDescriptor>) -> Seq<Seq<char>> {
    list.map_values(|entry: MessageDescriptor| entry.id@)
}

fn list_ids(list: &Vec<MessageDescriptor>) -> (res: Vec<String>)
    ensures
        text::seq_view(res@) == ids_of(list@),
{
    let mut out: Vec<String> = Vec::new();
    let mut i: usize = 0;
    while i < list.len()
        invariant
            i <= list.len(),
            out@.len() == i,
            forall|j: int| 0 <= j < i ==> (#[trigger] out@[j])@ == list@[j].id@,
        decreases list.len() - i,
    {
        out.push(list[i].id.clone());
        i += 1;
    }
    assert(text::seq_view(out@) =~= ids_of(list@));
    out
}

/// The messages of a page that a window already shows as they are.
pub open spec fn unchanged_in(list: Seq<MessageDescriptor>, shown: Map<Seq<char>, MessageDescriptor>) -> Seq<Seq<char>>
    decreases list.len(),
{
    if list.len() == 0 {
        Seq::empty()
    } else {
        let earlier = unchanged_in(list.drop_last(), shown);
        let entry = list.last();
        if shown.dom().contains(entry.id@) && shown[entry.id@].storage_id@ == entry.storage_id@
            && shown[entry.id@].revision == entry.revision {
            earlier.push(entry.id@)
        } else {
            earlier
        }
    }
}

fn unchanged_ids(list: &Vec<MessageDescriptor>, shown: &Table<String, MessageDescriptor>) -> (res: Vec<String>)
    requires
        shown.wf(),
    ensures
        text::seq_view(res@) == unchanged_in(list@, shown@),
{
    let mut out: Vec<String> = Vec::new();
    let mut i: usize = 0;
    assert(list@.take(0) =~= Seq::<MessageDescriptor>::empty());
    assert(text::seq_view(out@) =~= Seq::<Seq<char>>::empty());
    while i < list.len()
        invariant
            i <= list.len(),
            shown.wf(),
            text::seq_view(out@) == unchanged_in(list@.take(i as int), shown@),
        decreases list.len() - i,
    {
        let ghost before = text::seq_view(out@);
        assert(list@.take(i + 1).drop_last() =~= list@.take(i as int));
        let entry = &list[i];
        match shown.get(&entry.id) {
            Some(old) => {
                if text::same(old.storage_id.as_str(), entry.storage_id.as_str()) && old.revision
                    == entry.revision {
                    out.push(entry.id.clone());
                    assert(text::seq_view(out@) =~= before.push(entry.id@));
                }
            },
            None => {},
        }
        i += 1;
    }
    assert(list@.take(i as int) =~= list@);
    out
}

/// The descriptors of a window once a page was taken in.
pub open spec fn taken_in(map: Map<Seq<char>, MessageDescriptor>, list: Seq<MessageDescriptor>) -> Map<Seq<char>, MessageDescriptor>
    decreases list.len(),
{
    if list.len() == 0 {
        map
    } else {
        taken_in(map, list.drop_last()).insert(list.last().id@, list.last())
    }
}

pub(crate) fn take_in(table: &mut Table<String, MessageDescriptor>, list: Vec<MessageDescriptor>)
    requires
        old(table).wf(),
        keyed_by_id(old(table)@),
    ensures
        final(table).wf(),
        keyed_by_id(final(table)@),
        final(table)@ == taken_in(old(table)@, list@),
{
    let ghost all = list@;
    let mut list = list;
    let ghost mut done: int = 0;
    assert(all.take(0) =~= Seq::<MessageDescriptor>::empty());
    assert(list@ =~= all.skip(0));
    while list.len() > 0
        invariant
            0 <= done <= all.len(),
            list@ == all.skip(done),
            table.wf(),
            keyed_by_id(table@),
            table@ == taken_in(old(table)@, all.take(done)),
        decreases list@.len(),
    {
        let entry = list.remove(0);
        assert(entry == all[done]);
        assert(list@ =~= all.skip(done + 1));
        assert(all.take(done + 1).drop_last() =~= all.take(done));
        table.insert(entry.id.clone(), entry);
        proof {
            done = done + 1;
        }
    }
    assert(all.take(done) =~= all);
}

/// Which part of a sorted list a window keeps: the older end when older messages were asked for,
/// the newer end otherwise.
pub open spec fn window_of(list: Seq<MessageDescriptor>, direction: PageDirection) -> Seq<MessageDescriptor> {
    if list.len() <= WINDOW_MESSAGES {
        list
    } else if direction == PageDirection::Older {
        list.take(WINDOW_MESSAGES as int)
    } else {
        list.skip(list.len() - WINDOW_MESSAGES)
    }
}

/// A window is never larger than its limit, and what it keeps of a sorted list is a stretch of it
/// without gaps.
pub proof fn law_windows_stay_small(list: Seq<MessageDescriptor>, direction: PageDirection)
    requires
        in_sequence(list),
        listed_once(list),
    ensures
        window_of(list, direction).len() <= WINDOW_MESSAGES,
        in_sequence(window_of(list, direction)),
        listed_once(window_of(list, direction)),
        list.len() <= WINDOW_MESSAGES ==> window_of(list, direction) == list,
        exists|start: int|
            0 <= start <= list.len() - window_of(list, direction).len() && window_of(list, direction)
                == #[trigger] list.subrange(start, start + window_of(list, direction).len()),
{
    let window = window_of(list, direction);
    let start = if list.len() <= WINDOW_MESSAGES || direction == PageDirection::Older {
        0
    } else {
        list.len() - WINDOW_MESSAGES
    };
    assert(window =~= list.subrange(start, start + window.len()));
    assert forall|i: int, j: int| 0 <= i <= j < window.len() implies (#[trigger] window[i]).sequence
        <= (#[trigger] window[j]).sequence by {
        assert(window[i] == list[start + i]);
        assert(window[j] == list[start + j]);
    }
    assert forall|i: int, j: int| 0 <= i < j < window.len() implies (#[trigger] window[i]).id@ != (
    #[trigger] window[j]).id@ by {
        assert(window[i] == list[start + i]);
        assert(window[j] == list[start + j]);
    }
}

fn trim(list: Vec<MessageDescriptor>, direction: PageDirection) -> (res: Vec<MessageDescriptor>)
    ensures
        res@ == window_of(list@, direction),
{
    if list.len() <= WINDOW_MESSAGES {
        return list;
    }
    let start: usize = match direction {
        PageDirection::Older => 0,
        _ => list.len() - WINDOW_MESSAGES,
    };
    let mut out: Vec<MessageDescriptor> = Vec::new();
    let mut i: usize = 0;
    while i < WINDOW_MESSAGES
        invariant
            i <= WINDOW_MESSAGES,
            start + WINDOW_MESSAGES <= list.len(),
            out@ == list@.subrange(start as int, start + i),
        decreases WINDOW_MESSAGES - i,
    {
        out.push(list[start + i].duplicate());
        i += 1;
        assert(out@ =~= list@.subrange(start as int, start + i));
    }
    assert(out@ =~= window_of(list@, direction));
    out
}

/// A place right behind or before a descriptor.
pub open spec fn cursor_at(cursor: Option<HistoryCursor>, conversation: Seq<char>, branch: Seq<char>, revision: u64, sequence: u64) -> bool {
    &&& cursor is Some
    &&& cursor->0.conversation_id@ == conversation
    &&& cursor->0.branch_id@ == branch
    &&& cursor->0.revision == revision
    &&& cursor->0.before_sequence == sequence
}

impl HistoryPageState {
    /// The descriptors that a page leaves, in order and before the window is cut.
    pub open spec fn merged(self, page: MessagePage, direction: PageDirection) -> Map<Seq<char>, MessageDescriptor> {
        taken_in(
            if direction.fresh() {
                Map::empty()
            } else {
                self.descriptions@
            },
            page.messages@,
        )
    }

    /// The window once a page was merged into it. `list` is what it now shows, in order; `full`
    /// what it would show without its limit.
    pub open spec fn merged_from(
        self,
        before: HistoryPageState,
        page: MessagePage,
        direction: PageDirection,
        conversation: Seq<char>,
        branch: Seq<char>,
        full: Seq<MessageDescriptor>,
        list: Seq<MessageDescriptor>,
    ) -> bool {
        let ids = ids_of(list);
        let still = unchanged_in(page.messages@, before.descriptions@);
        let fresh = direction.fresh();
        &&& self == (HistoryPageState {
            descriptions: self.descriptions,
            before: self.before,
            after: self.after,
            bodies: self.bodies,
            body_leases: self.body_leases,
            body_errors: self.body_errors,
            body_revisions: self.body_revisions,
            body_tokens: self.body_tokens,
            sections: self.sections,
            body_tasks: self.body_tasks,
            ..before
        })
        &&& in_sequence(full)
        &&& lists_all_of(full, before.merged(page, direction))
        &&& list == window_of(full, direction)
        &&& self.descriptions@ == kept_of(before.merged(page, direction), ids)
        &&& self.bodies@ == kept_of(
            if fresh {
                kept_of(before.bodies@, still)
            } else {
                before.bodies@
            },
            ids,
        )
        &&& self.body_leases@ == kept_of(
            if fresh {
                kept_of(before.body_leases@, still)
            } else {
                before.body_leases@
            },
            ids,
        )
        &&& self.body_errors@ == kept_of(before.body_errors@, ids)
        &&& self.body_tasks@ == kept_of(before.body_tasks@, ids)
        &&& self.sections@ == if fresh {
            Map::empty()
        } else {
            kept_of(before.sections@, ids)
        }
        &&& self.body_revisions@ == if fresh {
            Map::empty()
        } else {
            kept_of(before.body_revisions@, ids)
        }
        &&& self.body_tokens@ == if fresh {
            Map::empty()
        } else {
            kept_of(before.body_tokens@, ids)
        }
        &&& if full.len() > WINDOW_MESSAGES && direction != PageDirection::Older {
            cursor_at(self.before, conversation, branch, page.revision, list[0].sequence)
        } else if direction == PageDirection::Newer {
            self.before == before.before
        } else {
            self.before == page.before
        }
        &&& if full.len() > WINDOW_MESSAGES && direction == PageDirection::Older {
            cursor_at(self.after, conversation, branch, page.revision, list.last().sequence)
        } else if direction == PageDirection::Older {
            self.after == before.after
        } else {
            self.after == page.after
        }
    }

    fn start_over(&mut self, still: &Vec<String>)
        requires
            old(self).wf(),
        ensures
            final(self).wf(),
            *final(self) == (HistoryPageState {
                descriptions: final(self).descriptions,
                bodies: final(self).bodies,
                body_leases: final(self).body_leases,
                body_revisions: final(self).body_revisions,
                body_tokens: final(self).body_tokens,
                sections: final(self).sections,
                ..*old(self)
            }),
            final(self).descriptions@ == Map::<Seq<char>, MessageDescriptor>::empty(),
            final(self).sections@ == Map::<Seq<char>, u64>::empty(),
            final(self).body_revisions@ == Map::<Seq<char>, u64>::empty(),
            final(self).body_tokens@ == Map::<Seq<char>, u64>::empty(),
            final(self).bodies@ == kept_of(old(self).bodies@, text::seq_view(still@)),
            final(self).body_leases@ == kept_of(old(self).body_leases@, text::seq_view(still@)),
    {
        keep_ids(&mut self.bodies, still);
        keep_ids(&mut self.body_leases, still);
        self.descriptions.clear();
        self.sections.clear();
        self.body_revisions.clear();
        self.body_tokens.clear();
    }

    fn keep_window(&mut self, ids: &Vec<String>)
        requires
            old(self).wf(),
        ensures
            final(self).wf(),
            ({
                let kept = text::seq_view(ids@);
                &&& *final(self) == (HistoryPageState {
                    descriptions: final(self).descriptions,
                    bodies: final(self).bodies,
                    body_leases: final(self).body_leases,
                    body_errors: final(self).body_errors,
                    body_revisions: final(self).body_revisions,
                    body_tokens: final(self).body_tokens,
                    sections: final(self).sections,
                    body_tasks: final(self).body_tasks,
                    ..*old(self)
                })
                &&& final(self).descriptions@ == kept_of(old(self).descriptions@, kept)
                &&& final(self).bodies@ == kept_of(old(self).bodies@, kept)
                &&& final(self).body_leases@ == kept_of(old(self).body_leases@, kept)
                &&& final(self).body_errors@ == kept_of(old(self).body_errors@, kept)
                &&& final(self).body_revisions@ == kept_of(old(self).body_revisions@, kept)
                &&& final(self).body_tokens@ == kept_of(old(self).body_tokens@, kept)
                &&& final(self).sections@ == kept_of(old(self).sections@, kept)
                &&& final(self).body_tasks@ == kept_of(old(self).body_tasks@, kept)
            }),
    {
        keep_ids(&mut self.descriptions, ids);
        keep_ids(&mut self.bodies, ids);
        keep_ids(&mut self.body_leases, ids);
        keep_ids(&mut self.sections, ids);
        keep_ids(&mut self.body_errors, ids);
        keep_ids(&mut self.body_revisions, ids);
        keep_ids(&mut self.body_tokens, ids);
        keep_ids(&mut self.body_tasks, ids);
    }

    /// Merges a page into the window and returns what it now shows, in order.
    pub fn merge(
        &mut self,
        page: MessagePage,
        direction: PageDirection,
        conversation: &str,
        branch: &str,
    ) -> (res: Vec<MessageDescriptor>)
        requires
            old(self).wf(),
        ensures
            final(self).wf(),
            exists|full: Seq<MessageDescriptor>| #[trigger]
                final(self).merged_from(
                    *old(self),
                    page,
                    direction,
                    conversation@,
                    branch@,
                    full,
                    res@,
                ),
    {
        let fresh = direction.is_fresh();
        if fresh {
            let still = unchanged_ids(&page.messages, &self.descriptions);
            self.start_over(&still);
        }
        let ghost incoming = page.messages@;
        take_in(&mut self.descriptions, page.messages);
        match direction {
            PageDirection::Older => {
                self.before = page.before;
            },
            PageDirection::Newer => {
                self.after = page.after;
            },
            _ => {
                self.before = page.before;
                self.after = page.after;
            },
        }
        let all = sorted_descriptions(&self.descriptions);
        let ghost full = all@;
        let cut = all.len() > WINDOW_MESSAGES;
        let list = trim(all, direction);
        if cut {
            match direction {
                PageDirection::Older => {
                    self.after = Some(
                        HistoryCursor {
                            conversation_id: conversation.to_owned(),
                            branch_id: branch.to_owned(),
                            revision: page.revision,
                            before_sequence: list[list.len() - 1].sequence,
                        },
                    );
                },
                _ => {
                    self.before = Some(
                        HistoryCursor {
                            conversation_id: conversation.to_owned(),
                            branch_id: branch.to_owned(),
                            revision: page.revision,
                            before_sequence: list[0].sequence,
                        },
                    );
                },
            }
        }
        let ids = list_ids(&list);
        let ghost wide = *self;
        self.keep_window(&ids);
        proof {
            assert(kept_of(Map::<Seq<char>, u64>::empty(), ids_of(list@)) =~= Map::empty());
            assert(self.merged_from(
                *old(self),
                page,
                direction,
                conversation@,
                branch@,
                full,
                list@,
            ));
        }
        list
    }
}

/// What stands in for a message that has not been read from the store.
pub open spec fn is_preview(message: AiChatMessage, entry: MessageDescriptor) -> bool {
    message.is_plain(entry.id@, entry.role, entry.preview@, entry.timestamp_ms)
}

pub fn preview_message(entry: &MessageDescriptor) -> (res: AiChatMessage)
    ensures
        is_preview(res, *entry),
{
    AiChatMessage::plain(entry.id.clone(), entry.role, entry.preview.clone(), entry.timestamp_ms)
}

} // verus!
