//! What the store's answer to a write changes.

use vstd::prelude::*;

use crate::ai_state::entity::{
    all_pages_wf, AiHistoryState, AiWorkspaceEntity, HistoryPageState,
};
use crate::ai_state::journal::Changes;
use crate::ai::messages::find_message;
use crate::table::{Key, Table};
use crate::text;

verus! {

/// How far the store knows a streaming message now; `None` where it knows all of it.
pub type StreamBase = ((String, String), Option<u64>);

/// How far the store knows streaming messages once a write is done.
pub open spec fn rebased(map: Map<(Seq<char>, Seq<char>), u64>, streams: Seq<StreamBase>) -> Map<(Seq<char>, Seq<char>), u64>
    decreases streams.len(),
{
    if streams.len() == 0 {
        map
    } else {
        let earlier = rebased(map, streams.drop_last());
        let (name, base) = streams.last();
        match base {
            Some(base) => earlier.insert(name.id(), base),
            None => earlier.remove(name.id()),
        }
    }
}

fn rebase(table: &mut Table<(String, String), u64>, streams: Vec<StreamBase>)
    requires
        old(table).wf(),
    ensures
        final(table).wf(),
        final(table)@ == rebased(old(table)@, streams@),
{
    let ghost all = streams@;
    let mut streams = streams;
    let ghost mut done: int = 0;
    assert(all.take(0) =~= Seq::<StreamBase>::empty());
    assert(streams@ =~= all.skip(0));
    while streams.len() > 0
        invariant
            0 <= done <= all.len(),
            streams@ == all.skip(done),
            table.wf(),
            table@ == rebased(old(table)@, all.take(done)),
        decreases streams@.len(),
    {
        let (name, base) = streams.remove(0);
        assert((name, base) == all[done]);
        assert(streams@ =~= all.skip(done + 1));
        assert(all.take(done + 1).drop_last() =~= all.take(done));
        match base {
            Some(base) => {
                table.insert(name, base);
            },
            None => {
                table.remove(&name);
            },
        }
        proof {
            done = done + 1;
        }
    }
    assert(all.take(done) =~= all);
}

impl AiWorkspaceEntity {
    /// Whether a write put a message of the shown conversation itself on disk.
    pub open spec fn wrote_shown(self, revision: u64) -> bool {
        let pending = self.history.changes.messages@;
        exists|name: (Seq<char>, Seq<char>)| #[trigger]
            pending.dom().contains(name) && text::opt_view(
                self.conversation_state.active_conversation_id,
            ) == Some(name.0) && !self.agents.message_runs@.dom().contains(name.1) && pending[name]
                <= revision
    }

    /// Whether a write put a message of a run on disk.
    pub open spec fn wrote_run(self, run: Seq<char>, revision: u64) -> bool {
        let pending = self.history.changes.messages@;
        exists|name: (Seq<char>, Seq<char>)| #[trigger]
            pending.dom().contains(name) && pending[name] <= revision
                && self.agents.message_runs@.dom().contains(name.1)
                && self.agents.message_runs@[name.1].run@ == run
    }

    fn find_written(&self, revision: u64) -> (res: (bool, bool))
        requires
            self.wf(),
        ensures
            ({
                let (shown, detail) = res;
                &&& shown == self.wrote_shown(revision)
                &&& detail == (self.agents.detail is Some && self.wrote_run(
                    self.agents.detail->0@,
                    revision,
                ))
            }),
    {
        let keys = self.history.changes.messages.keys();
        let mut shown = false;
        let mut detail = false;
        let mut at: usize = 0;
        while at < keys.len()
            invariant
                self.wf(),
                at <= keys.len(),
                forall|i: int|
                    0 <= i < keys@.len() ==> self.history.changes.messages@.dom().contains(
                        (#[trigger] keys@[i]).id(),
                    ),
                forall|name: (Seq<char>, Seq<char>)| #[trigger]
                    self.history.changes.messages@.dom().contains(name) ==> exists|i: int|
                        0 <= i < keys@.len() && (#[trigger] keys@[i]).id() == name,
                shown ==> self.wrote_shown(revision),
                detail ==> self.agents.detail is Some && self.wrote_run(
                    self.agents.detail->0@,
                    revision,
                ),
                forall|i: int|
                    0 <= i < at && !shown ==> !self.is_shown_write((#[trigger] keys@[i]).id(), revision),
                forall|i: int|
                    0 <= i < at && !detail && self.agents.detail is Some ==> !self.is_run_write(
                        (#[trigger] keys@[i]).id(),
                        self.agents.detail->0@,
                        revision,
                    ),
            decreases keys.len() - at,
        {
            let key = &keys[at];
            let written = match self.history.changes.messages.get(key) {
                Some(version) => *version <= revision,
                None => false,
            };
            assert(written == (self.history.changes.messages@[key.id()] <= revision));
            if written {
                match self.agents.message_runs.get(&key.1) {
                    Some(owner) => match &self.agents.detail {
                        Some(run) => {
                            if text::same(owner.run.as_str(), run.as_str()) {
                                assert(self.history.changes.messages@.dom().contains(key.id()));
                                detail = true;
                            }
                        },
                        None => {},
                    },
                    None => match &self.conversation_state.active_conversation_id {
                        Some(active) => {
                            if text::same(active.as_str(), key.0.as_str()) {
                                assert(self.history.changes.messages@.dom().contains(key.id()));
                                shown = true;
                            }
                        },
                        None => {},
                    },
                }
            }
            at = at + 1;
        }
        proof {
            if self.wrote_shown(revision) {
                let name = choose|name: (Seq<char>, Seq<char>)| #[trigger]
                    self.history.changes.messages@.dom().contains(name) && text::opt_view(
                        self.conversation_state.active_conversation_id,
                    ) == Some(name.0) && !self.agents.message_runs@.dom().contains(name.1)
                        && self.history.changes.messages@[name] <= revision;
                let i = choose|i: int| 0 <= i < keys@.len() && (#[trigger] keys@[i]).id() == name;
                assert(self.is_shown_write(keys@[i].id(), revision));
            }
            if self.agents.detail is Some && self.wrote_run(self.agents.detail->0@, revision) {
                let run = self.agents.detail->0@;
                let name = choose|name: (Seq<char>, Seq<char>)| #[trigger]
                    self.history.changes.messages@.dom().contains(name)
                        && self.history.changes.messages@[name] <= revision
                        && self.agents.message_runs@.dom().contains(name.1)
                        && self.agents.message_runs@[name.1].run@ == run;
                let i = choose|i: int| 0 <= i < keys@.len() && (#[trigger] keys@[i]).id() == name;
                assert(self.is_run_write(keys@[i].id(), run, revision));
            }
        }
        (shown, detail)
    }

    spec fn is_shown_write(self, name: (Seq<char>, Seq<char>), revision: u64) -> bool {
        &&& text::opt_view(self.conversation_state.active_conversation_id) == Some(name.0)
        &&& !self.agents.message_runs@.dom().contains(name.1)
        &&& self.history.changes.messages@[name] <= revision
    }

    spec fn is_run_write(self, name: (Seq<char>, Seq<char>), run: Seq<char>, revision: u64) -> bool {
        &&& self.history.changes.messages@[name] <= revision
        &&& self.agents.message_runs@.dom().contains(name.1)
        &&& self.agents.message_runs@[name.1].run@ == run
    }

    /// Whether a message is still being written by a model.
    pub open spec fn streams(self, name: (Seq<char>, Seq<char>)) -> bool {
        let (conversation, id) = name;
        self.message(conversation, id) is Some && self.message(conversation, id)->0.is_streaming
    }

    /// The journal once a write is done.
    pub open spec fn write_acknowledged(self, before: AiWorkspaceEntity, revision: u64, streams: Seq<StreamBase>) -> bool {
        let bases = rebased(before.history.changes.stream_bases@, streams);
        &&& self == (AiWorkspaceEntity {
            history: AiHistoryState {
                write_running: false,
                committed: if revision > before.history.committed {
                    revision
                } else {
                    before.history.committed
                },
                changes: self.history.changes,
                ..before.history
            },
            ..before
        })
        &&& exists|acknowledged: Changes|
            {
                &&& #[trigger] acknowledged.acknowledged_from(before.history.changes, revision)
                &&& self.history.changes == (Changes {
                    stream_bases: self.history.changes.stream_bases,
                    ..acknowledged
                })
            }
        &&& self.history.changes.stream_bases@ == bases.restrict(
            Set::new(|name: (Seq<char>, Seq<char>)| bases.dom().contains(name) && before.streams(name)),
        )
    }

    fn keep_streaming_bases(&mut self, Ghost(before): Ghost<AiWorkspaceEntity>)
        requires
            old(self).wf(),
            old(self).agents == before.agents,
            old(self).conversation_state == before.conversation_state,
        ensures
            final(self).wf(),
            *final(self) == (AiWorkspaceEntity {
                history: AiHistoryState {
                    changes: Changes {
                        stream_bases: final(self).history.changes.stream_bases,
                        ..old(self).history.changes
                    },
                    ..old(self).history
                },
                ..*old(self)
            }),
            final(self).history.changes.stream_bases@ == old(
                self,
            ).history.changes.stream_bases@.restrict(
                Set::new(
                    |name: (Seq<char>, Seq<char>)|
                        old(self).history.changes.stream_bases@.dom().contains(name)
                            && before.streams(name),
                ),
            ),
    {
        let keys = self.history.changes.stream_bases.keys();
        let ghost bases = self.history.changes.stream_bases@;
        let mut at: usize = 0;
        while at < keys.len()
            invariant
                at <= keys.len(),
                self.wf(),
                *self == (AiWorkspaceEntity {
                    history: AiHistoryState {
                        changes: Changes {
                            stream_bases: self.history.changes.stream_bases,
                            ..old(self).history.changes
                        },
                        ..old(self).history
                    },
                    ..*old(self)
                }),
                old(self).agents == before.agents,
                old(self).conversation_state == before.conversation_state,
                bases == old(self).history.changes.stream_bases@,
                forall|name: (Seq<char>, Seq<char>)| #[trigger]
                    bases.dom().contains(name) ==> exists|i: int|
                        0 <= i < keys@.len() && (#[trigger] keys@[i]).id() == name,
                forall|i: int, j: int|
                    0 <= i < j < keys@.len() ==> (#[trigger] keys@[i]).id() != (#[trigger] keys@[j]).id(),
                self.history.changes.stream_bases@.submap_of(bases),
                forall|i: int|
                    0 <= i < at ==> self.history.changes.stream_bases@.dom().contains(
                        (#[trigger] keys@[i]).id(),
                    ) == (bases.dom().contains(keys@[i].id()) && before.streams(keys@[i].id())),
                forall|i: int|
                    at <= i < keys@.len() && bases.dom().contains((#[trigger] keys@[i]).id())
                        ==> self.history.changes.stream_bases@.dom().contains(keys@[i].id()),
            decreases keys.len() - at,
        {
            let key = &keys[at];
            let streaming = match self.history_message(key.0.as_str(), key.1.as_str()) {
                Some(message) => message.is_streaming,
                None => false,
            };
            assert(self.message(key.0@, key.1@) == before.message(key.0@, key.1@));
            assert(streaming == before.streams(key.id()));
            if !streaming {
                self.history.changes.stream_bases.remove(key);
            }
            at = at + 1;
        }
        proof {
            let wanted = Set::new(
                |name: (Seq<char>, Seq<char>)| bases.dom().contains(name) && before.streams(name),
            );
            assert forall|name: (Seq<char>, Seq<char>)|
                self.history.changes.stream_bases@.dom().contains(name) == bases.restrict(
                    wanted,
                ).dom().contains(name) by {
                if bases.dom().contains(name) {
                    let i = choose|i: int| 0 <= i < keys@.len() && (#[trigger] keys@[i]).id() == name;
                    assert(keys@[i].id() == name);
                }
            }
            assert(self.history.changes.stream_bases@ =~= bases.restrict(wanted));
        }
    }

    fn acknowledge_write(&mut self, revision: u64, streams: Vec<StreamBase>)
        requires
            old(self).wf(),
        ensures
            final(self).wf(),
            final(self).write_acknowledged(*old(self), revision, streams@),
    {
        self.history.write_running = false;
        if revision > self.history.committed {
            self.history.committed = revision;
        }
        self.history.changes.acknowledged(revision);
        let ghost acknowledged = self.history.changes;
        assert(acknowledged.acknowledged_from(old(self).history.changes, revision));
        rebase(&mut self.history.changes.stream_bases, streams);
        self.keep_streaming_bases(Ghost(*old(self)));
    }

    /// Whether a window lists a message that the conversation no longer has.
    pub open spec fn lists_missing(self, page: HistoryPageState) -> bool {
        exists|id: Seq<char>| #[trigger]
            page.descriptions@.dom().contains(id) && self.active() is Some
                && !crate::ai::messages::has_message(self.active()->0.messages@, id)
    }

    /// Whether a conversation's window has to be loaded anew whatever was written: there is none, it
    /// shows another branch, or it lists messages that are gone.
    pub open spec fn window_is_stale(self, id: Seq<char>) -> bool {
        if self.history.pages@.dom().contains(id) {
            let page = self.history.pages@[id];
            ||| self.history.branches@.dom().contains(id) && self.history.branches@[id]@
                != page.branch@
            ||| self.lists_missing(page)
        } else {
            true
        }
    }

    fn has_missing(&self, page: &HistoryPageState) -> (res: bool)
        requires
            self.wf(),
            page.wf(),
        ensures
            res == self.lists_missing(*page),
    {
        let messages = match self.active_conversation() {
            Some(conversation) => &conversation.messages,
            None => {
                return false;
            },
        };
        let keys = page.descriptions.keys();
        let mut at: usize = 0;
        while at < keys.len()
            invariant
                at <= keys.len(),
                self.active() is Some,
                *messages == self.active()->0.messages,
                forall|i: int|
                    0 <= i < keys@.len() ==> page.descriptions@.dom().contains((#[trigger] keys@[i]).id()),
                forall|id: Seq<char>| #[trigger]
                    page.descriptions@.dom().contains(id) ==> exists|i: int|
                        0 <= i < keys@.len() && (#[trigger] keys@[i]).id() == id,
                forall|i: int|
                    0 <= i < at ==> crate::ai::messages::has_message(
                        messages@,
                        (#[trigger] keys@[i]).id(),
                    ),
            decreases keys.len() - at,
        {
            if find_message(messages, keys[at].as_str()).is_none() {
                assert(page.descriptions@.dom().contains(keys@[at as int].id()));
                return true;
            }
            at = at + 1;
        }
        false
    }

    fn is_stale(&self, id: &String) -> (res: bool)
        requires
            self.wf(),
        ensures
            res == self.window_is_stale(id@),
    {
        proof {
            reveal(all_pages_wf);
        }
        match self.history.pages.get(id) {
            Some(page) => {
                let moved = match self.history.branches.get(id) {
                    Some(branch) => !text::same(branch.as_str(), page.branch.as_str()),
                    None => false,
                };
                moved || self.has_missing(page)
            },
            None => true,
        }
    }

    /// Whether the shown conversation is loaded anew after a write.
    pub open spec fn refreshes_after(self, before: AiWorkspaceEntity, revision: u64) -> bool {
        match self.conversation_state.active_conversation_id {
            Some(id) => {
                &&& !self.loading_conversations@.dom().contains(id@)
                &&& !self.unsaved(id@)
                &&& before.wrote_shown(revision) || self.window_is_stale(id@)
            },
            None => false,
        }
    }

    /// Whether the detail view is loaded anew after a write.
    pub open spec fn reloads_detail_after(self, before: AiWorkspaceEntity, revision: u64) -> bool {
        match before.agents.detail {
            Some(run) => {
                &&& before.wrote_run(run@, revision)
                &&& self.agents.records@.dom().contains(run@)
                &&& self.agents.records@[run@].snapshot.state.ended()
            },
            None => false,
        }
    }

    /// What a finished write does.
    pub open spec fn write_applied(self, before: AiWorkspaceEntity, revision: u64, streams: Seq<StreamBase>, waiter: u64) -> bool {
        exists|acknowledged: AiWorkspaceEntity, released: AiWorkspaceEntity, detailed: AiWorkspaceEntity|
            {
                &&& #[trigger] acknowledged.write_acknowledged(before, revision, streams)
                &&& #[trigger] released.messages_released(acknowledged)
                &&& #[trigger] detailed.detail_reloaded(
                    released,
                    released.reloads_detail_after(before, revision),
                    waiter,
                )
                &&& if detailed.refreshes_after(before, revision) {
                    let id = detailed.conversation_state.active_conversation_id->0@;
                    self.page_requested(detailed, id, detailed.refresh_direction(id))
                } else {
                    self == detailed
                }
            }
    }

    /// The detail view is loaded anew where that is wanted.
    pub open spec fn detail_reloaded(self, before: AiWorkspaceEntity, wanted: bool, waiter: u64) -> bool {
        if wanted && before.agents.detail is Some {
            self.run_page_requested(before, before.agents.detail->0@, None, waiter)
        } else {
            self == before
        }
    }

    fn reload_detail(&mut self, written: bool, waiter: u64)
        requires
            old(self).wf(),
        ensures
            final(self).wf(),
            final(self).detail_reloaded(
                *old(self),
                written && old(self).agents.detail is Some && old(self).agents.records@.dom().contains(
                    old(self).agents.detail->0@,
                ) && old(self).agents.records@[old(self).agents.detail->0@].snapshot.state.ended(),
                waiter,
            ),
    {
        if !written {
            return;
        }
        let run = match &self.agents.detail {
            Some(run) => run.clone(),
            None => {
                return;
            },
        };
        let ended = match self.agents.records.get(&run) {
            Some(record) => record.snapshot.state.is_terminal(),
            None => false,
        };
        if ended {
            self.load_agent_message_page(&run, None, waiter);
        }
    }

    fn refresh_after(&mut self, shown: bool)
        requires
            old(self).wf(),
            old(self).history.page_generation < u64::MAX,
        ensures
            final(self).wf(),
            match old(self).conversation_state.active_conversation_id {
                Some(id) => if !old(self).loading_conversations@.dom().contains(id@)
                    && !old(self).unsaved(id@) && (shown || old(self).window_is_stale(id@)) {
                    final(self).page_requested(*old(self), id@, old(self).refresh_direction(id@))
                } else {
                    *final(self) == *old(self)
                },
                None => *final(self) == *old(self),
            },
    {
        let id = match &self.conversation_state.active_conversation_id {
            Some(id) => id.clone(),
            None => {
                return;
            },
        };
        if self.loading_conversations.contains(&id) || self.history_has_unsaved_messages(id.as_str()) {
            return;
        }
        if shown || self.is_stale(&id) {
            self.refresh_history_page(id);
        }
    }

    /// A write is done: everything up to `revision` is on disk.
    pub fn apply_written(&mut self, revision: u64, streams: Vec<StreamBase>, waiter: u64)
        requires
            old(self).wf(),
            old(self).history.page_generation < u64::MAX,
        ensures
            final(self).wf(),
            final(self).write_applied(*old(self), revision, streams@, waiter),
    {
        let (shown, detail) = self.find_written(revision);
        self.acknowledge_write(revision, streams);
        let ghost acknowledged = *self;
        self.release_committed_agent_messages();
        let ghost released = *self;
        self.reload_detail(detail, waiter);
        let ghost detailed = *self;
        assert(detailed.detail_reloaded(
            released,
            released.reloads_detail_after(*old(self), revision),
            waiter,
        ));
        assert(detailed.history.page_generation == old(self).history.page_generation);
        self.refresh_after(shown);
        assert(acknowledged.write_acknowledged(*old(self), revision, streams@));
        assert(released.messages_released(acknowledged));
    }
}

} // verus!
