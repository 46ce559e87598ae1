//! The detail view of a run.

use vstd::prelude::*;

use crate::ai::messages::{AiChatMessage, AiChatRole};
use crate::ai_state::entity::{AgentCommunicationView, AiWorkspaceEntity};
use crate::ai_state::model::{
    AgentMessage, AgentRecord, AgentRunRef, AgentState, HistoryViewOwner, MessageDescriptor,
    ViewOwner,
};
use crate::ai_state::window::{in_sequence, lists_all_of, sorted_descriptions};
use crate::table::Key;
use crate::text;
use crate::workspace::agent_groups::{agent_usage_label, state_key, state_label, usage_text};
use crate::workspace::app::WorkspaceApp;
use crate::workspace::labels::{Label, Piece, PieceView};

verus! {

/// What the detail view says of its messages.
#[derive(Clone, Copy, PartialEq, Eq, Structural, Debug)]
pub enum DetailNotice {
    Nothing,
    Loading,
    Failed,
}

/// A run of the same agent.
pub struct RunLine {
    pub run_id: String,
    pub status: String,
}

/// A message between agents: who sent it and who got it, the key of the text that says whether it
/// was taken up, and the rest of it where it goes on.
pub struct TalkLine {
    pub sender: Piece,
    pub recipient: Piece,
    pub status: String,
    pub message: AiChatMessage,
    pub more: Option<u64>,
}

/// How an agent of a conversation is named: the run by its title, and its parent as such.
pub open spec fn party(agent: Seq<char>, run: AgentRunRef, title: Seq<char>) -> PieceView {
    if agent == run.agent_id@ {
        PieceView::Plain(title)
    } else {
        PieceView::Translated("ai.agents.parent"@)
    }
}

fn name_party(agent: &String, run: &AgentRunRef, title: &String) -> (res: Piece)
    ensures
        res@ == party(agent@, *run, title@),
{
    if text::same(agent.as_str(), run.agent_id.as_str()) {
        Piece::Plain(title.clone())
    } else {
        Piece::Translated("ai.agents.parent".to_owned())
    }
}

/// What a run said to other agents, and which pages can be turned.
pub struct TalkView {
    pub older: bool,
    pub newer: bool,
    pub retry: bool,
    pub loading: bool,
    pub failed: bool,
    pub line: Option<TalkLine>,
}

/// What a run works on.
pub struct AgentContext {
    pub provider_id: String,
    pub model: String,
    pub targets: String,
    pub task: AiChatMessage,
    pub runs: Vec<RunLine>,
    pub talk: Option<TalkView>,
    pub usage: Label,
}

/// The detail view of a run. `live` names the messages that are shown as they are in memory, behind
/// the stored ones.
pub struct AgentDetailView {
    pub run: AgentRunRef,
    pub title: String,
    pub status: String,
    pub can_stop: bool,
    pub offers_model: bool,
    pub shows_models: bool,
    pub notice: DetailNotice,
    pub stored: Vec<MessageDescriptor>,
    pub live: Vec<String>,
    pub older: bool,
    pub newer: bool,
    pub context: Option<AgentContext>,
}

/// Whether a run is one of the same agent.
pub open spec fn is_sibling(record: AgentRecord, run: AgentRunRef) -> bool {
    record.snapshot.run.agent_id@ == run.agent_id@ && record.snapshot.run.group_id@ == run.group_id@
}

/// Where a run goes in a list that is ordered by the time runs were made: behind those that are not
/// later.
pub open spec fn run_slot(rows: Seq<usize>, entries: Seq<(String, AgentRecord)>, at: int) -> int
    decreases rows.len(),
{
    if rows.len() == 0 {
        0
    } else if entries[rows.last() as int].1.created_at_ms <= entries[at].1.created_at_ms {
        rows.len() as int
    } else {
        run_slot(rows.drop_last(), entries, at)
    }
}

/// The runs of an agent, in the order they were made.
pub open spec fn runs_of(entries: Seq<(String, AgentRecord)>, n: int, run: AgentRunRef) -> Seq<usize>
    decreases n,
{
    if n <= 0 {
        Seq::empty()
    } else {
        let earlier = runs_of(entries, n - 1, run);
        if is_sibling(entries[n - 1].1, run) {
            earlier.insert(run_slot(earlier, entries, n - 1), (n - 1) as usize)
        } else {
            earlier
        }
    }
}

proof fn lemma_run_slot(rows: Seq<usize>, entries: Seq<(String, AgentRecord)>, at: int)
    ensures
        0 <= run_slot(rows, entries, at) <= rows.len(),
    decreases rows.len(),
{
    if rows.len() > 0 {
        lemma_run_slot(rows.drop_last(), entries, at);
    }
}

proof fn lemma_runs_in_range(entries: Seq<(String, AgentRecord)>, n: int, run: AgentRunRef)
    requires
        0 <= n <= entries.len() <= usize::MAX,
    ensures
        runs_of(entries, n, run).len() <= n,
        forall|r: int|
            0 <= r < runs_of(entries, n, run).len() ==> (#[trigger] runs_of(entries, n, run)[r]) < n,
    decreases n,
{
    if n > 0 {
        lemma_runs_in_range(entries, n - 1, run);
        let earlier = runs_of(entries, n - 1, run);
        lemma_run_slot(earlier, entries, n - 1);
        if is_sibling(entries[n - 1].1, run) {
            let slot = run_slot(earlier, entries, n - 1);
            let now = runs_of(entries, n, run);
            assert forall|r: int| 0 <= r < now.len() implies (#[trigger] now[r]) < n by {
                if r < slot {
                    assert(now[r] == earlier[r]);
                } else if r > slot {
                    assert(now[r] == earlier[r - 1]);
                }
            }
        }
    }
}

/// The rows are in the order the runs were made.
pub open spec fn in_time_order(rows: Seq<usize>, entries: Seq<(String, AgentRecord)>) -> bool {
    forall|r: int, s: int|
        0 <= r < s < rows.len() ==> entries[(#[trigger] rows[r]) as int].1.created_at_ms
            <= entries[(#[trigger] rows[s]) as int].1.created_at_ms
}

proof fn lemma_slot_splits(rows: Seq<usize>, entries: Seq<(String, AgentRecord)>, at: int)
    requires
        in_time_order(rows, entries),
    ensures
        ({
            let slot = run_slot(rows, entries, at);
            &&& 0 <= slot <= rows.len()
            &&& forall|r: int|
                0 <= r < slot ==> entries[(#[trigger] rows[r]) as int].1.created_at_ms
                    <= entries[at].1.created_at_ms
            &&& forall|r: int|
                slot <= r < rows.len() ==> entries[at].1.created_at_ms < entries[(
                #[trigger] rows[r]) as int].1.created_at_ms
        }),
    decreases rows.len(),
{
    if rows.len() > 0 {
        let rest = rows.drop_last();
        if entries[rows.last() as int].1.created_at_ms <= entries[at].1.created_at_ms {
            assert forall|r: int| 0 <= r < rows.len() implies entries[(#[trigger] rows[r]) as int].1.created_at_ms
                <= entries[at].1.created_at_ms by {
                if r < rows.len() - 1 {
                    assert(entries[rows[r] as int].1.created_at_ms
                        <= entries[rows[rows.len() - 1] as int].1.created_at_ms);
                }
            }
        } else {
            assert forall|r: int, s: int| 0 <= r < s < rest.len() implies entries[(
            #[trigger] rest[r]) as int].1.created_at_ms <= entries[(
            #[trigger] rest[s]) as int].1.created_at_ms by {
                assert(rest[r] == rows[r] && rest[s] == rows[s]);
            }
            lemma_slot_splits(rest, entries, at);
            let slot = run_slot(rest, entries, at);
            assert forall|r: int| slot <= r < rows.len() implies entries[at].1.created_at_ms < entries[(
            #[trigger] rows[r]) as int].1.created_at_ms by {
                if r < rest.len() {
                    assert(rest[r] == rows[r]);
                }
            }
            assert forall|r: int| 0 <= r < slot implies entries[(#[trigger] rows[r]) as int].1.created_at_ms
                <= entries[at].1.created_at_ms by {
                assert(rest[r] == rows[r]);
            }
        }
    }
}

/// The runs of an agent are listed in the order they were made.
pub proof fn law_runs_are_in_order(entries: Seq<(String, AgentRecord)>, n: int, run: AgentRunRef)
    requires
        0 <= n <= entries.len() <= usize::MAX,
    ensures
        in_time_order(runs_of(entries, n, run), entries),
    decreases n,
{
    if n > 0 {
        law_runs_are_in_order(entries, n - 1, run);
        let earlier = runs_of(entries, n - 1, run);
        lemma_slot_splits(earlier, entries, n - 1);
        if is_sibling(entries[n - 1].1, run) {
            let slot = run_slot(earlier, entries, n - 1);
            let now = runs_of(entries, n, run);
            assert forall|r: int, s: int| 0 <= r < s < now.len() implies entries[(
            #[trigger] now[r]) as int].1.created_at_ms <= entries[(
            #[trigger] now[s]) as int].1.created_at_ms by {
                let a = if r < slot {
                    r
                } else {
                    r - 1
                };
                let b = if s < slot {
                    s
                } else {
                    s - 1
                };
                if r != slot {
                    assert(now[r] == earlier[a]);
                }
                if s != slot {
                    assert(now[s] == earlier[b]);
                }
            }
        }
    }
}

fn find_runs(entries: &Vec<(String, AgentRecord)>, run: &AgentRunRef) -> (res: Vec<usize>)
    ensures
        res@ == runs_of(entries@, entries@.len() as int, *run),
        forall|r: int| 0 <= r < res@.len() ==> (#[trigger] res@[r]) < entries@.len(),
{
    let mut rows: Vec<usize> = Vec::new();
    let mut at: usize = 0;
    while at < entries.len()
        invariant
            at <= entries.len(),
            rows@ == runs_of(entries@, at as int, *run),
        decreases entries.len() - at,
    {
        let record = &entries[at].1;
        proof {
            lemma_runs_in_range(entries@, at as int, *run);
        }
        if text::same(record.snapshot.run.agent_id.as_str(), run.agent_id.as_str()) && text::same(
            record.snapshot.run.group_id.as_str(),
            run.group_id.as_str(),
        ) {
            let mut slot: usize = rows.len();
            assert(rows@.take(slot as int) =~= rows@);
            while slot > 0 && entries[rows[slot - 1]].1.created_at_ms > record.created_at_ms
                invariant
                    at < entries.len(),
                    *record == entries@[at as int].1,
                    slot <= rows.len(),
                    forall|r: int| 0 <= r < rows@.len() ==> (#[trigger] rows@[r]) < at,
                    run_slot(rows@, entries@, at as int) == run_slot(
                        rows@.take(slot as int),
                        entries@,
                        at as int,
                    ),
                decreases slot,
            {
                assert(rows@.take(slot as int).drop_last() =~= rows@.take(slot - 1));
                assert(rows@.take(slot as int).last() == rows@[slot - 1]);
                slot = slot - 1;
            }
            proof {
                if slot > 0 {
                    assert(rows@.take(slot as int).last() == rows@[slot - 1]);
                }
            }
            rows.insert(slot, at);
        }
        at = at + 1;
    }
    proof {
        lemma_runs_in_range(entries@, at as int, *run);
    }
    rows
}

pub open spec fn run_lines(rows: Seq<usize>, entries: Seq<(String, AgentRecord)>) -> Seq<(Seq<char>, Seq<char>)> {
    rows.map_values(
        |row: usize|
            (
                entries[row as int].1.snapshot.run.run_id@,
                state_key(entries[row as int].1.snapshot.state),
            ),
    )
}

pub open spec fn run_lines_view(lines: Seq<RunLine>) -> Seq<(Seq<char>, Seq<char>)> {
    lines.map_values(|line: RunLine| (line.run_id@, line.status@))
}

/// The other runs of an agent, where there are any.
pub open spec fn shown_runs(entries: Seq<(String, AgentRecord)>, run: AgentRunRef) -> Seq<(Seq<char>, Seq<char>)> {
    let rows = runs_of(entries, entries.len() as int, run);
    if rows.len() > 1 {
        run_lines(rows, entries)
    } else {
        Seq::empty()
    }
}

fn list_runs(entries: &Vec<(String, AgentRecord)>, run: &AgentRunRef) -> (res: Vec<RunLine>)
    ensures
        run_lines_view(res@) == shown_runs(entries@, *run),
{
    let rows = find_runs(entries, run);
    let mut lines: Vec<RunLine> = Vec::new();
    if rows.len() > 1 {
        let mut at: usize = 0;
        while at < rows.len()
            invariant
                at <= rows.len(),
                forall|r: int| 0 <= r < rows@.len() ==> (#[trigger] rows@[r]) < entries@.len(),
                run_lines_view(lines@) =~= run_lines(rows@, entries@).take(at as int),
            decreases rows.len() - at,
        {
            let snapshot = &entries[rows[at]].1.snapshot;
            let ghost before = lines@;
            lines.push(
                RunLine {
                    run_id: snapshot.run.run_id.clone(),
                    status: state_label(snapshot.state).to_owned(),
                },
            );
            assert(run_lines_view(lines@) =~= run_lines_view(before).push(
                run_lines(rows@, entries@)[at as int],
            ));
            at = at + 1;
        }
        assert(run_lines(rows@, entries@).take(at as int) =~= run_lines(rows@, entries@));
    }
    assert(rows@.len() <= 1 ==> run_lines_view(lines@) =~= Seq::<(Seq<char>, Seq<char>)>::empty());
    lines
}

/// The line of a message between agents.
pub open spec fn is_talk_line(line: TalkLine, sequence: u64, message: AgentMessage, more: Option<u64>, run: AgentRunRef, title: Seq<char>) -> bool {
    &&& line.sender@ == party(message.from_agent@, run, title)
    &&& line.recipient@ == party(message.to_agent@, run, title)
    &&& line.more == more
    &&& line.status@ == if message.consumed {
        "ai.agents.consumed"@
    } else {
        "ai.agents.received"@
    }
    &&& line.message.is_plain(
        "agent-communication-"@ + text::decimal(sequence as nat),
        AiChatRole::Assistant,
        message.text@,
        0,
    )
}

/// What the detail view shows of a run's communication. Nothing can be turned while a page is read.
pub open spec fn is_talk(talk: TalkView, view: AgentCommunicationView, run: AgentRunRef, title: Seq<char>) -> bool {
    &&& talk.older == (view.page is Some && view.page->0.before is Some && !view.loading)
    &&& talk.newer == (view.cursors@.len() > 1 && !view.loading)
    &&& talk.retry == (view.failed && !view.loading)
    &&& talk.loading == view.loading
    &&& talk.failed == view.failed
    &&& match view.page {
        Some(page) => talk.line is Some && is_talk_line(
            talk.line->0,
            page.sequence,
            page.message,
            page.more,
            run,
            title,
        ),
        None => talk.line is None,
    }
}

fn show_talk(view: &AgentCommunicationView, run: &AgentRunRef, title: &String) -> (res: TalkView)
    ensures
        is_talk(res, *view, *run, title@),
{
    let earlier = match &view.page {
        Some(page) => page.before.is_some(),
        None => false,
    };
    let line = match &view.page {
        Some(page) => {
            let number = text::number(page.sequence);
            let status = if page.message.consumed {
                "ai.agents.consumed"
            } else {
                "ai.agents.received"
            };
            Some(
                TalkLine {
                    sender: name_party(&page.message.from_agent, run, title),
                    recipient: name_party(&page.message.to_agent, run, title),
                    status: status.to_owned(),
                    message: AiChatMessage::plain(
                        text::joined("agent-communication-", number.as_str()),
                        AiChatRole::Assistant,
                        page.message.text.clone(),
                        0,
                    ),
                    more: page.more,
                },
            )
        },
        None => None,
    };
    TalkView {
        older: earlier && !view.loading,
        newer: view.cursors.len() > 1 && !view.loading,
        retry: view.failed && !view.loading,
        loading: view.loading,
        failed: view.failed,
        line,
    }
}

/// The messages of a run that are shown as they are in memory. Those in `unreadable` cannot be.
pub open spec fn live_of(ai: AiWorkspaceEntity, owner: HistoryViewOwner, messages: Seq<AiChatMessage>, unreadable: Seq<Seq<char>>) -> Seq<Seq<char>>
    decreases messages.len(),
{
    if messages.len() == 0 {
        Seq::empty()
    } else {
        let earlier = live_of(ai, owner, messages.drop_last(), unreadable);
        let id = messages.last().id@;
        if ai.shows_live(owner, id) && !unreadable.contains(id) {
            earlier.push(id)
        } else {
            earlier
        }
    }
}

/// The stored messages that are not shown from memory.
pub open spec fn not_live(list: Seq<MessageDescriptor>, live: Seq<Seq<char>>) -> Seq<MessageDescriptor>
    decreases list.len(),
{
    if list.len() == 0 {
        Seq::empty()
    } else {
        let earlier = not_live(list.drop_last(), live);
        if live.contains(list.last().id@) {
            earlier
        } else {
            earlier.push(list.last())
        }
    }
}

fn drop_live(list: Vec<MessageDescriptor>, live: &Vec<String>) -> (res: Vec<MessageDescriptor>)
    ensures
        res@ == not_live(list@, text::seq_view(live@)),
{
    let mut out: Vec<MessageDescriptor> = Vec::new();
    let mut at: usize = 0;
    assert(list@.take(0) =~= Seq::<MessageDescriptor>::empty());
    while at < list.len()
        invariant
            at <= list.len(),
            out@ == not_live(list@.take(at as int), text::seq_view(live@)),
        decreases list.len() - at,
    {
        assert(list@.take(at + 1).drop_last() =~= list@.take(at as int));
        if !text::list_contains(live, list[at].id.as_str()) {
            out.push(list[at].duplicate());
        }
        at = at + 1;
    }
    assert(list@.take(at as int) =~= list@);
    out
}

fn find_live(ai: &AiWorkspaceEntity, owner: &HistoryViewOwner, messages: &Vec<AiChatMessage>, unreadable: &Vec<String>) -> (res: Vec<String>)
    requires
        ai.wf(),
    ensures
        text::seq_view(res@) == live_of(*ai, *owner, messages@, text::seq_view(unreadable@)),
{
    let mut out: Vec<String> = Vec::new();
    let mut at: usize = 0;
    assert(messages@.take(0) =~= Seq::<AiChatMessage>::empty());
    assert(text::seq_view(out@) =~= Seq::<Seq<char>>::empty());
    while at < messages.len()
        invariant
            ai.wf(),
            at <= messages.len(),
            text::seq_view(out@) == live_of(
                *ai,
                *owner,
                messages@.take(at as int),
                text::seq_view(unreadable@),
            ),
        decreases messages.len() - at,
    {
        assert(messages@.take(at + 1).drop_last() =~= messages@.take(at as int));
        let id = &messages[at].id;
        if ai.live_history_view(owner, id.as_str()).is_some() && !text::list_contains(
            unreadable,
            id.as_str(),
        ) {
            let ghost before = out@;
            out.push(id.clone());
            assert(text::seq_view(out@) =~= text::seq_view(before).push(id@));
        }
        at = at + 1;
    }
    assert(messages@.take(at as int) =~= messages@);
    out
}

/// What a run works on, as the detail view says it.
pub open spec fn is_context(context: AgentContext, ai: AiWorkspaceEntity, id: Seq<char>) -> bool {
    let record = ai.agents.records@[id];
    let pages = ai.agents.communication_pages@;
    &&& context.provider_id@ == record.snapshot.model.provider_id@
    &&& context.model@ == record.snapshot.model.model@
    &&& context.targets@ == text::chained(text::seq_view(record.target_labels@), ", "@)
    &&& context.task.is_plain(
        "agent-"@ + id + "-task"@,
        AiChatRole::Assistant,
        record.snapshot.task@,
        0,
    )
    &&& run_lines_view(context.runs@) == shown_runs(
        ai.agents.records.entries@,
        record.snapshot.run,
    )
    &&& if pages.dom().contains(id) {
        context.talk is Some && is_talk(
            context.talk->0,
            pages[id],
            record.snapshot.run,
            record.snapshot.title@,
        )
    } else {
        context.talk is None
    }
    &&& context.usage@ == usage_text(record.snapshot.usage)
}

/// What the detail view shows of a run's messages.
pub open spec fn shows_messages(view: AgentDetailView, ai: AiWorkspaceEntity, id: Seq<char>, unreadable: Seq<Seq<char>>) -> bool {
    let record = ai.agents.records@[id];
    let owner = ViewOwner::Agent(record.snapshot.conversation_id@, id);
    let page = ai.view_of(owner);
    &&& exists|at: HistoryViewOwner|
        at.id() == owner && text::seq_view(view.live@) == #[trigger] live_of(
            ai,
            at,
            record.messages@,
            unreadable,
        )
    &&& view.older == (page is Some && page->0.before is Some)
    &&& view.newer == (page is Some && page->0.after is Some)
    &&& if page is Some && ai.agents.detail_lists@.dom().contains(id) {
        exists|all: Seq<MessageDescriptor>|
            {
                &&& in_sequence(all)
                &&& lists_all_of(all, page->0.descriptions@)
                &&& view.stored@ == #[trigger] not_live(all, text::seq_view(view.live@))
            }
    } else {
        view.stored@.len() == 0
    }
}

/// The detail view of a run.
pub open spec fn is_detail(view: AgentDetailView, ai: AiWorkspaceEntity, id: Seq<char>, context_open: bool, unreadable: Seq<Seq<char>>) -> bool {
    let record = ai.agents.records@[id];
    let state = record.snapshot.state;
    &&& view.run == record.snapshot.run
    &&& view.title@ == record.snapshot.title@
    &&& view.status@ == state_key(state)
    &&& view.can_stop == !state.ended()
    &&& view.offers_model == (state == AgentState::Queued)
    &&& view.shows_models == (state == AgentState::Queued && ai.agents.model_picker_open)
    &&& view.notice == if ai.agents.details_loading@.dom().contains(id) {
        DetailNotice::Loading
    } else if ai.agents.detail_errors@.dom().contains(id) {
        DetailNotice::Failed
    } else {
        DetailNotice::Nothing
    }
    &&& shows_messages(view, ai, id, unreadable)
    &&& if context_open {
        view.context is Some && is_context(view.context->0, ai, id)
    } else {
        view.context is None
    }
}

impl WorkspaceApp {
    /// The message that shows the task of a run.
    fn task_message(&self, id: &String, task: &String) -> (res: AiChatMessage)
        ensures
            res.is_plain("agent-"@ + id@ + "-task"@, AiChatRole::Assistant, task@, 0),
    {
        let start = text::joined("agent-", id.as_str());
        self.render_agent_markdown(text::joined(start.as_str(), "-task"), task.as_str())
    }

    fn agent_context(&self, id: &String, record: &AgentRecord) -> (res: AgentContext)
        requires
            self.ai_entity.wf(),
            self.ai_entity.agents.records@.dom().contains(id@),
            *record == self.ai_entity.agents.records@[id@],
        ensures
            is_context(res, self.ai_entity, id@),
    {
        let agents = &self.ai_entity.agents;
        AgentContext {
            provider_id: record.snapshot.model.provider_id.clone(),
            model: record.snapshot.model.model.clone(),
            targets: text::chain(&record.target_labels, ", "),
            task: self.task_message(id, &record.snapshot.task),
            runs: list_runs(&agents.records.entries, &record.snapshot.run),
            talk: match agents.communication_pages.get(id) {
                Some(view) => Some(show_talk(view, &record.snapshot.run, &record.snapshot.title)),
                None => None,
            },
            usage: agent_usage_label(record.snapshot.usage),
        }
    }

    fn stored_messages(&self, owner: &HistoryViewOwner, live: &Vec<String>) -> (res: Vec<MessageDescriptor>)
        requires
            self.ai_entity.wf(),
        ensures
            match self.ai_entity.view_of(owner.id()) {
                Some(page) => exists|all: Seq<MessageDescriptor>|
                    {
                        &&& in_sequence(all)
                        &&& lists_all_of(all, page.descriptions@)
                        &&& res@ == #[trigger] not_live(all, text::seq_view(live@))
                    },
                None => res@.len() == 0,
            },
    {
        match self.ai_entity.history_view(owner) {
            Some(page) => {
                let all = sorted_descriptions(&page.descriptions);
                let ghost list = all@;
                let rest = drop_live(all, live);
                assert(rest@ == not_live(list, text::seq_view(live@)));
                rest
            },
            None => Vec::new(),
        }
    }

    /// The detail view, where one is open on a run that is known. `context_open` says whether it
    /// shows what the run works on, and `unreadable` lists the messages that cannot be shown from
    /// memory.
    pub fn render_ai_agent_detail(&self, context_open: bool, unreadable: &Vec<String>) -> (res: Option<AgentDetailView>)
        requires
            self.ai_entity.wf(),
        ensures
            match res {
                Some(view) => {
                    &&& self.ai_entity.agents.detail is Some
                    &&& self.ai_entity.agents.records@.dom().contains(
                        self.ai_entity.agents.detail->0@,
                    )
                    &&& is_detail(
                        view,
                        self.ai_entity,
                        self.ai_entity.agents.detail->0@,
                        context_open,
                        text::seq_view(unreadable@),
                    )
                },
                None => self.ai_entity.agents.detail is None
                    || !self.ai_entity.agents.records@.dom().contains(
                    self.ai_entity.agents.detail->0@,
                ),
            },
    {
        let agents = &self.ai_entity.agents;
        let id = match &agents.detail {
            Some(id) => id,
            None => {
                return None;
            },
        };
        let record = match agents.records.get(id) {
            Some(record) => record,
            None => {
                return None;
            },
        };
        let state = record.snapshot.state;
        let owner = HistoryViewOwner::Agent(record.snapshot.conversation_id.clone(), id.clone());
        let live = find_live(&self.ai_entity, &owner, &record.messages, unreadable);
        let stored = if agents.detail_lists.contains(id) {
            self.stored_messages(&owner, &live)
        } else {
            Vec::new()
        };
        let (older, newer) = match self.ai_entity.history_view(&owner) {
            Some(page) => (page.before.is_some(), page.after.is_some()),
            None => (false, false),
        };
        let notice = if agents.details_loading.contains(id) {
            DetailNotice::Loading
        } else if agents.detail_errors.contains(id) {
            DetailNotice::Failed
        } else {
            DetailNotice::Nothing
        };
        let context = if context_open {
            Some(self.agent_context(id, record))
        } else {
            None
        };
        let view = AgentDetailView {
            run: record.snapshot.run.duplicate(),
            title: record.snapshot.title.clone(),
            status: state_label(state).to_owned(),
            can_stop: !state.is_terminal(),
            offers_model: state == AgentState::Queued,
            shows_models: state == AgentState::Queued && agents.model_picker_open,
            notice,
            stored,
            live,
            older,
            newer,
            context,
        };
        assert(shows_messages(view, self.ai_entity, id@, text::seq_view(unreadable@))) by {
            assert(owner.id() == ViewOwner::Agent(record.snapshot.conversation_id@, id@));
            assert(text::seq_view(view.live@) == live_of(
                self.ai_entity,
                owner,
                record.messages@,
                text::seq_view(unreadable@),
            ));
        }
        Some(view)
    }
}

} // verus!
