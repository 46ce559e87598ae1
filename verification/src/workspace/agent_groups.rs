//! The runs that a message started, as the chat lists them.

use vstd::prelude::*;

use crate::ai_state::model::{AgentRecord, AgentState, AgentUsage};
use crate::table::Table;
use crate::text;
use crate::workspace::labels::{bare, Label, LabelView};

verus! {

/// The key of the text that names a state.
pub open spec fn state_key(state: AgentState) -> Seq<char> {
    match state {
        AgentState::Queued => "ai.agents.queued"@,
        AgentState::Running => "ai.agents.running"@,
        AgentState::AwaitingApproval => "ai.agents.approval"@,
        AgentState::AwaitingParent => "ai.agents.reply"@,
        AgentState::AwaitingResource => "ai.agents.resource"@,
        AgentState::AwaitingCondition => "settings_view.ai.waiting_condition"@,
        AgentState::AwaitingUser => "settings_view.ai.waiting_user"@,
        AgentState::AwaitingConnection => "settings_view.ai.waiting_connection"@,
        AgentState::Replanning => "settings_view.ai.replanning"@,
        AgentState::Stopping => "ai.agents.stopping"@,
        AgentState::Completed => "ai.agents.completed"@,
        AgentState::Failed => "ai.agents.failed"@,
        AgentState::Cancelled => "ai.agents.cancelled"@,
        AgentState::Interrupted => "ai.agents.interrupted"@,
    }
}

pub fn state_label(state: AgentState) -> (res: &'static str)
    ensures
        res@ == state_key(state),
{
    match state {
        AgentState::Queued => "ai.agents.queued",
        AgentState::Running => "ai.agents.running",
        AgentState::AwaitingApproval => "ai.agents.approval",
        AgentState::AwaitingParent => "ai.agents.reply",
        AgentState::AwaitingResource => "ai.agents.resource",
        AgentState::AwaitingCondition => "settings_view.ai.waiting_condition",
        AgentState::AwaitingUser => "settings_view.ai.waiting_user",
        AgentState::AwaitingConnection => "settings_view.ai.waiting_connection",
        AgentState::Replanning => "settings_view.ai.replanning",
        AgentState::Stopping => "ai.agents.stopping",
        AgentState::Completed => "ai.agents.completed",
        AgentState::Failed => "ai.agents.failed",
        AgentState::Cancelled => "ai.agents.cancelled",
        AgentState::Interrupted => "ai.agents.interrupted",
    }
}

/// How many tokens a run used, where the provider tells both numbers.
pub open spec fn usage_text(usage: AgentUsage) -> LabelView {
    match (usage.input_tokens, usage.output_tokens) {
        (Some(input), Some(output)) => LabelView {
            key: "ai.agents.usage"@,
            values: seq![
                ("input"@, text::decimal(input as nat)),
                ("output"@, text::decimal(output as nat)),
            ],
        },
        _ => bare("ai.agents.usage_unknown"@),
    }
}

pub fn agent_usage_label(usage: AgentUsage) -> (res: Label)
    ensures
        res@ == usage_text(usage),
{
    match (usage.input_tokens, usage.output_tokens) {
        (Some(input), Some(output)) => {
            let res = Label::new("ai.agents.usage").with("input", text::number(input)).with(
                "output",
                text::number(output),
            );
            assert(res@.values =~= usage_text(usage).values);
            res
        },
        _ => Label::new("ai.agents.usage_unknown"),
    }
}

/// The line on what a group used: its parent, its children and all of it.
pub struct GroupUsageLine {
    pub key: &'static str,
    pub parent: Label,
    pub children: Label,
    pub total: Label,
}

/// How the usage of a group reads. `children` and `total` are sums of usages.
pub fn group_usage_label(parent: AgentUsage, children: AgentUsage, total: AgentUsage) -> (res: GroupUsageLine)
    ensures
        res.key@ == "ai.agents.group_usage"@,
        res.parent@ == usage_text(parent),
        res.children@ == usage_text(children),
        res.total@ == usage_text(total),
{
    GroupUsageLine {
        key: "ai.agents.group_usage",
        parent: agent_usage_label(parent),
        children: agent_usage_label(children),
        total: agent_usage_label(total),
    }
}

/// Whether a run was started for a message.
pub open spec fn started_by(record: AgentRecord, message: Seq<char>) -> bool {
    record.parent_message_id@ == message
}

pub open spec fn same_agent(a: AgentRecord, b: AgentRecord) -> bool {
    a.snapshot.run.agent_id@ == b.snapshot.run.agent_id@
}

/// The order of rows: by the time a run was made, and by agent where that is the same.
pub open spec fn row_before(a: AgentRecord, b: AgentRecord) -> bool {
    a.created_at_ms < b.created_at_ms || (a.created_at_ms == b.created_at_ms && text::text_before(
        a.snapshot.run.agent_id@,
        b.snapshot.run.agent_id@,
    ))
}

fn comes_before(a: &AgentRecord, b: &AgentRecord) -> (res: bool)
    ensures
        res == row_before(*a, *b),
{
    a.created_at_ms < b.created_at_ms || (a.created_at_ms == b.created_at_ms && text::before(
        a.snapshot.run.agent_id.as_str(),
        b.snapshot.run.agent_id.as_str(),
    ))
}

/// Whether no run of the same agent for a message among the first `n` is later than the one at `at`.
pub open spec fn is_latest(entries: Seq<(String, AgentRecord)>, n: int, message: Seq<char>, at: int) -> bool {
    &&& 0 <= at < n
    &&& started_by(entries[at].1, message)
    &&& forall|j: int|
        0 <= j < n && started_by((#[trigger] entries[j]).1, message) && same_agent(
            entries[j].1,
            entries[at].1,
        ) ==> entries[j].1.created_at_ms <= entries[at].1.created_at_ms
}

/// One latest run for each agent that has a run for a message.
pub open spec fn picks_latest(rows: Seq<usize>, entries: Seq<(String, AgentRecord)>, n: int, message: Seq<char>) -> bool {
    &&& forall|r: int| 0 <= r < rows.len() ==> is_latest(entries, n, message, (#[trigger] rows[r]) as int)
    &&& forall|r: int, s: int|
        0 <= r < s < rows.len() ==> !same_agent(
            entries[(#[trigger] rows[r]) as int].1,
            entries[(#[trigger] rows[s]) as int].1,
        )
    &&& forall|i: int|
        0 <= i < n && started_by((#[trigger] entries[i]).1, message) ==> exists|r: int|
            0 <= r < rows.len() && same_agent(
                entries[i].1,
                entries[(#[trigger] rows[r]) as int].1,
            )
}

/// The rows are in order.
pub open spec fn in_row_order(rows: Seq<usize>, entries: Seq<(String, AgentRecord)>) -> bool {
    forall|r: int, s: int|
        0 <= r < s < rows.len() ==> row_before(
            entries[(#[trigger] rows[r]) as int].1,
            entries[(#[trigger] rows[s]) as int].1,
        )
}

fn pick_latest(entries: &Vec<(String, AgentRecord)>, message: &str) -> (res: Vec<usize>)
    ensures
        picks_latest(res@, entries@, entries@.len() as int, message@),
{
    let mut rows: Vec<usize> = Vec::new();
    let mut at: usize = 0;
    while at < entries.len()
        invariant
            at <= entries.len(),
            picks_latest(rows@, entries@, at as int, message@),
        decreases entries.len() - at,
    {
        let record = &entries[at].1;
        let ghost before = rows@;
        if text::same(record.parent_message_id.as_str(), message) {
            let mut slot: usize = 0;
            while slot < rows.len() && !text::same(
                entries[rows[slot]].1.snapshot.run.agent_id.as_str(),
                record.snapshot.run.agent_id.as_str(),
            )
                invariant
                    at < entries.len(),
                    *record == entries@[at as int].1,
                    slot <= rows.len(),
                    rows@ == before,
                    picks_latest(before, entries@, at as int, message@),
                    forall|r: int|
                        0 <= r < slot ==> !same_agent(
                            entries@[(#[trigger] before[r]) as int].1,
                            *record,
                        ),
                decreases rows.len() - slot,
            {
                assert(is_latest(entries@, at as int, message@, rows@[slot as int] as int));
                slot = slot + 1;
                if slot < rows.len() {
                    assert(is_latest(entries@, at as int, message@, rows@[slot as int] as int));
                }
            }
            if slot < rows.len() {
                assert(is_latest(entries@, at as int, message@, before[slot as int] as int));
                if entries[rows[slot]].1.created_at_ms < record.created_at_ms {
                    rows.set(slot, at);
                }
            } else {
                rows.push(at);
            }
            proof {
                lemma_pick(before, rows@, entries@, at as int, message@, slot as int);
            }
        } else {
            proof {
                assert forall|r: int| 0 <= r < rows@.len() implies is_latest(
                    entries@,
                    at + 1,
                    message@,
                    (#[trigger] rows@[r]) as int,
                ) by {
                    assert(is_latest(entries@, at as int, message@, rows@[r] as int));
                }
            }
        }
        at = at + 1;
    }
    rows
}

proof fn lemma_pick(
    before: Seq<usize>,
    after: Seq<usize>,
    entries: Seq<(String, AgentRecord)>,
    at: int,
    message: Seq<char>,
    slot: int,
)
    requires
        0 <= at < entries.len() <= usize::MAX,
        picks_latest(before, entries, at, message),
        started_by(entries[at].1, message),
        0 <= slot <= before.len(),
        forall|r: int|
            0 <= r < slot ==> !same_agent(entries[(#[trigger] before[r]) as int].1, entries[at].1),
        slot < before.len() ==> same_agent(entries[before[slot] as int].1, entries[at].1),
        after == if slot == before.len() {
            before.push(at as usize)
        } else if entries[before[slot] as int].1.created_at_ms < entries[at].1.created_at_ms {
            before.update(slot, at as usize)
        } else {
            before
        },
    ensures
        picks_latest(after, entries, at + 1, message),
{
    assert forall|r: int| 0 <= r < after.len() implies is_latest(
        entries,
        at + 1,
        message,
        (#[trigger] after[r]) as int,
    ) by {
        if r < before.len() {
            assert(is_latest(entries, at, message, before[r] as int));
            if r != slot && slot < before.len() {
                if r < slot {
                    assert(!same_agent(entries[before[r] as int].1, entries[before[slot] as int].1));
                } else {
                    assert(!same_agent(entries[before[slot] as int].1, entries[before[r] as int].1));
                }
            }
        } else {
            assert forall|j: int|
                0 <= j < at + 1 && started_by((#[trigger] entries[j]).1, message) && same_agent(
                    entries[j].1,
                    entries[at].1,
                ) implies entries[j].1.created_at_ms <= entries[at].1.created_at_ms by {
                if j < at {
                    let s = choose|s: int|
                        0 <= s < before.len() && same_agent(
                            entries[j].1,
                            entries[(#[trigger] before[s]) as int].1,
                        );
                    assert(!same_agent(entries[before[s] as int].1, entries[at].1));
                }
            }
        }
        if slot < before.len() && r == slot && after[slot] == at {
            assert(is_latest(entries, at, message, before[slot] as int));
            assert forall|j: int|
                0 <= j < at + 1 && started_by((#[trigger] entries[j]).1, message) && same_agent(
                    entries[j].1,
                    entries[at].1,
                ) implies entries[j].1.created_at_ms <= entries[at].1.created_at_ms by {}
        }
    }
    assert forall|r: int, s: int| 0 <= r < s < after.len() implies !same_agent(
        entries[(#[trigger] after[r]) as int].1,
        entries[(#[trigger] after[s]) as int].1,
    ) by {
        if s < before.len() {
            assert(!same_agent(entries[before[r] as int].1, entries[before[s] as int].1));
        }
    }
    assert forall|i: int| 0 <= i < at + 1 && started_by((#[trigger] entries[i]).1, message) implies exists|r: int|
        0 <= r < after.len() && same_agent(entries[i].1, entries[(#[trigger] after[r]) as int].1) by {
        if i < at {
            let r = choose|r: int|
                0 <= r < before.len() && same_agent(
                    entries[i].1,
                    entries[(#[trigger] before[r]) as int].1,
                );
            assert(same_agent(entries[i].1, entries[after[r] as int].1));
        } else {
            assert(same_agent(entries[i].1, entries[after[slot] as int].1));
        }
    }
}

/// The rows of the runs that a message started, in order.
pub open spec fn are_rows(rows: Seq<usize>, entries: Seq<(String, AgentRecord)>, message: Seq<char>) -> bool {
    picks_latest(rows, entries, entries.len() as int, message) && in_row_order(rows, entries)
}

fn place_row(rows: &mut Vec<usize>, entries: &Vec<(String, AgentRecord)>, row: usize) -> (res: usize)
    requires
        in_row_order(old(rows)@, entries@),
        row < entries@.len(),
        forall|r: int| 0 <= r < old(rows)@.len() ==> (#[trigger] old(rows)@[r]) < entries@.len(),
        forall|r: int|
            0 <= r < old(rows)@.len() ==> !same_agent(
                entries@[(#[trigger] old(rows)@[r]) as int].1,
                entries@[row as int].1,
            ),
    ensures
        in_row_order(final(rows)@, entries@),
        res <= old(rows)@.len(),
        final(rows)@ == old(rows)@.insert(res as int, row),
{
    let ghost before = rows@;
    let mut at: usize = 0;
    while at < rows.len() && comes_before(&entries[rows[at]].1, &entries[row].1)
        invariant
            at <= rows.len(),
            rows@ == before,
            row < entries@.len(),
            forall|r: int| 0 <= r < before.len() ==> (#[trigger] before[r]) < entries@.len(),
            forall|r: int|
                0 <= r < at ==> row_before(
                    entries@[(#[trigger] before[r]) as int].1,
                    entries@[row as int].1,
                ),
        decreases rows.len() - at,
    {
        at = at + 1;
    }
    proof {
        if at < before.len() {
            let a = entries@[before[at as int] as int].1;
            let b = entries@[row as int].1;
            text::lemma_text_before_total(a.snapshot.run.agent_id@, b.snapshot.run.agent_id@);
            assert(row_before(b, a));
        }
    }
    rows.insert(at, row);
    proof {
        let after = rows@;
        assert(after == before.insert(at as int, row));
        assert forall|r: int, s: int| 0 <= r < s < after.len() implies row_before(
            entries@[(#[trigger] after[r]) as int].1,
            entries@[(#[trigger] after[s]) as int].1,
        ) by {
            if r < at && s > at {
                assert(row_before(entries@[before[r] as int].1, entries@[before[s - 1] as int].1));
            } else if r > at {
                assert(row_before(
                    entries@[before[r - 1] as int].1,
                    entries@[before[s - 1] as int].1,
                ));
            } else if r == at {
                if s - 1 > at {
                    assert(row_before(
                        entries@[before[at as int] as int].1,
                        entries@[before[s - 1] as int].1,
                    ));
                    lemma_rows_transitive(
                        entries@[row as int].1,
                        entries@[before[at as int] as int].1,
                        entries@[before[s - 1] as int].1,
                    );
                }
            } else if s < at {
                assert(row_before(entries@[before[r] as int].1, entries@[before[s] as int].1));
            }
        }
    }
    at
}

proof fn lemma_rows_transitive(a: AgentRecord, b: AgentRecord, c: AgentRecord)
    requires
        row_before(a, b),
        row_before(b, c),
    ensures
        row_before(a, c),
{
    if a.created_at_ms == b.created_at_ms && b.created_at_ms == c.created_at_ms {
        text::lemma_text_before_transitive(
            a.snapshot.run.agent_id@,
            b.snapshot.run.agent_id@,
            c.snapshot.run.agent_id@,
        );
    }
}

/// Lists the runs that a message started: the latest of each agent, in the order they were made.
pub fn latest_runs(records: &Table<String, AgentRecord>, message: &str) -> (res: Vec<usize>)
    ensures
        are_rows(res@, records.entries@, message@),
{
    let entries = &records.entries;
    let picked = pick_latest(entries, message);
    let mut rows: Vec<usize> = Vec::new();
    let ghost mut from: Seq<int> = Seq::empty();
    let ghost mut into: Seq<int> = Seq::empty();
    let mut at: usize = 0;
    while at < picked.len()
        invariant
            at <= picked.len(),
            picks_latest(picked@, entries@, entries@.len() as int, message@),
            in_row_order(rows@, entries@),
            reordered(picked@.take(at as int), rows@, from, into),
        decreases picked.len() - at,
    {
        let ghost before = rows@;
        proof {
            assert(is_latest(entries@, entries@.len() as int, message@, picked@[at as int] as int));
            assert forall|r: int| 0 <= r < rows@.len() implies (#[trigger] rows@[r]) < entries@.len()
                && !same_agent(
                entries@[rows@[r] as int].1,
                entries@[picked@[at as int] as int].1,
            ) by {
                let k = from[r];
                assert(picked@.take(at as int)[k] == picked@[k]);
                assert(is_latest(entries@, entries@.len() as int, message@, picked@[k] as int));
                assert(!same_agent(
                    entries@[picked@[k] as int].1,
                    entries@[picked@[at as int] as int].1,
                ));
            }
        }
        let spot = place_row(&mut rows, entries, picked[at]);
        proof {
            let earlier = picked@.take(at as int);
            assert(picked@.take(at + 1) =~= earlier.push(picked@[at as int]));
            lemma_reorder(earlier, before, from, into, picked@[at as int], spot as int);
            into = into.map_values(
                |place: int|
                    if place < spot {
                        place
                    } else {
                        place + 1
                    },
            ).push(spot as int);
            from = from.insert(spot as int, at as int);
        }
        at = at + 1;
    }
    proof {
        assert(picked@.take(at as int) =~= picked@);
        lemma_rows(picked@, rows@, from, into, entries@, message@);
    }
    rows
}

/// One list is another one in a different order: the item at a place comes from `from` there, and
/// goes to `into` from here.
spec fn reordered(before: Seq<usize>, after: Seq<usize>, from: Seq<int>, into: Seq<int>) -> bool {
    &&& after.len() == before.len()
    &&& from.len() == before.len()
    &&& into.len() == before.len()
    &&& forall|r: int|
        0 <= r < after.len() ==> 0 <= #[trigger] from[r] < before.len() && after[r] == before[from[r]]
    &&& forall|k: int|
        0 <= k < before.len() ==> 0 <= #[trigger] into[k] < after.len() && after[into[k]] == before[k]
}

proof fn lemma_reorder(before: Seq<usize>, after: Seq<usize>, from: Seq<int>, into: Seq<int>, row: usize, spot: int)
    requires
        reordered(before, after, from, into),
        0 <= spot <= after.len(),
    ensures
        reordered(
            before.push(row),
            after.insert(spot, row),
            from.insert(spot, before.len() as int),
            into.map_values(
                |place: int|
                    if place < spot {
                        place
                    } else {
                        place + 1
                    },
            ).push(spot),
        ),
{
    let next = after.insert(spot, row);
    let came = from.insert(spot, before.len() as int);
    let goes = into.map_values(
        |place: int|
            if place < spot {
                place
            } else {
                place + 1
            },
    ).push(spot);
    assert forall|r: int| 0 <= r < next.len() implies 0 <= #[trigger] came[r] < before.push(row).len()
        && next[r] == before.push(row)[came[r]] by {
        if r < spot {
            assert(came[r] == from[r]);
        } else if r > spot {
            assert(came[r] == from[r - 1]);
        }
    }
    assert forall|k: int| 0 <= k < before.push(row).len() implies 0 <= #[trigger] goes[k] < next.len()
        && next[goes[k]] == before.push(row)[k] by {
        if k < before.len() {
            assert(0 <= into[k] < after.len());
        }
    }
}

proof fn lemma_rows(
    picked: Seq<usize>,
    rows: Seq<usize>,
    from: Seq<int>,
    into: Seq<int>,
    entries: Seq<(String, AgentRecord)>,
    message: Seq<char>,
)
    requires
        picks_latest(picked, entries, entries.len() as int, message),
        in_row_order(rows, entries),
        reordered(picked, rows, from, into),
    ensures
        picks_latest(rows, entries, entries.len() as int, message),
{
    let n = entries.len() as int;
    assert forall|r: int| 0 <= r < rows.len() implies is_latest(
        entries,
        n,
        message,
        (#[trigger] rows[r]) as int,
    ) by {
        assert(is_latest(entries, n, message, picked[from[r]] as int));
    }
    assert forall|r: int, s: int| 0 <= r < s < rows.len() implies !same_agent(
        entries[(#[trigger] rows[r]) as int].1,
        entries[(#[trigger] rows[s]) as int].1,
    ) by {
        let k = from[r];
        let l = from[s];
        let a = entries[rows[r] as int].1;
        let b = entries[rows[s] as int].1;
        assert(row_before(a, b));
        if k == l {
            text::lemma_text_before_total(a.snapshot.run.agent_id@, a.snapshot.run.agent_id@);
        } else if k < l {
            assert(!same_agent(entries[picked[k] as int].1, entries[picked[l] as int].1));
        } else {
            assert(!same_agent(entries[picked[l] as int].1, entries[picked[k] as int].1));
        }
    }
    assert forall|i: int| 0 <= i < n && started_by((#[trigger] entries[i]).1, message) implies exists|r: int|
        0 <= r < rows.len() && same_agent(entries[i].1, entries[(#[trigger] rows[r]) as int].1) by {
        let k = choose|k: int|
            0 <= k < picked.len() && same_agent(
                entries[i].1,
                entries[(#[trigger] picked[k]) as int].1,
            );
        assert(same_agent(entries[i].1, entries[rows[into[k]] as int].1));
    }
}

} // verus!
