//! The views of runs and of stored messages.

use vstd::prelude::*;

use crate::ai_state::entity::{AiWorkspaceEntity, Effect};
use crate::ai_state::model::{HistoryViewOwner, ViewOwner};
use crate::table::Key;
use crate::workspace::runtime_context::AiRuntimeContextEntity;
use crate::workspace::runtime_owners::RuntimeHandleProjection;

verus! {

/// What a run said is asked for at its end first, and a page earlier or later only where there is
/// one; nothing is asked for a run that is not known, without a store, or while a page is on its way.
pub proof fn law_talk_is_asked_for_by_pages(
    ai: &mut AiWorkspaceEntity,
    run: &String,
    older: Option<bool>,
    waiter: u64,
)
    requires
        call_ensures(AiWorkspaceEntity::load_agent_communication, (ai, run, older, waiter), ()),
    ensures
        ({
            let known = old(ai).agents.records@.dom().contains(run@) && old(ai).history.store_open;
            let shown = old(ai).agents.communication_pages@.dom().contains(run@);
            let view = old(ai).agents.communication_pages@[run@];
            let now = final(ai).agents.communication_pages@[run@];
            &&& !known ==> *final(ai) == *old(ai)
            &&& known && shown && view.loading ==> now == view && final(ai).history == old(ai).history
            &&& known && shown && !view.loading && older is None ==> {
                &&& now.loading && !now.failed
                &&& now.cursors@ == seq![None::<u64>]
                &&& final(ai).history.asked().last() == (Effect::LoadCommunication {
                    conversation: old(ai).agents.records@[run@].snapshot.conversation_id@,
                    run: run@,
                    before_sequence: None,
                    waiter,
                })
            }
            &&& known && shown && !view.loading && older == Some(true) && view.page is Some
                && view.page->0.before is Some ==> {
                &&& now.loading
                &&& now.cursors@ == view.cursors@.push(view.page->0.before)
                &&& final(ai).history.asked().last() == (Effect::LoadCommunication {
                    conversation: old(ai).agents.records@[run@].snapshot.conversation_id@,
                    run: run@,
                    before_sequence: view.page->0.before,
                    waiter,
                })
            }
            &&& known && shown && !view.loading && older == Some(false) && view.cursors@.len() > 1
                ==> now.loading && now.cursors@ == view.cursors@.drop_last()
            &&& known && shown && !view.loading && older == Some(false) && view.cursors@.len() <= 1
                ==> now == view && final(ai).history == old(ai).history
            &&& final(ai).agents.records == old(ai).agents.records
        }),
{
}

/// The newest messages of a run are asked for of its own branch, and until they are there the run is
/// loading and nothing is wrong with it.
pub proof fn law_newest_messages_are_asked_for(ai: &mut AiWorkspaceEntity, run: &String, waiter: u64)
    requires
        call_ensures(AiWorkspaceEntity::load_agent_message_page, (ai, run, None, waiter), ()),
        ai.agents.records@.dom().contains(run@),
        !ai.agents.details_loading@.dom().contains(run@),
        ai.history.store_open,
    ensures
        final(ai).agents.details_loading@.dom().contains(run@),
        !final(ai).agents.detail_errors@.dom().contains(run@),
        final(ai).history.asked().last() matches Effect::LoadAgentPage {
            conversation,
            run: asked,
            branch,
            record_revision,
            older,
            waiter: awaited,
            ..
        } && {
            let record = old(ai).agents.records@[run@];
            &&& conversation == record.snapshot.conversation_id@
            &&& asked == run@
            &&& branch == record.message_branch@
            &&& record_revision == record.revision
            &&& older is None
            &&& awaited == waiter
        },
{
}

/// A run that is opened is the one on show, with its list, and nothing else is open over it.
pub proof fn law_opened_runs_are_on_show(
    ai: &mut AiWorkspaceEntity,
    run: String,
    talk_waiter: u64,
    page_waiter: u64,
)
    requires
        call_ensures(AiWorkspaceEntity::open_agent_detail, (ai, run, talk_waiter, page_waiter), ()),
    ensures
        final(ai).agents.detail == Some(run),
        final(ai).agents.detail_lists@.dom().contains(run@),
        !final(ai).agents.model_picker_open,
        final(ai).agents.records == old(ai).agents.records,
        old(ai).agents.detail matches Some(shown) ==> shown@ != run@ ==> !final(
            ai).agents.detail_lists@.dom().contains(shown@) && !final(
            ai).agents.communication_pages@.dom().contains(shown@),
{
}

/// Of runs that are gone no view is left; those of other runs stay.
pub proof fn law_gone_runs_leave_no_view(
    ai: &mut AiWorkspaceEntity,
    removed: &Vec<String>,
    at: int,
    other: Seq<char>,
)
    requires
        call_ensures(AiWorkspaceEntity::remove_agent_history_views, (ai, removed), ()),
        0 <= at < removed@.len(),
        forall|i: int| 0 <= i < removed@.len() ==> (#[trigger] removed@[i])@ != other,
    ensures
        ({
            let gone = removed@[at]@;
            let before = old(ai).agents;
            let after = final(ai).agents;
            &&& !after.detail_tasks@.dom().contains(gone)
            &&& !after.detail_lists@.dom().contains(gone)
            &&& !after.communication_pages@.dom().contains(gone)
            &&& after.detail_tasks@.dom().contains(other) <==> before.detail_tasks@.dom().contains(
                other,
            )
            &&& after.detail_lists@.dom().contains(other) <==> before.detail_lists@.dom().contains(
                other,
            )
            &&& after.communication_pages@.dom().contains(other)
                <==> before.communication_pages@.dom().contains(other)
            &&& before.communication_pages@.dom().contains(other)
                ==> after.communication_pages@[other] == before.communication_pages@[other]
            &&& after.records == before.records
        }),
{
    let runs = crate::text::seq_view(removed@);
    assert(runs[at] == removed@[at]@);
    assert(runs.contains(removed@[at]@));
    assert(!runs.contains(other)) by {
        if runs.contains(other) {
            let i = choose|i: int| 0 <= i < runs.len() && runs[i] == other;
            assert(runs[i] == removed@[i]@);
        }
    }
}

/// A row of a conversation that is drawn keeps its message as visible, and what was visible stays so
/// until the window is cleaned up, which is asked for once.
pub proof fn law_drawn_rows_stay_visible(
    ai: &mut AiWorkspaceEntity,
    owner: HistoryViewOwner,
    message: String,
    alive: bool,
    conversation: Seq<char>,
    other: Seq<char>,
)
    requires
        call_ensures(
            AiWorkspaceEntity::retain_visible_history_body,
            (ai, owner, message, alive),
            (),
        ),
        owner.id() == ViewOwner::Main(conversation),
        ai.history.pages@.dom().contains(conversation),
    ensures
        ({
            let before = old(ai).history.pages@[conversation];
            let after = final(ai).history.pages@[conversation];
            &&& after.visible_bodies@.dom().contains(message@)
            &&& before.visible_bodies@.dom().contains(other)
                ==> after.visible_bodies@.dom().contains(other)
            &&& after.body_cleanup_scheduled
            &&& after.bodies == before.bodies
            &&& alive && before.bodies@.dom().contains(message@) ==> after.body_leases@.dom().contains(
                message@,
            )
            &&& final(ai).history.asked() == if before.body_cleanup_scheduled {
                old(ai).history.asked()
            } else {
                old(ai).history.asked().push(Effect::ReleaseBodies(ViewOwner::Main(conversation)))
            }
        }),
{
}

/// A model sees of its handles those that still lead somewhere in its session, with the label of what
/// they lead to.
pub proof fn law_listed_handles_lead_somewhere(
    context: &AiRuntimeContextEntity,
    session: u64,
    res: Vec<RuntimeHandleProjection>,
    at: int,
)
    requires
        call_ensures(AiRuntimeContextEntity::current_handle_projections, (context, session), res),
        0 <= at < res@.len(),
    ensures
        ({
            let id = res@[at].handle_id@;
            let lease = context.leases@[id];
            &&& context.leases@.dom().contains(id)
            &&& lease.session == session
            &&& context.records@.dom().contains(lease.owner)
            &&& context.records@[lease.owner].generation == lease.generation
            &&& res@[at].label == context.records@[lease.owner].label
            &&& res@[at].kind == context.records@[lease.owner].name.id().kind()
        }),
{
    assert(context.listed(session, res@[at]));
}

} // verus!
