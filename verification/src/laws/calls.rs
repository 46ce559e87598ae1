//! One call: consent, execution, and what its result becomes.

use vstd::prelude::*;

use crate::ai::delivery::{Said, ToolStatus};
use crate::ai::messages::AiToolCall;
use crate::ai::results::{
    ai_direction_changed_result, pre_execution_rejected_ai_tool_result, rejected_ai_tool_result,
    resolve_ai_candidate_selection_if_needed, selection_candidates, AiExecutedToolResult, Candidate,
    SelectionReply,
};
use crate::ai::round_call::{AiPolicyDecision, Annotations, ApprovalReply, CallPhase, RoundCall};
use crate::ai::tool_loop::{AiActionRisk, AiPolicyDecisionKind};
use crate::ai::tool_resources::{
    admit_tool, lease_step, monitor_step, on_acquired, resource_keys, AcquireReply, LeaseStep,
    MonitorStep, ResourceError, ResourceReply,
};
use crate::json::{Json, JsonTree};
use crate::table::Table;
use crate::text;

verus! {

/// A refused result names its call, says the code and the words of the refusal, and is no success.
pub proof fn law_refusals_say_why(call_id: String, name: String, code: &str, message: &str, after: AiExecutedToolResult, before: AiExecutedToolResult)
    requires
        call_ensures(rejected_ai_tool_result, (call_id, name, code, message), after),
        call_ensures(pre_execution_rejected_ai_tool_result, (call_id, name, code, message), before),
    ensures
        after.dispatched,
        !before.dispatched,
        forall|result: AiExecutedToolResult|
            result == after || result == before ==> {
                &&& !(#[trigger] result.success)
                &&& !result.envelope.ok
                &&& result.tool_call_id@ == call_id@
                &&& result.tool_name@ == name@
                &&& result.output@ == message@
                &&& result.envelope.summary@ == message@
                &&& result.envelope.recoverable
                &&& result.envelope.error is Some
                &&& result.envelope.error->0.code@ == code@
                &&& result.envelope.error->0.message@ == message@
            },
{
    assert(after.envelope@.error is Some && before.envelope@.error is Some);
    assert(after.envelope@.ok == after.envelope.ok && before.envelope@.ok == before.envelope.ok);
    assert(after.envelope@.summary == after.envelope.summary@);
    assert(before.envelope@.summary == before.envelope.summary@);
    assert(after.envelope@.recoverable == after.envelope.recoverable);
    assert(before.envelope@.recoverable == before.envelope.recoverable);
    assert(after.envelope@.error->0.code == after.envelope.error->0.code@);
    assert(before.envelope@.error->0.code == before.envelope.error->0.code@);
    assert(after.envelope@.error->0.message == after.envelope.error->0.message@);
    assert(before.envelope@.error->0.message == before.envelope.error->0.message@);
}

/// A call that was overtaken by other instructions was not run.
pub proof fn law_overtaken_calls_did_not_run(call: &AiToolCall, res: AiExecutedToolResult)
    requires
        call_ensures(ai_direction_changed_result, (call,), res),
    ensures
        !res.success,
        !res.dispatched,
        res.tool_call_id@ == call.id@,
        res.envelope.error is Some,
        res.envelope.error->0.code@ == "agent_direction_changed"@,
{
    assert(res.envelope@.error is Some);
    assert(res.envelope@.error->0.code == res.envelope.error->0.code@);
}

/// A call starts only under current instructions and with a tool that is offered. Calls that
/// coordinate agents take their own way.
pub proof fn law_calls_start_under_current_instructions(
    call: &mut RoundCall,
    valid: bool,
    unavailable: Option<AiExecutedToolResult>,
    coordinates: bool,
)
    requires
        call_ensures(RoundCall::begin, (call, valid, unavailable, coordinates), ()),
    ensures
        final(call).phase == CallPhase::Done <==> !valid || unavailable is Some,
        final(call).phase == CallPhase::AwaitCoordination <==> valid && unavailable is None
            && coordinates,
        final(call).phase == CallPhase::AwaitArguments <==> valid && unavailable is None
            && !coordinates,
        valid && unavailable is Some ==> final(call).result == unavailable,
        !valid ==> final(call).result is Some && !final(call).result->0.dispatched,
        final(call).call == old(call).call,
{
}

/// A call whose arguments do not fit is not run, and a call that the host turned away ends with what
/// the host said.
pub proof fn law_unfit_calls_are_not_run(
    call: &mut RoundCall,
    valid: bool,
    other: &mut RoundCall,
    reply: Result<Option<AiExecutedToolResult>, ()>,
)
    requires
        call_ensures(RoundCall::on_arguments, (call, valid), ()),
        call_ensures(RoundCall::on_preflight, (other, reply), ()),
    ensures
        final(call).phase == CallPhase::AwaitPreflight <==> valid,
        !valid ==> final(call).phase == CallPhase::Done && final(call).result is Some && !final(
            call).result->0.success && !final(call).result->0.dispatched,
        final(other).phase == CallPhase::AwaitPolicy <==> reply == Ok::<Option<AiExecutedToolResult>, ()>(
            None,
        ),
        reply is Ok && reply->Ok_0 is Some ==> final(other).phase == CallPhase::Done && final(
            other).result == reply->Ok_0,
        reply is Err ==> final(other).phase == CallPhase::Done && !final(other).result->0.dispatched,
{
}

/// The policy decides: only an allowed call may run at once, one that needs consent waits for it, and
/// a denied one has a refusal for its result. A command that destroys is marked as such.
pub proof fn law_the_policy_decides(
    call: &mut RoundCall,
    policy: AiPolicyDecision,
    arguments: String,
    reason: String,
    res: bool,
)
    requires
        call_ensures(RoundCall::on_policy, (call, policy, arguments, reason), res),
        call.order is None,
    ensures
        final(call).order is Some <==> policy.decision == AiPolicyDecisionKind::Allow,
        final(call).phase == CallPhase::AwaitExecution <==> policy.decision
            == AiPolicyDecisionKind::Allow,
        final(call).phase == CallPhase::AwaitApproval <==> policy.decision
            == AiPolicyDecisionKind::RequireApproval && old(call).sender.open,
        policy.decision == AiPolicyDecisionKind::Deny ==> final(call).result is Some && !final(
            call).result->0.success && !final(call).result->0.dispatched,
        final(call).order is Some ==> !final(call).order->0.post_user_approval
            && final(call).order->0.dangerous_command_approved == (old(call).call.name@
            == "run_command"@ && policy.risk == AiActionRisk::Destructive),
        final(call).phase == CallPhase::AwaitApproval ==> {
            let asked = final(call).sender@.last().said;
            &&& asked is ToolApprovalRequested
            &&& asked->ToolApprovalRequested_call_id == old(call).call.id@
            &&& asked->ToolApprovalRequested_name == old(call).call.name@
            &&& asked->ToolApprovalRequested_arguments == arguments@
            &&& asked->ToolApprovalRequested_reason == reason@
            &&& asked->ToolApprovalRequested_action_risk == policy.risk_label@
        },
        !res <==> policy.decision == AiPolicyDecisionKind::RequireApproval && !old(call).sender.open,
        final(call).call == old(call).call,
{
}

/// A call that needs consent runs exactly where the user gave it.
pub proof fn law_the_user_decides(call: &mut RoundCall, reply: ApprovalReply)
    requires
        call_ensures(RoundCall::on_approval, (call, reply), ()),
        call.order is None,
    ensures
        final(call).order is Some <==> reply == ApprovalReply::Approved,
        final(call).phase == CallPhase::AwaitExecution <==> reply == ApprovalReply::Approved,
        final(call).order is Some ==> final(call).order->0.post_user_approval,
        reply != ApprovalReply::Approved ==> final(call).result is Some && !final(
            call).result->0.success && !final(call).result->0.dispatched,
        reply == ApprovalReply::Rejected ==> final(call).result->0.envelope@.error->0.code
            == "user_rejected"@,
        final(call).call == old(call).call,
{
}

/// What a call was executed or coordinated to is its result, unchanged.
pub proof fn law_results_are_taken_as_they_are(
    call: &mut RoundCall,
    other: &mut RoundCall,
    result: AiExecutedToolResult,
)
    requires
        call_ensures(RoundCall::on_executed, (call, result), ()),
        call_ensures(RoundCall::on_coordination, (other, result), ()),
    ensures
        final(call).result == Some(result),
        final(call).phase == CallPhase::AwaitSelection,
        final(other).result == Some(result),
        final(other).phase == CallPhase::Done,
        old(other).sender.open ==> {
            let told = final(other).sender@.last().said;
            &&& told is ToolStatus
            &&& told->ToolStatus_call_id == old(other).call.id@
            &&& told->ToolStatus_status == if result.success {
                ToolStatus::Completed
            } else {
                ToolStatus::Error
            }
        },
{
}

/// The user is asked to choose exactly where a result leaves open which of several targets was meant
/// and the call may ask; the choices are those targets, in their order.
pub proof fn law_choices_are_the_targets(call: &mut RoundCall, arguments: String)
    requires
        call_ensures(RoundCall::ask_selection, (call, arguments), ()),
        call.result is Some,
    ensures
        ({
            let result = old(call).result->0;
            let code = result.envelope.error->0.code@;
            let open = result.envelope.error is Some && (code == "target_disambiguation_required"@
                || code == "resource_ambiguous"@) && result.envelope.targets@.len() >= 2
                && old(call).allow_selection && !(old(call).has_agent && old(call).is_child);
            &&& final(call).phase == CallPhase::AwaitChoice <==> open && old(call).sender.open
            &&& final(call).phase == CallPhase::AwaitChoice || final(call).phase
                == CallPhase::AwaitAnnotation
            &&& !open ==> final(call).result == old(call).result
            &&& final(call).phase == CallPhase::AwaitChoice ==> {
                let asked = final(call).sender@.last().said;
                &&& asked is ToolCandidateSelectionRequested
                &&& asked->ToolCandidateSelectionRequested_candidates.len()
                    == result.envelope.targets@.len()
                &&& asked->ToolCandidateSelectionRequested_call_id == old(call).call.id@
            }
        }),
{
}

/// A choice that the user makes becomes the target of the result, which then is a success. Without a
/// choice the result is one that was cancelled.
pub proof fn law_the_chosen_target_is_taken(
    call: &AiToolCall,
    result: AiExecutedToolResult,
    reply: SelectionReply,
    res: AiExecutedToolResult,
)
    requires
        call_ensures(resolve_ai_candidate_selection_if_needed, (call, result, reply), res),
        result.envelope.error is Some,
        result.envelope.error->0.code@ == "target_disambiguation_required"@
            || result.envelope.error->0.code@ == "resource_ambiguous"@,
        result.envelope.targets@.len() >= 2,
    ensures
        ({
            let taken = reply is Chosen && reply->Chosen_0 < result.envelope.targets@.len();
            &&& res.success <==> taken
            &&& res.envelope.ok <==> taken
            &&& taken ==> {
                let target = result.envelope.targets@[reply->Chosen_0 as int];
                &&& res.envelope.selected_target == Some(target)
                &&& res.envelope.targets@ == seq![target]
                &&& res.envelope.error is None
                &&& target.clean_label is Some ==> res.output@ == "Selected "@
                    + target.clean_label->0@ + "."@
                &&& target.clean_label is None ==> res.output@ == "Selected "@ + "Target"@ + "."@
            }
            &&& !taken && !(reply is Undelivered) ==> res.envelope.error is Some
                && res.envelope.error->0.code@ == "operation_cancelled"@
            &&& reply is Undelivered ==> res.envelope@.error->0.code == "ui_delivery_failed"@
        }),
{
    assert(res.envelope@.ok == res.envelope.ok);
}

/// Any other result is left as it is.
pub proof fn law_clear_results_are_left_alone(
    call: &AiToolCall,
    result: AiExecutedToolResult,
    reply: SelectionReply,
    res: AiExecutedToolResult,
)
    requires
        call_ensures(resolve_ai_candidate_selection_if_needed, (call, result, reply), res),
        result.envelope.error is None || result.envelope.targets@.len() < 2 || (
        result.envelope.error->0.code@ != "target_disambiguation_required"@
            && result.envelope.error->0.code@ != "resource_ambiguous"@),
    ensures
        res == result,
{
}

/// The choices stand for the targets one by one: each has the place, the label and the kind of its
/// target.
pub proof fn law_each_target_is_a_choice(result: &AiExecutedToolResult, res: Option<Vec<Candidate>>, at: int)
    requires
        call_ensures(selection_candidates, (result,), res),
        res is Some,
        0 <= at < result.envelope.targets@.len(),
    ensures
        res->0@.len() == result.envelope.targets@.len(),
        res->0@[at].index == at,
        result.envelope.targets@[at].clean_label is Some ==> res->0@[at].label@
            == result.envelope.targets@[at].clean_label->0@,
        result.envelope.targets@[at].kind is Some ==> res->0@[at].kind@
            == result.envelope.targets@[at].kind->0@,
{
    let shown = crate::ai::results::candidates_view(res->0@);
    assert(shown.len() == res->0@.len());
    assert(shown[at] == (
        res->0@[at].index as int,
        res->0@[at].label@,
        res->0@[at].kind@,
    ));
}

/// A call that ran ends with its annotated result, one that did not with the result it had, and its
/// status says whether it succeeded.
pub proof fn law_calls_end_with_their_result(call: &mut RoundCall, annotated: Option<AiExecutedToolResult>)
    requires
        call_ensures(RoundCall::complete, (call, annotated), ()),
        call.policy is Some,
        annotated is Some == call.order is Some,
        call.result is Some,
    ensures
        final(call).phase == CallPhase::Done,
        old(call).order is Some ==> final(call).result == annotated,
        old(call).order is None ==> final(call).result == old(call).result,
        old(call).sender.open ==> {
            let told = final(call).sender@.last().said;
            &&& told is ToolStatus
            &&& told->ToolStatus_call_id == old(call).call.id@
            &&& told->ToolStatus_status == if final(call).result->0.success {
                ToolStatus::Completed
            } else {
                ToolStatus::Error
            }
            &&& told->ToolStatus_risk == Some(old(call).policy->0.risk_label@)
            &&& told->ToolStatus_summary == Some(final(call).result->0.envelope.summary@)
        },
{
}

/// A retried call starts anew: consent that was given does not count for it.
pub proof fn law_retries_start_anew(call: &mut RoundCall, annotated: AiExecutedToolResult, due: bool, res: bool)
    requires
        call_ensures(RoundCall::after_attempt, (call, annotated, due), res),
    ensures
        res <==> due,
        due ==> final(call).phase == CallPhase::New && final(call).order is None && final(
            call).policy is None && final(call).result is None,
        !due ==> final(call).result == Some(annotated),
        final(call).call == old(call).call,
{
}

/// Only a call that ran is annotated, and only a command with what is said of commands.
pub proof fn law_only_calls_that_ran_are_annotated(call: &RoundCall, res: Annotations)
    requires
        call_ensures(RoundCall::annotations, (call,), res),
    ensures
        res.policy <==> call.order is Some,
        res.command <==> call.order is Some && call.call.name@ == "run_command"@,
{
}

/// A plain read takes no resource. A command, input for a terminal and whatever is no read takes the
/// resources that its arguments name, or the workspace where they name none.
pub proof fn law_operations_take_their_resources(
    active: bool,
    name: &str,
    risk: AiActionRisk,
    args: &JsonTree,
    targets: &Table<String, String>,
    workspace: String,
    res: Result<Vec<String>, ResourceError>,
)
    requires
        call_ensures(resource_keys, (active, name, risk, args, targets, workspace), res),
    ensures
        !active ==> res == Err::<Vec<String>, ResourceError>(ResourceError::RunInactive),
        active && risk == AiActionRisk::Read && name@ != "run_command"@ && name@
            != "send_terminal_input"@ ==> res is Ok && res->Ok_0@.len() == 0,
        active && (risk != AiActionRisk::Read || name@ == "run_command"@ || name@
            == "send_terminal_input"@) && args@ == Json::Object(Seq::empty()) ==> res is Ok
            && text::seq_view(res->Ok_0@) == seq![workspace@],
{
    if args@ == Json::Object(Seq::empty()) {
        assert forall|h: Seq<char>| !crate::ai::tool_resources::names_handle(args@, h) by {}
    }
}

/// A handle that the arguments name and that is no longer known keeps an operation from starting;
/// where all are known, each one's resource is taken.
pub proof fn law_expired_targets_are_refused(
    name: &str,
    risk: AiActionRisk,
    args: &JsonTree,
    targets: &Table<String, String>,
    workspace: String,
    res: Result<Vec<String>, ResourceError>,
    key: Seq<char>,
    handle: Seq<char>,
)
    requires
        call_ensures(resource_keys, (true, name, risk, args, targets, workspace), res),
        risk != AiActionRisk::Read || name@ == "run_command"@ || name@ == "send_terminal_input"@,
        args@ == Json::Object(seq![(key, Json::Text(handle))]),
        key.len() >= 9,
        key.skip(key.len() - 9) == "handle_id"@,
    ensures
        !targets@.dom().contains(handle) ==> res == Err::<Vec<String>, ResourceError>(
            ResourceError::TargetExpired,
        ),
        targets@.dom().contains(handle) ==> res is Ok && text::seq_view(res->Ok_0@) == seq![
            targets@[handle]@,
        ],
{
    reveal_strlit("handle_id");
    let members = seq![(key, Json::Text(handle))];
    assert(args@->Object_0 =~= members);
    assert(text::ends_with(key, "handle_id"@));
    assert(members[0].1 == Json::Text(handle));
    assert(crate::ai::tool_resources::names_handle(args@, handle));
    assert forall|h: Seq<char>| crate::ai::tool_resources::names_handle(args@, h) implies h == handle by {}
    if targets@.dom().contains(handle) {
        let keys = text::seq_view(res->Ok_0@);
        assert(keys.contains(targets@[handle]@));
        assert forall|i: int| 0 <= i < keys.len() implies keys[i] == targets@[handle]@ by {
            assert(keys.contains(keys[i]));
        }
        if keys.len() > 1 {
            assert(text::text_before(keys[0], keys[1]));
            text::lemma_text_before_total(keys[0], keys[0]);
        }
        assert(keys =~= seq![targets@[handle]@]);
    }
}

/// A tool outside the scope of a run is not admitted, nor one whose resources are not to be had.
pub proof fn law_tools_stay_in_scope(
    call_id: String,
    name: String,
    in_scope: bool,
    reply: ResourceReply,
    res: Result<Vec<String>, AiExecutedToolResult>,
)
    requires
        call_ensures(admit_tool, (call_id, name, in_scope, reply), res),
    ensures
        res is Ok <==> in_scope && reply is Keys,
        res is Ok ==> res->Ok_0 == reply->Keys_0,
        res is Err ==> !res->Err_0.success && res->Err_0.tool_call_id@ == call_id@
            && res->Err_0.tool_name@ == name@,
        !in_scope ==> res->Err_0.envelope@.error->0.code == "agent_scope_denied"@,
{
}

/// Only input for a terminal that the run holds already is lent; everything else is acquired, and
/// runs only once it was.
pub proof fn law_resources_are_acquired(
    name: &str,
    owned: bool,
    step: LeaseStep,
    call_id: String,
    tool: String,
    reply: AcquireReply,
    res: Result<(), AiExecutedToolResult>,
)
    requires
        call_ensures(lease_step, (name, owned), step),
        call_ensures(on_acquired, (call_id, tool, reply), res),
    ensures
        step == LeaseStep::BorrowOwn <==> owned && name@ == "send_terminal_input"@,
        step == LeaseStep::Acquire <==> !(owned && name@ == "send_terminal_input"@),
        res is Ok <==> reply == AcquireReply::Acquired,
        res is Err ==> !res->Err_0.success && res->Err_0.tool_call_id@ == call_id@,
{
}

/// A lease that is no longer current is not touched; the terminal of one that is has to take input;
/// and the watch ends once the answer is complete and the command closed.
pub proof fn law_commands_are_watched_to_their_end(
    current: bool,
    accepts: Option<bool>,
    finished: bool,
    closed: bool,
    res: MonitorStep,
)
    requires
        call_ensures(monitor_step, (current, accepts, finished, closed), res),
    ensures
        res == MonitorStep::Stop <==> !current,
        res == MonitorStep::Invalidate <==> current && !(accepts is Some && accepts->0),
        res == MonitorStep::Finish <==> current && accepts is Some && accepts->0 && finished && closed,
        res == MonitorStep::Wait <==> current && accepts is Some && accepts->0 && !(finished && closed),
{
}

} // verus!
