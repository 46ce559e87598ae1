//! Commands on this machine that an agent waits for.

use vstd::prelude::*;

use crate::ai::local_command::{
    AiOwnedCommandTask, CommandAction, CommandEvent, CommandReply, CommandStatus, CommandWatch,
    LeaseNews, WatchPhase,
};

verus! {

/// The leases of a command are free once it is known how it ended; otherwise they are left as they
/// are.
pub proof fn law_settled_commands_free_their_leases(
    task: &mut AiOwnedCommandTask,
    state: &Option<String>,
    at: int,
)
    requires
        call_ensures(AiOwnedCommandTask::finish, (task, state), ()),
        0 <= at < task.leases@.len(),
    ensures
        ({
            let settled = state is Some && (state->0@ == "completed"@ || state->0@ == "not_started"@);
            let count = old(task).news@.len() as int;
            &&& settled ==> final(task).news@.len() == count + old(task).leases@.len() && final(
                task).news@[count + at] == (old(task).leases@[at], LeaseNews::Finished)
            &&& !settled ==> final(task).news@ == old(task).news@
        }),
        final(task).leases == old(task).leases,
{
}

/// A command that is let go before its end is known leaves its leases unresolved, each of them.
pub proof fn law_released_commands_are_unresolved(task: &mut AiOwnedCommandTask, at: int)
    requires
        call_ensures(AiOwnedCommandTask::release, (task,), ()),
        0 <= at < task.leases@.len(),
    ensures
        final(task).aborted,
        final(task).news@.len() == old(task).news@.len() + old(task).leases@.len(),
        final(task).news@[old(task).news@.len() + at] == (
            old(task).leases@[at],
            LeaseNews::Unresolved,
        ),
{
}

/// What becomes of a command that is watched: it is asked after once its time is over, its result is
/// the reply of a caller that waits, and it ends with its process, its caller or its conversation.
pub proof fn law_commands_are_watched(watch: &mut CommandWatch, event: CommandEvent)
    requires
        call_ensures(CommandWatch::on_event, (watch, event), ()),
        watch.phase != WatchPhase::Ended,
        event is WaitAnswered ==> watch.phase == WatchPhase::AskingToWait,
    ensures
        final(watch).phase == WatchPhase::Ended <==> event is Cancelled || event is ReplyAbandoned
            || event is ProcessEnded,
        final(watch).phase == WatchPhase::AskingToWait <==> event is TimedOut || (old(watch).phase
            == WatchPhase::AskingToWait && event is DirectionChanged),
        event is ProcessEnded && event->ProcessEnded_0 is Some && old(watch).caller_waits ==> final(
            watch).reply == Some(CommandReply::Result),
        event is ProcessEnded && !old(watch).caller_waits ==> final(watch).reply == old(watch).reply,
        event is DirectionChanged ==> final(watch).reply == Some(CommandReply::StillRunning)
            && !final(watch).caller_waits,
        event is WaitAnswered ==> (final(watch).caller_waits == old(watch).caller_waits
            && final(watch).reply == old(watch).reply) || (event->WaitAnswered_0 != Some(true)
            && !final(watch).caller_waits && final(watch).reply == Some(CommandReply::Paused)),
        event is WaitAnswered && event->WaitAnswered_0 != Some(true) ==> final(watch).reply == Some(
            CommandReply::Paused,
        ),
        final(watch).phase == WatchPhase::Ended ==> final(watch).task.aborted,
        final(watch).task.leases == old(watch).task.leases,
{
}

/// A caller that gets no result of its own reads why: the command runs on, or it is not known whether
/// it does.
pub proof fn law_callers_read_why_there_is_no_result(reply: CommandReply, res: Option<CommandAction>)
    requires
        call_ensures(CommandReply::action, (reply,), res),
    ensures
        res is None <==> reply == CommandReply::Result,
        reply == CommandReply::StillRunning ==> res->0.ok && res->0.error_code is None
            && res->0.data is Some && res->0.summary@
            == "Local command is still running; task direction changed."@,
        reply == CommandReply::Paused ==> !res->0.ok && res->0.error_code is Some
            && res->0.error_code->0@ == "agent_wait_paused"@ && res->0.data is None,
        res is Some ==> res->0.risk@ == "execute"@,
{
}

/// A command says that it waits, and until when, only while somebody waits for it.
pub proof fn law_waiting_is_shown(watch: &CommandWatch, now: i64, wait: i64, res: Option<CommandStatus>)
    requires
        call_ensures(CommandWatch::waiting_status, (watch, now, wait), res),
        now + wait >= 0,
    ensures
        res is Some <==> watch.phase == WatchPhase::AskingToWait || (watch.phase
            == WatchPhase::Running && watch.caller_waits),
        res is Some && watch.phase == WatchPhase::Running ==> res->0.status@ == "waiting_condition"@
            && res->0.data@.member_boolean("waiting"@) == Some(true) && res->0.data@.member(
            "waitDeadline"@,
        ) == Some(crate::json::Json::Number(crate::text::decimal((now + wait) as nat))),
        res is Some && watch.phase == WatchPhase::AskingToWait ==> res->0.status@
            == "pending_user_approval"@ && res->0.data@.member_boolean("waitTimedOut"@) == Some(true),
{
    reveal_with_fuel(crate::json::member_of, 3);
    reveal_strlit("waiting");
    reveal_strlit("waitDeadline");
    assert("waiting"@.len() == 7 && "waitDeadline"@.len() == 12);
    if res is Some && watch.phase == WatchPhase::Running {
        let a = res->0.data@->Object_0;
        assert(a.drop_first() =~= seq![a[1]]);
    }
}

} // verus!
