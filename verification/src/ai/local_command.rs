//! A local command that a tool call started and the conversation owns.

use vstd::prelude::*;

use crate::json::{members_view, object, said_text, text_member, Json, JsonTree};
use crate::text;

verus! {

/// What the leases of a command are told.
#[derive(Clone, Copy, PartialEq, Eq, Structural, Debug)]
pub enum LeaseNews {
    Finished,
    Unresolved,
}

/// A command's process and the leases that it holds.
pub struct AiOwnedCommandTask {
    pub aborted: bool,
    pub leases: Vec<String>,
    /// What each lease was told, in order.
    pub news: Vec<(String, LeaseNews)>,
}

/// The news that every lease hears, in order.
pub open spec fn told_all(leases: Seq<String>, news: LeaseNews) -> Seq<(String, LeaseNews)> {
    leases.map_values(|lease: String| (lease, news))
}

/// Whether an execution state says that the command came to an end. A failed exit is an end; a
/// command that is no longer observed has none.
pub open spec fn is_settled(execution_state: Option<Seq<char>>) -> bool {
    execution_state == Some("completed"@) || execution_state == Some("not_started"@)
}

impl AiOwnedCommandTask {
    pub fn new(leases: Vec<String>) -> (res: AiOwnedCommandTask)
        ensures
            res.leases == leases,
            !res.aborted,
            res.news@.len() == 0,
    {
        AiOwnedCommandTask { aborted: false, leases, news: Vec::new() }
    }

    fn tell(&mut self, news: LeaseNews)
        ensures
            *final(self) == (AiOwnedCommandTask { news: final(self).news, ..*old(self) }),
            final(self).news@ == old(self).news@ + told_all(old(self).leases@, news),
    {
        let mut i: usize = 0;
        let ghost all = told_all(self.leases@, news);
        while i < self.leases.len()
            invariant
                i <= self.leases.len(),
                *self == (AiOwnedCommandTask { news: self.news, ..*old(self) }),
                all == told_all(self.leases@, news),
                self.news@ == old(self).news@ + all.take(i as int),
            decreases self.leases.len() - i,
        {
            let lease = self.leases[i].clone();
            self.news.push((lease, news));
            assert(all.take(i + 1) =~= all.take(i as int).push(all[i as int]));
            i += 1;
            assert(self.news@ =~= old(self).news@ + all.take(i as int));
        }
        assert(all.take(i as int) =~= all);
    }

    /// The process ended: where the command itself came to an end, the leases are told so.
    pub fn finish(&mut self, execution_state: &Option<String>)
        ensures
            *final(self) == (AiOwnedCommandTask { news: final(self).news, ..*old(self) }),
            final(self).news@ == if is_settled(text::opt_view(*execution_state)) {
                old(self).news@ + told_all(old(self).leases@, LeaseNews::Finished)
            } else {
                old(self).news@
            },
    {
        let settled = match execution_state {
            Some(state) => text::same(state.as_str(), "completed") || text::same(
                state.as_str(),
                "not_started",
            ),
            None => false,
        };
        if settled {
            self.tell(LeaseNews::Finished);
        }
    }

    /// The owner lets go: the process is aborted and whatever still waits hears that the outcome
    /// is unknown.
    pub fn release(&mut self)
        ensures
            *final(self) == (AiOwnedCommandTask {
                aborted: true,
                news: final(self).news,
                ..*old(self)
            }),
            final(self).news@ == old(self).news@ + told_all(old(self).leases@, LeaseNews::Unresolved),
    {
        self.aborted = true;
        self.tell(LeaseNews::Unresolved);
    }
}

/// What can happen while a command runs.
pub enum CommandEvent {
    /// The conversation was cancelled.
    Cancelled,
    /// The process ended, with the result's execution state; `None` where it was lost.
    ProcessEnded(Option<Option<String>>),
    /// The time that the call may wait is over.
    TimedOut,
    /// Nobody waits for the reply any more.
    ReplyAbandoned,
    /// New instructions arrived.
    DirectionChanged,
    /// The user was asked whether to keep waiting; only `Some(true)` says yes.
    WaitAnswered(Option<bool>),
}

/// What the caller of a command hears.
#[derive(Clone, Copy, PartialEq, Eq, Structural, Debug)]
pub enum CommandReply {
    /// The command's own result.
    Result,
    /// The command goes on and its outcome is unknown.
    StillRunning,
    /// Observation was paused; the command may still be running.
    Paused,
}

/// What the caller of a command that has no result of its own reads.
pub struct CommandAction {
    pub ok: bool,
    pub summary: &'static str,
    /// What to do about it.
    pub advice: &'static str,
    pub error_code: Option<&'static str>,
    pub risk: &'static str,
    pub data: Option<JsonTree>,
}

/// What is known of a command that goes on.
pub open spec fn running_data() -> Json {
    Json::Object(
        seq![said_text("executionState"@, "running"@), ("outcomeUnknown"@, Json::Bool(true))],
    )
}

/// What a reply says that is not the command's own result.
pub open spec fn is_action(action: CommandAction, reply: CommandReply) -> bool {
    &&& action.risk@ == "execute"@
    &&& match reply {
        CommandReply::StillRunning => {
            &&& action.ok
            &&& action.summary@ == "Local command is still running; task direction changed."@
            &&& action.advice@ == "Inspect its final outcome before repeating it."@
            &&& action.error_code is None
            &&& action.data is Some
            &&& action.data->0@ == running_data()
        },
        CommandReply::Paused => {
            &&& !action.ok
            &&& action.summary@ == "Observation paused; the local command may still be running."@
            &&& action.advice@ == "Do not repeat the command without checking its outcome."@
            &&& action.error_code is Some
            &&& action.error_code->0@ == "agent_wait_paused"@
            &&& action.data is None
        },
        CommandReply::Result => false,
    }
}

impl CommandReply {
    /// What the caller reads where the command has no result of its own.
    pub fn action(self) -> (res: Option<CommandAction>)
        ensures
            match res {
                Some(action) => is_action(action, self),
                None => self == CommandReply::Result,
            },
    {
        match self {
            CommandReply::Result => None,
            CommandReply::StillRunning => {
                let mut members: Vec<(String, JsonTree)> = Vec::new();
                members.push(text_member("executionState", "running"));
                members.push(("outcomeUnknown".to_owned(), JsonTree::Bool(true)));
                assert(members_view(members@) =~= running_data()->Object_0);
                Some(
                    CommandAction {
                        ok: true,
                        summary: "Local command is still running; task direction changed.",
                        advice: "Inspect its final outcome before repeating it.",
                        error_code: None,
                        risk: "execute",
                        data: Some(object(members)),
                    },
                )
            },
            CommandReply::Paused => Some(
                CommandAction {
                    ok: false,
                    summary: "Observation paused; the local command may still be running.",
                    advice: "Do not repeat the command without checking its outcome.",
                    error_code: Some("agent_wait_paused"),
                    risk: "execute",
                    data: None,
                },
            ),
        }
    }
}

/// How a command that is waited for is shown.
pub struct CommandStatus {
    pub status: &'static str,
    pub risk: &'static str,
    pub data: JsonTree,
}

/// A number with its sign.
pub open spec fn signed(value: int) -> Seq<char> {
    if value < 0 {
        "-"@ + text::decimal((-value) as nat)
    } else {
        text::decimal(value as nat)
    }
}

fn signed_number(value: i64) -> (res: String)
    ensures
        res@ == signed(value as int),
{
    if value < 0 {
        let size: u64 = (-(value + 1)) as u64 + 1;
        text::joined("-", text::number(size).as_str())
    } else {
        text::number(value as u64)
    }
}

/// What is shown while the caller waits: until when.
pub open spec fn waiting_data(deadline_ms: int) -> Json {
    Json::Object(
        seq![("waiting"@, Json::Bool(true)), ("waitDeadline"@, Json::Number(signed(deadline_ms)))],
    )
}

/// What is shown while the user is asked whether to wait longer.
pub open spec fn asking_data() -> Json {
    Json::Object(seq![("waitTimedOut"@, Json::Bool(true)), ("commandId"@, Json::Null)])
}

#[derive(Clone, Copy, PartialEq, Eq, Structural, Debug)]
pub enum WatchPhase {
    Running,
    /// The user is asked whether to keep waiting.
    AskingToWait,
    Ended,
}

/// The watch over a command. A caller hears at most one reply.
pub struct CommandWatch {
    pub task: AiOwnedCommandTask,
    pub phase: WatchPhase,
    /// Whether the caller still waits for a reply.
    pub caller_waits: bool,
    pub reply: Option<CommandReply>,
}

impl CommandWatch {
    pub open spec fn wf(self) -> bool {
        &&& self.caller_waits ==> self.reply is None
        &&& self.phase == WatchPhase::AskingToWait ==> self.caller_waits
        &&& self.phase == WatchPhase::Ended ==> self.task.aborted
    }

    pub fn new(leases: Vec<String>) -> (res: CommandWatch)
        ensures
            res.wf(),
            res.task.leases == leases,
            res.task.news@.len() == 0,
            !res.task.aborted,
            res.phase == WatchPhase::Running,
            res.caller_waits,
            res.reply is None,
    {
        CommandWatch {
            task: AiOwnedCommandTask::new(leases),
            phase: WatchPhase::Running,
            caller_waits: true,
            reply: None,
        }
    }

    /// The watch is over: the task was released and the leases heard it last.
    pub open spec fn ended_from(self, before: CommandWatch, reply: Option<CommandReply>, finished: bool) -> bool {
        &&& self.phase == WatchPhase::Ended
        &&& self.reply == reply
        &&& self.task == (AiOwnedCommandTask {
            aborted: true,
            news: self.task.news,
            ..before.task
        })
        &&& self.task.news@ == before.task.news@ + (if finished {
            told_all(before.task.leases@, LeaseNews::Finished)
        } else {
            Seq::empty()
        }) + told_all(before.task.leases@, LeaseNews::Unresolved)
    }

    fn end(&mut self)
        ensures
            *final(self) == (CommandWatch {
                phase: WatchPhase::Ended,
                task: final(self).task,
                ..*old(self)
            }),
            final(self).task == (AiOwnedCommandTask {
                aborted: true,
                news: final(self).task.news,
                ..old(self).task
            }),
            final(self).task.news@ == old(self).task.news@ + told_all(
                old(self).task.leases@,
                LeaseNews::Unresolved,
            ),
    {
        self.task.release();
        self.phase = WatchPhase::Ended;
    }

    /// How the command is shown while its caller waits: that it is waited for, or that the user is
    /// asked whether to wait longer. Nothing new is shown once the caller has its reply.
    pub fn waiting_status(&self, now_ms: i64, wait_ms: i64) -> (res: Option<CommandStatus>)
        requires
            i64::MIN <= now_ms + wait_ms <= i64::MAX,
        ensures
            match self.phase {
                WatchPhase::Running => if self.caller_waits {
                    &&& res is Some
                    &&& res->0.status@ == "waiting_condition"@
                    &&& res->0.risk@ == "execute"@
                    &&& res->0.data@ == waiting_data(now_ms + wait_ms)
                } else {
                    res is None
                },
                WatchPhase::AskingToWait => {
                    &&& res is Some
                    &&& res->0.status@ == "pending_user_approval"@
                    &&& res->0.risk@ == "read"@
                    &&& res->0.data@ == asking_data()
                },
                WatchPhase::Ended => res is None,
            },
    {
        match self.phase {
            WatchPhase::Running => {
                if !self.caller_waits {
                    return None;
                }
                let mut members: Vec<(String, JsonTree)> = Vec::new();
                members.push(("waiting".to_owned(), JsonTree::Bool(true)));
                members.push(
                    ("waitDeadline".to_owned(), JsonTree::Number(signed_number(now_ms + wait_ms))),
                );
                assert(members_view(members@) =~= waiting_data(now_ms + wait_ms)->Object_0);
                Some(
                    CommandStatus {
                        status: "waiting_condition",
                        risk: "execute",
                        data: object(members),
                    },
                )
            },
            WatchPhase::AskingToWait => {
                let mut members: Vec<(String, JsonTree)> = Vec::new();
                members.push(("waitTimedOut".to_owned(), JsonTree::Bool(true)));
                members.push(("commandId".to_owned(), JsonTree::Null));
                assert(members_view(members@) =~= asking_data()->Object_0);
                Some(
                    CommandStatus {
                        status: "pending_user_approval",
                        risk: "read",
                        data: object(members),
                    },
                )
            },
            WatchPhase::Ended => None,
        }
    }

    /// Something happened. A cancelled or abandoned command is let go. A command whose time is over
    /// asks the user; new instructions answer the caller and leave the command running.
    pub fn on_event(&mut self, event: CommandEvent)
        requires
            old(self).wf(),
            old(self).phase != WatchPhase::Ended,
            event is TimedOut || event is DirectionChanged ==> old(self).phase == WatchPhase::Running
                && old(self).caller_waits,
            event is ProcessEnded ==> old(self).phase == WatchPhase::Running,
            event is ReplyAbandoned ==> old(self).caller_waits,
            event is WaitAnswered ==> old(self).phase == WatchPhase::AskingToWait,
        ensures
            final(self).wf(),
            match event {
                CommandEvent::Cancelled => final(self).ended_from(*old(self), old(self).reply, false)
                    && final(self).caller_waits == old(self).caller_waits,
                CommandEvent::ReplyAbandoned => final(self).ended_from(*old(self), None, false)
                    && final(self).caller_waits,
                CommandEvent::ProcessEnded(Some(state)) => {
                    &&& !final(self).caller_waits
                    &&& final(self).ended_from(
                        *old(self),
                        if old(self).caller_waits {
                            Some(CommandReply::Result)
                        } else {
                            old(self).reply
                        },
                        is_settled(text::opt_view(state)),
                    )
                },
                CommandEvent::ProcessEnded(None) => {
                    &&& final(self).ended_from(*old(self), old(self).reply, false)
                    &&& final(self).caller_waits == old(self).caller_waits
                },
                CommandEvent::TimedOut => *final(self) == (CommandWatch {
                    phase: WatchPhase::AskingToWait,
                    ..*old(self)
                }),
                CommandEvent::DirectionChanged => *final(self) == (CommandWatch {
                    caller_waits: false,
                    reply: Some(CommandReply::StillRunning),
                    ..*old(self)
                }),
                CommandEvent::WaitAnswered(answer) => *final(self) == if answer == Some(true) {
                    CommandWatch { phase: WatchPhase::Running, ..*old(self) }
                } else {
                    CommandWatch {
                        phase: WatchPhase::Running,
                        caller_waits: false,
                        reply: Some(CommandReply::Paused),
                        ..*old(self)
                    }
                },
            },
    {
        match event {
            CommandEvent::Cancelled => {
                self.end();
                assert(self.task.news@ =~= old(self).task.news@ + Seq::empty() + told_all(
                    old(self).task.leases@,
                    LeaseNews::Unresolved,
                ));
            },
            CommandEvent::ReplyAbandoned => {
                self.end();
                assert(self.task.news@ =~= old(self).task.news@ + Seq::empty() + told_all(
                    old(self).task.leases@,
                    LeaseNews::Unresolved,
                ));
            },
            CommandEvent::ProcessEnded(result) => {
                match result {
                    Some(state) => {
                        self.task.finish(&state);
                        if self.caller_waits {
                            self.reply = Some(CommandReply::Result);
                            self.caller_waits = false;
                        }
                        self.end();
                        assert(self.task.news@ =~= old(self).task.news@ + (if is_settled(
                            text::opt_view(state),
                        ) {
                            told_all(old(self).task.leases@, LeaseNews::Finished)
                        } else {
                            Seq::empty()
                        }) + told_all(old(self).task.leases@, LeaseNews::Unresolved));
                    },
                    None => {
                        self.end();
                        assert(self.task.news@ =~= old(self).task.news@ + Seq::empty() + told_all(
                            old(self).task.leases@,
                            LeaseNews::Unresolved,
                        ));
                    },
                }
            },
            CommandEvent::TimedOut => {
                self.phase = WatchPhase::AskingToWait;
            },
            CommandEvent::DirectionChanged => {
                self.reply = Some(CommandReply::StillRunning);
                self.caller_waits = false;
            },
            CommandEvent::WaitAnswered(answer) => {
                self.phase = WatchPhase::Running;
                let waits = match answer {
                    Some(waits) => waits,
                    None => false,
                };
                if !waits {
                    self.reply = Some(CommandReply::Paused);
                    self.caller_waits = false;
                }
            },
        }
    }
}

} // verus!
