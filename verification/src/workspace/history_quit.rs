//! Leaving the application: windows stay open until the store has taken the last changes.

use vstd::prelude::*;

use crate::ai_state::entity::{AiHistoryState, AiWorkspaceEntity, Effect};
use crate::ai_state::journal::{Changes, Mutation, RevisionClock};
use crate::workspace::app::WorkspaceApp;

verus! {

#[derive(Clone, Copy, PartialEq, Eq, Structural, Debug)]
pub enum QuitPhase {
    Idle,
    /// The stores take the last changes.
    Saving,
    /// The user is asked what to do about changes that were not taken.
    Asking,
    /// The application ends.
    Leaving,
}

/// What the host has to do.
#[derive(Clone, Copy, PartialEq, Eq, Structural, Debug)]
pub enum QuitStep {
    Nothing,
    /// Stop the assistant in every window, and have every store take what it has.
    StopAndSave,
    /// Try failed writes again, and have every store take what it has.
    RetryAndSave,
    /// Show the prompt.
    Ask,
    /// Let the windows go on.
    Resume,
    Leave,
}

/// How the prompt was answered.
#[derive(Clone, Copy, PartialEq, Eq, Structural, Debug)]
pub enum QuitAnswer {
    Retry,
    Cancel,
    Discard,
    /// There was no window to ask in, or it was closed.
    Unanswered,
}

pub struct HistoryQuit {
    pub phase: QuitPhase,
}

pub open spec fn saved_view(saved: Option<Vec<bool>>) -> Option<Seq<bool>> {
    match saved {
        Some(saved) => Some(saved@),
        None => None,
    }
}

pub open spec fn all_true(answers: Seq<bool>) -> bool {
    forall|i: int| 0 <= i < answers.len() ==> answers[i]
}

/// Whether every store answered in time that it took its changes.
pub open spec fn all_taken(saved: Option<Seq<bool>>) -> bool {
    saved is Some && all_true(saved->0)
}

/// What follows once the stores were waited for.
pub open spec fn after_saving(saved: Option<Seq<bool>>) -> (QuitStep, QuitPhase) {
    if all_taken(saved) {
        (QuitStep::Leave, QuitPhase::Leaving)
    } else {
        (QuitStep::Ask, QuitPhase::Asking)
    }
}

/// What follows the user's answer.
pub open spec fn after_answer(answer: QuitAnswer) -> (QuitStep, QuitPhase) {
    match answer {
        QuitAnswer::Retry => (QuitStep::RetryAndSave, QuitPhase::Saving),
        QuitAnswer::Discard => (QuitStep::Leave, QuitPhase::Leaving),
        _ => (QuitStep::Resume, QuitPhase::Idle),
    }
}

fn all_saved(saved: &Vec<bool>) -> (res: bool)
    ensures
        res == all_true(saved@),
{
    let mut i: usize = 0;
    while i < saved.len()
        invariant
            i <= saved.len(),
            forall|j: int| 0 <= j < i ==> saved@[j],
        decreases saved.len() - i,
    {
        if !saved[i] {
            assert(!saved@[i as int]);
            return false;
        }
        i += 1;
    }
    true
}

impl HistoryQuit {
    pub fn new() -> (res: HistoryQuit)
        ensures
            res.phase == QuitPhase::Idle,
    {
        HistoryQuit { phase: QuitPhase::Idle }
    }

    /// Starts to leave, unless that is under way. Without windows nothing has to be saved.
    pub fn request_app_quit(&mut self, windows: usize) -> (res: QuitStep)
        ensures
            (res, final(self).phase) == if old(self).phase != QuitPhase::Idle {
                (QuitStep::Nothing, old(self).phase)
            } else if windows == 0 {
                (QuitStep::Leave, QuitPhase::Idle)
            } else {
                (QuitStep::StopAndSave, QuitPhase::Saving)
            },
    {
        if self.phase != QuitPhase::Idle {
            return QuitStep::Nothing;
        }
        if windows == 0 {
            return QuitStep::Leave;
        }
        self.phase = QuitPhase::Saving;
        QuitStep::StopAndSave
    }

    /// Every store answered, or the time ran out. Only if every one took its changes the
    /// application ends.
    pub fn on_saved(&mut self, saved: Option<Vec<bool>>) -> (res: QuitStep)
        requires
            old(self).phase == QuitPhase::Saving,
        ensures
            (res, final(self).phase) == after_saving(saved_view(saved)),
    {
        let complete = match &saved {
            Some(saved) => all_saved(saved),
            None => false,
        };
        if complete {
            self.phase = QuitPhase::Leaving;
            QuitStep::Leave
        } else {
            self.phase = QuitPhase::Asking;
            QuitStep::Ask
        }
    }

    /// The prompt was answered.
    pub fn on_answer(&mut self, answer: QuitAnswer) -> (res: QuitStep)
        requires
            old(self).phase == QuitPhase::Asking,
        ensures
            (res, final(self).phase) == after_answer(answer),
    {
        match answer {
            QuitAnswer::Retry => {
                self.phase = QuitPhase::Saving;
                QuitStep::RetryAndSave
            },
            QuitAnswer::Discard => {
                self.phase = QuitPhase::Leaving;
                QuitStep::Leave
            },
            _ => {
                self.phase = QuitPhase::Idle;
                QuitStep::Resume
            },
        }
    }
}

/// Changes are given up only where the user says so: the application ends only when every store
/// took what it had, or the user discarded the rest.
pub proof fn law_changes_are_not_lost_unasked(saved: Option<Seq<bool>>, answer: QuitAnswer)
    ensures
        after_saving(saved).0 == QuitStep::Leave <==> all_taken(saved),
        after_answer(answer).0 == QuitStep::Leave <==> answer == QuitAnswer::Discard,
{
}

/// A message whose stream was stopped, and whether anything of it was kept.
pub struct StoppedMessage {
    pub conversation_id: String,
    pub message_id: String,
    pub retained: bool,
}

/// The workspace, and the last revision that was given out.
pub type Stopping = (AiWorkspaceEntity, u64);

/// A stopped message was put into the journal: as changed if something of it was kept, as deleted
/// otherwise.
pub open spec fn step_of_stop(before: Stopping, after: Stopping, stopped: StoppedMessage) -> bool {
    let (old_ai, old_clock) = before;
    let (new_ai, new_clock) = after;
    let key = (stopped.conversation_id@, stopped.message_id@);
    let old_changes = old_ai.history.changes;
    let new_changes = new_ai.history.changes;
    if stopped.retained {
        if old_ai.message(key.0, key.1) is None {
            after == before
        } else {
            &&& new_clock == old_clock + 1
            &&& new_ai.journaled(old_ai)
            &&& new_changes == (Changes {
                revision: new_clock,
                messages: new_changes.messages,
                full_messages: new_changes.full_messages,
                ..old_changes
            })
            &&& new_changes.messages@ == old_changes.messages@.insert(key, new_clock)
            &&& new_changes.full_messages@ == old_changes.full_messages@.insert(key, new_clock)
        }
    } else {
        &&& new_clock == old_clock + 1
        &&& new_ai.journaled(old_ai)
        &&& new_changes.messages@ == old_changes.messages@.remove(key)
        &&& new_changes.full_messages@ == old_changes.full_messages@.remove(key)
        &&& new_changes.stream_bases@ == old_changes.stream_bases@.remove(key)
        &&& new_changes.extended_from(
            Changes {
                messages: new_changes.messages,
                full_messages: new_changes.full_messages,
                stream_bases: new_changes.stream_bases,
                ..old_changes
            },
            new_clock,
            Mutation::DeleteMessage {
                conversation_id: key.0,
                branch_id: old_ai.message_branch(key.0, key.1),
                message_id: key.1,
                revision: new_clock,
            },
        )
    }
}

/// One stopped message after the other was put into the journal.
pub open spec fn steps_of_stop(steps: Seq<Stopping>, stopped: Seq<StoppedMessage>) -> bool {
    &&& steps.len() == stopped.len() + 1
    &&& forall|i: int|
        #![trigger stopped[i]]
        0 <= i < stopped.len() ==> step_of_stop(steps[i], steps[i + 1], stopped[i])
}

impl AiWorkspaceEntity {
    fn record_stopped(&mut self, stopped: &StoppedMessage, clock: &mut RevisionClock)
        requires
            old(self).wf(),
            old(clock).last < u64::MAX,
        ensures
            final(self).wf(),
            step_of_stop((*old(self), old(clock).last), (*final(self), final(clock).last), *stopped),
            final(clock).last <= old(clock).last + 1,
    {
        if stopped.retained {
            self.history_message_changed(
                stopped.conversation_id.as_str(),
                stopped.message_id.as_str(),
                clock,
            );
        } else {
            self.history_message_deleted(
                stopped.conversation_id.as_str(),
                stopped.message_id.as_str(),
                clock,
            );
        }
    }

    /// Nothing is started any more, and what was stopped is in the journal.
    pub open spec fn stopped_for_quit(
        self,
        before: AiWorkspaceEntity,
        stopped: Seq<StoppedMessage>,
        old_clock: u64,
        new_clock: u64,
    ) -> bool {
        exists|steps: Seq<Stopping>|
            {
                &&& #[trigger] steps_of_stop(steps, stopped)
                &&& steps[0] == (before.set_quitting(true), old_clock)
                &&& steps.last().1 == new_clock
                &&& self == (AiWorkspaceEntity {
                    history: AiHistoryState {
                        effects: self.history.effects,
                        ..steps.last().0.history
                    },
                    ..steps.last().0
                })
                &&& self.history.asked() == steps.last().0.history.asked().push(Effect::Save)
            }
    }

    /// The workspace, about to be left or not.
    pub open spec fn set_quitting(self, quitting: bool) -> AiWorkspaceEntity {
        AiWorkspaceEntity { history: AiHistoryState { quitting, ..self.history }, ..self }
    }

    fn stop_for_quit(&mut self, stopped: &Vec<StoppedMessage>, clock: &mut RevisionClock)
        requires
            old(self).wf(),
            old(clock).last + stopped@.len() <= u64::MAX,
        ensures
            final(self).wf(),
            final(self).stopped_for_quit(*old(self), stopped@, old(clock).last, final(clock).last),
    {
        self.history.quitting = true;
        let ghost mut steps: Seq<Stopping> = seq![(*self, clock.last)];
        let mut at: usize = 0;
        while at < stopped.len()
            invariant
                self.wf(),
                at <= stopped.len(),
                clock.last <= old(clock).last + at,
                old(clock).last + stopped@.len() <= u64::MAX,
                steps.len() == at + 1,
                steps[0] == (old(self).set_quitting(true), old(clock).last),
                steps.last() == (*self, clock.last),
                forall|i: int|
                    #![trigger stopped@[i]]
                    0 <= i < at ==> step_of_stop(steps[i], steps[i + 1], stopped@[i]),
            decreases stopped.len() - at,
        {
            let ghost prior = steps;
            self.record_stopped(&stopped[at], clock);
            proof {
                steps = steps.push((*self, clock.last));
                assert forall|i: int|
                    #![trigger stopped@[i]]
                    0 <= i < at + 1 implies step_of_stop(steps[i], steps[i + 1], stopped@[i]) by {
                    if i < at {
                        assert(steps[i] == prior[i]);
                        assert(steps[i + 1] == prior[i + 1]);
                    } else {
                        assert(steps[i] == prior.last());
                    }
                }
            }
            at += 1;
        }
        assert(steps_of_stop(steps, stopped@));
        self.request_history_save();
    }
}

impl WorkspaceApp {
    /// Stops the assistant: nothing is started any more, and what was stopped is put into the
    /// journal.
    pub fn stop_ai_for_quit(&mut self, stopped: &Vec<StoppedMessage>, clock: &mut RevisionClock)
        requires
            old(self).ai_entity.wf(),
            old(clock).last + stopped@.len() <= u64::MAX,
        ensures
            final(self).ai_entity.wf(),
            *final(self) == (WorkspaceApp { ai_entity: final(self).ai_entity, ..*old(self) }),
            final(self).ai_entity.stopped_for_quit(
                old(self).ai_entity,
                stopped@,
                old(clock).last,
                final(clock).last,
            ),
    {
        self.ai_entity.stop_for_quit(stopped, clock);
    }

    /// Has the store take everything so far, and lets `waiter` know.
    pub fn save_for_quit(&mut self, waiter: u64)
        requires
            old(self).ai_entity.wf(),
        ensures
            final(self).ai_entity.wf(),
            *final(self) == (WorkspaceApp { ai_entity: final(self).ai_entity, ..*old(self) }),
            exists|asked: AiWorkspaceEntity| #[trigger]
                asked.save_requested(old(self).ai_entity) && final(self).ai_entity.barrier_set(asked, waiter),
    {
        self.ai_entity.request_history_save();
        let ghost asked = self.ai_entity;
        assert(asked.save_requested(old(self).ai_entity));
        self.ai_entity.history_barrier(waiter);
    }

    /// The application goes on after all.
    pub fn resume_after_quit(&mut self)
        ensures
            *final(self) == (WorkspaceApp {
                ai_entity: old(self).ai_entity.set_quitting(false),
                ..*old(self)
            }),
    {
        self.ai_entity.history.quitting = false;
    }
}

impl AiWorkspaceEntity {
    /// The host was asked to look at the journal.
    pub open spec fn save_requested(self, before: AiWorkspaceEntity) -> bool {
        &&& self == (AiWorkspaceEntity {
            history: AiHistoryState { effects: self.history.effects, ..before.history },
            ..before
        })
        &&& self.history.asked() == before.history.asked().push(Effect::Save)
    }
}

} // verus!
