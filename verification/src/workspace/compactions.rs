//! When the window has a conversation made smaller or summed up.

use vstd::prelude::*;

use crate::ai_state::compaction::{
    CompactionLoad, CompactionRefused, CompactionRequest, SummaryConfig, FEWEST_FOR_AUTO,
};
use crate::ai_state::entity::AiWorkspaceEntity;
use crate::ai_state::model::{conversation_position, find_conversation};
use crate::workspace::app::WorkspaceApp;

verus! {

/// What a request for a compaction led to.
pub open spec fn compaction_requested<R>(
    before: AiWorkspaceEntity,
    after: AiWorkspaceEntity,
    request: CompactionRequest<R>,
    config: Result<SummaryConfig, String>,
    waiter: u64,
    res: Result<CompactionLoad<R>, CompactionRefused<R>>,
) -> bool {
    let id = request.conversation_id@;
    match res {
        Ok(load) => {
            &&& before.can_load_for_compaction(id)
            &&& config is Ok
            &&& load.request == request
            &&& load.branch@ == before.history.branch_of(id)
            &&& load.budget == if config->Ok_0.context_window * 2 > usize::MAX {
                usize::MAX as int
            } else {
                config->Ok_0.context_window * 2
            }
            &&& load.provider_type == config->Ok_0.provider_type
            &&& load.waiter == waiter
            &&& after.load_started(before, id, waiter)
        },
        Err(refused) => {
            &&& !before.can_load_for_compaction(id) || config is Err
            &&& after == before
            &&& refused.resume_after == request.resume_after
            &&& refused.error == if before.can_load_for_compaction(id) && !request.silent {
                Some(config->Err_0)
            } else {
                None
            }
        },
    }
}

/// What a compaction of a conversation is asked for with.
pub open spec fn is_compaction_of<R>(
    request: CompactionRequest<R>,
    conversation: Seq<char>,
    summary: bool,
    silent: bool,
    force: bool,
    resume_after: Option<R>,
) -> bool {
    &&& request.conversation_id@ == conversation
    &&& request.summary == summary
    &&& request.silent == silent
    &&& request.force == force
    &&& request.resume_after == resume_after
}

/// A compaction of a conversation was asked for.
pub open spec fn compaction_asked<R>(
    before: WorkspaceApp,
    after: WorkspaceApp,
    conversation: Seq<char>,
    summary: bool,
    silent: bool,
    force: bool,
    resume_after: Option<R>,
    config: Result<SummaryConfig, String>,
    waiter: u64,
    res: Result<CompactionLoad<R>, CompactionRefused<R>>,
) -> bool {
    &&& after == (WorkspaceApp { ai_entity: after.ai_entity, ..before })
    &&& exists|request: CompactionRequest<R>|
        #![trigger is_compaction_of(request, conversation, summary, silent, force, resume_after)]
        is_compaction_of(request, conversation, summary, silent, force, resume_after)
            && compaction_requested(before.ai_entity, after.ai_entity, request, config, waiter, res)
}

impl WorkspaceApp {
    fn ask_for_compaction<R>(
        &mut self,
        request: CompactionRequest<R>,
        config: Result<SummaryConfig, String>,
        waiter: u64,
    ) -> (res: Result<CompactionLoad<R>, CompactionRefused<R>>)
        requires
            old(self).ai_entity.wf(),
        ensures
            final(self).ai_entity.wf(),
            compaction_asked(
                *old(self),
                *final(self),
                request.conversation_id@,
                request.summary,
                request.silent,
                request.force,
                request.resume_after,
                config,
                waiter,
                res,
            ),
    {
        let res = self.ai_entity.load_ai_compaction_history(request, config, waiter);
        assert(is_compaction_of(
            request,
            request.conversation_id@,
            request.summary,
            request.silent,
            request.force,
            request.resume_after,
        ));
        res
    }

    /// Has the shown conversation made smaller, because the user asked for it.
    pub fn start_ai_compact_conversation<R>(&mut self, config: Result<SummaryConfig, String>, waiter: u64) -> (res: Option<
        Result<CompactionLoad<R>, CompactionRefused<R>>,
    >)
        requires
            old(self).ai_entity.wf(),
        ensures
            final(self).ai_entity.wf(),
            match old(self).ai_entity.active() {
                None => res is None && *final(self) == *old(self),
                Some(conversation) => res is Some && compaction_asked(
                    *old(self),
                    *final(self),
                    conversation.id@,
                    false,
                    false,
                    true,
                    None,
                    config,
                    waiter,
                    res->0,
                ),
            },
    {
        let conversation_id = match self.ai_entity.active_conversation() {
            Some(conversation) => conversation.id.clone(),
            None => {
                return None;
            },
        };
        Some(self.start_ai_compact_conversation_for(conversation_id, false, true, None, config, waiter))
    }

    /// Whether a conversation is long enough to be looked at without being asked.
    pub open spec fn is_long(self, conversation: Seq<char>) -> bool {
        let conversations = self.ai_entity.conversation_state.conversations@;
        let at = conversation_position(conversations, conversation);
        at < conversations.len() && conversations[at].message_count >= FEWEST_FOR_AUTO
    }

    /// Has a conversation made smaller if that is urgent and the conversation is long enough.
    pub fn maybe_start_ai_auto_compaction<R>(
        &mut self,
        conversation_id: &str,
        config: Result<SummaryConfig, String>,
        waiter: u64,
    ) -> (res: Option<Result<CompactionLoad<R>, CompactionRefused<R>>>)
        requires
            old(self).ai_entity.wf(),
        ensures
            final(self).ai_entity.wf(),
            !old(self).is_long(conversation_id@) ==> res is None && *final(self) == *old(self),
            old(self).is_long(conversation_id@) ==> res is Some && compaction_asked(
                *old(self),
                *final(self),
                conversation_id@,
                false,
                true,
                false,
                None,
                config,
                waiter,
                res->0,
            ),
    {
        match find_conversation(&self.ai_entity.conversation_state.conversations, conversation_id) {
            Some(at) => {
                if self.ai_entity.conversation_state.conversations[at].message_count < FEWEST_FOR_AUTO {
                    return None;
                }
            },
            None => {
                return None;
            },
        }
        Some(
            self.start_ai_compact_conversation_for(
                conversation_id.to_owned(),
                true,
                false,
                None,
                config,
                waiter,
            ),
        )
    }

    /// Has a conversation made smaller. `resume_after` goes on afterwards; it comes back where
    /// nothing was started.
    pub fn start_ai_compact_conversation_for<R>(
        &mut self,
        conversation_id: String,
        silent: bool,
        force: bool,
        resume_after: Option<R>,
        config: Result<SummaryConfig, String>,
        waiter: u64,
    ) -> (res: Result<CompactionLoad<R>, CompactionRefused<R>>)
        requires
            old(self).ai_entity.wf(),
        ensures
            final(self).ai_entity.wf(),
            compaction_asked(
                *old(self),
                *final(self),
                conversation_id@,
                false,
                silent,
                force,
                resume_after,
                config,
                waiter,
                res,
            ),
    {
        self.ask_for_compaction(
            CompactionRequest { conversation_id, summary: false, silent, force, resume_after },
            config,
            waiter,
        )
    }

    /// Has the shown conversation summed up.
    pub fn start_ai_summarize_conversation<R>(&mut self, config: Result<SummaryConfig, String>, waiter: u64) -> (res: Option<
        Result<CompactionLoad<R>, CompactionRefused<R>>,
    >)
        requires
            old(self).ai_entity.wf(),
        ensures
            final(self).ai_entity.wf(),
            match old(self).ai_entity.conversation_state.active_conversation_id {
                None => res is None && *final(self) == *old(self),
                Some(id) => res is Some && compaction_asked(
                    *old(self),
                    *final(self),
                    id@,
                    true,
                    false,
                    true,
                    None,
                    config,
                    waiter,
                    res->0,
                ),
            },
    {
        let conversation_id = match &self.ai_entity.conversation_state.active_conversation_id {
            Some(id) => id.clone(),
            None => {
                return None;
            },
        };
        Some(
            self.ask_for_compaction(
                CompactionRequest {
                    conversation_id,
                    summary: true,
                    silent: false,
                    force: true,
                    resume_after: None,
                },
                config,
                waiter,
            ),
        )
    }
}

} // verus!
