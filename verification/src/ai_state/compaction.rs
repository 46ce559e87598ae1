//! Compaction of conversations: their stored messages are loaded and handed to a model that
//! summarizes them.

use vstd::prelude::*;

use crate::ai::checkpoint::SummaryEvent;
use crate::ai::messages::AiChatMessage;
use crate::ai_state::entity::{AiHistoryState, AiWorkspaceEntity, Effect};
use crate::table::Table;
use crate::text;

verus! {

/// The model that writes summaries.
pub struct SummaryConfig {
    pub provider_type: String,
    pub provider_id: Option<String>,
    pub requires_key: bool,
    pub context_window: usize,
}

/// What was asked for. `resume_after` is the request that goes on once the conversation is smaller.
pub struct CompactionRequest<R> {
    pub conversation_id: String,
    /// Whether the conversation is to be summed up instead of made smaller.
    pub summary: bool,
    /// Whether nobody asked for it, so that nobody hears of a failure.
    pub silent: bool,
    pub force: bool,
    pub resume_after: Option<R>,
}

/// What is to be read from the store once everything so far is on disk.
pub struct CompactionLoad<R> {
    pub request: CompactionRequest<R>,
    pub branch: String,
    pub budget: usize,
    pub provider_type: String,
    /// Who has to hear first that everything so far is on disk.
    pub waiter: u64,
}

/// Why nothing was started. The request that waited comes back, and perhaps an error to show.
pub struct CompactionRefused<R> {
    pub resume_after: Option<R>,
    pub error: Option<String>,
}

/// The messages that a compaction replaces.
pub struct CompactionPlan {
    pub compact_messages: Vec<AiChatMessage>,
}

/// What the host found out about the loaded messages.
pub struct CompactionReview {
    /// The messages as the summarizing model may see them.
    pub scoped: Vec<AiChatMessage>,
    /// How urgent it is to make room.
    pub level: u8,
    pub plan: Option<CompactionPlan>,
    /// What the summarizing model is asked.
    pub summary_messages: Vec<AiChatMessage>,
}

/// A summary that a model is to write.
pub struct CompactionJob<R> {
    pub generation: u64,
    pub summary: bool,
    pub conversation_id: String,
    /// The messages that the summary is of.
    pub base_ids: Vec<String>,
    pub plan: Option<CompactionPlan>,
    pub summary_messages: Vec<AiChatMessage>,
    pub resume_after: Option<R>,
    pub silent: bool,
    /// Whether the window shows that the conversation is being compacted, until the compaction ends.
    pub shows_notice: bool,
    pub config: SummaryConfig,
}

/// What loaded messages led to.
pub enum CompactionStep<R> {
    /// Nobody waits for the messages any more.
    Dropped,
    /// The messages could not be loaded.
    Failed,
    /// There is nothing to do: the request that waited goes on.
    Skipped(CompactionRefused<R>),
    /// The key of the model's provider is to be looked up.
    LookUpKey(CompactionJob<R>),
}

/// The end of a key lookup.
pub enum SummaryKey<K> {
    Found(K),
    Missing,
    Refused,
}

/// What a key lookup led to.
pub enum SummaryStart<R, K> {
    Dropped,
    /// The summary cannot be written: the request that waited goes on.
    GivenUp { resume_after: Option<R>, clear_notice: bool, error_key: Option<String> },
    Stream { job: CompactionJob<R>, key: Option<K> },
}

/// The fewest stored messages that a summary is worth.
pub const FEWEST_MESSAGES: usize = 4;

/// The fewest messages of a conversation that is looked at without being asked.
pub const FEWEST_FOR_AUTO: usize = 6;

/// From this level on room is made without being asked.
pub const URGENT_LEVEL: u8 = 2;

/// The ids of some messages, in their order.
pub open spec fn ids_of(messages: Seq<AiChatMessage>) -> Seq<Seq<char>> {
    messages.map_values(|message: AiChatMessage| message.id@)
}

fn list_ids(messages: &Vec<AiChatMessage>) -> (res: Vec<String>)
    ensures
        text::seq_view(res@) == ids_of(messages@),
{
    let mut ids: Vec<String> = Vec::new();
    let mut i: usize = 0;
    while i < messages.len()
        invariant
            i <= messages.len(),
            ids@.len() == i,
            forall|j: int| 0 <= j < i ==> (#[trigger] ids@[j])@ == messages@[j].id@,
        decreases messages.len() - i,
    {
        ids.push(messages[i].id.clone());
        i += 1;
    }
    assert(text::seq_view(ids@) =~= ids_of(messages@));
    ids
}

impl AiWorkspaceEntity {
    /// Whether a compaction of a conversation is at work.
    pub open spec fn compacts(self, conversation: Seq<char>) -> bool {
        self.history.compaction_runs@.dom().contains(conversation)
    }

    pub fn compaction_in_progress(&self, conversation: &str) -> (res: bool)
        requires
            self.wf(),
        ensures
            res == self.compacts(conversation@),
    {
        self.history.compaction_runs.contains(&conversation.to_owned())
    }

    /// Only the runs of compactions differ.
    pub open spec fn with_compaction_runs(self, runs: Table<String, u64>, generation: u64) -> AiWorkspaceEntity {
        AiWorkspaceEntity {
            history: AiHistoryState { compaction_runs: runs, compaction_generation: generation, ..self.history },
            ..self
        }
    }

    /// The number of the next compaction.
    pub open spec fn next_compaction(self) -> u64 {
        if self.history.compaction_generation == u64::MAX {
            0
        } else {
            (self.history.compaction_generation + 1) as u64
        }
    }

    /// A compaction of a conversation began.
    pub open spec fn compaction_begun(self, before: AiWorkspaceEntity, conversation: Seq<char>) -> bool {
        &&& self == before.with_compaction_runs(self.history.compaction_runs, before.next_compaction())
        &&& self.history.compaction_runs@ == before.history.compaction_runs@.insert(
            conversation,
            before.next_compaction(),
        )
    }

    /// Begins a compaction of a conversation, unless one is at work.
    pub fn begin_compaction(&mut self, conversation: &str) -> (res: bool)
        requires
            old(self).wf(),
        ensures
            final(self).wf(),
            res == !old(self).compacts(conversation@),
            res ==> final(self).compaction_begun(*old(self), conversation@),
            !res ==> *final(self) == *old(self),
    {
        if self.compaction_in_progress(conversation) {
            return false;
        }
        let generation: u64 = self.history.compaction_generation.wrapping_add(1);
        self.history.compaction_generation = generation;
        self.history.compaction_runs.insert(conversation.to_owned(), generation);
        true
    }

    /// A compaction of a conversation ended.
    pub open spec fn compaction_finished(self, before: AiWorkspaceEntity, conversation: Seq<char>) -> bool {
        &&& self == before.with_compaction_runs(
            self.history.compaction_runs,
            before.history.compaction_generation,
        )
        &&& self.history.compaction_runs@ == before.history.compaction_runs@.remove(conversation)
    }

    pub fn finish_compaction(&mut self, conversation: &str)
        requires
            old(self).wf(),
        ensures
            final(self).wf(),
            final(self).compaction_finished(*old(self), conversation@),
    {
        self.history.compaction_runs.remove(&conversation.to_owned());
    }

    /// Whether a conversation's messages can be loaded for a compaction.
    pub open spec fn can_load_for_compaction(self, conversation: Seq<char>) -> bool {
        &&& !self.history.quitting
        &&& !self.history.compaction_loads@.dom().contains(conversation)
        &&& !self.compacts(conversation)
        &&& self.history.store_open
    }

    /// The host was asked to write everything down, and `waiter` waits for that.
    pub open spec fn load_started(self, before: AiWorkspaceEntity, conversation: Seq<char>, waiter: u64) -> bool {
        &&& self == (AiWorkspaceEntity {
            history: AiHistoryState {
                compaction_loads: self.history.compaction_loads,
                effects: self.history.effects,
                waiters: self.history.waiters,
                ..before.history
            },
            ..before
        })
        &&& self.history.compaction_loads@ == before.history.compaction_loads@.insert(conversation, ())
        &&& if before.barrier_is_met() {
            &&& self.history.waiters@ == before.history.waiters@
            &&& self.history.asked() == before.history.asked().push(Effect::Save).push(
                Effect::Answer { waiter, committed: true },
            )
        } else {
            &&& self.history.waiters@ == before.history.waiters@.push(
                (before.history.changes.revision, waiter),
            )
            &&& self.history.asked() == before.history.asked().push(Effect::Save).push(Effect::Save)
        }
    }

    /// Starts to load the messages of a conversation for a compaction. A request that cannot be
    /// served comes back whole.
    pub fn load_ai_compaction_history<R>(
        &mut self,
        request: CompactionRequest<R>,
        config: Result<SummaryConfig, String>,
        waiter: u64,
    ) -> (res: Result<CompactionLoad<R>, CompactionRefused<R>>)
        requires
            old(self).wf(),
        ensures
            final(self).wf(),
            res is Ok <==> old(self).can_load_for_compaction(request.conversation_id@) && config is Ok,
            match res {
                Ok(load) => {
                    &&& load.request == request
                    &&& load.branch@ == old(self).history.branch_of(request.conversation_id@)
                    &&& load.budget == if config->Ok_0.context_window * 2 > usize::MAX {
                        usize::MAX as int
                    } else {
                        config->Ok_0.context_window * 2
                    }
                    &&& load.provider_type == config->Ok_0.provider_type
                    &&& load.waiter == waiter
                    &&& final(self).load_started(*old(self), request.conversation_id@, waiter)
                },
                Err(refused) => {
                    &&& *final(self) == *old(self)
                    &&& refused.resume_after == request.resume_after
                    &&& refused.error == if old(self).can_load_for_compaction(request.conversation_id@)
                        && !request.silent {
                        Some(config->Err_0)
                    } else {
                        None
                    }
                },
            },
    {
        let id = request.conversation_id.clone();
        if self.history.quitting || self.history.compaction_loads.contains(&id)
            || self.compaction_in_progress(id.as_str()) || !self.history.store_open {
            return Err(CompactionRefused { resume_after: request.resume_after, error: None });
        }
        let branch = self.history.branch(id.as_str());
        match config {
            Ok(config) => {
                let budget: usize = match config.context_window.checked_mul(2) {
                    Some(doubled) => doubled,
                    None => usize::MAX,
                };
                let ghost before = *self;
                self.request_history_save();
                let ghost saved = *self;
                self.history_barrier(waiter);
                self.history.compaction_loads.insert(id, ());
                assert(saved.barrier_is_met() == before.barrier_is_met());
                Ok(
                    CompactionLoad {
                        request,
                        branch,
                        budget,
                        provider_type: config.provider_type,
                        waiter,
                    },
                )
            },
            Err(error) => {
                let error = if request.silent {
                    None
                } else {
                    Some(error)
                };
                Err(CompactionRefused { resume_after: request.resume_after, error })
            },
        }
    }

    /// A conversation is no longer busy with something that was loaded for it.
    pub open spec fn load_ended(self, before: AiWorkspaceEntity, conversation: Seq<char>) -> bool {
        &&& self == (AiWorkspaceEntity {
            history: AiHistoryState { compaction_loads: self.history.compaction_loads, ..before.history },
            loading_conversations: self.loading_conversations,
            ..before
        })
        &&& self.history.compaction_loads@ == before.history.compaction_loads@.remove(conversation)
        &&& self.loading_conversations@ == before.loading_conversations@.remove(conversation)
    }

    /// The waiter of a load was answered. If its changes are on disk the messages are to be read.
    pub fn on_compaction_barrier<R>(&mut self, load: CompactionLoad<R>, committed: bool) -> (res: Option<CompactionLoad<R>>)
        requires
            old(self).wf(),
        ensures
            final(self).wf(),
            committed ==> res == Some(load) && *final(self) == *old(self),
            !committed ==> res is None && final(self).load_ended(
                *old(self),
                load.request.conversation_id@,
            ),
    {
        if committed {
            return Some(load);
        }
        self.history.compaction_loads.remove(&load.request.conversation_id);
        self.loading_conversations.remove(&load.request.conversation_id);
        None
    }

    /// Whether messages that were loaded from a branch are still wanted: the window stays open, and
    /// the conversation did not move to another branch.
    pub open spec fn still_wanted<R>(self, load: CompactionLoad<R>) -> bool {
        let id = load.request.conversation_id@;
        !self.history.quitting && (self.history.branches@.dom().contains(id) ==> self.history.branches@[id]@
            == load.branch@)
    }

    fn wants<R>(&self, load: &CompactionLoad<R>) -> (res: bool)
        requires
            self.wf(),
        ensures
            res == self.still_wanted(*load),
    {
        if self.history.quitting {
            return false;
        }
        match self.history.branches.get(&load.request.conversation_id) {
            Some(current) => text::same(current.as_str(), load.branch.as_str()),
            None => true,
        }
    }

    /// The load of a conversation is over, whatever came of it.
    pub open spec fn load_closed(self, before: AiWorkspaceEntity, conversation: Seq<char>) -> bool {
        &&& self == (AiWorkspaceEntity {
            history: AiHistoryState { compaction_loads: self.history.compaction_loads, ..before.history },
            ..before
        })
        &&& self.history.compaction_loads@ == before.history.compaction_loads@.remove(conversation)
    }

    fn close_load(&mut self, conversation: &String)
        requires
            old(self).wf(),
        ensures
            final(self).wf(),
            final(self).load_closed(*old(self), conversation@),
    {
        self.history.compaction_loads.remove(conversation);
    }

    /// Loaded messages were kept as the source of a compaction.
    pub open spec fn source_kept(
        self,
        before: AiWorkspaceEntity,
        conversation: Seq<char>,
        source: (String, Vec<AiChatMessage>),
    ) -> bool {
        &&& self == (AiWorkspaceEntity {
            history: AiHistoryState { compaction_sources: self.history.compaction_sources, ..before.history },
            ..before
        })
        &&& self.history.compaction_sources@ == before.history.compaction_sources@.insert(conversation, source)
    }

    fn keep_source(&mut self, conversation: &String, branch: String, messages: Vec<AiChatMessage>)
        requires
            old(self).wf(),
        ensures
            final(self).wf(),
            final(self).source_kept(*old(self), conversation@, (branch, messages)),
    {
        self.history.compaction_sources.insert(conversation.clone(), (branch, messages));
    }

    /// The source of a compaction was let go.
    pub open spec fn source_dropped(self, before: AiWorkspaceEntity, conversation: Seq<char>) -> bool {
        &&& self == (AiWorkspaceEntity {
            history: AiHistoryState { compaction_sources: self.history.compaction_sources, ..before.history },
            ..before
        })
        &&& self.history.compaction_sources@ == before.history.compaction_sources@.remove(conversation)
    }

    fn drop_source(&mut self, conversation: &String)
        requires
            old(self).wf(),
        ensures
            final(self).wf(),
            final(self).source_dropped(*old(self), conversation@),
    {
        self.history.compaction_sources.remove(conversation);
    }

    /// Whether a kept source is worth a summary.
    pub open spec fn worth_a_summary(self, conversation: Seq<char>) -> bool {
        self.history.compaction_sources@.dom().contains(conversation)
            && self.history.compaction_sources@[conversation].1@.len() >= FEWEST_MESSAGES
    }

    /// Whether a compaction of a kept source is numbered, even if it is then given up.
    pub open spec fn gets_numbered(self, conversation: Seq<char>) -> bool {
        self.worth_a_summary(conversation) && !self.compacts(conversation)
    }

    fn is_worth_a_summary(&self, conversation: &String) -> (res: bool)
        requires
            self.wf(),
        ensures
            res == self.worth_a_summary(conversation@),
    {
        match self.history.compaction_sources.get(conversation) {
            Some(source) => source.1.len() >= FEWEST_MESSAGES,
            None => false,
        }
    }

    /// Whether room is to be made: somebody asked for it, or it is urgent.
    pub open spec fn asks_for_room(silent: bool, force: bool, level: u8) -> bool {
        silent && !force ==> level >= URGENT_LEVEL
    }

    /// Whether a kept source leads to a compaction.
    pub open spec fn can_compact<R>(
        self,
        request: CompactionRequest<R>,
        config: Result<SummaryConfig, String>,
        review: CompactionReview,
    ) -> bool {
        &&& self.worth_a_summary(request.conversation_id@)
        &&& !self.compacts(request.conversation_id@)
        &&& config is Ok
        &&& Self::asks_for_room(request.silent, request.force, review.level)
        &&& review.plan is Some
    }

    /// The error that an unsuccessful compaction shows: only one that was asked for shows why there
    /// is no model.
    pub open spec fn compaction_error<R>(
        self,
        request: CompactionRequest<R>,
        config: Result<SummaryConfig, String>,
        shown: bool,
    ) -> Option<String> {
        if shown && self.gets_numbered(request.conversation_id@) && config is Err {
            Some(config->Err_0)
        } else {
            None
        }
    }

    /// What a summary is asked for with.
    pub open spec fn job_is<R>(
        job: CompactionJob<R>,
        request: CompactionRequest<R>,
        config: Result<SummaryConfig, String>,
        generation: u64,
        messages: Seq<AiChatMessage>,
        plan: Option<CompactionPlan>,
        summary_messages: Vec<AiChatMessage>,
    ) -> bool {
        &&& job.generation == generation
        &&& job.summary == request.summary
        &&& job.conversation_id == request.conversation_id
        &&& text::seq_view(job.base_ids@) == ids_of(messages)
        &&& job.plan == plan
        &&& job.summary_messages == summary_messages
        &&& job.resume_after == request.resume_after
        &&& job.silent == request.silent
        &&& job.shows_notice == (request.silent && plan is Some)
        &&& config == Result::<SummaryConfig, String>::Ok(job.config)
    }

    /// A compaction began, and its key is being looked up.
    #[verifier::opaque]
    pub open spec fn key_lookup_started(self, before: AiWorkspaceEntity, conversation: Seq<char>) -> bool {
        &&& self == (AiWorkspaceEntity {
            history: AiHistoryState {
                compaction_runs: self.history.compaction_runs,
                compaction_generation: before.next_compaction(),
                compaction_key_loads: self.history.compaction_key_loads,
                ..before.history
            },
            loading_conversations: self.loading_conversations,
            ..before
        })
        &&& self.history.compaction_runs@ == before.history.compaction_runs@.insert(
            conversation,
            before.next_compaction(),
        )
        &&& self.history.compaction_key_loads@ == before.history.compaction_key_loads@.insert(
            conversation,
            (),
        )
    }

    /// No compaction started, but one may have been numbered.
    #[verifier::opaque]
    pub open spec fn compaction_refused(self, before: AiWorkspaceEntity, numbered: bool) -> bool {
        &&& self == before.with_compaction_runs(
            self.history.compaction_runs,
            if numbered {
                before.next_compaction()
            } else {
                before.history.compaction_generation
            },
        )
        &&& self.history.compaction_runs@ == before.history.compaction_runs@
    }

    /// Numbers a compaction and starts its key lookup.
    fn begin_key_lookup(&mut self, conversation: &String, loads: bool) -> (res: u64)
        requires
            old(self).wf(),
            !old(self).compacts(conversation@),
        ensures
            final(self).wf(),
            res == old(self).next_compaction(),
            final(self).key_lookup_started(*old(self), conversation@),
            !loads ==> final(self).loading_conversations == old(self).loading_conversations,
            loads ==> final(self).loading_conversations@ == old(self).loading_conversations@.insert(
                conversation@,
                (),
            ),
    {
        proof {
            reveal(AiWorkspaceEntity::key_lookup_started);
        }
        self.begin_compaction(conversation.as_str());
        let generation: u64 = self.history.compaction_generation;
        self.history.compaction_key_loads.insert(conversation.clone(), ());
        if loads {
            self.loading_conversations.insert(conversation.clone(), ());
        }
        generation
    }

    /// Numbers a compaction that is given up at once.
    fn number_and_give_up(&mut self, conversation: &String)
        requires
            old(self).wf(),
            !old(self).compacts(conversation@),
        ensures
            final(self).wf(),
            final(self).compaction_refused(*old(self), true),
    {
        proof {
            reveal(AiWorkspaceEntity::compaction_refused);
        }
        self.begin_compaction(conversation.as_str());
        self.finish_compaction(conversation.as_str());
        assert(self.history.compaction_runs@ =~= old(self).history.compaction_runs@);
    }

    /// Starts a compaction with the messages that were kept for it, if there is anything to gain. A
    /// request that waits comes back whole where there is not.
    pub fn start_ai_compact_conversation_from_history<R>(
        &mut self,
        request: CompactionRequest<R>,
        config: Result<SummaryConfig, String>,
        review: CompactionReview,
    ) -> (res: Result<CompactionJob<R>, CompactionRefused<R>>)
        requires
            old(self).wf(),
        ensures
            final(self).wf(),
            res is Ok <==> old(self).can_compact(request, config, review),
            match res {
                Ok(job) => {
                    &&& Self::job_is(
                        job,
                        request,
                        config,
                        old(self).next_compaction(),
                        review.scoped@,
                        review.plan,
                        review.summary_messages,
                    )
                    &&& final(self).key_lookup_started(*old(self), request.conversation_id@)
                    &&& final(self).loading_conversations == old(self).loading_conversations
                },
                Err(refused) => {
                    &&& refused.resume_after == request.resume_after
                    &&& refused.error == old(self).compaction_error(request, config, !request.silent)
                    &&& final(self).compaction_refused(
                        *old(self),
                        old(self).gets_numbered(request.conversation_id@),
                    )
                },
            },
    {
        proof {
            reveal(AiWorkspaceEntity::compaction_refused);
        }
        if !self.is_worth_a_summary(&request.conversation_id) || self.compaction_in_progress(
            request.conversation_id.as_str(),
        ) {
            return Err(CompactionRefused { resume_after: request.resume_after, error: None });
        }
        let urgent = !request.silent || request.force || review.level >= URGENT_LEVEL;
        let config = match config {
            Ok(config) => config,
            Err(error) => {
                self.number_and_give_up(&request.conversation_id);
                let error = if request.silent {
                    None
                } else {
                    Some(error)
                };
                return Err(CompactionRefused { resume_after: request.resume_after, error });
            },
        };
        match review.plan {
            Some(plan) if urgent => {
                let generation: u64 = self.begin_key_lookup(&request.conversation_id, false);
                let base_ids = list_ids(&review.scoped);
                Ok(
                    CompactionJob {
                        generation,
                        summary: request.summary,
                        conversation_id: request.conversation_id,
                        base_ids,
                        plan: Some(plan),
                        summary_messages: review.summary_messages,
                        resume_after: request.resume_after,
                        silent: request.silent,
                        shows_notice: request.silent,
                        config,
                    },
                )
            },
            _ => {
                self.number_and_give_up(&request.conversation_id);
                Err(CompactionRefused { resume_after: request.resume_after, error: None })
            },
        }
    }

    /// Whether a kept source leads to a summary.
    pub open spec fn can_summarize<R>(self, request: CompactionRequest<R>, config: Result<SummaryConfig, String>) -> bool {
        &&& self.worth_a_summary(request.conversation_id@)
        &&& !self.compacts(request.conversation_id@)
        &&& config is Ok
    }

    /// Starts a summary of the messages that were kept for it. The conversation loads meanwhile.
    pub fn start_ai_summarize_conversation_from_history<R>(
        &mut self,
        request: CompactionRequest<R>,
        config: Result<SummaryConfig, String>,
        summary_messages: Vec<AiChatMessage>,
    ) -> (res: Result<CompactionJob<R>, Option<String>>)
        requires
            old(self).wf(),
        ensures
            final(self).wf(),
            res is Ok <==> old(self).can_summarize(request, config),
            match res {
                Ok(job) => {
                    &&& Self::job_is(
                        job,
                        request,
                        config,
                        old(self).next_compaction(),
                        old(self).history.compaction_sources@[request.conversation_id@].1@,
                        None,
                        summary_messages,
                    )
                    &&& final(self).key_lookup_started(*old(self), request.conversation_id@)
                    &&& final(self).loading_conversations@ == old(self).loading_conversations@.insert(
                        request.conversation_id@,
                        (),
                    )
                },
                Err(error) => {
                    &&& error == old(self).compaction_error(request, config, true)
                    &&& final(self).compaction_refused(
                        *old(self),
                        old(self).gets_numbered(request.conversation_id@),
                    )
                },
            },
    {
        proof {
            reveal(AiWorkspaceEntity::compaction_refused);
        }
        let base_ids = match self.history.compaction_sources.get(&request.conversation_id) {
            Some(source) => {
                if source.1.len() < FEWEST_MESSAGES {
                    return Err(None);
                }
                list_ids(&source.1)
            },
            None => {
                return Err(None);
            },
        };
        if self.compaction_in_progress(request.conversation_id.as_str()) {
            return Err(None);
        }
        match config {
            Ok(config) => {
                let generation: u64 = self.begin_key_lookup(&request.conversation_id, true);
                Ok(
                    CompactionJob {
                        generation,
                        summary: request.summary,
                        conversation_id: request.conversation_id,
                        base_ids,
                        plan: None,
                        summary_messages,
                        resume_after: request.resume_after,
                        silent: request.silent,
                        shows_notice: false,
                        config,
                    },
                )
            },
            Err(error) => {
                self.number_and_give_up(&request.conversation_id);
                Err(Some(error))
            },
        }
    }

    /// What a kept source leads to for a compaction.
    pub open spec fn compaction_stepped<R>(
        self,
        kept: AiWorkspaceEntity,
        request: CompactionRequest<R>,
        config: Result<SummaryConfig, String>,
        review: CompactionReview,
        step: CompactionStep<R>,
    ) -> bool {
        let id = request.conversation_id@;
        if kept.can_compact(request, config, review) {
            &&& step is LookUpKey
            &&& Self::job_is(
                step->LookUpKey_0,
                request,
                config,
                kept.next_compaction(),
                review.scoped@,
                review.plan,
                review.summary_messages,
            )
            &&& self.key_lookup_started(kept, id)
            &&& self.loading_conversations == kept.loading_conversations
        } else {
            &&& step is Skipped
            &&& step->Skipped_0.resume_after == request.resume_after
            &&& step->Skipped_0.error == kept.compaction_error(request, config, !request.silent)
            &&& self.refused_and_dropped(kept, id)
        }
    }

    /// What a kept source leads to for a summary.
    pub open spec fn summary_stepped<R>(
        self,
        kept: AiWorkspaceEntity,
        request: CompactionRequest<R>,
        config: Result<SummaryConfig, String>,
        review: CompactionReview,
        step: CompactionStep<R>,
    ) -> bool {
        let id = request.conversation_id@;
        if kept.can_summarize(request, config) {
            &&& step is LookUpKey
            &&& Self::job_is(
                step->LookUpKey_0,
                request,
                config,
                kept.next_compaction(),
                kept.history.compaction_sources@[id].1@,
                None,
                review.summary_messages,
            )
            &&& self.key_lookup_started(kept, id)
            &&& self.loading_conversations@ == kept.loading_conversations@.insert(id, ())
        } else {
            &&& step is Skipped
            &&& step->Skipped_0.resume_after is None
            &&& step->Skipped_0.error == kept.compaction_error(request, config, true)
            &&& self.refused_and_dropped(kept, id)
        }
    }

    /// No compaction started, and its source was let go.
    pub open spec fn refused_and_dropped(self, kept: AiWorkspaceEntity, conversation: Seq<char>) -> bool {
        exists|refused: AiWorkspaceEntity| #[trigger]
            refused.compaction_refused(
                kept,
                kept.gets_numbered(conversation),
            ) && self.source_dropped(refused, conversation)
    }

    /// The chat shows that the messages of a conversation could not be loaded.
    pub open spec fn source_failed(self, before: AiWorkspaceEntity, conversation: Seq<char>) -> bool {
        &&& self == (AiWorkspaceEntity {
            loading_conversations: self.loading_conversations,
            chat_initialization_error: self.chat_initialization_error,
            ..before
        })
        &&& self.loading_conversations@ == before.loading_conversations@.remove(conversation)
        &&& self.load_error()
    }

    /// What loaded messages lead to, once their load is closed.
    pub open spec fn source_taken<R>(
        self,
        closed: AiWorkspaceEntity,
        load: CompactionLoad<R>,
        source: Result<Vec<AiChatMessage>, ()>,
        config: Result<SummaryConfig, String>,
        review: CompactionReview,
        step: CompactionStep<R>,
    ) -> bool {
        let id = load.request.conversation_id@;
        if !closed.still_wanted(load) {
            step is Dropped && self == closed
        } else {
            match source {
                Err(_) => step is Failed && self.source_failed(closed, id),
                Ok(messages) => exists|kept: AiWorkspaceEntity| #[trigger]
                    kept.source_kept(closed, id, (load.branch, messages)) && if load.request.summary {
                        self.summary_stepped(kept, load.request, config, review, step)
                    } else {
                        self.compaction_stepped(kept, load.request, config, review, step)
                    },
            }
        }
    }

    fn step_compaction<R>(
        &mut self,
        request: CompactionRequest<R>,
        config: Result<SummaryConfig, String>,
        review: CompactionReview,
    ) -> (res: CompactionStep<R>)
        requires
            old(self).wf(),
        ensures
            final(self).wf(),
            final(self).compaction_stepped(*old(self), request, config, review, res),
    {
        let id = request.conversation_id.clone();
        match self.start_ai_compact_conversation_from_history(request, config, review) {
            Ok(job) => CompactionStep::LookUpKey(job),
            Err(refused) => {
                self.drop_source(&id);
                CompactionStep::Skipped(refused)
            },
        }
    }

    fn step_summary<R>(
        &mut self,
        request: CompactionRequest<R>,
        config: Result<SummaryConfig, String>,
        review: CompactionReview,
    ) -> (res: CompactionStep<R>)
        requires
            old(self).wf(),
        ensures
            final(self).wf(),
            final(self).summary_stepped(*old(self), request, config, review, res),
    {
        let id = request.conversation_id.clone();
        match self.start_ai_summarize_conversation_from_history(request, config, review.summary_messages) {
            Ok(job) => CompactionStep::LookUpKey(job),
            Err(error) => {
                self.drop_source(&id);
                CompactionStep::Skipped(CompactionRefused { resume_after: None, error })
            },
        }
    }

    fn fail_source(&mut self, conversation: &String)
        requires
            old(self).wf(),
        ensures
            final(self).wf(),
            final(self).source_failed(*old(self), conversation@),
    {
        self.loading_conversations.remove(conversation);
        self.history_load_failed();
    }

    /// The messages of a conversation were read from the store. They start what they were read for,
    /// unless the window closes or the conversation moved to another branch meanwhile.
    pub fn on_compaction_source<R>(
        &mut self,
        load: CompactionLoad<R>,
        source: Result<Vec<AiChatMessage>, ()>,
        config: Result<SummaryConfig, String>,
        review: CompactionReview,
    ) -> (res: CompactionStep<R>)
        requires
            old(self).wf(),
        ensures
            final(self).wf(),
            exists|closed: AiWorkspaceEntity| #[trigger]
                closed.load_closed(*old(self), load.request.conversation_id@) && final(self).source_taken(
                    closed,
                    load,
                    source,
                    config,
                    review,
                    res,
                ),
    {
        self.close_load(&load.request.conversation_id);
        let ghost closed = *self;
        assert(closed.load_closed(*old(self), load.request.conversation_id@));
        if !self.wants(&load) {
            return CompactionStep::Dropped;
        }
        match source {
            Err(_) => {
                self.fail_source(&load.request.conversation_id);
                CompactionStep::Failed
            },
            Ok(messages) => {
                self.keep_source(&load.request.conversation_id, load.branch, messages);
                let ghost kept = *self;
                assert(kept.source_kept(
                    closed,
                    load.request.conversation_id@,
                    (load.branch, messages),
                ));
                if load.request.summary {
                    self.step_summary(load.request, config, review)
                } else {
                    self.step_compaction(load.request, config, review)
                }
            },
        }
    }

    /// The key lookup of a conversation is over.
    pub open spec fn key_lookup_closed(self, before: AiWorkspaceEntity, conversation: Seq<char>) -> bool {
        &&& self == (AiWorkspaceEntity {
            history: AiHistoryState {
                compaction_key_loads: self.history.compaction_key_loads,
                ..before.history
            },
            ..before
        })
        &&& self.history.compaction_key_loads@ == before.history.compaction_key_loads@.remove(conversation)
    }

    fn close_key_lookup(&mut self, conversation: &String)
        requires
            old(self).wf(),
        ensures
            final(self).wf(),
            final(self).key_lookup_closed(*old(self), conversation@),
    {
        self.history.compaction_key_loads.remove(conversation);
    }

    /// A compaction at work was given up.
    pub open spec fn compaction_given_up(self, before: AiWorkspaceEntity, conversation: Seq<char>) -> bool {
        &&& self == (AiWorkspaceEntity {
            history: AiHistoryState {
                compaction_runs: self.history.compaction_runs,
                compaction_sources: self.history.compaction_sources,
                ..before.history
            },
            loading_conversations: self.loading_conversations,
            ..before
        })
        &&& self.history.compaction_runs@ == before.history.compaction_runs@.remove(conversation)
        &&& self.history.compaction_sources@ == before.history.compaction_sources@.remove(conversation)
        &&& self.loading_conversations@ == before.loading_conversations@.remove(conversation)
    }

    fn give_up_compaction(&mut self, conversation: &String)
        requires
            old(self).wf(),
        ensures
            final(self).wf(),
            final(self).compaction_given_up(*old(self), conversation@),
    {
        self.finish_compaction(conversation.as_str());
        self.drop_source(conversation);
        self.loading_conversations.remove(conversation);
    }

    /// Whether a compaction is the one at work on its conversation.
    pub open spec fn is_at_work(self, conversation: Seq<char>, generation: u64) -> bool {
        self.compacts(conversation) && self.history.compaction_runs@[conversation] == generation
    }

    fn runs_now(&self, conversation: &String, generation: u64) -> (res: bool)
        requires
            self.wf(),
        ensures
            res == self.is_at_work(conversation@, generation),
    {
        match self.history.compaction_runs.get(conversation) {
            Some(current) => *current == generation,
            None => false,
        }
    }

    /// Whether a summary can be asked for with the key that was found.
    pub open spec fn key_suffices<K>(config: SummaryConfig, key: SummaryKey<K>) -> bool {
        config.requires_key ==> key is Found
    }

    /// What a key lookup leads to, once it is closed.
    pub open spec fn key_taken<R, K>(
        self,
        closed: AiWorkspaceEntity,
        job: CompactionJob<R>,
        key: SummaryKey<K>,
        start: SummaryStart<R, K>,
    ) -> bool {
        let id = job.conversation_id@;
        if !closed.is_ready() {
            start is Dropped && self.compaction_given_up(closed, id)
        } else if Self::key_suffices(job.config, key) {
            &&& self == closed
            &&& start == SummaryStart::<R, K>::Stream {
                job,
                key: match key {
                    SummaryKey::Found(key) => Some(key),
                    _ => None,
                },
            }
        } else {
            &&& self.compaction_given_up(closed, id)
            &&& start is GivenUp
            &&& start->resume_after == job.resume_after
            &&& start->clear_notice == job.silent
            &&& text::opt_view(start->error_key) == if job.silent {
                None
            } else if key is Missing {
                Some("ai.model_selector.api_key_not_found"@)
            } else {
                Some("ai.model_selector.failed_to_get_api_key"@)
            }
        }
    }

    /// The key of the summarizing model's provider was looked up. A lookup for a compaction that is
    /// no longer at work changes nothing.
    pub fn on_summary_key<R, K>(&mut self, job: CompactionJob<R>, key: SummaryKey<K>) -> (res: SummaryStart<R, K>)
        requires
            old(self).wf(),
        ensures
            final(self).wf(),
            if !old(self).is_at_work(job.conversation_id@, job.generation) {
                res is Dropped && *final(self) == *old(self)
            } else {
                exists|closed: AiWorkspaceEntity| #[trigger]
                    closed.key_lookup_closed(*old(self), job.conversation_id@) && final(self).key_taken(
                        closed,
                        job,
                        key,
                        res,
                    )
            },
    {
        if !self.runs_now(&job.conversation_id, job.generation) {
            return SummaryStart::Dropped;
        }
        self.close_key_lookup(&job.conversation_id);
        let ghost closed = *self;
        assert(closed.key_lookup_closed(*old(self), job.conversation_id@));
        if !self.history_ready() {
            self.give_up_compaction(&job.conversation_id);
            return SummaryStart::Dropped;
        }
        let requires_key = job.config.requires_key;
        let failure = match key {
            SummaryKey::Found(key) => {
                return SummaryStart::Stream { job, key: Some(key) };
            },
            SummaryKey::Missing => "ai.model_selector.api_key_not_found",
            SummaryKey::Refused => "ai.model_selector.failed_to_get_api_key",
        };
        if !requires_key {
            return SummaryStart::Stream { job, key: None };
        }
        self.give_up_compaction(&job.conversation_id);
        let error_key = if job.silent {
            None
        } else {
            Some(failure.to_owned())
        };
        SummaryStart::GivenUp { resume_after: job.resume_after, clear_notice: job.silent, error_key }
    }
}

/// A finished summary, on its way back to the window.
pub struct AiCompactionDelivery<R> {
    pub generation: u64,
    pub is_summary: bool,
    pub conversation_id: String,
    pub base_ids: Vec<String>,
    pub plan: Option<CompactionPlan>,
    pub summary: String,
    pub failed: bool,
    pub resume_after: Option<R>,
    pub silent: bool,
}

/// A summary that comes in. What a provider says about a failure is not kept: it can hold parts of
/// requests and responses.
pub struct SummaryStream<R> {
    pub job: CompactionJob<R>,
    pub text: String,
    pub failed: bool,
    pub ended: bool,
}

impl<R> SummaryStream<R> {
    pub fn new(job: CompactionJob<R>) -> (res: SummaryStream<R>)
        ensures
            res.job == job,
            res.text@.len() == 0,
            !res.failed,
            !res.ended,
    {
        SummaryStream { job, text: String::new(), failed: false, ended: false }
    }

    /// The summarizing model sent `event`. Nothing is read behind the end or an error.
    pub fn on_event(&mut self, event: SummaryEvent)
        ensures
            final(self).job == old(self).job,
            if old(self).ended {
                *final(self) == *old(self)
            } else {
                match event {
                    SummaryEvent::Content(chunk) => final(self).text@ == old(self).text@ + chunk@
                        && final(self).failed == old(self).failed && !final(self).ended,
                    SummaryEvent::Other => *final(self) == *old(self),
                    SummaryEvent::Done => *final(self) == (SummaryStream { ended: true, ..*old(self) }),
                    SummaryEvent::Error => *final(self) == (SummaryStream {
                        failed: true,
                        ended: true,
                        ..*old(self)
                    }),
                }
            },
    {
        if self.ended {
            return;
        }
        match event {
            SummaryEvent::Content(chunk) => {
                self.text.append(chunk.as_str());
            },
            SummaryEvent::Other => {},
            SummaryEvent::Done => {
                self.ended = true;
            },
            SummaryEvent::Error => {
                self.failed = true;
                self.ended = true;
            },
        }
    }

    /// What is handed back once the stream is over. A stream that closes without an end counts as
    /// complete.
    pub fn deliver(self) -> (res: AiCompactionDelivery<R>)
        ensures
            res.generation == self.job.generation,
            res.is_summary == self.job.summary,
            res.conversation_id == self.job.conversation_id,
            res.base_ids == self.job.base_ids,
            res.plan == self.job.plan,
            res.summary == self.text,
            res.failed == self.failed,
            res.resume_after == self.job.resume_after,
            res.silent == self.job.silent,
    {
        AiCompactionDelivery {
            generation: self.job.generation,
            is_summary: self.job.summary,
            conversation_id: self.job.conversation_id,
            base_ids: self.job.base_ids,
            plan: self.job.plan,
            summary: self.text,
            failed: self.failed,
            resume_after: self.job.resume_after,
            silent: self.job.silent,
        }
    }
}

/// While a compaction of a conversation is at work no other one is loaded or started for it.
pub proof fn law_one_compaction_at_a_time<R>(
    before: AiWorkspaceEntity,
    after: AiWorkspaceEntity,
    request: CompactionRequest<R>,
    config: Result<SummaryConfig, String>,
    review: CompactionReview,
)
    requires
        after.key_lookup_started(before, request.conversation_id@),
    ensures
        !after.can_load_for_compaction(request.conversation_id@),
        !after.can_compact(request, config, review),
        !after.can_summarize(request, config),
{
    reveal(AiWorkspaceEntity::key_lookup_started);
}

/// A request that waits for a compaction is handed back where none is started: it is neither lost
/// nor held up.
pub proof fn law_skipped_compactions_hand_requests_back<R>(
    kept: AiWorkspaceEntity,
    after: AiWorkspaceEntity,
    request: CompactionRequest<R>,
    config: Result<SummaryConfig, String>,
    review: CompactionReview,
    step: CompactionStep<R>,
)
    requires
        after.compaction_stepped(kept, request, config, review, step),
    ensures
        match step {
            CompactionStep::Skipped(refused) => refused.resume_after == request.resume_after,
            CompactionStep::LookUpKey(job) => job.resume_after == request.resume_after,
            _ => false,
        },
{
}

} // verus!
