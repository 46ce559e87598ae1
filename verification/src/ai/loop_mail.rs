//! What an agent's run reads between its steps.

use vstd::prelude::*;

use crate::ai::agent_run::{
    append_agent_mailbox, directives_in, mail_appended, mail_is_news, new_directives, news_read,
    AgentUpdate, MailboxMessage,
};
use crate::ai::notes::directive_notes;
use crate::ai::tool_loop::{LoopPhase, ToolLoop};

verus! {

/// What reading the mail of a run led to.
pub struct MailRead {
    /// How far the news of children was read.
    pub cursor: u64,
    /// Whether there was something new to go by: what counts as progress starts anew.
    pub news: bool,
}

impl ToolLoop {
    /// Whether the run reads its mail now: before it is granted a round, before it announces the end
    /// of its work, and before it asks the model.
    pub open spec fn reads_mail(self) -> bool {
        &&& self.settings.has_agent
        &&& self.phase == LoopPhase::AwaitGrant || self.phase == LoopPhase::AwaitSummaryCompletion
            || self.phase == LoopPhase::AwaitDispatch
    }

    /// Reads the mail of the run into its history. Before a round, what is new in it counts as
    /// directives of the user; `deferred` says whether messages of the user were held back until
    /// then. `cursor` is how far the news of children was read before.
    pub fn on_mail(
        &mut self,
        messages: &Vec<MailboxMessage>,
        updates: &Vec<AgentUpdate>,
        cursor: u64,
        deferred: bool,
        now_ms: i64,
    ) -> (res: MailRead)
        requires
            old(self).reads_mail(),
        ensures
            *final(self) == (ToolLoop {
                history: final(self).history,
                notes: final(self).notes,
                ..*old(self)
            }),
            mail_appended(
                old(self).history@,
                final(self).history@,
                messages@,
                old(self).settings.is_child,
                updates@,
                now_ms,
            ),
            res.cursor == news_read(cursor, old(self).settings.is_child, updates@),
            res.news == (old(self).phase == LoopPhase::AwaitGrant && (res.cursor != cursor || deferred)),
            final(self).notes@ == if res.news {
                old(self).notes@.and(
                    directive_notes(
                        directives_in(final(self).history@.skip(old(self).history@.len() as int)),
                    ),
                )
            } else {
                old(self).notes@
            },
    {
        let start: usize = self.history.len();
        let read: u64 = append_agent_mailbox(
            &mut self.history,
            messages,
            self.settings.is_child,
            updates,
            cursor,
            now_ms,
        );
        let news = self.phase == LoopPhase::AwaitGrant && mail_is_news(cursor, read, deferred);
        if news {
            let directives = new_directives(&self.history, start);
            self.notes.note_directives(directives);
        }
        MailRead { cursor: read, news }
    }
}

} // verus!
