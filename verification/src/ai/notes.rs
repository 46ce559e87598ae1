//! What is noted of a task while it runs, so that it can be taken up again.

use vstd::prelude::*;

use crate::ai::messages::{last_user_message, AiChatMessage, AiChatRole, AiToolCall};
use crate::ai::results::{AiExecutedToolResult, Reported};
use crate::text;

verus! {

/// What a result says.
pub struct Executed {
    pub tool_call_id: Seq<char>,
    pub tool_name: Seq<char>,
    pub success: bool,
    pub output: Seq<char>,
    pub error: Option<Seq<char>>,
    pub duration_ms: u64,
    pub dispatched: bool,
    pub envelope: Reported,
}

impl AiExecutedToolResult {
    pub open spec fn view(self) -> Executed {
        Executed {
            tool_call_id: self.tool_call_id@,
            tool_name: self.tool_name@,
            success: self.success,
            output: self.output@,
            error: text::opt_view(self.error),
            duration_ms: self.duration_ms,
            dispatched: self.dispatched,
            envelope: self.envelope@,
        }
    }

    pub fn duplicate(&self) -> (res: AiExecutedToolResult)
        ensures
            res@ == self@,
    {
        AiExecutedToolResult {
            tool_call_id: self.tool_call_id.clone(),
            tool_name: self.tool_name.clone(),
            success: self.success,
            output: self.output.clone(),
            error: text::duplicate_option(&self.error),
            duration_ms: self.duration_ms,
            dispatched: self.dispatched,
            envelope: self.envelope.duplicate(),
        }
    }
}

/// One thing that was noted.
pub enum NoteStep {
    /// The user said more about the task.
    Directive(String),
    /// A call is about to run.
    Pending(AiToolCall),
    /// A call has its result.
    Recorded { call: AiToolCall, result: AiExecutedToolResult },
    /// What a summary of the task says.
    WorkingNotes(String),
    /// Whether the task was left unfinished.
    NeedsContinuation(bool),
}

/// One thing that was noted, in words.
pub enum Noted {
    Directive(Seq<char>),
    Pending(AiToolCall),
    Recorded { call: AiToolCall, result: Executed },
    WorkingNotes(Seq<char>),
    NeedsContinuation(bool),
}

impl NoteStep {
    pub open spec fn view(self) -> Noted {
        match self {
            NoteStep::Directive(words) => Noted::Directive(words@),
            NoteStep::Pending(call) => Noted::Pending(call),
            NoteStep::Recorded { call, result } => Noted::Recorded { call, result: result@ },
            NoteStep::WorkingNotes(words) => Noted::WorkingNotes(words@),
            NoteStep::NeedsContinuation(unfinished) => Noted::NeedsContinuation(unfinished),
        }
    }

    fn duplicate(&self) -> (res: NoteStep)
        ensures
            res@ == self@,
    {
        match self {
            NoteStep::Directive(words) => NoteStep::Directive(words.clone()),
            NoteStep::Pending(call) => NoteStep::Pending(call.duplicate()),
            NoteStep::Recorded { call, result } => NoteStep::Recorded {
                call: call.duplicate(),
                result: result.duplicate(),
            },
            NoteStep::WorkingNotes(words) => NoteStep::WorkingNotes(words.clone()),
            NoteStep::NeedsContinuation(unfinished) => NoteStep::NeedsContinuation(*unfinished),
        }
    }
}

/// The notes of a task: what the user asked for, and what was noted since, in order. Where the task
/// was begun before, `continues` names the message that carries the notes that these go on from.
pub struct TaskNotes {
    pub task: String,
    pub continues: Option<String>,
    pub steps: Vec<NoteStep>,
}

/// The notes of a task, in words.
pub struct Notes {
    pub task: Seq<char>,
    pub continues: Option<Seq<char>>,
    pub steps: Seq<Noted>,
}

pub open spec fn steps_view(steps: Seq<NoteStep>) -> Seq<Noted> {
    steps.map_values(|step: NoteStep| step@)
}

/// What the user last asked for in a history.
pub open spec fn asked_last(history: Seq<AiChatMessage>) -> Seq<char>
    decreases history.len(),
{
    if history.len() == 0 {
        Seq::empty()
    } else if history.last().role == AiChatRole::User {
        history.last().content@
    } else {
        asked_last(history.drop_last())
    }
}

/// The message whose notes a task goes on from: the last one since the user asked that carries any.
/// `carries` says of each message whether it does.
pub open spec fn continued_from(history: Seq<AiChatMessage>, carries: Seq<bool>) -> Option<Seq<char>>
    decreases history.len(),
{
    if history.len() == 0 {
        None
    } else if history.len() <= carries.len() && carries[history.len() - 1] {
        Some(history.last().id@)
    } else if history.last().role == AiChatRole::User {
        None
    } else {
        continued_from(history.drop_last(), carries)
    }
}

/// The notes of a task that starts, or goes on, from a history.
pub open spec fn fresh_notes(history: Seq<AiChatMessage>, carries: Seq<bool>) -> Notes {
    Notes {
        task: asked_last(history),
        continues: continued_from(history, carries),
        steps: Seq::empty(),
    }
}

fn find_continued(history: &Vec<AiChatMessage>, carries: &Vec<bool>) -> (res: Option<String>)
    ensures
        text::opt_view(res) == continued_from(history@, carries@),
{
    let mut i: usize = history.len();
    assert(history@.take(i as int) =~= history@);
    while i > 0
        invariant
            i <= history.len(),
            continued_from(history@, carries@) == continued_from(history@.take(i as int), carries@),
        decreases i,
    {
        assert(history@.take(i as int).drop_last() =~= history@.take(i - 1));
        i -= 1;
        if i < carries.len() && carries[i] {
            return Some(history[i].id.clone());
        }
        if history[i].role == AiChatRole::User {
            return None;
        }
    }
    None
}

proof fn lemma_asked_last(history: Seq<AiChatMessage>, at: int)
    requires
        0 <= at < history.len(),
        history[at].role == AiChatRole::User,
        forall|j: int| at < j < history.len() ==> (#[trigger] history[j]).role != AiChatRole::User,
    ensures
        asked_last(history) == history[at].content@,
    decreases history.len(),
{
    if at < history.len() - 1 {
        lemma_asked_last(history.drop_last(), at);
    }
}

proof fn lemma_nothing_asked(history: Seq<AiChatMessage>)
    requires
        forall|j: int| 0 <= j < history.len() ==> (#[trigger] history[j]).role != AiChatRole::User,
    ensures
        asked_last(history) == Seq::<char>::empty(),
    decreases history.len(),
{
    if history.len() > 0 {
        lemma_nothing_asked(history.drop_last());
    }
}

impl Notes {
    /// The notes with more steps.
    pub open spec fn and(self, more: Seq<Noted>) -> Notes {
        Notes { steps: self.steps + more, ..self }
    }
}

/// The notes on calls that are about to run.
pub open spec fn pending_notes(calls: Seq<AiToolCall>) -> Seq<Noted> {
    calls.map_values(|call: AiToolCall| Noted::Pending(call))
}

/// The notes on what the user said more.
pub open spec fn directive_notes(directives: Seq<Seq<char>>) -> Seq<Noted> {
    directives.map_values(|words: Seq<char>| Noted::Directive(words))
}

impl TaskNotes {
    pub open spec fn view(self) -> Notes {
        Notes {
            task: self.task@,
            continues: text::opt_view(self.continues),
            steps: steps_view(self.steps@),
        }
    }

    /// The notes of a task that starts from a history. `carries` says of each message whether it
    /// carries notes of a task.
    pub fn new(history: &Vec<AiChatMessage>, carries: &Vec<bool>) -> (res: TaskNotes)
        ensures
            res@ == fresh_notes(history@, carries@),
    {
        let task = match last_user_message(history) {
            Some(at) => {
                proof {
                    lemma_asked_last(history@, at as int);
                }
                history[at].content.clone()
            },
            None => {
                proof {
                    lemma_nothing_asked(history@);
                }
                let task = String::new();
                assert(task@ =~= Seq::<char>::empty());
                task
            },
        };
        let res = TaskNotes { task, continues: find_continued(history, carries), steps: Vec::new() };
        assert(steps_view(res.steps@) =~= Seq::empty());
        res
    }

    pub fn duplicate(&self) -> (res: TaskNotes)
        ensures
            res@ == self@,
    {
        let mut steps: Vec<NoteStep> = Vec::new();
        let mut i: usize = 0;
        while i < self.steps.len()
            invariant
                i <= self.steps.len(),
                steps_view(steps@) == steps_view(self.steps@.take(i as int)),
            decreases self.steps.len() - i,
        {
            let ghost before = steps@;
            let step = self.steps[i].duplicate();
            let ghost said = step@;
            steps.push(step);
            assert(steps_view(steps@) =~= steps_view(before).push(said));
            assert(steps_view(self.steps@.take(i + 1)) =~= steps_view(self.steps@.take(i as int)).push(
                self.steps@[i as int]@,
            ));
            i += 1;
        }
        assert(self.steps@.take(i as int) =~= self.steps@);
        TaskNotes {
            task: self.task.clone(),
            continues: text::duplicate_option(&self.continues),
            steps,
        }
    }

    pub fn note(&mut self, step: NoteStep)
        ensures
            final(self)@ == old(self)@.and(seq![step@]),
    {
        let ghost before = self.steps@;
        let ghost said = step@;
        self.steps.push(step);
        assert(steps_view(self.steps@) =~= steps_view(before) + seq![said]);
    }

    /// Notes the calls that are about to run.
    pub fn note_pending(&mut self, calls: &Vec<AiToolCall>)
        ensures
            final(self)@ == old(self)@.and(pending_notes(calls@)),
    {
        let mut i: usize = 0;
        assert(self@.steps =~= old(self)@.and(pending_notes(calls@.take(0))).steps);
        while i < calls.len()
            invariant
                i <= calls.len(),
                self@ == old(self)@.and(pending_notes(calls@.take(i as int))),
            decreases calls.len() - i,
        {
            self.note(NoteStep::Pending(calls[i].duplicate()));
            assert(self@.steps =~= old(self)@.and(pending_notes(calls@.take(i + 1))).steps);
            i += 1;
        }
        assert(calls@.take(i as int) =~= calls@);
    }

    /// Notes what the user said more.
    pub fn note_directives(&mut self, directives: Vec<String>)
        ensures
            final(self)@ == old(self)@.and(directive_notes(text::seq_view(directives@))),
    {
        let mut i: usize = 0;
        let ghost said = text::seq_view(directives@);
        assert(self@.steps =~= old(self)@.and(directive_notes(said.take(0))).steps);
        while i < directives.len()
            invariant
                i <= directives.len(),
                said == text::seq_view(directives@),
                self@ == old(self)@.and(directive_notes(said.take(i as int))),
            decreases directives.len() - i,
        {
            self.note(NoteStep::Directive(directives[i].clone()));
            assert(self@.steps =~= old(self)@.and(directive_notes(said.take(i + 1))).steps);
            i += 1;
        }
        assert(said.take(i as int) =~= said);
    }
}

} // verus!
