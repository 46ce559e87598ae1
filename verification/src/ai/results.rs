//! Results of tool calls.

use vstd::prelude::*;

use crate::ai::messages::AiToolCall;
use crate::json;
use crate::json::{Json, JsonTree};
use crate::text;

verus! {

/// Why a tool call failed.
pub struct AiToolError {
    pub code: String,
    pub message: String,
    pub recoverable: bool,
}

/// A target that a tool found.
pub struct AiTarget {
    /// The name that it goes by.
    pub label: Option<String>,
    /// That name without secrets, as it may be shown; there is one where there is a name.
    pub clean_label: Option<String>,
    pub kind: Option<String>,
    /// The handle under which later calls address it.
    pub handle: String,
}

/// A target as the user picks it.
pub struct Candidate {
    pub index: usize,
    pub label: String,
    pub kind: String,
}

/// How an answer came about.
pub struct AiToolMeta {
    pub verified: bool,
    pub tool_name: String,
    pub duration_ms: u64,
    pub truncated: bool,
}

/// What the model reads of a tool call.
pub struct AiToolEnvelope {
    pub ok: bool,
    pub summary: String,
    pub output: String,
    pub error: Option<AiToolError>,
    pub recoverable: bool,
    pub targets: Vec<AiTarget>,
    pub selected_target: Option<AiTarget>,
    pub next_actions: Vec<String>,
    /// The answer as a document.
    pub data: Option<JsonTree>,
    pub meta: Option<AiToolMeta>,
}

/// The result of one tool call.
pub struct AiExecutedToolResult {
    pub tool_call_id: String,
    pub tool_name: String,
    pub success: bool,
    pub output: String,
    pub error: Option<String>,
    pub duration_ms: u64,
    /// Whether the call reached the host that carries it out.
    pub dispatched: bool,
    pub envelope: AiToolEnvelope,
}

/// What an error says.
pub struct ErrorReport {
    pub code: Seq<char>,
    pub message: Seq<char>,
    pub recoverable: bool,
}

/// What an envelope says.
pub struct Reported {
    pub ok: bool,
    pub summary: Seq<char>,
    pub output: Seq<char>,
    pub error: Option<ErrorReport>,
    pub recoverable: bool,
    pub targets: Seq<AiTarget>,
    pub selected_target: Option<AiTarget>,
    pub next_actions: Seq<Seq<char>>,
    pub data: Option<Json>,
    pub meta: Option<AiToolMeta>,
}

impl AiToolError {
    pub open spec fn view(self) -> ErrorReport {
        ErrorReport { code: self.code@, message: self.message@, recoverable: self.recoverable }
    }
}

impl AiToolMeta {
    pub fn duplicate(&self) -> (res: AiToolMeta)
        ensures
            res == *self,
    {
        AiToolMeta {
            verified: self.verified,
            tool_name: self.tool_name.clone(),
            duration_ms: self.duration_ms,
            truncated: self.truncated,
        }
    }
}

impl AiToolEnvelope {
    pub open spec fn view(self) -> Reported {
        Reported {
            ok: self.ok,
            summary: self.summary@,
            output: self.output@,
            error: match self.error {
                Some(error) => Some(error@),
                None => None,
            },
            recoverable: self.recoverable,
            targets: self.targets@,
            selected_target: self.selected_target,
            next_actions: text::seq_view(self.next_actions@),
            data: match self.data {
                Some(data) => Some(data@),
                None => None,
            },
            meta: self.meta,
        }
    }

    /// A copy of the envelope.
    pub fn duplicate(&self) -> (res: AiToolEnvelope)
        ensures
            res@ == self@,
    {
        AiToolEnvelope {
            ok: self.ok,
            summary: self.summary.clone(),
            output: self.output.clone(),
            error: match &self.error {
                Some(error) => Some(
                    AiToolError {
                        code: error.code.clone(),
                        message: error.message.clone(),
                        recoverable: error.recoverable,
                    },
                ),
                None => None,
            },
            recoverable: self.recoverable,
            targets: duplicate_targets(&self.targets),
            selected_target: match &self.selected_target {
                Some(target) => Some(target.duplicate()),
                None => None,
            },
            next_actions: text::duplicate_list(&self.next_actions),
            data: match &self.data {
                Some(data) => Some(data.duplicate()),
                None => None,
            },
            meta: match &self.meta {
                Some(meta) => Some(meta.duplicate()),
                None => None,
            },
        }
    }
}

/// What the envelope of a refusal says.
pub open spec fn refusal_report(code: Seq<char>, message: Seq<char>) -> Reported {
    Reported {
        ok: false,
        summary: message,
        output: message,
        error: Some(ErrorReport { code, message, recoverable: true }),
        recoverable: true,
        targets: Seq::empty(),
        selected_target: None,
        next_actions: Seq::empty(),
        data: None,
        meta: None,
    }
}

fn duplicate_targets(targets: &Vec<AiTarget>) -> (res: Vec<AiTarget>)
    ensures
        res@ == targets@,
{
    let mut out: Vec<AiTarget> = Vec::new();
    let mut i: usize = 0;
    while i < targets.len()
        invariant
            i <= targets.len(),
            out@ == targets@.take(i as int),
        decreases targets.len() - i,
    {
        out.push(targets[i].duplicate());
        i += 1;
        assert(out@ =~= targets@.take(i as int));
    }
    assert(targets@.take(i as int) =~= targets@);
    out
}

impl AiTarget {
    pub fn duplicate(&self) -> (res: AiTarget)
        ensures
            res == *self,
    {
        AiTarget {
            label: match &self.label {
                Some(label) => Some(label.clone()),
                None => None,
            },
            clean_label: match &self.clean_label {
                Some(label) => Some(label.clone()),
                None => None,
            },
            kind: match &self.kind {
                Some(kind) => Some(kind.clone()),
                None => None,
            },
            handle: self.handle.clone(),
        }
    }
}

impl AiExecutedToolResult {
    /// The code of the error that the result reports.
    pub open spec fn error_code(self) -> Option<Seq<char>> {
        match self.envelope.error {
            Some(error) => Some(error.code@),
            None => None,
        }
    }

    /// Whether the result reports the error `code`.
    pub fn reports(&self, code: &str) -> (res: bool)
        ensures
            res == (self.error_code() == Some(code@)),
    {
        match &self.envelope.error {
            Some(error) => text::same(error.code.as_str(), code),
            None => false,
        }
    }

    /// A refusal: the call did nothing, and says why.
    pub open spec fn is_refusal(
        self,
        call_id: Seq<char>,
        name: Seq<char>,
        code: Seq<char>,
        message: Seq<char>,
        dispatched: bool,
    ) -> bool {
        &&& self.tool_call_id@ == call_id
        &&& self.tool_name@ == name
        &&& !self.success
        &&& self.output@ == message
        &&& text::opt_view(self.error) == Some(message)
        &&& self.duration_ms == 0
        &&& self.dispatched == dispatched
        &&& self.envelope@ == refusal_report(code, message)
    }
}

fn refusal(call_id: String, name: String, code: &str, message: &str, dispatched: bool) -> (res: AiExecutedToolResult)
    ensures
        res.is_refusal(call_id@, name@, code@, message@, dispatched),
{
    let res = AiExecutedToolResult {
        tool_call_id: call_id,
        tool_name: name,
        success: false,
        output: message.to_owned(),
        error: Some(message.to_owned()),
        duration_ms: 0,
        dispatched,
        envelope: AiToolEnvelope {
            ok: false,
            summary: message.to_owned(),
            output: message.to_owned(),
            error: Some(
                AiToolError { code: code.to_owned(), message: message.to_owned(), recoverable: true },
            ),
            recoverable: true,
            targets: Vec::new(),
            selected_target: None,
            next_actions: Vec::new(),
            data: None,
            meta: None,
        },
    };
    assert(res.envelope@.targets =~= Seq::empty());
    assert(res.envelope@.next_actions =~= Seq::empty());
    res
}

/// A refusal by the host that was to carry the call out.
pub fn rejected_ai_tool_result(call_id: String, name: String, code: &str, message: &str) -> (res: AiExecutedToolResult)
    ensures
        res.is_refusal(call_id@, name@, code@, message@, true),
{
    refusal(call_id, name, code, message, true)
}

/// A refusal before the call reached any host.
pub fn pre_execution_rejected_ai_tool_result(call_id: String, name: String, code: &str, message: &str) -> (res: AiExecutedToolResult)
    ensures
        res.is_refusal(call_id@, name@, code@, message@, false),
{
    refusal(call_id, name, code, message, false)
}

/// The envelope of an answer of the agents.
pub open spec fn answer_report(call: AiToolCall, answer: Json) -> Reported {
    Reported {
        ok: true,
        summary: call.name@,
        output: json::text_of(answer),
        error: None,
        recoverable: false,
        targets: Seq::empty(),
        selected_target: None,
        next_actions: Seq::empty(),
        data: Some(answer),
        meta: Some(
            AiToolMeta { verified: false, tool_name: call.name, duration_ms: 0, truncated: false },
        ),
    }
}

/// The result of a call that coordinated agents: its answer, as a document and in writing. Secrets
/// have been taken out of `answer` before.
pub fn agent_tool_result(call: &AiToolCall, answer: JsonTree) -> (res: AiExecutedToolResult)
    ensures
        res.tool_call_id == call.id,
        res.tool_name == call.name,
        res.success,
        res.output@ == json::text_of(answer@),
        res.error is None,
        res.duration_ms == 0,
        res.dispatched,
        res.envelope@ == answer_report(*call, answer@),
{
    let output = json::write(&answer);
    let res = AiExecutedToolResult {
        tool_call_id: call.id.clone(),
        tool_name: call.name.clone(),
        success: true,
        output: output.clone(),
        error: None,
        duration_ms: 0,
        dispatched: true,
        envelope: AiToolEnvelope {
            ok: true,
            summary: call.name.clone(),
            output,
            error: None,
            recoverable: false,
            targets: Vec::new(),
            selected_target: None,
            next_actions: Vec::new(),
            data: Some(answer),
            meta: Some(
                AiToolMeta {
                    verified: false,
                    tool_name: call.name.clone(),
                    duration_ms: 0,
                    truncated: false,
                },
            ),
        },
    };
    assert(res.envelope@.targets =~= Seq::empty());
    assert(res.envelope@.next_actions =~= Seq::empty());
    res
}

/// The code of a call that was overtaken by new instructions.
pub open spec fn direction_changed_code() -> Seq<char> {
    "agent_direction_changed"@
}

/// The refusal of a call that was overtaken by new instructions.
pub fn ai_direction_changed_result(call: &AiToolCall) -> (res: AiExecutedToolResult)
    ensures
        res.is_refusal(
            call.id@,
            call.name@,
            direction_changed_code(),
            "Task direction changed. This call was not dispatched; reconsider it using the latest user instructions."@,
            false,
        ),
{
    pre_execution_rejected_ai_tool_result(
        call.id.clone(),
        call.name.clone(),
        "agent_direction_changed",
        "Task direction changed. This call was not dispatched; reconsider it using the latest user instructions.",
    )
}

impl AiExecutedToolResult {
    /// Whether the call says that it cannot tell which target is meant.
    pub open spec fn wants_selection(self) -> bool {
        self.error_code() == Some("target_disambiguation_required"@) || self.error_code() == Some(
            "resource_ambiguous"@,
        )
    }

    /// Whether the call found several targets and cannot tell which one is meant.
    pub open spec fn is_ambiguous(self) -> bool {
        self.wants_selection() && self.envelope.targets@.len() >= 2
    }

    pub fn requires_selection(&self) -> (res: bool)
        ensures
            res == self.wants_selection(),
    {
        self.reports("target_disambiguation_required") || self.reports("resource_ambiguous")
    }
}

/// What a candidate says.
pub open spec fn candidate_of(target: AiTarget, at: int) -> (int, Seq<char>, Seq<char>) {
    (at, shown_label(target), shown_kind(target))
}

/// The choice among some targets.
pub open spec fn candidates_of(targets: Seq<AiTarget>) -> Seq<(int, Seq<char>, Seq<char>)> {
    Seq::new(targets.len(), |i: int| candidate_of(targets[i], i))
}

/// What some candidates say.
pub open spec fn candidates_view(candidates: Seq<Candidate>) -> Seq<(int, Seq<char>, Seq<char>)> {
    candidates.map_values(
        |candidate: Candidate| (candidate.index as int, candidate.label@, candidate.kind@),
    )
}

/// The name under which a target is shown.
pub open spec fn shown_label(target: AiTarget) -> Seq<char> {
    match target.clean_label {
        Some(label) => label@,
        None => "Target"@,
    }
}

pub open spec fn shown_kind(target: AiTarget) -> Seq<char> {
    match target.kind {
        Some(kind) => kind@,
        None => "target"@,
    }
}

fn label_of(target: &AiTarget) -> (res: String)
    ensures
        res@ == shown_label(*target),
{
    match &target.clean_label {
        Some(label) => label.clone(),
        None => "Target".to_owned(),
    }
}

/// The choice that is put before the user; `None` where there is nothing to choose.
pub fn selection_candidates(result: &AiExecutedToolResult) -> (res: Option<Vec<Candidate>>)
    ensures
        res is Some == result.is_ambiguous(),
        res is Some ==> candidates_view(res->0@) == candidates_of(result.envelope.targets@),
{
    if !result.requires_selection() || result.envelope.targets.len() < 2 {
        return None;
    }
    let mut out: Vec<Candidate> = Vec::new();
    let mut i: usize = 0;
    while i < result.envelope.targets.len()
        invariant
            i <= result.envelope.targets.len(),
            out@.len() == i,
            forall|j: int|
                0 <= j < i ==> {
                    &&& (#[trigger] out@[j]).index == j
                    &&& out@[j].label@ == shown_label(result.envelope.targets@[j])
                    &&& out@[j].kind@ == shown_kind(result.envelope.targets@[j])
                },
        decreases result.envelope.targets.len() - i,
    {
        let target = &result.envelope.targets[i];
        out.push(
            Candidate {
                index: i,
                label: label_of(target),
                kind: match &target.kind {
                    Some(kind) => kind.clone(),
                    None => "target".to_owned(),
                },
            },
        );
        i += 1;
    }
    assert(candidates_view(out@) =~= candidates_of(result.envelope.targets@));
    Some(out)
}

/// The user's answer to a choice.
#[derive(Clone, Copy, PartialEq, Eq, Structural, Debug)]
pub enum SelectionReply {
    /// The window that shows the choice is gone.
    Undelivered,
    Chosen(usize),
    Cancelled,
}

/// How a result reads once the user has chosen a target.
pub open spec fn chosen_selection(before: AiExecutedToolResult, after: AiExecutedToolResult, target: AiTarget) -> bool {
    let text = "Selected "@ + shown_label(target) + "."@;
    &&& after == (AiExecutedToolResult {
        success: true,
        error: None,
        output: after.output,
        envelope: after.envelope,
        ..before
    })
    &&& after.output@ == text
    &&& after.envelope == (AiToolEnvelope {
        ok: true,
        summary: after.envelope.summary,
        output: after.envelope.output,
        error: None,
        recoverable: false,
        targets: after.envelope.targets,
        selected_target: Some(target),
        next_actions: after.envelope.next_actions,
        ..before.envelope
    })
    &&& after.envelope.summary@ == text
    &&& after.envelope.output@ == text
    &&& after.envelope.targets@ == seq![target]
    &&& after.envelope.next_actions@.len() == 0
}

/// How a result reads once it is settled which of several targets a call meant.
pub open spec fn settled(call: AiToolCall, before: AiExecutedToolResult, reply: SelectionReply, after: AiExecutedToolResult) -> bool {
    if !before.is_ambiguous() {
        after == before
    } else {
        match reply {
            SelectionReply::Undelivered => after.is_refusal(
                call.id@,
                call.name@,
                "ui_delivery_failed"@,
                "The target selector is no longer available."@,
                true,
            ),
            SelectionReply::Chosen(index) => if index < before.envelope.targets@.len() {
                chosen_selection(before, after, before.envelope.targets@[index as int])
            } else {
                cancelled_selection(before, after)
            },
            SelectionReply::Cancelled => cancelled_selection(before, after),
        }
    }
}

/// Lets the user settle which of several targets a call meant. A result that is not ambiguous
/// stays as it is, and whatever the user answers, nothing is left to choose afterwards.
pub fn resolve_ai_candidate_selection_if_needed(
    call: &AiToolCall,
    result: AiExecutedToolResult,
    reply: SelectionReply,
) -> (res: AiExecutedToolResult)
    ensures
        !res.is_ambiguous(),
        settled(*call, result, reply, res),
{
    if !result.requires_selection() || result.envelope.targets.len() < 2 {
        return result;
    }
    let mut executed = result;
    let res = match reply {
        SelectionReply::Undelivered => rejected_ai_tool_result(
            call.id.clone(),
            call.name.clone(),
            "ui_delivery_failed",
            "The target selector is no longer available.",
        ),
        SelectionReply::Chosen(index) => {
            if index < executed.envelope.targets.len() {
                let target = executed.envelope.targets[index].duplicate();
                let label = label_of(&target);
                let text = text::joined(text::joined("Selected ", label.as_str()).as_str(), ".");
                executed.success = true;
                executed.error = None;
                executed.output = text.clone();
                executed.envelope.ok = true;
                executed.envelope.summary = text.clone();
                executed.envelope.output = text;
                executed.envelope.error = None;
                executed.envelope.recoverable = false;
                let mut targets: Vec<AiTarget> = Vec::new();
                targets.push(target.duplicate());
                executed.envelope.targets = targets;
                executed.envelope.selected_target = Some(target);
                executed.envelope.next_actions = Vec::new();
                executed
            } else {
                cancel_selection(executed)
            }
        },
        SelectionReply::Cancelled => cancel_selection(executed),
    };
    proof {
        lemma_settled(*call, result, res);
    }
    res
}

/// How a result reads once the user has turned the choice down.
pub open spec fn cancelled_selection(before: AiExecutedToolResult, after: AiExecutedToolResult) -> bool {
    let text = "Target selection was cancelled."@;
    &&& after == (AiExecutedToolResult {
        success: false,
        error: after.error,
        output: after.output,
        envelope: after.envelope,
        ..before
    })
    &&& text::opt_view(after.error) == Some(text)
    &&& after.output@ == text
    &&& after.envelope == (AiToolEnvelope {
        ok: false,
        summary: after.envelope.summary,
        output: after.envelope.output,
        error: after.envelope.error,
        recoverable: true,
        ..before.envelope
    })
    &&& after.envelope.summary@ == text
    &&& after.envelope.output@ == text
    &&& after.error_code() == Some("operation_cancelled"@)
    &&& after.envelope.error->0.message@ == text
    &&& after.envelope.error->0.recoverable
}

fn cancel_selection(result: AiExecutedToolResult) -> (res: AiExecutedToolResult)
    ensures
        cancelled_selection(result, res),
{
    let mut executed = result;
    executed.success = false;
    executed.error = Some("Target selection was cancelled.".to_owned());
    executed.output = "Target selection was cancelled.".to_owned();
    executed.envelope.ok = false;
    executed.envelope.summary = "Target selection was cancelled.".to_owned();
    executed.envelope.output = "Target selection was cancelled.".to_owned();
    executed.envelope.error = Some(
        AiToolError {
            code: "operation_cancelled".to_owned(),
            message: "Target selection was cancelled.".to_owned(),
            recoverable: true,
        },
    );
    executed.envelope.recoverable = true;
    executed
}

proof fn lemma_settled(
    call: AiToolCall,
    before: AiExecutedToolResult,
    after: AiExecutedToolResult,
)
    requires
        ({
            ||| after.is_refusal(
                call.id@,
                call.name@,
                "ui_delivery_failed"@,
                "The target selector is no longer available."@,
                true,
            )
            ||| after.envelope.error is None
            ||| cancelled_selection(before, after)
        }),
    ensures
        !after.is_ambiguous(),
{
    reveal_strlit("operation_cancelled");
    reveal_strlit("ui_delivery_failed");
    reveal_strlit("target_disambiguation_required");
    reveal_strlit("resource_ambiguous");
    assert("operation_cancelled"@.len() == 19);
    assert("ui_delivery_failed"@.len() == 18);
    assert("target_disambiguation_required"@.len() == 30);
    assert("resource_ambiguous"@.len() == 18);
    assert("ui_delivery_failed"@[0] == 'u');
    assert("resource_ambiguous"@[0] == 'r');
}

} // verus!
