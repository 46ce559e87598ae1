//! One tool call of a round: availability, arguments, policy, approval and execution.

use vstd::prelude::*;

use crate::ai::delivery::{
    send_ai_loop_delivery, AiStreamDelivery, AiStreamDeliveryEvent, AiStreamDeliverySender, Delivered, Said,
    ToolStatus,
};
use crate::ai::messages::AiToolCall;
use crate::ai::results::{
    ai_direction_changed_result, direction_changed_code, pre_execution_rejected_ai_tool_result,
    candidates_of, refusal_report, rejected_ai_tool_result, resolve_ai_candidate_selection_if_needed,
    selection_candidates, settled, AiExecutedToolResult, SelectionReply,
};
use crate::ai::tool_loop::{AiActionRisk, AiPolicyDecisionKind};
use crate::text;

verus! {

/// What a call waits for.
#[derive(Clone, Copy, PartialEq, Eq, Structural, Debug)]
pub enum CallPhase {
    /// Nothing has been looked at.
    New,
    /// A call to another agent is carried out.
    AwaitCoordination,
    AwaitArguments,
    AwaitPreflight,
    AwaitPolicy,
    AwaitApproval,
    /// The host carries the call out.
    AwaitExecution,
    /// The result is there; it has to be settled which target was meant.
    AwaitSelection,
    /// The user picks among several targets.
    AwaitChoice,
    /// The result is settled; the host annotates that of a call that ran.
    AwaitAnnotation,
    Done,
}

/// Policy's answer to a call.
pub struct AiPolicyDecision {
    pub decision: AiPolicyDecisionKind,
    pub risk: AiActionRisk,
    pub risk_label: String,
    pub reason_code: String,
}

/// The user's answer to an approval request.
#[derive(Clone, Copy, PartialEq, Eq, Structural, Debug)]
pub enum ApprovalReply {
    Approved,
    Rejected,
    /// New instructions arrived before the answer.
    DirectionChanged,
}

/// How the host is to carry a call out.
#[derive(Clone, Copy, PartialEq, Eq, Structural, Debug)]
pub struct ExecutionOrder {
    pub post_user_approval: bool,
    pub dangerous_command_approved: bool,
}

/// What a result says beyond what the call brought.
#[derive(Clone, Copy, PartialEq, Eq, Structural, Debug)]
pub struct Annotations {
    pub policy: bool,
    pub command: bool,
}

/// A call on its way through a round.
pub struct RoundCall {
    pub call: AiToolCall,
    pub phase: CallPhase,
    pub has_agent: bool,
    pub is_child: bool,
    /// Whether the user may pick among ambiguous targets.
    pub allow_selection: bool,
    pub generation: u64,
    pub conversation_id: String,
    pub assistant_id: String,
    pub policy: Option<AiPolicyDecision>,
    pub order: Option<ExecutionOrder>,
    pub result: Option<AiExecutedToolResult>,
    pub sender: AiStreamDeliverySender,
}

impl RoundCall {
    pub open spec fn routed(self, said: Said) -> Delivered {
        Delivered {
            generation: self.generation,
            conversation_id: self.conversation_id@,
            assistant_id: self.assistant_id@,
            said,
        }
    }

    /// What the window has heard once it was told `more`.
    pub open spec fn heard(self, more: Seq<Said>) -> Seq<Delivered> {
        if self.sender.open {
            self.sender@ + more.map_values(|said: Said| self.routed(said))
        } else {
            self.sender@
        }
    }

    pub open spec fn status(
        self,
        status: ToolStatus,
        envelope: Option<crate::ai::results::Reported>,
        risk: Option<Seq<char>>,
        summary: Option<Seq<char>>,
    ) -> Said {
        Said::ToolStatus {
            call_id: self.call.id@,
            name: self.call.name@,
            status,
            envelope,
            risk,
            summary,
        }
    }

    /// The status of a call that ended with `result`.
    pub open spec fn outcome_status(self, result: AiExecutedToolResult, risk: Seq<char>) -> Said {
        self.status(
            if result.success {
                ToolStatus::Completed
            } else {
                ToolStatus::Error
            },
            Some(result.envelope@),
            Some(risk),
            Some(result.envelope.summary@),
        )
    }

    /// Whether the command is one that only an explicit consent may start.
    pub open spec fn is_dangerous(self) -> bool {
        self.call.name@ == "run_command"@ && self.policy is Some && self.policy->0.risk
            == AiActionRisk::Destructive
    }

    /// The call ended with a refusal.
    pub open spec fn refused(self, code: Seq<char>, message: Seq<char>) -> bool {
        &&& self.phase == CallPhase::Done
        &&& self.result is Some
        &&& self.result->0.is_refusal(self.call.id@, self.call.name@, code, message, false)
    }

    /// The call was overtaken by new instructions.
    pub open spec fn overtaken(self) -> bool {
        self.refused(
            direction_changed_code(),
            "Task direction changed. This call was not dispatched; reconsider it using the latest user instructions."@,
        )
    }

    fn tell(
        &mut self,
        status: ToolStatus,
        envelope: Option<crate::ai::results::AiToolEnvelope>,
        risk: Option<String>,
        summary: Option<String>,
    )
        ensures
            *final(self) == (RoundCall { sender: final(self).sender, ..*old(self) }),
            final(self).sender.open == old(self).sender.open,
            final(self).sender@ == old(self).heard(
                seq![
                    old(self).status(
                        status,
                        match envelope {
                            Some(envelope) => Some(envelope@),
                            None => None,
                        },
                        text::opt_view(risk),
                        text::opt_view(summary),
                    ),
                ],
            ),
    {
        self.sender.send(
            AiStreamDelivery {
                generation: self.generation,
                conversation_id: self.conversation_id.clone(),
                assistant_id: self.assistant_id.clone(),
                event: AiStreamDeliveryEvent::ToolStatus {
                    call_id: self.call.id.clone(),
                    name: self.call.name.clone(),
                    status,
                    envelope,
                    risk,
                    summary,
                },
            },
        );
        assert(self.sender@ =~= old(self).heard(
            seq![
                old(self).status(
                    status,
                    match envelope {
                        Some(envelope) => Some(envelope@),
                        None => None,
                    },
                    text::opt_view(risk),
                    text::opt_view(summary),
                ),
            ],
        ));
    }

    fn end(&mut self, result: AiExecutedToolResult)
        ensures
            *final(self) == (RoundCall {
                phase: CallPhase::Done,
                result: Some(result),
                ..*old(self)
            }),
    {
        self.result = Some(result);
        self.phase = CallPhase::Done;
    }

    fn overtake(&mut self)
        ensures
            *final(self) == (RoundCall {
                phase: CallPhase::Done,
                result: final(self).result,
                ..*old(self)
            }),
            final(self).overtaken(),
    {
        let result = ai_direction_changed_result(&self.call);
        self.end(result);
    }

    /// Looks at a call for the first time. A name that the model made up never reaches argument
    /// parsing or policy: `unavailable` is its answer.
    pub fn begin(
        &mut self,
        dispatch_is_valid: bool,
        unavailable: Option<AiExecutedToolResult>,
        is_agent_tool: bool,
    )
        requires
            old(self).phase == CallPhase::New,
        ensures
            call_follows(old(self).phase, final(self).phase),
            final(self).sender.open == old(self).sender.open,
            !dispatch_is_valid ==> {
                &&& *final(self) == (RoundCall {
                    phase: CallPhase::Done,
                    result: final(self).result,
                    ..*old(self)
                })
                &&& final(self).overtaken()
            },
            dispatch_is_valid && unavailable is Some ==> {
                &&& *final(self) == (RoundCall {
                    phase: CallPhase::Done,
                    result: unavailable,
                    sender: final(self).sender,
                    ..*old(self)
                })
                &&& final(self).sender@ == old(self).heard(
                    seq![
                        old(self).status(
                            ToolStatus::Rejected,
                            Some(unavailable->0.envelope@),
                            None,
                            Some(unavailable->0.envelope.summary@),
                        ),
                    ],
                )
            },
            dispatch_is_valid && unavailable is None ==> *final(self) == (RoundCall {
                phase: if is_agent_tool {
                    CallPhase::AwaitCoordination
                } else {
                    CallPhase::AwaitArguments
                },
                ..*old(self)
            }),
    {
        if !dispatch_is_valid {
            self.overtake();
            return;
        }
        match unavailable {
            Some(result) => {
                let envelope = result.envelope.duplicate();
                let summary = result.envelope.summary.clone();
                self.tell(ToolStatus::Rejected, Some(envelope), None, Some(summary));
                self.end(result);
            },
            None => {
                self.phase = if is_agent_tool {
                    CallPhase::AwaitCoordination
                } else {
                    CallPhase::AwaitArguments
                };
            },
        }
    }

    /// The other agent answered.
    pub fn on_coordination(&mut self, result: AiExecutedToolResult)
        requires
            old(self).phase == CallPhase::AwaitCoordination,
        ensures
            call_follows(old(self).phase, final(self).phase),
            *final(self) == (RoundCall {
                phase: CallPhase::Done,
                result: Some(result),
                sender: final(self).sender,
                ..*old(self)
            }),
            final(self).sender.open == old(self).sender.open,
            final(self).sender@ == old(self).heard(seq![old(self).outcome_status(result, "read"@)]),
    {
        let status = if result.success {
            ToolStatus::Completed
        } else {
            ToolStatus::Error
        };
        let envelope = result.envelope.duplicate();
        let summary = result.envelope.summary.clone();
        self.tell(status, Some(envelope), Some("read".to_owned()), Some(summary));
        self.end(result);
    }

    /// The arguments were held against the tool's contract.
    pub fn on_arguments(&mut self, valid: bool)
        requires
            old(self).phase == CallPhase::AwaitArguments,
        ensures
            call_follows(old(self).phase, final(self).phase),
            final(self).sender.open == old(self).sender.open,
            valid ==> *final(self) == (RoundCall { phase: CallPhase::AwaitPreflight, ..*old(self) }),
            !valid ==> {
                let message = "The application tool arguments do not match the v2 contract."@;
                &&& *final(self) == (RoundCall {
                    phase: CallPhase::Done,
                    result: final(self).result,
                    sender: final(self).sender,
                    ..*old(self)
                })
                &&& final(self).refused("invalid_tool_arguments"@, message)
                &&& final(self).sender@ == old(self).heard(
                    seq![
                        old(self).status(
                            ToolStatus::Rejected,
                            Some(refusal_report("invalid_tool_arguments"@, message)),
                            None,
                            Some(message),
                        ),
                    ],
                )
            },
    {
        if valid {
            self.phase = CallPhase::AwaitPreflight;
            return;
        }
        let result = pre_execution_rejected_ai_tool_result(
            self.call.id.clone(),
            self.call.name.clone(),
            "invalid_tool_arguments",
            "The application tool arguments do not match the v2 contract.",
        );
        let envelope = result.envelope.duplicate();
        let summary = result.envelope.summary.clone();
        self.tell(ToolStatus::Rejected, Some(envelope), None, Some(summary));
        self.end(result);
    }

    /// The host looked at the call before policy: `Ok(None)` lets it pass, `Err` says that new
    /// instructions arrived.
    pub fn on_preflight(&mut self, reply: Result<Option<AiExecutedToolResult>, ()>)
        requires
            old(self).phase == CallPhase::AwaitPreflight,
        ensures
            call_follows(old(self).phase, final(self).phase),
            final(self).sender.open == old(self).sender.open,
            match reply {
                Ok(None) => *final(self) == (RoundCall { phase: CallPhase::AwaitPolicy, ..*old(self) }),
                Ok(Some(result)) => {
                    &&& *final(self) == (RoundCall {
                        phase: CallPhase::Done,
                        result: Some(result),
                        sender: final(self).sender,
                        ..*old(self)
                    })
                    &&& final(self).sender@ == old(self).heard(
                        seq![
                            old(self).status(
                                ToolStatus::Rejected,
                                Some(result.envelope@),
                                None,
                                Some(result.envelope.summary@),
                            ),
                        ],
                    )
                },
                Err(_) => {
                    &&& *final(self) == (RoundCall {
                        phase: CallPhase::Done,
                        result: final(self).result,
                        sender: final(self).sender,
                        ..*old(self)
                    })
                    &&& final(self).overtaken()
                    &&& final(self).sender@ == old(self).heard(
                        seq![
                            old(self).status(
                                ToolStatus::Rejected,
                                Some(final(self).result->0.envelope@),
                                None,
                                Some(final(self).result->0.envelope.summary@),
                            ),
                        ],
                    )
                },
            },
    {
        let result = match reply {
            Ok(None) => {
                self.phase = CallPhase::AwaitPolicy;
                return;
            },
            Ok(Some(result)) => result,
            Err(_) => ai_direction_changed_result(&self.call),
        };
        let envelope = result.envelope.duplicate();
        let summary = result.envelope.summary.clone();
        self.tell(ToolStatus::Rejected, Some(envelope), None, Some(summary));
        self.end(result);
    }

    /// Policy decided. A denied call goes on with a refusal as its result; one that needs consent
    /// asks for it, and `false` says that nobody is there to ask. `arguments` and `reason` are the
    /// call's arguments and policy's reason without secrets, as the user reads them.
    pub fn on_policy(&mut self, policy: AiPolicyDecision, arguments: String, reason: String) -> (res: bool)
        requires
            old(self).phase == CallPhase::AwaitPolicy,
        ensures
            call_follows(old(self).phase, final(self).phase),
            final(self).sender.open == old(self).sender.open,
            res == (policy.decision != AiPolicyDecisionKind::RequireApproval || old(self).sender.open),
            final(self).policy == Some(policy),
            match policy.decision {
                AiPolicyDecisionKind::Deny => {
                    &&& *final(self) == (RoundCall {
                        phase: CallPhase::AwaitSelection,
                        policy: Some(policy),
                        result: final(self).result,
                        sender: final(self).sender,
                        ..*old(self)
                    })
                    &&& final(self).result is Some
                    &&& final(self).result->0.is_refusal(
                        old(self).call.id@,
                        old(self).call.name@,
                        policy.reason_code@,
                        policy.reason_code@,
                        false,
                    )
                    &&& final(self).sender@ == old(self).heard(
                        seq![
                            old(self).status(
                                ToolStatus::Rejected,
                                None,
                                Some(policy.risk_label@),
                                Some(policy.reason_code@),
                            ),
                        ],
                    )
                },
                AiPolicyDecisionKind::RequireApproval => {
                    &&& *final(self) == (RoundCall {
                        phase: if old(self).sender.open {
                            CallPhase::AwaitApproval
                        } else {
                            CallPhase::Done
                        },
                        policy: Some(policy),
                        sender: final(self).sender,
                        ..*old(self)
                    })
                    &&& final(self).sender@ == old(self).heard(
                        seq![
                            Said::ToolApprovalRequested {
                                call_id: old(self).call.id@,
                                name: old(self).call.name@,
                                arguments: arguments@,
                                action_risk: policy.risk_label@,
                                reason: reason@,
                            },
                        ],
                    )
                },
                AiPolicyDecisionKind::Allow => {
                    &&& *final(self) == (RoundCall {
                        phase: CallPhase::AwaitExecution,
                        policy: Some(policy),
                        order: Some(
                            ExecutionOrder {
                                post_user_approval: false,
                                dangerous_command_approved: old(self).call.name@ == "run_command"@
                                    && policy.risk == AiActionRisk::Destructive,
                            },
                        ),
                        sender: final(self).sender,
                        ..*old(self)
                    })
                    &&& final(self).sender@ == old(self).heard(
                        seq![
                            old(self).status(
                                ToolStatus::Approved,
                                None,
                                Some(policy.risk_label@),
                                Some(policy.reason_code@),
                            ),
                            old(self).status(
                                ToolStatus::Running,
                                None,
                                Some(policy.risk_label@),
                                Some(policy.reason_code@),
                            ),
                        ],
                    )
                },
            },
    {
        let decision = policy.decision;
        let risk = policy.risk_label.clone();
        let code = policy.reason_code.clone();
        let dangerous = text::same(self.call.name.as_str(), "run_command") && policy.risk
            == AiActionRisk::Destructive;
        self.policy = Some(policy);
        match decision {
            AiPolicyDecisionKind::Deny => {
                self.tell(ToolStatus::Rejected, None, Some(risk), Some(code.clone()));
                assert(self.sender@ =~= old(self).heard(
                    seq![
                        old(self).status(
                            ToolStatus::Rejected,
                            None,
                            Some(policy.risk_label@),
                            Some(policy.reason_code@),
                        ),
                    ],
                ));
                self.result = Some(
                    pre_execution_rejected_ai_tool_result(
                        self.call.id.clone(),
                        self.call.name.clone(),
                        code.as_str(),
                        code.as_str(),
                    ),
                );
                self.phase = CallPhase::AwaitSelection;
                true
            },
            AiPolicyDecisionKind::RequireApproval => {
                let sent = send_ai_loop_delivery(
                    self.has_agent,
                    &mut self.sender,
                    self.generation,
                    self.conversation_id.as_str(),
                    self.assistant_id.as_str(),
                    AiStreamDeliveryEvent::ToolApprovalRequested {
                        call_id: self.call.id.clone(),
                        name: self.call.name.clone(),
                        arguments,
                        action_risk: risk,
                        reason,
                    },
                );
                assert(self.sender@ =~= old(self).heard(
                    seq![
                        Said::ToolApprovalRequested {
                            call_id: old(self).call.id@,
                            name: old(self).call.name@,
                            arguments: arguments@,
                            action_risk: policy.risk_label@,
                            reason: reason@,
                        },
                    ],
                ));
                if sent.is_ok() {
                    self.phase = CallPhase::AwaitApproval;
                    true
                } else {
                    self.phase = CallPhase::Done;
                    false
                }
            },
            AiPolicyDecisionKind::Allow => {
                self.tell(ToolStatus::Approved, None, Some(risk.clone()), Some(code.clone()));
                self.tell(ToolStatus::Running, None, Some(risk), Some(code));
                assert(self.sender@ =~= old(self).heard(
                    seq![
                        old(self).status(
                            ToolStatus::Approved,
                            None,
                            Some(policy.risk_label@),
                            Some(policy.reason_code@),
                        ),
                        old(self).status(
                            ToolStatus::Running,
                            None,
                            Some(policy.risk_label@),
                            Some(policy.reason_code@),
                        ),
                    ],
                ));
                self.order = Some(
                    ExecutionOrder {
                        post_user_approval: false,
                        dangerous_command_approved: dangerous,
                    },
                );
                self.phase = CallPhase::AwaitExecution;
                true
            },
        }
    }

    /// The user answered.
    pub fn on_approval(&mut self, reply: ApprovalReply)
        requires
            old(self).phase == CallPhase::AwaitApproval,
            old(self).policy is Some,
        ensures
            call_follows(old(self).phase, final(self).phase),
            final(self).sender.open == old(self).sender.open,
            match reply {
                ApprovalReply::DirectionChanged => {
                    &&& *final(self) == (RoundCall {
                        phase: CallPhase::Done,
                        result: final(self).result,
                        ..*old(self)
                    })
                    &&& final(self).overtaken()
                },
                ApprovalReply::Rejected => {
                    &&& *final(self) == (RoundCall {
                        phase: CallPhase::AwaitSelection,
                        result: final(self).result,
                        sender: final(self).sender,
                        ..*old(self)
                    })
                    &&& final(self).result is Some
                    &&& final(self).result->0.is_refusal(
                        old(self).call.id@,
                        old(self).call.name@,
                        "user_rejected"@,
                        "Tool call rejected by user."@,
                        false,
                    )
                    &&& final(self).sender@ == old(self).heard(
                        seq![
                            old(self).status(
                                ToolStatus::Rejected,
                                None,
                                Some(old(self).policy->0.risk_label@),
                                Some("Rejected by user."@),
                            ),
                        ],
                    )
                },
                ApprovalReply::Approved => {
                    &&& *final(self) == (RoundCall {
                        phase: CallPhase::AwaitExecution,
                        order: Some(
                            ExecutionOrder {
                                post_user_approval: true,
                                dangerous_command_approved: old(self).is_dangerous(),
                            },
                        ),
                        sender: final(self).sender,
                        ..*old(self)
                    })
                    &&& final(self).sender@ == old(self).heard(
                        seq![
                            old(self).status(
                                ToolStatus::Approved,
                                None,
                                Some(old(self).policy->0.risk_label@),
                                Some("Approved by user."@),
                            ),
                            old(self).status(
                                ToolStatus::Running,
                                None,
                                Some(old(self).policy->0.risk_label@),
                                Some("Approved by user."@),
                            ),
                        ],
                    )
                },
            },
    {
        let (risk, destructive) = match &self.policy {
            Some(policy) => (policy.risk_label.clone(), policy.risk == AiActionRisk::Destructive),
            None => (String::new(), false),
        };
        match reply {
            ApprovalReply::DirectionChanged => {
                self.overtake();
            },
            ApprovalReply::Rejected => {
                self.tell(
                    ToolStatus::Rejected,
                    None,
                    Some(risk),
                    Some("Rejected by user.".to_owned()),
                );
                self.result = Some(
                    pre_execution_rejected_ai_tool_result(
                        self.call.id.clone(),
                        self.call.name.clone(),
                        "user_rejected",
                        "Tool call rejected by user.",
                    ),
                );
                self.phase = CallPhase::AwaitSelection;
            },
            ApprovalReply::Approved => {
                self.tell(
                    ToolStatus::Approved,
                    None,
                    Some(risk.clone()),
                    Some("Approved by user.".to_owned()),
                );
                self.tell(
                    ToolStatus::Running,
                    None,
                    Some(risk),
                    Some("Approved by user.".to_owned()),
                );
                assert(self.sender@ =~= old(self).heard(
                    seq![
                        old(self).status(
                            ToolStatus::Approved,
                            None,
                            Some(old(self).policy->0.risk_label@),
                            Some("Approved by user."@),
                        ),
                        old(self).status(
                            ToolStatus::Running,
                            None,
                            Some(old(self).policy->0.risk_label@),
                            Some("Approved by user."@),
                        ),
                    ],
                ));
                self.order = Some(
                    ExecutionOrder {
                        post_user_approval: true,
                        dangerous_command_approved: text::same(
                            self.call.name.as_str(),
                            "run_command",
                        ) && destructive,
                    },
                );
                self.phase = CallPhase::AwaitExecution;
            },
        }
    }

    /// The host carried the call out.
    pub fn on_executed(&mut self, result: AiExecutedToolResult)
        requires
            old(self).phase == CallPhase::AwaitExecution,
        ensures
            call_follows(old(self).phase, final(self).phase),
            *final(self) == (RoundCall {
                phase: CallPhase::AwaitSelection,
                result: Some(result),
                ..*old(self)
            }),
    {
        self.result = Some(result);
        self.phase = CallPhase::AwaitSelection;
    }

    /// Whether the user may be asked to pick where the result is ambiguous. A child never asks.
    pub open spec fn lets_select(self) -> bool {
        self.allow_selection && !(self.has_agent && self.is_child)
    }

    pub fn may_select(&self) -> (res: bool)
        ensures
            res == self.lets_select(),
    {
        self.allow_selection && !(self.has_agent && self.is_child)
    }

    /// Puts the choice among several targets before the user, where the result needs one. A window
    /// that is gone settles it too. `arguments` are those of the call without secrets.
    pub fn ask_selection(&mut self, arguments: String)
        requires
            old(self).phase == CallPhase::AwaitSelection,
            old(self).result is Some,
        ensures
            call_follows(old(self).phase, final(self).phase),
            final(self).sender.open == old(self).sender.open,
            final(self).result is Some,
            if !old(self).lets_select() || !old(self).result->0.is_ambiguous() {
                *final(self) == (RoundCall { phase: CallPhase::AwaitAnnotation, ..*old(self) })
            } else if old(self).sender.open {
                &&& *final(self) == (RoundCall {
                    phase: CallPhase::AwaitChoice,
                    sender: final(self).sender,
                    ..*old(self)
                })
                &&& final(self).sender@ == old(self).heard(
                    seq![
                        Said::ToolCandidateSelectionRequested {
                            call_id: old(self).call.id@,
                            name: old(self).call.name@,
                            arguments: arguments@,
                            candidates: candidates_of(old(self).result->0.envelope.targets@),
                        },
                    ],
                )
            } else {
                &&& *final(self) == (RoundCall {
                    phase: CallPhase::AwaitAnnotation,
                    result: final(self).result,
                    ..*old(self)
                })
                &&& settled(
                    old(self).call,
                    old(self).result->0,
                    SelectionReply::Undelivered,
                    final(self).result->0,
                )
            },
    {
        let candidates = match &self.result {
            Some(result) => if self.may_select() {
                selection_candidates(result)
            } else {
                None
            },
            None => None,
        };
        let candidates = match candidates {
            Some(candidates) => candidates,
            None => {
                self.phase = CallPhase::AwaitAnnotation;
                return;
            },
        };
        if !self.sender.open {
            self.result = Some(
                rejected_ai_tool_result(
                    self.call.id.clone(),
                    self.call.name.clone(),
                    "ui_delivery_failed",
                    "The target selector is no longer available.",
                ),
            );
            self.phase = CallPhase::AwaitAnnotation;
            return;
        }
        self.sender.send(
            AiStreamDelivery {
                generation: self.generation,
                conversation_id: self.conversation_id.clone(),
                assistant_id: self.assistant_id.clone(),
                event: AiStreamDeliveryEvent::ToolCandidateSelectionRequested {
                    call_id: self.call.id.clone(),
                    name: self.call.name.clone(),
                    arguments,
                    candidates,
                },
            },
        );
        self.phase = CallPhase::AwaitChoice;
        assert(self.sender@ =~= old(self).heard(
            seq![
                Said::ToolCandidateSelectionRequested {
                    call_id: old(self).call.id@,
                    name: old(self).call.name@,
                    arguments: arguments@,
                    candidates: candidates_of(old(self).result->0.envelope.targets@),
                },
            ],
        ));
    }

    /// The user chose a target, or none.
    pub fn on_choice(&mut self, choice: Option<usize>)
        requires
            old(self).phase == CallPhase::AwaitChoice,
            old(self).result is Some,
        ensures
            call_follows(old(self).phase, final(self).phase),
            *final(self) == (RoundCall {
                phase: CallPhase::AwaitAnnotation,
                result: final(self).result,
                ..*old(self)
            }),
            final(self).result is Some,
            settled(
                old(self).call,
                old(self).result->0,
                match choice {
                    Some(index) => SelectionReply::Chosen(index),
                    None => SelectionReply::Cancelled,
                },
                final(self).result->0,
            ),
    {
        let reply = match choice {
            Some(index) => SelectionReply::Chosen(index),
            None => SelectionReply::Cancelled,
        };
        let mut result: Option<AiExecutedToolResult> = None;
        std::mem::swap(&mut result, &mut self.result);
        match result {
            Some(result) => {
                self.result = Some(resolve_ai_candidate_selection_if_needed(&self.call, result, reply));
            },
            None => {},
        }
        self.phase = CallPhase::AwaitAnnotation;
    }

    /// Which annotations the result gets before it is reported: that of a call that ran says what
    /// policy decided, and that of a command how it was executed.
    pub fn annotations(&self) -> (res: Annotations)
        ensures
            res.policy == self.order is Some,
            res.command == (self.order is Some && self.call.name@ == "run_command"@),
    {
        let ran = self.order.is_some();
        Annotations {
            policy: ran,
            command: ran && text::same(self.call.name.as_str(), "run_command"),
        }
    }

    /// Ends the call with its settled result and reports it. `annotated` is that result with its
    /// annotations, which only a call that ran gets.
    pub fn complete(&mut self, annotated: Option<AiExecutedToolResult>)
        requires
            old(self).phase == CallPhase::AwaitAnnotation,
            old(self).policy is Some,
            old(self).result is Some,
            annotated is Some == old(self).order is Some,
        ensures
            call_follows(old(self).phase, final(self).phase),
            ({
                let result = if old(self).order is Some {
                    annotated->0
                } else {
                    old(self).result->0
                };
                &&& *final(self) == (RoundCall {
                    phase: CallPhase::Done,
                    result: Some(result),
                    sender: final(self).sender,
                    ..*old(self)
                })
                &&& final(self).sender.open == old(self).sender.open
                &&& final(self).sender@ == old(self).heard(
                    seq![old(self).outcome_status(result, old(self).policy->0.risk_label@)],
                )
            }),
    {
        let risk = match &self.policy {
            Some(policy) => policy.risk_label.clone(),
            None => String::new(),
        };
        let mut result = annotated;
        if result.is_none() {
            std::mem::swap(&mut result, &mut self.result);
        }
        match result {
            Some(result) => {
                let status = if result.success {
                    ToolStatus::Completed
                } else {
                    ToolStatus::Error
                };
                let envelope = result.envelope.duplicate();
                let summary = result.envelope.summary.clone();
                self.tell(status, Some(envelope), Some(risk), Some(summary));
                self.end(result);
            },
            None => {},
        }
    }

    /// An attempt ended. `annotated` is its result with what is said of recovery. A call that was
    /// overtaken is reported as turned away; `true` says that the host waits and tries again, from
    /// the start. A call that is overtaken while the host waits begins with a dispatch that is no
    /// longer valid, and ends there.
    pub fn after_attempt(&mut self, annotated: AiExecutedToolResult, retry_is_due: bool) -> (res: bool)
        requires
            old(self).phase == CallPhase::Done,
        ensures
            call_follows(old(self).phase, final(self).phase),
            res == retry_is_due,
            *final(self) == if retry_is_due {
                RoundCall {
                    phase: CallPhase::New,
                    policy: None,
                    order: None,
                    result: None,
                    sender: final(self).sender,
                    ..*old(self)
                }
            } else {
                RoundCall { result: Some(annotated), sender: final(self).sender, ..*old(self) }
            },
            final(self).sender.open == old(self).sender.open,
            final(self).sender@ == if annotated.error_code() == Some(direction_changed_code()) {
                old(self).heard(
                    seq![old(self).status(ToolStatus::Rejected, Some(annotated.envelope@), None, None)],
                )
            } else {
                old(self).sender@
            },
    {
        if annotated.reports("agent_direction_changed") {
            self.tell(ToolStatus::Rejected, Some(annotated.envelope.duplicate()), None, None);
        }
        if retry_is_due {
            self.phase = CallPhase::New;
            self.policy = None;
            self.order = None;
            self.result = None;
        } else {
            self.result = Some(annotated);
        }
        retry_is_due
    }
}

/// The order in which a call's waits follow each other.
pub open spec fn call_follows(before: CallPhase, after: CallPhase) -> bool {
    match before {
        CallPhase::New => after == CallPhase::AwaitCoordination || after
            == CallPhase::AwaitArguments || after == CallPhase::Done,
        CallPhase::AwaitCoordination => after == CallPhase::Done,
        CallPhase::AwaitArguments => after == CallPhase::AwaitPreflight || after == CallPhase::Done,
        CallPhase::AwaitPreflight => after == CallPhase::AwaitPolicy || after == CallPhase::Done,
        CallPhase::AwaitPolicy => after == CallPhase::AwaitApproval || after
            == CallPhase::AwaitExecution || after == CallPhase::AwaitSelection || after
            == CallPhase::Done,
        CallPhase::AwaitApproval => after == CallPhase::AwaitExecution || after
            == CallPhase::AwaitSelection || after == CallPhase::Done,
        CallPhase::AwaitExecution => after == CallPhase::AwaitSelection,
        CallPhase::AwaitSelection => after == CallPhase::AwaitChoice || after
            == CallPhase::AwaitAnnotation,
        CallPhase::AwaitChoice => after == CallPhase::AwaitAnnotation,
        CallPhase::AwaitAnnotation => after == CallPhase::Done,
        CallPhase::Done => after == CallPhase::New || after == CallPhase::Done,
    }
}

/// The waits that a call went through, from its start.
pub open spec fn is_call_run(run: Seq<CallPhase>) -> bool {
    &&& run.len() > 0
    &&& run[0] == CallPhase::New
    &&& forall|i: int| 0 < i < run.len() ==> call_follows(run[i - 1], #[trigger] run[i])
}

/// A call is handed to the host only after its arguments, the host's own look at it and policy let
/// it pass, in this order and without a break; the user's consent may stand in between.
pub proof fn law_calls_pass_policy_before_they_run(run: Seq<CallPhase>, at: int)
    requires
        is_call_run(run),
        0 <= at < run.len(),
        run[at] == CallPhase::AwaitExecution,
    ensures
        ({
            let policy = if run[at - 1] == CallPhase::AwaitApproval {
                at - 2
            } else {
                at - 1
            };
            &&& policy >= 3
            &&& run[policy] == CallPhase::AwaitPolicy
            &&& run[policy - 1] == CallPhase::AwaitPreflight
            &&& run[policy - 2] == CallPhase::AwaitArguments
            &&& run[policy - 3] == CallPhase::New
        }),
{
    assert(at > 0);
    assert(call_follows(run[at - 1], run[at]));
    let policy = if run[at - 1] == CallPhase::AwaitApproval {
        assert(at - 1 > 0);
        assert(call_follows(run[at - 1 - 1], run[at - 1]));
        at - 2
    } else {
        at - 1
    };
    assert(policy > 0);
    assert(call_follows(run[policy - 1], run[policy]));
    assert(policy - 1 > 0);
    assert(call_follows(run[policy - 1 - 1], run[policy - 1]));
    assert(policy - 2 > 0);
    assert(call_follows(run[policy - 2 - 1], run[policy - 2]));
}

} // verus!
