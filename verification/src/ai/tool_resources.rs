//! The resources that a tool call has to hold while it runs.

use vstd::prelude::*;

use crate::ai::results::{rejected_ai_tool_result, AiExecutedToolResult};
use crate::ai::tool_loop::AiActionRisk;
use crate::json::{Json, JsonTree};
use crate::table::Table;
use crate::text;

verus! {

/// Whether a document of arguments names a runtime handle.
pub open spec fn names_handle(value: Json, handle: Seq<char>) -> bool
    decreases value,
{
    match value {
        Json::List(items) => exists|i: int|
            #![trigger items[i]]
            0 <= i < items.len() && names_handle(items[i], handle),
        Json::Object(members) => exists|i: int|
            #![trigger members[i]]
            0 <= i < members.len() && if text::ends_with(members[i].0, "handle_id"@) {
                members[i].1 == Json::Text(handle)
            } else {
                names_handle(members[i].1, handle)
            },
        _ => false,
    }
}

/// Adds the handles that a document names to a list.
fn collect_handles(value: &JsonTree, handles: &mut Vec<String>)
    ensures
        forall|h: Seq<char>| #[trigger]
            text::seq_view(final(handles)@).contains(h) == (text::seq_view(old(handles)@).contains(h)
                || names_handle(value@, h)),
    decreases value,
{
    match value {
        JsonTree::List(items) => {
            let ghost start = text::seq_view(handles@);
            let ghost seen = value@->List_0;
            let mut i: usize = 0;
            while i < items.len()
                invariant
                    i <= items.len(),
                    *value == JsonTree::List(*items),
                    seen == value@->List_0,
                    forall|h: Seq<char>| #[trigger]
                        text::seq_view(handles@).contains(h) == (start.contains(h) || exists|j: int|
                            #![trigger seen[j]]
                            0 <= j < i && names_handle(seen[j], h)),
                decreases items.len() - i,
            {
                assert(decreases_to!(value => value->List_0));
                assert(decreases_to!(value->List_0 => value->List_0@));
                assert(decreases_to!(value->List_0@ => value->List_0@[i as int]));
                let ghost before = text::seq_view(handles@);
                collect_handles(&items[i], handles);
                assert(seen[i as int] == items@[i as int]@);
                assert forall|h: Seq<char>| #[trigger]
                    text::seq_view(handles@).contains(h) == (start.contains(h) || exists|j: int|
                        #![trigger seen[j]]
                        0 <= j < i + 1 && names_handle(seen[j], h)) by {
                    assert(before.contains(h) == (start.contains(h) || exists|j: int|
                        #![trigger seen[j]]
                        0 <= j < i && names_handle(seen[j], h)));
                    if text::seq_view(handles@).contains(h) && !start.contains(h) && !before.contains(
                        h,
                    ) {
                        assert(names_handle(seen[i as int], h));
                    }
                }
                i += 1;
            }
            assert(value@ == Json::List(seen));
            assert(seen.len() == items@.len());
        },
        JsonTree::Object(members) => {
            let ghost start = text::seq_view(handles@);
            let ghost seen = value@->Object_0;
            let mut i: usize = 0;
            while i < members.len()
                invariant
                    i <= members.len(),
                    *value == JsonTree::Object(*members),
                    seen == value@->Object_0,
                    forall|h: Seq<char>| #[trigger]
                        text::seq_view(handles@).contains(h) == (start.contains(h) || exists|j: int|
                            #![trigger seen[j]]
                            0 <= j < i && if text::ends_with(seen[j].0, "handle_id"@) {
                                seen[j].1 == Json::Text(h)
                            } else {
                                names_handle(seen[j].1, h)
                            }),
                decreases members.len() - i,
            {
                assert(decreases_to!(value => value->Object_0));
                assert(decreases_to!(value->Object_0 => value->Object_0@));
                assert(decreases_to!(value->Object_0@ => value->Object_0@[i as int]));
                assert(decreases_to!(value->Object_0@[i as int] => value->Object_0@[i as int].1));
                let ghost before = text::seq_view(handles@);
                let ghost old_handles = handles@;
                assert(seen[i as int] == (members@[i as int].0@, members@[i as int].1@));
                if text::has_suffix(members[i].0.as_str(), "handle_id") {
                    match &members[i].1 {
                        JsonTree::Text(handle) => {
                            handles.push(handle.clone());
                            assert(text::seq_view(handles@) =~= before.push(handle@));
                            assert(members@[i as int].1@ == Json::Text(handle@));
                            assert forall|h: Seq<char>| #[trigger]
                                text::seq_view(handles@).contains(h) == (before.contains(h) || h
                                    == handle@) by {
                                if before.contains(h) {
                                    let k = choose|k: int| 0 <= k < before.len() && before[k] == h;
                                    assert(text::seq_view(handles@)[k] == h);
                                }
                                assert(text::seq_view(handles@)[before.len() as int] == handle@);
                            }
                        },
                        _ => {
                            assert(!(members@[i as int].1@ is Text));
                        },
                    }
                } else {
                    collect_handles(&members[i].1, handles);
                }
                assert forall|h: Seq<char>| #[trigger]
                    text::seq_view(handles@).contains(h) == (start.contains(h) || exists|j: int|
                        #![trigger seen[j]]
                        0 <= j < i + 1 && if text::ends_with(seen[j].0, "handle_id"@) {
                            seen[j].1 == Json::Text(h)
                        } else {
                            names_handle(seen[j].1, h)
                        }) by {
                    assert(before.contains(h) == (start.contains(h) || exists|j: int|
                        #![trigger seen[j]]
                        0 <= j < i && if text::ends_with(seen[j].0, "handle_id"@) {
                            seen[j].1 == Json::Text(h)
                        } else {
                            names_handle(seen[j].1, h)
                        }));
                    let here = if text::ends_with(seen[i as int].0, "handle_id"@) {
                        seen[i as int].1 == Json::Text(h)
                    } else {
                        names_handle(seen[i as int].1, h)
                    };
                    assert(text::seq_view(handles@).contains(h) == (before.contains(h) || here));
                }
                i += 1;
            }
            assert(value@ == Json::Object(seen));
            assert(seen.len() == members@.len());
        },
        _ => {},
    }
}

/// Whether a call may run without holding anything: a read that does not drive a terminal.
pub open spec fn needs_no_resource(name: Seq<char>, risk: AiActionRisk) -> bool {
    name != "run_command"@ && name != "send_terminal_input"@ && risk == AiActionRisk::Read
}

/// Why a call's resources cannot be told.
#[derive(Clone, Copy, PartialEq, Eq, Structural, Debug)]
pub enum ResourceError {
    RunInactive,
    TargetExpired,
}

impl ResourceError {
    pub fn message(self) -> (res: &'static str)
        ensures
            res@ == match self {
                ResourceError::RunInactive => "Run is inactive"@,
                ResourceError::TargetExpired => "Runtime target expired"@,
            },
    {
        match self {
            ResourceError::RunInactive => "Run is inactive",
            ResourceError::TargetExpired => "Runtime target expired",
        }
    }
}

/// The resources that a call has to hold, in the order in which they are acquired: one order for
/// every call, so that calls never wait for each other in a circle. `targets` maps the session's
/// live handles to their owners; a call that names no handle holds the workspace itself.
pub fn resource_keys(
    run_is_active: bool,
    name: &str,
    risk: AiActionRisk,
    args: &JsonTree,
    targets: &Table<String, String>,
    workspace: String,
) -> (res: Result<Vec<String>, ResourceError>)
    requires
        targets.wf(),
    ensures
        !run_is_active ==> res == Err::<Vec<String>, ResourceError>(ResourceError::RunInactive),
        run_is_active && needs_no_resource(name@, risk) ==> res is Ok && res->Ok_0@.len() == 0,
        run_is_active && !needs_no_resource(name@, risk) ==> {
            &&& res is Err == (exists|h: Seq<char>| #[trigger]
                names_handle(args@, h) && !targets@.dom().contains(h))
            &&& res is Err ==> res->Err_0 == ResourceError::TargetExpired
            &&& res is Ok ==> {
                let keys = text::seq_view(res->Ok_0@);
                &&& text::strictly_sorted(keys)
                &&& if exists|h: Seq<char>| #[trigger] names_handle(args@, h) {
                    forall|key: Seq<char>| #[trigger]
                        keys.contains(key) == (exists|h: Seq<char>| #[trigger]
                            names_handle(args@, h) && targets@[h]@ == key)
                } else {
                    keys == seq![workspace@]
                }
            }
        },
{
    if !run_is_active {
        return Err(ResourceError::RunInactive);
    }
    let drives_terminal = text::same(name, "run_command") || text::same(name, "send_terminal_input");
    if !drives_terminal && risk == AiActionRisk::Read {
        return Ok(Vec::new());
    }
    let mut handles: Vec<String> = Vec::new();
    assert(text::seq_view(handles@).len() == 0);
    collect_handles(args, &mut handles);
    let ghost all = text::seq_view(handles@);
    assert forall|h: Seq<char>| #[trigger] all.contains(h) == names_handle(args@, h) by {}
    if handles.len() == 0 {
        let mut keys: Vec<String> = Vec::new();
        keys.push(workspace);
        assert(text::seq_view(keys@) =~= seq![workspace@]);
        assert forall|h: Seq<char>| !#[trigger] names_handle(args@, h) by {
            assert(!all.contains(h));
        }
        return Ok(keys);
    }
    assert(all.contains(all[0]));
    assert(names_handle(args@, all[0]));
    let mut keys: Vec<String> = Vec::new();
    assert(text::seq_view(keys@).len() == 0);
    let mut i: usize = 0;
    while i < handles.len()
        invariant
            i <= handles.len(),
            run_is_active,
            !needs_no_resource(name@, risk),
            targets.wf(),
            all == text::seq_view(handles@),
            forall|h: Seq<char>| #[trigger] all.contains(h) == names_handle(args@, h),
            text::strictly_sorted(text::seq_view(keys@)),
            forall|j: int| 0 <= j < i ==> targets@.dom().contains(#[trigger] all[j]),
            forall|key: Seq<char>| #[trigger]
                text::seq_view(keys@).contains(key) == (exists|j: int|
                    0 <= j < i && targets@[#[trigger] all[j]]@ == key),
        decreases handles.len() - i,
    {
        assert(all[i as int] == handles@[i as int]@);
        assert(all.contains(all[i as int]));
        match targets.get(&handles[i]) {
            Some(owner) => {
                let ghost before = text::seq_view(keys@);
                text::insert_sorted(&mut keys, owner.clone());
                assert forall|key: Seq<char>| #[trigger]
                    text::seq_view(keys@).contains(key) == (exists|j: int|
                        0 <= j < i + 1 && targets@[#[trigger] all[j]]@ == key) by {
                    assert(before.contains(key) == (exists|j: int|
                        0 <= j < i && targets@[#[trigger] all[j]]@ == key));
                    if key == owner@ {
                        assert(targets@[all[i as int]]@ == key);
                    }
                }
            },
            None => {
                assert(names_handle(args@, all[i as int]));
                return Err(ResourceError::TargetExpired);
            },
        }
        i += 1;
    }
    assert forall|h: Seq<char>| #[trigger] names_handle(args@, h) implies targets@.dom().contains(h) by {
        assert(all.contains(h));
        let j = choose|j: int| 0 <= j < all.len() && all[j] == h;
        assert(targets@.dom().contains(all[j]));
    }
    assert forall|key: Seq<char>| #[trigger]
        text::seq_view(keys@).contains(key) == (exists|h: Seq<char>| #[trigger]
            names_handle(args@, h) && targets@[h]@ == key) by {
        if text::seq_view(keys@).contains(key) {
            let j = choose|j: int| 0 <= j < i && targets@[#[trigger] all[j]]@ == key;
            assert(all.contains(all[j]));
            assert(names_handle(args@, all[j]));
        }
        if exists|h: Seq<char>| #[trigger] names_handle(args@, h) && targets@[h]@ == key {
            let h = choose|h: Seq<char>| #[trigger] names_handle(args@, h) && targets@[h]@ == key;
            assert(all.contains(h));
            let j = choose|j: int| 0 <= j < all.len() && all[j] == h;
            assert(targets@[all[j]]@ == key);
        }
    }
    Ok(keys)
}

/// Two calls that hold some of the same resources acquire those in the same order.
pub proof fn law_resources_are_acquired_in_one_order(
    first: Seq<Seq<char>>,
    second: Seq<Seq<char>>,
    a: Seq<char>,
    b: Seq<char>,
    i: int,
    j: int,
    k: int,
    l: int,
)
    requires
        text::strictly_sorted(first),
        text::strictly_sorted(second),
        0 <= i < j < first.len(),
        first[i] == a,
        first[j] == b,
        0 <= k < second.len(),
        0 <= l < second.len(),
        second[k] == a,
        second[l] == b,
    ensures
        k < l,
{
    assert(text::text_before(first[i], first[j]));
    text::lemma_text_before_total(a, b);
    if l < k {
        assert(text::text_before(second[l], second[k]));
    }
}

/// How far the lookup of a call's resources got.
pub enum ResourceReply {
    /// The window that knows them is gone.
    HostGone,
    Unavailable,
    Keys(Vec<String>),
}

/// Admits a call of an agent's run: the tool has to be within its scope and its targets known.
pub fn admit_tool(call_id: String, name: String, in_scope: bool, reply: ResourceReply) -> (res: Result<Vec<String>, AiExecutedToolResult>)
    ensures
        !in_scope ==> res is Err && res->Err_0.is_refusal(
            call_id@,
            name@,
            "agent_scope_denied"@,
            "This tool is outside the delegated scope."@,
            true,
        ),
        in_scope ==> match reply {
            ResourceReply::HostGone => res is Err && res->Err_0.is_refusal(
                call_id@,
                name@,
                "operation_cancelled"@,
                "Tool host is unavailable."@,
                true,
            ),
            ResourceReply::Unavailable => res is Err && res->Err_0.is_refusal(
                call_id@,
                name@,
                "agent_scope_denied"@,
                "The target is unavailable or outside this run's scope."@,
                true,
            ),
            ResourceReply::Keys(keys) => res == Ok::<Vec<String>, AiExecutedToolResult>(keys),
        },
{
    if !in_scope {
        return Err(
            rejected_ai_tool_result(
                call_id,
                name,
                "agent_scope_denied",
                "This tool is outside the delegated scope.",
            ),
        );
    }
    match reply {
        ResourceReply::HostGone => Err(
            rejected_ai_tool_result(
                call_id,
                name,
                "operation_cancelled",
                "Tool host is unavailable.",
            ),
        ),
        ResourceReply::Unavailable => Err(
            rejected_ai_tool_result(
                call_id,
                name,
                "agent_scope_denied",
                "The target is unavailable or outside this run's scope.",
            ),
        ),
        ResourceReply::Keys(keys) => Ok(keys),
    }
}

/// How one resource is held.
#[derive(Clone, Copy, PartialEq, Eq, Structural, Debug)]
pub enum LeaseStep {
    /// Input to a command that the run itself started: its lease is borrowed.
    BorrowOwn,
    /// The resource has to be acquired.
    Acquire,
}

/// Whether a resource is acquired or borrowed from the run's own command.
pub fn lease_step(name: &str, owned_by_run: bool) -> (res: LeaseStep)
    ensures
        res == if name@ == "send_terminal_input"@ && owned_by_run {
            LeaseStep::BorrowOwn
        } else {
            LeaseStep::Acquire
        },
{
    if text::same(name, "send_terminal_input") && owned_by_run {
        LeaseStep::BorrowOwn
    } else {
        LeaseStep::Acquire
    }
}

/// The end of an attempt to acquire a resource.
#[derive(Clone, Copy, PartialEq, Eq, Structural, Debug)]
pub enum AcquireReply {
    Acquired,
    /// The run was cancelled before it could wait.
    Cancelled,
    /// Someone else took control, or an earlier operation never came to an end.
    Unresolved,
}

/// Goes on with an acquired resource, or refuses the call.
pub fn on_acquired(call_id: String, name: String, reply: AcquireReply) -> (res: Result<(), AiExecutedToolResult>)
    ensures
        match reply {
            AcquireReply::Acquired => res is Ok,
            AcquireReply::Cancelled => res is Err && res->Err_0.is_refusal(
                call_id@,
                name@,
                "operation_cancelled"@,
                "Agent run was cancelled."@,
                true,
            ),
            AcquireReply::Unresolved => res is Err && res->Err_0.is_refusal(
                call_id@,
                name@,
                "resource_execution_unresolved"@,
                "Terminal control was taken over or a previous operation is unresolved. Ask the user to return control explicitly before retrying."@,
                true,
            ),
        },
{
    match reply {
        AcquireReply::Acquired => Ok(()),
        AcquireReply::Cancelled => Err(
            rejected_ai_tool_result(
                call_id,
                name,
                "operation_cancelled",
                "Agent run was cancelled.",
            ),
        ),
        AcquireReply::Unresolved => Err(
            rejected_ai_tool_result(
                call_id,
                name,
                "resource_execution_unresolved",
                "Terminal control was taken over or a previous operation is unresolved. Ask the user to return control explicitly before retrying.",
            ),
        ),
    }
}

/// What a watcher of a terminal command does next.
#[derive(Clone, Copy, PartialEq, Eq, Structural, Debug)]
pub enum MonitorStep {
    /// Look again later.
    Wait,
    /// The lease was handed on.
    Stop,
    /// The terminal is gone or no longer takes input: the resource is invalid.
    Invalidate,
    /// The command ended.
    Finish,
}

/// One look at a terminal command that a lease waits for. `terminal_accepts_input` is `None` once
/// the terminal is gone.
pub fn monitor_step(
    lease_is_current: bool,
    terminal_accepts_input: Option<bool>,
    response_finished: bool,
    command_closed: bool,
) -> (res: MonitorStep)
    ensures
        res == if !lease_is_current {
            MonitorStep::Stop
        } else if terminal_accepts_input != Some(true) {
            MonitorStep::Invalidate
        } else if response_finished && command_closed {
            MonitorStep::Finish
        } else {
            MonitorStep::Wait
        },
{
    if !lease_is_current {
        return MonitorStep::Stop;
    }
    let accepts = match terminal_accepts_input {
        Some(accepts) => accepts,
        None => false,
    };
    if !accepts {
        MonitorStep::Invalidate
    } else if response_finished && command_closed {
        MonitorStep::Finish
    } else {
        MonitorStep::Wait
    }
}

} // verus!
