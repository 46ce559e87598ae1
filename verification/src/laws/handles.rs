//! Handles on what an agent may use.

use vstd::prelude::*;

use crate::workspace::runtime_context::{reads_as_handle, AiRuntimeContextEntity};
use crate::workspace::runtime_owners::{
    AiRunCommandOwner, OwnerName, RuntimeCapability, RuntimeContextError, RuntimeHandleProjection, RuntimeOwnerId,
    RuntimeOwnerKind, RuntimeValidationFailure,
};

verus! {

/// What can be done with an owner of each kind, and nothing else.
pub proof fn law_owners_can_do_what_their_kind_can(kind: RuntimeOwnerKind, capability: RuntimeCapability, res: bool)
    requires
        call_ensures(RuntimeOwnerKind::permits, (kind, capability), res),
    ensures
        kind == RuntimeOwnerKind::LocalShell ==> (res <==> capability
            == RuntimeCapability::LocalShellRunCommand),
        kind == RuntimeOwnerKind::Terminal ==> (res <==> capability
            == RuntimeCapability::TerminalObserve || capability
            == RuntimeCapability::TerminalRunCommand || capability
            == RuntimeCapability::TerminalSendInput),
        kind == RuntimeOwnerKind::SshNode ==> (res <==> capability == RuntimeCapability::NodeInspect),
        kind == RuntimeOwnerKind::SftpSession ==> (res <==> capability
            == RuntimeCapability::SftpRead || capability == RuntimeCapability::SftpWrite
            || capability == RuntimeCapability::SftpStartTransfer),
        kind == RuntimeOwnerKind::IdeSurface ==> (res <==> capability == RuntimeCapability::IdeRead
            || capability == RuntimeCapability::IdeWrite),
        kind == RuntimeOwnerKind::AppSurface ==> (res <==> capability
            == RuntimeCapability::SurfaceFocus),
{
}

/// The kind of an owner goes by what it is.
pub proof fn law_kinds_go_by_the_owner(owner: &RuntimeOwnerId, res: RuntimeOwnerKind)
    requires
        call_ensures(RuntimeOwnerId::kind, (owner,), res),
    ensures
        owner is LocalShell <==> res == RuntimeOwnerKind::LocalShell,
        owner is Terminal <==> res == RuntimeOwnerKind::Terminal,
        owner is Node <==> res == RuntimeOwnerKind::SshNode,
        owner is Sftp <==> res == RuntimeOwnerKind::SftpSession,
        owner is Ide <==> res == RuntimeOwnerKind::IdeSurface,
        owner is Surface <==> res == RuntimeOwnerKind::AppSurface,
{
}

/// Each failure has a code of its own.
pub proof fn law_failures_have_codes(failure: RuntimeValidationFailure, res: &'static str)
    requires
        call_ensures(RuntimeValidationFailure::public_code, (failure,), res),
    ensures
        failure == RuntimeValidationFailure::MissingHandle ==> res@ == "runtime_handle_missing"@,
        failure == RuntimeValidationFailure::UnknownHandle ==> res@ == "runtime_handle_unknown"@,
        failure == RuntimeValidationFailure::SessionEnded ==> res@ == "runtime_session_ended"@,
        failure == RuntimeValidationFailure::OwnerClosed ==> res@ == "runtime_owner_closed"@,
        failure == RuntimeValidationFailure::OwnerReplaced ==> res@ == "runtime_owner_replaced"@,
        failure == RuntimeValidationFailure::NotPermitted ==> res@ == "runtime_owner_not_permitted"@,
        failure == RuntimeValidationFailure::CapabilityUnavailable ==> res@
            == "runtime_capability_unavailable"@,
{
}

/// A handle is the word `runtime`, a hyphen and a number.
pub proof fn law_handles_are_numbered(raw: &str, res: bool)
    requires
        call_ensures(reads_as_handle, (raw,), res),
    ensures
        res <==> {
            &&& raw@.len() > 8
            &&& raw@.take(8) == seq!['r', 'u', 'n', 't', 'i', 'm', 'e', '-']
            &&& forall|i: int| 8 <= i < raw@.len() ==> '0' <= #[trigger] raw@[i] <= '9'
        },
{
    reveal_strlit("runtime-");
    assert("runtime-"@ =~= seq!['r', 'u', 'n', 't', 'i', 'm', 'e', '-']);
}

/// A terminal that was announced can be handed to a session that runs, and its handle leads back to
/// that terminal for each thing that a terminal can do; without limits on the session it always is.
pub proof fn law_terminal_handles_lead_back(
    context: &mut AiRuntimeContextEntity,
    session: u64,
    terminal: u64,
    given: Result<RuntimeHandleProjection, RuntimeContextError>,
    raw: &str,
    capability: RuntimeCapability,
    read: Result<u64, RuntimeValidationFailure>,
)
    requires
        context.wf(),
        call_ensures(
            AiRuntimeContextEntity::issue_terminal_handle,
            (context, session, terminal),
            given,
        ),
        given is Ok ==> raw@ == given->Ok_0.handle_id@,
        call_ensures(
            AiRuntimeContextEntity::validate_terminal_handle,
            (&*final(context), session, Some(raw), capability),
            read,
        ),
    ensures
        given is Ok ==> (read is Ok <==> capability == RuntimeCapability::TerminalObserve
            || capability == RuntimeCapability::TerminalRunCommand || capability
            == RuntimeCapability::TerminalSendInput),
        given is Ok && read is Ok ==> read->Ok_0 == terminal,
        given is Ok && read is Err ==> read->Err_0
            == RuntimeValidationFailure::CapabilityUnavailable,
        given is Ok <==> old(context).names@.dom().contains(OwnerName::Terminal(terminal)) && old(
            context).sessions@.dom().contains(session) && (old(
            context).sessions@[session].limits is None || old(
            context).sessions@[session].limits->0@.contains(
            old(context).names@[OwnerName::Terminal(terminal)],
        )),
        given is Err ==> *final(context) == *old(context),
{
    if given is Ok {
        crate::workspace::runtime_context::lemma_is_handle_text(final(context).serial);
    }
}

/// What an owner is known by is what it was announced with; one that is announced again with another
/// connection is a new one, and with the same connection it is not.
pub proof fn law_nodes_are_renewed_with_their_connection(
    context: &mut AiRuntimeContextEntity,
    node: String,
    connection: String,
    label: String,
    resource: Option<String>,
)
    requires
        context.wf(),
        call_ensures(
            AiRuntimeContextEntity::register_node_connection,
            (context, node, connection, label, resource),
            (),
        ),
    ensures
        ({
            let name = OwnerName::Node(node@);
            let record = final(context).records@[final(context).names@[name]];
            let known = old(context).records@[old(context).names@[name]];
            &&& final(context).names@.dom().contains(name)
            &&& record.label@ == label@
            &&& record.resource_ref == resource
            &&& !old(context).names@.dom().contains(name) ==> record.generation == 1
            &&& old(context).names@.dom().contains(name) && known.backing@->Connection_0
                == connection@ ==> record.generation == known.generation
            &&& old(context).names@.dom().contains(name) && known.backing@->Connection_0
                != connection@ && known.generation < u64::MAX ==> record.generation
                == known.generation + 1
            &&& forall|other: OwnerName|
                other != name && old(context).names@.dom().contains(other) ==> #[trigger] final(
                    context).names@[other] == old(context).names@[other] && final(
                    context).records@[final(context).names@[other]] == old(
                    context).records@[old(context).names@[other]]
        }),
{
    let name = OwnerName::Node(node@);
    let before = *old(context);
    let after = *final(context);
    if before.names@.dom().contains(name) {
        assert(crate::workspace::runtime_context::well_backed(before.records@[before.names@[name]]));
    }
    assert forall|other: OwnerName|
        other != name && before.names@.dom().contains(other) implies #[trigger] after.names@[other]
        == before.names@[other] && after.records@[after.names@[other]]
        == before.records@[before.names@[other]] by {
        assert(before.records@.dom().contains(before.names@[other]));
    }
}

/// Where a node goes, so do its files and the editors on it; terminals, surfaces, the local shell and
/// what is on other nodes stay.
pub proof fn law_nodes_take_along_what_is_on_them(
    context: &mut AiRuntimeContextEntity,
    node: &str,
    name: OwnerName,
)
    requires
        context.wf(),
        call_ensures(AiRuntimeContextEntity::revoke_node_connection, (context, node), ()),
        context.names@.dom().contains(name),
    ensures
        ({
            let stays = final(context).names@.dom().contains(name);
            let record = old(context).records@[old(context).names@[name]];
            &&& name == OwnerName::Node(node@) ==> !stays
            &&& name == OwnerName::Sftp(node@) ==> !stays
            &&& name is Ide && record.backing@->Node_0 == node@ ==> !stays
            &&& name is Ide && record.backing@->Node_0 != node@ ==> stays
            &&& name is Node && name->Node_0 != node@ ==> stays
            &&& name is Sftp && name->Sftp_0 != node@ ==> stays
            &&& name is Terminal || name is Surface || name is LocalShell ==> stays
            &&& stays ==> final(context).names@[name] == old(context).names@[name]
        }),
{
    let before = *old(context);
    assert(before.records@.dom().contains(before.names@[name]));
    assert(crate::workspace::runtime_context::well_backed(before.records@[before.names@[name]]));
}

/// A terminal that is gone is gone alone.
pub proof fn law_terminals_go_alone(context: &mut AiRuntimeContextEntity, terminal: u64, name: OwnerName)
    requires
        context.wf(),
        call_ensures(AiRuntimeContextEntity::revoke_terminal_session, (context, terminal), ()),
        context.names@.dom().contains(name),
    ensures
        final(context).names@.dom().contains(name) <==> name != OwnerName::Terminal(terminal),
        final(context).sessions == old(context).sessions,
        final(context).leases == old(context).leases,
{
    assert(old(context).records@.dom().contains(old(context).names@[name]));
}

/// A limit takes away what it does not name, and gives nothing.
pub proof fn law_limits_take_away(
    context: &mut AiRuntimeContextEntity,
    session: u64,
    targets: &Vec<u64>,
    res: Result<(), RuntimeContextError>,
    key: u64,
)
    requires
        call_ensures(
            AiRuntimeContextEntity::restrict_agent_session,
            (context, session, targets),
            res,
        ),
    ensures
        res is Ok <==> old(context).sessions@.dom().contains(session),
        res is Ok ==> {
            let before = old(context).sessions@[session].limits;
            let after = final(context).sessions@[session].limits;
            &&& final(context).sessions@.dom().contains(session)
            &&& after is Some
            &&& after->0@.contains(key) <==> targets@.contains(key) && (before is None
                || before->0@.contains(key))
        },
{
    if res is Ok {
        assert(final(context).permits(session, key) == (old(context).permits(session, key)
            && targets@.contains(key)));
    }
}

/// A session belongs to the run that opened it until the run ends or opens another, and only while
/// requests are taken.
pub proof fn law_sessions_belong_to_their_run(
    context: &mut AiRuntimeContextEntity,
    run: u64,
    session: u64,
    other: u64,
    active: bool,
)
    requires
        context.wf(),
        call_ensures(AiRuntimeContextEntity::begin_tool_session, (context, run), session),
        call_ensures(
            AiRuntimeContextEntity::is_active_tool_session,
            (&*final(context), other, session),
            active,
        ),
    ensures
        active <==> other == run && final(context).accepting_broker_requests,
        session > old(context).serial,
        final(context).sessions@.dom().contains(session),
        final(context).sessions@[session].limits is None,
        old(context).tool_sessions@.dom().contains(run) ==> !final(context).sessions@.dom().contains(
            old(context).tool_sessions@[run],
        ),
{
    let finished = choose|finished: AiRuntimeContextEntity| #[trigger]
        finished.session_finished(*old(context), run) && final(context).session_opened(finished, run);
    let before = *old(context);
    if before.tool_sessions@.dom().contains(run) {
        assert(before.sessions@.dom().contains(before.tool_sessions@[run]));
    }
    if before.tool_sessions@.dom().contains(other) {
        assert(before.sessions@.dom().contains(before.tool_sessions@[other]));
        assert(before.tool_sessions@[other] <= before.serial);
    }
}

/// A command runs where the handle leads: in its terminal or in the local shell, and nowhere else.
pub proof fn law_commands_run_where_the_handle_leads(
    context: &AiRuntimeContextEntity,
    session: u64,
    raw: &str,
    res: Result<AiRunCommandOwner, RuntimeValidationFailure>,
    target: Result<(u64, String), RuntimeValidationFailure>,
)
    requires
        call_ensures(
            AiRuntimeContextEntity::validate_run_command_handle,
            (context, session, Some(raw)),
            res,
        ),
        call_ensures(AiRuntimeContextEntity::delegated_agent_target, (context, session, raw), target),
    ensures
        target matches Err(failure) ==> res == Err::<AiRunCommandOwner, RuntimeValidationFailure>(
            failure,
        ),
        target matches Ok((key, label)) ==> {
            let name = context.records@[key].name;
            &&& label@ == context.records@[key].label@
            &&& name is Terminal ==> res == Ok::<AiRunCommandOwner, RuntimeValidationFailure>(
                AiRunCommandOwner::Terminal(name->Terminal_0),
            )
            &&& name is LocalShell ==> res == Ok::<AiRunCommandOwner, RuntimeValidationFailure>(
                AiRunCommandOwner::LocalShell,
            )
            &&& !(name is Terminal) && !(name is LocalShell) ==> res == Err::<
                AiRunCommandOwner,
                RuntimeValidationFailure,
            >(RuntimeValidationFailure::CapabilityUnavailable)
        },
{
}

/// Without a handle nothing is reached, and with one of another session or of none neither.
pub proof fn law_handles_are_asked_for(
    context: &AiRuntimeContextEntity,
    session: u64,
    raw: &str,
    none: Result<String, RuntimeValidationFailure>,
    some: Result<String, RuntimeValidationFailure>,
)
    requires
        context.wf(),
        call_ensures(AiRuntimeContextEntity::validate_node_handle, (context, session, None), none),
        call_ensures(
            AiRuntimeContextEntity::validate_node_handle,
            (context, session, Some(raw)),
            some,
        ),
    ensures
        none == Err::<String, RuntimeValidationFailure>(RuntimeValidationFailure::MissingHandle),
        some is Ok ==> {
            let lease = context.leases@[raw@];
            &&& context.leases@.dom().contains(raw@)
            &&& lease.session == session
            &&& context.sessions@.dom().contains(session)
            &&& context.records@.dom().contains(lease.owner)
            &&& context.records@[lease.owner].generation == lease.generation
            &&& context.records@[lease.owner].name is Node
            &&& context.records@[lease.owner].name->Node_0@ == some->Ok_0@
        },
        !context.leases@.dom().contains(raw@) || context.leases@[raw@].session != session ==> some is Err,
{
}

/// Once stopped, no session goes on and no handle leads anywhere.
pub proof fn law_nothing_goes_on_once_stopped(context: &mut AiRuntimeContextEntity, session: u64, raw: Seq<char>)
    requires
        call_ensures(
            AiRuntimeContextEntity::stop_accepting_and_finish_tool_sessions,
            (context,),
            (),
        ),
        context.accepting_broker_requests,
    ensures
        !final(context).accepting_broker_requests,
        !final(context).sessions@.dom().contains(session),
        !final(context).leases@.dom().contains(raw),
        final(context).records == old(context).records,
{
}

/// A terminal is watched by a session that may reach it.
pub proof fn law_watched_terminals_are_in_reach(context: &AiRuntimeContextEntity, session: u64, terminal: u64, res: bool, key: Option<u64>)
    requires
        call_ensures(
            AiRuntimeContextEntity::agent_can_observe_terminal,
            (context, session, terminal),
            res,
        ),
        call_ensures(AiRuntimeContextEntity::terminal_resource_key, (context, terminal), key),
    ensures
        key is Some <==> context.names@.dom().contains(OwnerName::Terminal(terminal)),
        res <==> key is Some && context.sessions@.dom().contains(session) && (
        context.sessions@[session].limits is None || context.sessions@[session].limits->0@.contains(
            key->0,
        )),
{
}

} // verus!
