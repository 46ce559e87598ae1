//! Owners that come and go, and handles of every kind.

use vstd::prelude::*;

use crate::workspace::runtime_context::AiRuntimeContextEntity;
use crate::workspace::runtime_owners::{
    AiSftpRuntimeOwner, OwnerName, RuntimeCapability, RuntimeContextError, RuntimeHandleProjection,
    RuntimeOwnerKind, RuntimeValidationFailure,
};

verus! {

/// A terminal that is announced is known under its number, with its label; a second time it is the
/// same terminal.
pub proof fn law_announced_terminals_are_known(context: &mut AiRuntimeContextEntity, terminal: u64, label: String)
    requires
        context.wf(),
        call_ensures(
            AiRuntimeContextEntity::register_terminal_session,
            (context, terminal, label),
            (),
        ),
    ensures
        ({
            let name = OwnerName::Terminal(terminal);
            let record = final(context).records@[final(context).names@[name]];
            &&& final(context).names@.dom().contains(name)
            &&& record.label@ == label@
            &&& record.resource_ref is None
            &&& !old(context).names@.dom().contains(name) ==> record.generation == 1
            &&& old(context).names@.dom().contains(name) ==> record.generation == old(
                context).records@[old(context).names@[name]].generation && final(
                context).names@[name] == old(context).names@[name]
        }),
{
    let name = OwnerName::Terminal(terminal);
    let before = *old(context);
    if before.names@.dom().contains(name) {
        assert(crate::workspace::runtime_context::well_backed(before.records@[before.names@[name]]));
    }
}

/// A file session is known under its node, and is another one where its connection or its generation
/// is another.
pub proof fn law_file_sessions_are_renewed(
    context: &mut AiRuntimeContextEntity,
    node: String,
    connection: String,
    generation: u64,
    label: String,
    resource: Option<String>,
)
    requires
        context.wf(),
        call_ensures(
            AiRuntimeContextEntity::register_sftp_session,
            (context, node, connection, generation, label, resource),
            (),
        ),
    ensures
        ({
            let name = OwnerName::Sftp(node@);
            let record = final(context).records@[final(context).names@[name]];
            let known = old(context).records@[old(context).names@[name]];
            let same = known.backing@->Session_connection == connection@
                && known.backing@->Session_generation == generation;
            &&& final(context).names@.dom().contains(name)
            &&& record.label@ == label@
            &&& record.backing@ is Session
            &&& record.backing@->Session_connection == connection@
            &&& record.backing@->Session_generation == generation
            &&& old(context).names@.dom().contains(name) && same ==> record.generation
                == known.generation
            &&& old(context).names@.dom().contains(name) && !same && known.generation < u64::MAX
                ==> record.generation == known.generation + 1
        }),
{
    let name = OwnerName::Sftp(node@);
    let before = *old(context);
    if before.names@.dom().contains(name) {
        assert(crate::workspace::runtime_context::well_backed(before.records@[before.names@[name]]));
    }
}

/// An editor belongs to its tab and its node, and a surface to its tab.
pub proof fn law_editors_and_surfaces_are_known(
    context: &mut AiRuntimeContextEntity,
    tab: u64,
    node: String,
    label: String,
    resource: Option<String>,
    other: &mut AiRuntimeContextEntity,
)
    requires
        context.wf(),
        other.wf(),
        call_ensures(
            AiRuntimeContextEntity::register_ide_surface,
            (context, tab, node, label, resource),
            (),
        ),
        call_ensures(
            AiRuntimeContextEntity::register_app_surface,
            (other, tab, label, resource),
            (),
        ),
    ensures
        final(context).names@.dom().contains(OwnerName::Ide(tab)),
        final(context).records@[final(context).names@[OwnerName::Ide(tab)]].backing@ is Node,
        final(context).records@[final(context).names@[OwnerName::Ide(tab)]].backing@->Node_0 == node@,
        final(context).records@[final(context).names@[OwnerName::Ide(tab)]].label@ == label@,
        final(other).names@.dom().contains(OwnerName::Surface(tab)),
        final(other).records@[final(other).names@[OwnerName::Surface(tab)]].label@ == label@,
        final(other).records@[final(other).names@[OwnerName::Surface(tab)]].backing@ is Itself,
{
}

/// Each owner goes alone where it is revoked by its name.
pub proof fn law_owners_go_by_name(
    context: &mut AiRuntimeContextEntity,
    node: &str,
    other: &mut AiRuntimeContextEntity,
    tab: u64,
    third: &mut AiRuntimeContextEntity,
    name: OwnerName,
)
    requires
        context.wf(),
        other.wf(),
        third.wf(),
        call_ensures(AiRuntimeContextEntity::revoke_sftp_session, (context, node), ()),
        call_ensures(AiRuntimeContextEntity::revoke_ide_surface, (other, tab), ()),
        call_ensures(AiRuntimeContextEntity::revoke_app_surface, (third, tab), ()),
        context.names@.dom().contains(name),
        other.names@.dom().contains(name),
        third.names@.dom().contains(name),
    ensures
        final(context).names@.dom().contains(name) <==> name != OwnerName::Sftp(node@),
        final(other).names@.dom().contains(name) <==> name != OwnerName::Ide(tab),
        final(third).names@.dom().contains(name) <==> name != OwnerName::Surface(tab),
{
    assert(old(context).records@.dom().contains(old(context).names@[name]));
    assert(old(other).records@.dom().contains(old(other).names@[name]));
    assert(old(third).records@.dom().contains(old(third).names@[name]));
}

/// Once everything is revoked nothing is known, and handles are left without an owner.
pub proof fn law_revoked_owners_are_unknown(context: &mut AiRuntimeContextEntity, name: OwnerName)
    requires
        call_ensures(
            AiRuntimeContextEntity::revoke_registered_owner_projections,
            (context,),
            (),
        ),
    ensures
        !final(context).names@.dom().contains(name),
        final(context).leases == old(context).leases,
        final(context).sessions == old(context).sessions,
{
}

/// Shutting down leaves no owner, and no request is taken any more.
pub proof fn law_shut_down_contexts_take_nothing(context: &mut AiRuntimeContextEntity, name: OwnerName, session: u64)
    requires
        call_ensures(AiRuntimeContextEntity::shutdown, (context,), ()),
    ensures
        !final(context).accepting_broker_requests,
        !final(context).names@.dom().contains(name),
        old(context).accepting_broker_requests ==> !final(context).sessions@.dom().contains(session),
{
}

/// A run that ends takes its session along, with its handles; other sessions go on.
pub proof fn law_ended_runs_take_their_session_along(
    context: &mut AiRuntimeContextEntity,
    run: u64,
    other: u64,
    raw: Seq<char>,
)
    requires
        context.wf(),
        call_ensures(AiRuntimeContextEntity::finish_tool_session, (context, run), ()),
    ensures
        ({
            let there = old(context).tool_sessions@.dom().contains(run);
            let session = old(context).tool_sessions@[run];
            &&& !final(context).tool_sessions@.dom().contains(run)
            &&& there ==> !final(context).sessions@.dom().contains(session)
            &&& there && other != session ==> (final(context).sessions@.dom().contains(other) <==> old(
                context).sessions@.dom().contains(other))
            &&& there ==> (final(context).leases@.dom().contains(raw) <==> old(
                context).leases@.dom().contains(raw) && old(context).leases@[raw].session != session)
            &&& final(context).records == old(context).records
        }),
{
}

/// A session is an agent's where it has limits.
pub proof fn law_limited_sessions_are_agents(context: &AiRuntimeContextEntity, session: u64, res: bool)
    requires
        call_ensures(AiRuntimeContextEntity::is_agent_scoped_session, (context, session), res),
    ensures
        res <==> context.sessions@.dom().contains(session)
            && context.sessions@[session].limits is Some,
{
}

/// Handles are numbered upwards, and each names the owner it was given for.
pub proof fn law_handles_name_their_owner(
    context: &mut AiRuntimeContextEntity,
    session: u64,
    node: &str,
    res: Result<RuntimeHandleProjection, RuntimeContextError>,
)
    requires
        context.wf(),
        call_ensures(AiRuntimeContextEntity::issue_node_handle, (context, session, node), res),
    ensures
        ({
            let name = OwnerName::Node(node@);
            let known = old(context).names@.dom().contains(name);
            let open = old(context).sessions@.dom().contains(session);
            &&& !known ==> res == Err::<RuntimeHandleProjection, RuntimeContextError>(
                RuntimeContextError::OwnerNotFound,
            )
            &&& known && !open ==> res == Err::<RuntimeHandleProjection, RuntimeContextError>(
                RuntimeContextError::SessionNotFound,
            )
            &&& known && open && old(context).sessions@[session].limits is None ==> res is Ok
            &&& res matches Ok(handle) ==> {
                &&& final(context).serial == old(context).serial + 1
                &&& handle.kind == RuntimeOwnerKind::SshNode
                &&& handle.label@ == old(context).records@[old(context).names@[name]].label@
                &&& final(context).leases@.dom().contains(handle.handle_id@)
                &&& final(context).leases@[handle.handle_id@].session == session
                &&& final(context).leases@[handle.handle_id@].owner == old(context).names@[name]
            }
            &&& res is Err ==> *final(context) == *old(context)
        }),
{
    let name = OwnerName::Node(node@);
    if old(context).names@.dom().contains(name) {
        assert(old(context).records@.dom().contains(old(context).names@[name]));
    }
}

/// A file session's handle gives what is needed to reach it, for what file sessions can do.
pub proof fn law_file_handles_reach_their_session(
    context: &AiRuntimeContextEntity,
    session: u64,
    raw: &str,
    capability: RuntimeCapability,
    res: Result<AiSftpRuntimeOwner, RuntimeValidationFailure>,
)
    requires
        call_ensures(
            AiRuntimeContextEntity::validate_sftp_handle,
            (context, session, Some(raw), capability),
            res,
        ),
    ensures
        res is Ok ==> capability == RuntimeCapability::SftpRead || capability
            == RuntimeCapability::SftpWrite || capability == RuntimeCapability::SftpStartTransfer,
        res matches Ok(owner) ==> {
            let record = context.records@[context.leases@[raw@].owner];
            &&& context.leases@.dom().contains(raw@)
            &&& record.name is Sftp
            &&& record.name->Sftp_0@ == owner.node_id@
            &&& record.backing@->Session_connection == owner.connection_id@
            &&& record.backing@->Session_generation == owner.session_generation
        },
{
}

/// An editor's handle gives its tab and its node, and a surface's its tab.
pub proof fn law_editor_handles_give_their_tab(
    context: &AiRuntimeContextEntity,
    session: u64,
    raw: &str,
    capability: RuntimeCapability,
    res: Result<(u64, String), RuntimeValidationFailure>,
    surface: Result<u64, RuntimeValidationFailure>,
)
    requires
        call_ensures(
            AiRuntimeContextEntity::validate_ide_handle,
            (context, session, Some(raw), capability),
            res,
        ),
        call_ensures(
            AiRuntimeContextEntity::validate_app_surface_handle,
            (context, session, Some(raw)),
            surface,
        ),
    ensures
        res is Ok ==> capability == RuntimeCapability::IdeRead || capability
            == RuntimeCapability::IdeWrite,
        res matches Ok((tab, node)) ==> {
            let record = context.records@[context.leases@[raw@].owner];
            &&& record.name is Ide
            &&& record.name->Ide_0 == tab
            &&& record.backing@->Node_0 == node@
        },
        surface matches Ok(tab) ==> {
            let record = context.records@[context.leases@[raw@].owner];
            &&& record.name is Surface
            &&& record.name->Surface_0 == tab
        },
        res is Ok ==> surface is Err,
{
}

/// The state of an owner is told as it is known: its label, its kind and what it refers to.
pub proof fn law_states_are_told_as_known(
    context: &AiRuntimeContextEntity,
    session: u64,
    raw: &str,
    res: Result<RuntimeHandleProjection, RuntimeValidationFailure>,
)
    requires
        call_ensures(
            AiRuntimeContextEntity::validate_state_handle,
            (context, session, Some(raw)),
            res,
        ),
    ensures
        res matches Ok(told) ==> {
            let record = context.records@[context.leases@[raw@].owner];
            &&& context.leases@.dom().contains(raw@)
            &&& context.leases@[raw@].session == session
            &&& told.handle_id@ == raw@
            &&& told.label@ == record.label@
            &&& record.name is Terminal ==> told.kind == RuntimeOwnerKind::Terminal
            &&& record.name is Node ==> told.kind == RuntimeOwnerKind::SshNode
            &&& told.resource_ref is Some <==> record.resource_ref is Some
        },
        !context.sessions@.dom().contains(session) ==> res is Err,
{
    if res is Ok {
        let record = context.records@[context.leases@[raw@].owner];
        assert(crate::text::opt_view(res->Ok_0.resource_ref) is Some
            <==> res->Ok_0.resource_ref is Some);
        assert(crate::text::opt_view(record.resource_ref) is Some <==> record.resource_ref is Some);
    }
}

} // verus!
