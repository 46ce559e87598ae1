//! The state of a workspace window.

use vstd::prelude::*;

use crate::ai::models::AiProviderView;
use crate::ai_state::entity::AiWorkspaceEntity;
use crate::ai_state::model::AgentConversationOptions;
use crate::table::Table;
use crate::workspace::disclosure_motion::Disclosures;
use crate::workspace::ftp_files::FtpRuntime;
use crate::workspace::ftp_form::ConnectionFormState;
use crate::workspace::remote_desktop::RemoteDesktopSessionEntity;
use crate::workspace::remote_tabs::Tab;
use crate::workspace::runtime_context::AiRuntimeContextEntity;
use crate::workspace::sftp_editor::SftpPreview;
use crate::workspace::settings_events::WorkspaceSettings;

verus! {

/// What the settings say of the assistant.
pub struct AiSettings {
    pub providers: Vec<AiProviderView>,
    /// How many agents may run at once, where the user said so.
    pub agent_concurrency: Option<u64>,
    pub default_agent_concurrency: usize,
    pub max_agent_concurrency: usize,
}

pub struct WorkspaceApp {
    pub ai_entity: AiWorkspaceEntity,
    pub ai_runtime_context: AiRuntimeContextEntity,
    pub ai_settings: AiSettings,
    pub settings: WorkspaceSettings,
    pub connection_form: ConnectionFormState,
    pub ftp_sessions: Table<String, FtpRuntime>,
    pub active_tab: Option<Tab>,
    pub disclosures: Disclosures,
    pub sftp_preview: SftpPreview,
    pub remote_sessions: Table<u64, RemoteDesktopSessionEntity>,
}

impl WorkspaceApp {
    /// Everything that the window holds is well formed.
    pub open spec fn wf(self) -> bool {
        &&& self.ai_entity.wf()
        &&& self.ai_runtime_context.wf()
        &&& self.settings.wf()
        &&& self.ftp_sessions.wf()
        &&& self.disclosures.wf()
        &&& self.sftp_preview.wf()
        &&& self.remote_sessions.wf()
    }

    /// A window without conversations, sessions or forms.
    pub fn new(
        ai_settings: AiSettings,
        settings: WorkspaceSettings,
        default_options: AgentConversationOptions,
        motion_enabled: bool,
        mono_font: String,
    ) -> (res: WorkspaceApp)
        requires
            settings.wf(),
        ensures
            res.wf(),
            res.ai_settings == ai_settings,
            res.settings == settings,
            res.connection_form.form is None,
            res.active_tab is None,
            res.disclosures.is_new(motion_enabled),
            res.sftp_preview.is_new(mono_font),
            res.ai_entity.is_new(default_options),
            res.ai_runtime_context.is_new(),
            res.ftp_sessions@ == Map::<Seq<char>, FtpRuntime>::empty(),
            res.remote_sessions@ == Map::<u64, RemoteDesktopSessionEntity>::empty(),
    {
        WorkspaceApp {
            ai_entity: AiWorkspaceEntity::new(default_options),
            ai_runtime_context: AiRuntimeContextEntity::new(),
            ai_settings,
            settings,
            connection_form: ConnectionFormState { form: None },
            ftp_sessions: Table::new(),
            active_tab: None,
            disclosures: Disclosures::new(motion_enabled),
            sftp_preview: SftpPreview::new(mono_font),
            remote_sessions: Table::new(),
        }
    }
}

} // verus!
