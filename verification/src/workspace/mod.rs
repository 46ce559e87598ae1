//! The windows around the assistant, connections and files.

pub mod agent_detail;
pub mod agent_groups;
pub mod agent_launch;
pub mod agent_settings;
pub mod agent_views;
pub mod app;
pub mod disclosure_motion;
pub mod history_quit;
pub mod host_tools;
pub mod knowledge_preview;
pub mod knowledge_toolbar;
pub mod labels;
pub mod settings_events;
pub mod sftp_editor;
pub mod ssh_algorithms;
pub mod backgrounds;
pub mod cloud_sync_file;
pub mod compactions;
pub mod connection_form;
pub mod monitor_charts;
pub mod paths;
pub mod runtime_context;
pub mod runtime_handles;
pub mod runtime_owners;
pub mod saved_connections;
pub mod ftp_form;
pub mod ftp_files;
pub mod ftp_transfers;
pub mod remote_desktop;
pub mod remote_certificates;
pub mod remote_tabs;
