//! What follows when the settings page reports that something is done.

use vstd::prelude::*;

use crate::json::JsonTree;
use crate::table::Table;
use crate::text;
use crate::workspace::app::WorkspaceApp;
use crate::workspace::labels::{bare, Label, LabelView};

verus! {

/// The settings that the settings page changes on its own.
pub struct WorkspaceSettings {
    pub background_blur: u32,
    pub background_image: Option<String>,
    pub theme: String,
    pub custom_themes: Table<String, JsonTree>,
    pub key_overrides: Table<String, String>,
}

impl WorkspaceSettings {
    pub open spec fn wf(self) -> bool {
        self.custom_themes.wf() && self.key_overrides.wf()
    }
}

#[derive(Clone, Copy, PartialEq, Eq, Structural, Debug)]
pub enum NoticeVariant {
    Success,
    Warning,
    Error,
}

/// What a notice says: a text to look up, or one as it is.
pub enum NoticeText {
    Lookup(Label),
    Plain(String),
}

/// What a notice says, in words.
pub enum NoticeWords {
    Lookup(LabelView),
    Plain(Seq<char>),
}

impl NoticeText {
    pub open spec fn view(self) -> NoticeWords {
        match self {
            NoticeText::Lookup(label) => NoticeWords::Lookup(label@),
            NoticeText::Plain(words) => NoticeWords::Plain(words@),
        }
    }
}

/// Something that was done for the settings page.
pub enum SettingsResult {
    DirectoryChanged,
    DirectoryReset,
    DirectoryFailed(String),
    GalleryUpdated(Option<String>),
    GalleryFailed,
    ThemeImported { theme_id: String, name: String, value: JsonTree },
    ThemeImportFailed(String),
    /// The user saved what the theme editor holds.
    ThemeSaved { editor: u64 },
    /// The user deleted the theme that the theme editor shows, where it is a stored one.
    ThemeDeleted(Option<String>),
    KeysExported,
    KeysExportFailed,
    KeysImported { overrides: Table<String, String>, window: u64 },
    KeysImportFailed,
}

#[derive(Clone, Copy, PartialEq, Eq, Structural, Debug)]
pub enum CliCompanionOperation {
    Install,
    Uninstall,
    UninstallLegacy,
    Migrate,
    Refresh,
}

/// What the settings page reports.
pub enum SettingsEvent {
    ExternalStoresChanged,
    DataDirectoryConfirmOpened,
    BackgroundBlurCommitted(u32),
    OperationsReady(Vec<SettingsResult>),
    PortablePasswordChanged { success: bool, error: Option<String> },
    CliCompanionFinished { operation: CliCompanionOperation, success: bool, error: Option<String> },
}

/// What the window has to do.
pub enum SettingsAction {
    ReloadStores,
    ResetConfirmFocus,
    Redraw,
    /// The settings changed and have to be stored.
    StoreSettings,
    Toast { words: NoticeText, variant: NoticeVariant },
    Notice { words: NoticeText, variant: NoticeVariant },
    SaveTheme { editor: u64 },
    DeleteTheme { theme_id: String },
    /// Bind the keys of a window that differ between the overrides so far and the present ones.
    Rebind { previous: Table<String, String>, window: u64 },
    RefreshPortableSettings,
}

/// What the window has to do, in words.
pub enum SettingsDeed {
    ReloadStores,
    ResetConfirmFocus,
    Redraw,
    StoreSettings,
    Toast { words: NoticeWords, variant: NoticeVariant },
    Notice { words: NoticeWords, variant: NoticeVariant },
    SaveTheme { editor: u64 },
    DeleteTheme { theme_id: Seq<char> },
    Rebind { previous: Map<Seq<char>, String>, window: u64 },
    RefreshPortableSettings,
}

impl SettingsAction {
    pub open spec fn view(self) -> SettingsDeed {
        match self {
            SettingsAction::ReloadStores => SettingsDeed::ReloadStores,
            SettingsAction::ResetConfirmFocus => SettingsDeed::ResetConfirmFocus,
            SettingsAction::Redraw => SettingsDeed::Redraw,
            SettingsAction::StoreSettings => SettingsDeed::StoreSettings,
            SettingsAction::Toast { words, variant } => SettingsDeed::Toast { words: words@, variant },
            SettingsAction::Notice { words, variant } => SettingsDeed::Notice { words: words@, variant },
            SettingsAction::SaveTheme { editor } => SettingsDeed::SaveTheme { editor },
            SettingsAction::DeleteTheme { theme_id } => SettingsDeed::DeleteTheme {
                theme_id: theme_id@,
            },
            SettingsAction::Rebind { previous, window } => SettingsDeed::Rebind {
                previous: previous@,
                window,
            },
            SettingsAction::RefreshPortableSettings => SettingsDeed::RefreshPortableSettings,
        }
    }
}

pub open spec fn deeds(actions: Seq<SettingsAction>) -> Seq<SettingsDeed> {
    actions.map_values(|action: SettingsAction| action@)
}

/// A toast with a text under a key.
pub open spec fn toast(key: Seq<char>, variant: NoticeVariant) -> SettingsDeed {
    SettingsDeed::Toast { words: NoticeWords::Lookup(bare(key)), variant }
}

/// A notice with a text that names one value.
pub open spec fn named_notice(key: Seq<char>, name: Seq<char>, value: Seq<char>, variant: NoticeVariant) -> SettingsDeed {
    SettingsDeed::Notice {
        words: NoticeWords::Lookup(LabelView { key, values: seq![(name, value)] }),
        variant,
    }
}

/// What a result asks the window to do.
pub open spec fn deeds_of(result: SettingsResult, settings: WorkspaceSettings) -> Seq<SettingsDeed> {
    match result {
        SettingsResult::DirectoryChanged => seq![
            toast("settings_view.general.data_directory_changed"@, NoticeVariant::Success),
        ],
        SettingsResult::DirectoryReset => seq![
            toast("settings_view.general.data_directory_reset"@, NoticeVariant::Success),
        ],
        SettingsResult::DirectoryFailed(error) => seq![
            SettingsDeed::Toast {
                words: NoticeWords::Plain(error@),
                variant: NoticeVariant::Error,
            },
        ],
        SettingsResult::GalleryUpdated(path) => if text::opt_view(path) == text::opt_view(
            settings.background_image,
        ) {
            Seq::empty()
        } else {
            seq![SettingsDeed::StoreSettings]
        },
        SettingsResult::GalleryFailed => seq![
            SettingsDeed::Notice {
                words: NoticeWords::Lookup(bare("settings_view.terminal.bg_operation_failed"@)),
                variant: NoticeVariant::Error,
            },
        ],
        SettingsResult::ThemeImported { theme_id, name, value } => seq![
            SettingsDeed::StoreSettings,
            named_notice(
                "settings_view.appearance.theme_import_success"@,
                "name"@,
                name@,
                NoticeVariant::Success,
            ),
        ],
        SettingsResult::ThemeImportFailed(error) => seq![
            named_notice(
                "settings_view.appearance.theme_import_error"@,
                "error"@,
                error@,
                NoticeVariant::Error,
            ),
        ],
        SettingsResult::ThemeSaved { editor } => seq![SettingsDeed::SaveTheme { editor }],
        SettingsResult::ThemeDeleted(theme) => match theme {
            Some(theme_id) => seq![
                SettingsDeed::DeleteTheme { theme_id: theme_id@ },
                SettingsDeed::StoreSettings,
            ],
            None => seq![SettingsDeed::StoreSettings],
        },
        SettingsResult::KeysExported => seq![
            toast("settings_view.keybindings.export_success"@, NoticeVariant::Success),
        ],
        SettingsResult::KeysExportFailed => seq![
            toast("settings_view.keybindings.export_error"@, NoticeVariant::Error),
        ],
        SettingsResult::KeysImported { overrides, window } => seq![
            SettingsDeed::StoreSettings,
            SettingsDeed::Rebind { previous: settings.key_overrides@, window },
            toast("settings_view.keybindings.import_success"@, NoticeVariant::Success),
        ],
        SettingsResult::KeysImportFailed => seq![
            toast("settings_view.keybindings.import_invalid"@, NoticeVariant::Error),
        ],
    }
}

/// What a result does to the settings.
pub open spec fn settled(after: WorkspaceSettings, before: WorkspaceSettings, result: SettingsResult) -> bool {
    match result {
        SettingsResult::GalleryUpdated(path) => after == if text::opt_view(path) == text::opt_view(
            before.background_image,
        ) {
            before
        } else {
            WorkspaceSettings { background_image: path, ..before }
        },
        SettingsResult::ThemeImported { theme_id, name, value } => {
            &&& after == (WorkspaceSettings {
                theme: theme_id,
                custom_themes: after.custom_themes,
                ..before
            })
            &&& after.custom_themes@ == before.custom_themes@.insert(theme_id@, value)
        },
        SettingsResult::KeysImported { overrides, window } => after == (WorkspaceSettings {
            key_overrides: overrides,
            ..before
        }),
        _ => after == before,
    }
}

/// One result was taken in.
pub open spec fn step_of_result(
    before: (WorkspaceSettings, Seq<SettingsDeed>),
    after: (WorkspaceSettings, Seq<SettingsDeed>),
    result: SettingsResult,
) -> bool {
    &&& settled(after.0, before.0, result)
    &&& after.1 == before.1 + deeds_of(result, before.0)
}

/// One result after the other was taken in.
pub open spec fn steps_of_results(steps: Seq<(WorkspaceSettings, Seq<SettingsDeed>)>, results: Seq<SettingsResult>) -> bool {
    &&& steps.len() == results.len() + 1
    &&& forall|i: int|
        #![trigger results[i]]
        0 <= i < results.len() ==> step_of_result(steps[i], steps[i + 1], results[i])
}

/// Whether the tables of a result are well formed.
pub open spec fn result_wf(result: SettingsResult) -> bool {
    match result {
        SettingsResult::KeysImported { overrides, window } => overrides.wf(),
        _ => true,
    }
}

pub open spec fn event_wf(event: SettingsEvent) -> bool {
    match event {
        SettingsEvent::OperationsReady(results) => forall|i: int|
            0 <= i < results@.len() ==> result_wf(#[trigger] results@[i]),
        _ => true,
    }
}

/// The key of the text that says what the companion did.
pub open spec fn companion_key(operation: CliCompanionOperation) -> Seq<char> {
    match operation {
        CliCompanionOperation::Install => "settings_view.general.cli_installed"@,
        CliCompanionOperation::Uninstall => "settings_view.general.cli_uninstalled"@,
        CliCompanionOperation::UninstallLegacy => "migration.cli_legacy_uninstalled"@,
        _ => "migration.cli_migrated"@,
    }
}

/// What a failure says, where anything is known of it.
pub open spec fn failure(error: Option<String>) -> Seq<SettingsDeed> {
    match error {
        Some(error) => seq![
            SettingsDeed::Toast {
                words: NoticeWords::Plain(error@),
                variant: NoticeVariant::Error,
            },
        ],
        None => Seq::empty(),
    }
}

/// What a list of results does, one after the other.
pub open spec fn results_handled(
    before: WorkspaceSettings,
    after: WorkspaceSettings,
    done: Seq<SettingsDeed>,
    results: Seq<SettingsResult>,
) -> bool {
    exists|steps: Seq<(WorkspaceSettings, Seq<SettingsDeed>)>|
        {
            &&& #[trigger] steps_of_results(steps, results)
            &&& steps[0] == (before, Seq::<SettingsDeed>::empty())
            &&& steps.last().0 == after
            &&& done == steps.last().1.push(SettingsDeed::Redraw)
        }
}

/// What an event of the settings page does.
pub open spec fn event_handled(
    before: WorkspaceSettings,
    after: WorkspaceSettings,
    done: Seq<SettingsDeed>,
    event: SettingsEvent,
) -> bool {
    match event {
        SettingsEvent::ExternalStoresChanged => {
            after == before && done == seq![SettingsDeed::ReloadStores]
        },
        SettingsEvent::DataDirectoryConfirmOpened => {
            after == before && done == seq![SettingsDeed::ResetConfirmFocus, SettingsDeed::Redraw]
        },
        SettingsEvent::BackgroundBlurCommitted(value) => {
            &&& after == (WorkspaceSettings { background_blur: value, ..before })
            &&& done == if value == before.background_blur {
                Seq::empty()
            } else {
                seq![SettingsDeed::StoreSettings]
            }
        },
        SettingsEvent::OperationsReady(results) => results_handled(before, after, done, results@),
        SettingsEvent::PortablePasswordChanged { success, error } => {
            &&& after == before
            &&& done == if success {
                seq![
                    toast("settings_view.general.portable_password_changed"@, NoticeVariant::Success),
                    SettingsDeed::RefreshPortableSettings,
                ]
            } else {
                failure(error)
            }
        },
        SettingsEvent::CliCompanionFinished { operation, success, error } => {
            &&& after == before
            &&& done == if operation == CliCompanionOperation::Refresh {
                Seq::empty()
            } else if success {
                seq![toast(companion_key(operation), NoticeVariant::Success)]
            } else {
                failure(error)
            }
        },
    }
}

fn lookup_toast(key: &str, variant: NoticeVariant) -> (res: SettingsAction)
    ensures
        res@ == toast(key@, variant),
{
    SettingsAction::Toast { words: NoticeText::Lookup(Label::new(key)), variant }
}

fn plain_toast(error: String) -> (res: SettingsAction)
    ensures
        res@ == (SettingsDeed::Toast {
            words: NoticeWords::Plain(error@),
            variant: NoticeVariant::Error,
        }),
{
    SettingsAction::Toast { words: NoticeText::Plain(error), variant: NoticeVariant::Error }
}

fn name_notice(key: &str, name: &str, value: String, variant: NoticeVariant) -> (res: SettingsAction)
    ensures
        res@ == named_notice(key@, name@, value@, variant),
{
    let label = Label::new(key).with(name, value);
    assert(label@.values =~= seq![(name@, value@)]);
    SettingsAction::Notice { words: NoticeText::Lookup(label), variant }
}

fn push_action(actions: &mut Vec<SettingsAction>, action: SettingsAction)
    ensures
        deeds(final(actions)@) == deeds(old(actions)@).push(action@),
{
    let ghost before = actions@;
    actions.push(action);
    assert(deeds(actions@) =~= deeds(before).push(action@));
}

fn report_failure(error: Option<String>) -> (res: Vec<SettingsAction>)
    ensures
        deeds(res@) == failure(error),
{
    let mut actions: Vec<SettingsAction> = Vec::new();
    match error {
        Some(error) => {
            push_action(&mut actions, plain_toast(error));
        },
        None => {},
    }
    assert(deeds(actions@) =~= failure(error));
    actions
}

fn same_path(a: &Option<String>, b: &Option<String>) -> (res: bool)
    ensures
        res == (text::opt_view(*a) == text::opt_view(*b)),
{
    match (a, b) {
        (Some(a), Some(b)) => text::same(a.as_str(), b.as_str()),
        (None, None) => true,
        _ => false,
    }
}

impl WorkspaceSettings {
    fn apply_result(&mut self, result: SettingsResult, actions: &mut Vec<SettingsAction>)
        requires
            old(self).wf(),
            result_wf(result),
        ensures
            final(self).wf(),
            settled(*final(self), *old(self), result),
            deeds(final(actions)@) == deeds(old(actions)@) + deeds_of(result, *old(self)),
    {
        let ghost earlier = deeds(actions@);
        let ghost wanted = deeds_of(result, *self);
        match result {
            SettingsResult::DirectoryChanged => {
                push_action(
                    actions,
                    lookup_toast(
                        "settings_view.general.data_directory_changed",
                        NoticeVariant::Success,
                    ),
                );
            },
            SettingsResult::DirectoryReset => {
                push_action(
                    actions,
                    lookup_toast(
                        "settings_view.general.data_directory_reset",
                        NoticeVariant::Success,
                    ),
                );
            },
            SettingsResult::DirectoryFailed(error) => {
                push_action(actions, plain_toast(error));
            },
            SettingsResult::GalleryUpdated(path) => {
                if !same_path(&path, &self.background_image) {
                    self.background_image = path;
                    push_action(actions, SettingsAction::StoreSettings);
                }
            },
            SettingsResult::GalleryFailed => {
                push_action(
                    actions,
                    SettingsAction::Notice {
                        words: NoticeText::Lookup(
                            Label::new("settings_view.terminal.bg_operation_failed"),
                        ),
                        variant: NoticeVariant::Error,
                    },
                );
            },
            SettingsResult::ThemeImported { theme_id, name, value } => {
                self.custom_themes.insert(theme_id.clone(), value);
                self.theme = theme_id;
                push_action(actions, SettingsAction::StoreSettings);
                push_action(
                    actions,
                    name_notice(
                        "settings_view.appearance.theme_import_success",
                        "name",
                        name,
                        NoticeVariant::Success,
                    ),
                );
            },
            SettingsResult::ThemeImportFailed(error) => {
                push_action(
                    actions,
                    name_notice(
                        "settings_view.appearance.theme_import_error",
                        "error",
                        error,
                        NoticeVariant::Error,
                    ),
                );
            },
            SettingsResult::ThemeSaved { editor } => {
                push_action(actions, SettingsAction::SaveTheme { editor });
            },
            SettingsResult::ThemeDeleted(theme) => {
                match theme {
                    Some(theme_id) => {
                        push_action(actions, SettingsAction::DeleteTheme { theme_id });
                    },
                    None => {},
                }
                push_action(actions, SettingsAction::StoreSettings);
            },
            SettingsResult::KeysExported => {
                push_action(
                    actions,
                    lookup_toast(
                        "settings_view.keybindings.export_success",
                        NoticeVariant::Success,
                    ),
                );
            },
            SettingsResult::KeysExportFailed => {
                push_action(
                    actions,
                    lookup_toast("settings_view.keybindings.export_error", NoticeVariant::Error),
                );
            },
            SettingsResult::KeysImported { overrides, window } => {
                let mut previous = overrides;
                std::mem::swap(&mut previous, &mut self.key_overrides);
                push_action(actions, SettingsAction::StoreSettings);
                push_action(actions, SettingsAction::Rebind { previous, window });
                push_action(
                    actions,
                    lookup_toast(
                        "settings_view.keybindings.import_success",
                        NoticeVariant::Success,
                    ),
                );
            },
            SettingsResult::KeysImportFailed => {
                push_action(
                    actions,
                    lookup_toast("settings_view.keybindings.import_invalid", NoticeVariant::Error),
                );
            },
        }
        assert(deeds(actions@) =~= earlier + wanted);
    }

    fn apply_results(&mut self, results: Vec<SettingsResult>) -> (res: Vec<SettingsAction>)
        requires
            old(self).wf(),
            forall|i: int| 0 <= i < results@.len() ==> result_wf(#[trigger] results@[i]),
        ensures
            final(self).wf(),
            results_handled(*old(self), *final(self), deeds(res@), results@),
    {
        let ghost all = results@;
        let mut rest = results;
        let mut actions: Vec<SettingsAction> = Vec::new();
        let ghost mut steps: Seq<(WorkspaceSettings, Seq<SettingsDeed>)> = seq![
            (*self, Seq::<SettingsDeed>::empty()),
        ];
        let ghost mut done: int = 0;
        assert(deeds(actions@) =~= Seq::<SettingsDeed>::empty());
        assert(rest@ =~= all.skip(0));
        while rest.len() > 0
            invariant
                0 <= done <= all.len(),
                rest@ == all.skip(done),
                self.wf(),
                forall|i: int| 0 <= i < all.len() ==> result_wf(#[trigger] all[i]),
                steps.len() == done + 1,
                steps[0] == (*old(self), Seq::<SettingsDeed>::empty()),
                steps.last() == (*self, deeds(actions@)),
                forall|i: int|
                    #![trigger all[i]]
                    0 <= i < done ==> step_of_result(steps[i], steps[i + 1], all[i]),
            decreases rest@.len(),
        {
            let result = rest.remove(0);
            assert(result == all[done]);
            assert(rest@ =~= all.skip(done + 1));
            self.apply_result(result, &mut actions);
            proof {
                steps = steps.push((*self, deeds(actions@)));
                assert(step_of_result(steps[done], steps[done + 1], all[done]));
                done = done + 1;
            }
        }
        assert(done == all.len());
        assert(steps_of_results(steps, all));
        push_action(&mut actions, SettingsAction::Redraw);
        assert(steps.last().0 == *self);
        actions
    }
}

impl WorkspaceApp {
    /// Takes in what the settings page reports, and says what the window has to do.
    pub fn handle_settings_workspace_event(&mut self, event: SettingsEvent) -> (res: Vec<SettingsAction>)
        requires
            old(self).settings.wf(),
            event_wf(event),
        ensures
            final(self).settings.wf(),
            *final(self) == (WorkspaceApp { settings: final(self).settings, ..*old(self) }),
            event_handled(old(self).settings, final(self).settings, deeds(res@), event),
    {
        let mut actions: Vec<SettingsAction> = Vec::new();
        assert(deeds(actions@) =~= Seq::<SettingsDeed>::empty());
        match event {
            SettingsEvent::ExternalStoresChanged => {
                push_action(&mut actions, SettingsAction::ReloadStores);
                assert(deeds(actions@) =~= seq![SettingsDeed::ReloadStores]);
                actions
            },
            SettingsEvent::DataDirectoryConfirmOpened => {
                push_action(&mut actions, SettingsAction::ResetConfirmFocus);
                push_action(&mut actions, SettingsAction::Redraw);
                assert(deeds(actions@) =~= seq![
                    SettingsDeed::ResetConfirmFocus,
                    SettingsDeed::Redraw,
                ]);
                actions
            },
            SettingsEvent::BackgroundBlurCommitted(value) => {
                if self.settings.background_blur != value {
                    self.settings.background_blur = value;
                    push_action(&mut actions, SettingsAction::StoreSettings);
                    assert(deeds(actions@) =~= seq![SettingsDeed::StoreSettings]);
                }
                actions
            },
            SettingsEvent::OperationsReady(results) => self.settings.apply_results(results),
            SettingsEvent::PortablePasswordChanged { success, error } => {
                if !success {
                    return report_failure(error);
                }
                push_action(
                    &mut actions,
                    lookup_toast(
                        "settings_view.general.portable_password_changed",
                        NoticeVariant::Success,
                    ),
                );
                push_action(&mut actions, SettingsAction::RefreshPortableSettings);
                assert(deeds(actions@) =~= seq![
                    toast("settings_view.general.portable_password_changed"@, NoticeVariant::Success),
                    SettingsDeed::RefreshPortableSettings,
                ]);
                actions
            },
            SettingsEvent::CliCompanionFinished { operation, success, error } => {
                if operation == CliCompanionOperation::Refresh {
                    return actions;
                }
                if !success {
                    return report_failure(error);
                }
                let key = match operation {
                    CliCompanionOperation::Install => "settings_view.general.cli_installed",
                    CliCompanionOperation::Uninstall => "settings_view.general.cli_uninstalled",
                    CliCompanionOperation::UninstallLegacy => "migration.cli_legacy_uninstalled",
                    _ => "migration.cli_migrated",
                };
                push_action(&mut actions, lookup_toast(key, NoticeVariant::Success));
                assert(deeds(actions@) =~= seq![toast(companion_key(operation), NoticeVariant::Success)]);
                actions
            },
        }
    }

    /// The theme editor's theme was stored, under the name that it says; nothing is said where it
    /// was not.
    pub fn on_theme_saved(&self, name: Option<String>) -> (res: Vec<SettingsAction>)
        ensures
            deeds(res@) == match name {
                Some(name) => seq![
                    SettingsDeed::StoreSettings,
                    named_notice(
                        "settings_view.appearance.theme_import_success"@,
                        "name"@,
                        name@,
                        NoticeVariant::Success,
                    ),
                ],
                None => seq![SettingsDeed::StoreSettings],
            },
    {
        let mut actions: Vec<SettingsAction> = Vec::new();
        push_action(&mut actions, SettingsAction::StoreSettings);
        match name {
            Some(name) => {
                push_action(
                    &mut actions,
                    name_notice(
                        "settings_view.appearance.theme_import_success",
                        "name",
                        name,
                        NoticeVariant::Success,
                    ),
                );
            },
            None => {},
        }
        assert(deeds(actions@) =~= match name {
            Some(name) => seq![
                SettingsDeed::StoreSettings,
                named_notice(
                    "settings_view.appearance.theme_import_success"@,
                    "name"@,
                    name@,
                    NoticeVariant::Success,
                ),
            ],
            None => seq![SettingsDeed::StoreSettings],
        });
        actions
    }
}

} // verus!
