//! Input that goes to the tab on show.

use vstd::prelude::*;

use crate::workspace::app::WorkspaceApp;
use crate::workspace::remote_desktop::{
    ClipboardItem, HelperRequest, KeyRole, Keystroke, RemoteDesktopKeyState,
    RemoteDesktopMappedPoint, RemoteDesktopMouseButton, RemoteDesktopMouseButtonState,
    RemoteDesktopProtocol, RemoteDesktopSessionEntity,
};
use crate::workspace::remote_tabs::TabKind;

verus! {

/// The tab on show counts where it shows a remote desktop.
pub proof fn law_the_tab_on_show_counts(app: &WorkspaceApp, res: Option<u64>)
    requires
        call_ensures(WorkspaceApp::active_remote_desktop_tab_id, (app,), res),
    ensures
        res is Some <==> app.active_tab is Some && app.active_tab->0.kind == TabKind::RemoteDesktop,
        res is Some ==> res->0 == app.active_tab->0.id,
{
}

/// A preview is titled by its protocol.
pub proof fn law_previews_are_titled_by_protocol(app: &WorkspaceApp, protocol: RemoteDesktopProtocol, res: &'static str)
    requires
        call_ensures(WorkspaceApp::remote_desktop_preview_tab_title, (app, protocol), res),
    ensures
        protocol == RemoteDesktopProtocol::Rdp ==> res@ == "remote_desktop.rdp_preview_title"@,
        protocol == RemoteDesktopProtocol::Vnc ==> res@ == "remote_desktop.vnc_preview_title"@,
{
}

/// The pointer moves in its tab, where it is over the picture, and nowhere else.
pub proof fn law_the_pointer_moves_in_its_tab(
    app: &mut WorkspaceApp,
    tab: u64,
    position: Option<RemoteDesktopMappedPoint>,
    res: bool,
    other: u64,
)
    requires
        call_ensures(
            WorkspaceApp::handle_remote_desktop_mouse_move,
            (app, tab, position),
            res,
        ),
        app.remote_sessions@.dom().contains(tab),
        app.remote_sessions@[tab].worker,
        other != tab,
    ensures
        ({
            let before = old(app).remote_sessions@[tab];
            let after = final(app).remote_sessions@[tab];
            &&& res <==> position is Some
            &&& position is None ==> after == before
            &&& position matches Some(point) ==> after.asked() == before.asked().push(
                HelperRequest::MouseMove { x: point.x, y: point.y },
            )
            &&& final(app).remote_sessions@.dom().contains(other) <==> old(
                app).remote_sessions@.dom().contains(other)
            &&& final(app).remote_sessions@[other] == old(app).remote_sessions@[other]
        }),
{
    let before = old(app).remote_sessions@[tab];
    if position is Some {
        let point = position->0;
        assert(before.asked() + seq![HelperRequest::MouseMove { x: point.x, y: point.y }]
            =~= before.asked().push(HelperRequest::MouseMove { x: point.x, y: point.y }));
    }
}

/// A button that is let go of outside is let go of where it was pressed.
pub proof fn law_buttons_are_let_go_of_where_they_were_pressed(
    app: &mut WorkspaceApp,
    tab: u64,
    button: RemoteDesktopMouseButton,
    res: bool,
)
    requires
        call_ensures(
            WorkspaceApp::handle_remote_desktop_mouse_button_release_out,
            (app, tab, button),
            res,
        ),
        app.remote_sessions@.dom().contains(tab),
        app.remote_sessions@[tab].worker,
    ensures
        res <==> old(app).remote_sessions@[tab].is_pressed(button),
        !res ==> final(app).remote_sessions@[tab] == old(app).remote_sessions@[tab],
        res ==> final(app).remote_sessions@[tab].asked().last() == (HelperRequest::MouseButton {
            button,
            button_state: RemoteDesktopMouseButtonState::Released,
        }),
{
}

/// A key that is let go of reaches the desktop on show as it was used, and no other.
pub proof fn law_released_keys_reach_the_desktop_on_show(
    app: &mut WorkspaceApp,
    keystroke: &Keystroke,
    role: KeyRole,
    res: bool,
    other: u64,
)
    requires
        call_ensures(WorkspaceApp::forward_remote_desktop_key_up, (app, keystroke, role), res),
    ensures
        ({
            let shown = old(app).active_tab is Some && old(app).active_tab->0.kind
                == TabKind::RemoteDesktop && old(app).remote_sessions@.dom().contains(
                old(app).active_tab->0.id,
            );
            let tab = old(app).active_tab->0.id;
            let before = old(app).remote_sessions@[tab];
            let after = final(app).remote_sessions@[tab];
            &&& res <==> shown
            &&& !shown ==> *final(app) == *old(app)
            &&& shown && role != KeyRole::Input ==> after == before
            &&& shown && role == KeyRole::Input && before.worker ==> {
                let last = after.asked().last();
                &&& last is Key
                &&& last->Key_code == keystroke.key@
                &&& last->Key_key_state == RemoteDesktopKeyState::Released
                &&& last->Key_modifiers == keystroke.modifiers
            }
            &&& shown && other != tab ==> final(app).remote_sessions@[other] == old(
                app).remote_sessions@[other]
        }),
{
    let tab = old(app).active_tab->0.id;
    if old(app).remote_sessions@.dom().contains(tab) && res && role == KeyRole::Input {
        let before = old(app).remote_sessions@[tab];
        let after = final(app).remote_sessions@[tab];
        let synced = choose|synced: RemoteDesktopSessionEntity|
            {
                &&& #[trigger] synced.modifiers_told(before, keystroke.modifiers)
                &&& after.asks(
                    synced,
                    seq![
                        HelperRequest::Key {
                            code: keystroke.key@,
                            text: crate::text::opt_view(keystroke.key_char),
                            modifiers: keystroke.modifiers,
                            key_state: RemoteDesktopKeyState::Released,
                        },
                    ],
                )
            };
    }
}

/// Copying goes to the desktop on show, as control and the letter c.
pub proof fn law_copying_is_control_and_c(app: &mut WorkspaceApp, res: bool)
    requires
        call_ensures(WorkspaceApp::copy_remote_desktop, (app,), res),
    ensures
        res <==> old(app).active_tab is Some && old(app).active_tab->0.kind
            == TabKind::RemoteDesktop,
        !res ==> *final(app) == *old(app),
        res && old(app).remote_sessions@.dom().contains(old(app).active_tab->0.id) && old(
            app).remote_sessions@[old(app).active_tab->0.id].worker ==> {
            let before = old(app).remote_sessions@[old(app).active_tab->0.id].asked();
            let after = final(app).remote_sessions@[old(app).active_tab->0.id].asked();
            &&& after.len() == before.len() + 2
            &&& after.take(before.len() as int) == before
            &&& after[after.len() - 2] is Key && after[after.len() - 1] is Key
            &&& after[after.len() - 2]->Key_code == "c"@ && after[after.len() - 1]->Key_code == "c"@
            &&& after[after.len() - 2]->Key_key_state == RemoteDesktopKeyState::Pressed
            &&& after[after.len() - 1]->Key_key_state == RemoteDesktopKeyState::Released
            &&& after[after.len() - 2]->Key_modifiers.ctrl && !after[after.len()
                - 2]->Key_modifiers.alt && !after[after.len() - 2]->Key_modifiers.shift
                && !after[after.len() - 2]->Key_modifiers.meta
        },
{
    if res && old(app).remote_sessions@.dom().contains(old(app).active_tab->0.id) && old(
        app).remote_sessions@[old(app).active_tab->0.id].worker {
        let before = old(app).remote_sessions@[old(app).active_tab->0.id].asked();
        let after = final(app).remote_sessions@[old(app).active_tab->0.id].asked();
        let sent = RemoteDesktopSessionEntity::control_shortcut("c"@);
        assert(after == before + sent);
        assert(after.take(before.len() as int) =~= before);
        assert(after[before.len() as int] == sent[0]);
        assert(after[before.len() as int + 1] == sent[1]);
    }
}

/// Pasting goes to the desktop on show, where there is something to paste.
pub proof fn law_pasting_goes_to_the_desktop_on_show(
    app: &mut WorkspaceApp,
    clipboard: Option<ClipboardItem>,
    res: bool,
    other: u64,
)
    requires
        call_ensures(WorkspaceApp::paste_remote_desktop, (app, clipboard), res),
    ensures
        res <==> old(app).active_tab is Some && old(app).active_tab->0.kind
            == TabKind::RemoteDesktop,
        !res || clipboard is None ==> *final(app) == *old(app),
        res && other != old(app).active_tab->0.id ==> final(app).remote_sessions@[other] == old(
            app).remote_sessions@[other],
{
}

/// Consent that could not be stored is told, and a question of another tab is not answered.
pub proof fn law_unstored_consent_is_told(
    app: &mut WorkspaceApp,
    tab: u64,
    generation: u64,
    challenge: &str,
    fingerprint: &str,
    stored: bool,
    res: bool,
    other: u64,
)
    requires
        call_ensures(
            WorkspaceApp::accept_remote_desktop_certificate,
            (app, tab, generation, challenge, fingerprint, stored),
            res,
        ),
        other != tab,
    ensures
        stored ==> !res,
        !old(app).remote_sessions@.dom().contains(tab) ==> !res && *final(app) == *old(app),
        res ==> final(app).remote_sessions@[tab] == old(app).remote_sessions@[tab],
        final(app).remote_sessions@[other] == old(app).remote_sessions@[other],
        old(app).remote_sessions@.dom().contains(tab) && old(
            app).remote_sessions@[tab].certificate_challenge is None ==> !res && final(
            app).remote_sessions@[tab] == old(app).remote_sessions@[tab],
{
}

/// A question that is refused closes the session of its tab, and no other.
pub proof fn law_refused_questions_close_their_tab(
    app: &mut WorkspaceApp,
    tab: u64,
    challenge: &str,
    other: u64,
)
    requires
        call_ensures(
            WorkspaceApp::reject_remote_desktop_certificate,
            (app, tab, app.remote_sessions@[tab].worker_generation, challenge),
            (),
        ),
        app.remote_sessions@.dom().contains(tab),
        app.remote_sessions@[tab].worker,
        app.remote_sessions@[tab].certificate_challenge is Some,
        app.remote_sessions@[tab].certificate_challenge->0.certificate.challenge_id@ == challenge@,
        other != tab,
    ensures
        final(app).remote_sessions@[tab].certificate_challenge is None,
        final(app).remote_sessions@[tab].asked().last() == HelperRequest::Close,
        final(app).remote_sessions@[other] == old(app).remote_sessions@[other],
{
}

} // verus!
