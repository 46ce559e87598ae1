//! Remote desktops in tabs.

use vstd::prelude::*;

use crate::workspace::app::WorkspaceApp;
use crate::workspace::remote_certificates::RemoteDesktopCertificateAcceptance;
use crate::workspace::remote_desktop::{
    ClipboardItem, HelperRequest, KeyRole, Keystroke, RemoteDesktopKeyState, RemoteDesktopLockKeys,
    RemoteDesktopMappedPoint, RemoteDesktopModifierState, RemoteDesktopMouseButton,
    RemoteDesktopMouseButtonState, RemoteDesktopProtocol, RemoteDesktopSessionEntity, WheelTurn,
};

verus! {

#[derive(Clone, Copy, PartialEq, Eq, Structural, Debug)]
pub enum TabKind {
    Terminal,
    RemoteDesktop,
    Files,
    Settings,
    Knowledge,
}

#[derive(Clone, Copy, PartialEq, Eq, Structural, Debug)]
pub struct Tab {
    pub id: u64,
    pub kind: TabKind,
}

impl WorkspaceApp {
    /// The remote desktop in a tab.
    pub open spec fn remote(self, tab: u64) -> Option<RemoteDesktopSessionEntity> {
        if self.remote_sessions@.dom().contains(tab) {
            Some(self.remote_sessions@[tab])
        } else {
            None
        }
    }

    /// Only the remote desktop in one tab differs, and is this now.
    pub open spec fn remote_changed(self, before: WorkspaceApp, tab: u64, now: RemoteDesktopSessionEntity) -> bool {
        &&& self == (WorkspaceApp { remote_sessions: self.remote_sessions, ..before })
        &&& self.remote_sessions@ == before.remote_sessions@.insert(tab, now)
    }

    fn take_remote(&mut self, tab: u64) -> (res: Option<RemoteDesktopSessionEntity>)
        requires
            old(self).remote_sessions.wf(),
        ensures
            final(self).remote_sessions.wf(),
            res == old(self).remote(tab),
            res is None ==> *final(self) == *old(self),
            forall|after: WorkspaceApp, now: RemoteDesktopSessionEntity| #[trigger]
                after.remote_changed(*final(self), tab, now) ==> after.remote_changed(
                    *old(self),
                    tab,
                    now,
                ),
    {
        if !self.remote_sessions.contains(&tab) {
            return None;
        }
        let session = self.remote_sessions.remove(&tab);
        proof {
            assert forall|now: RemoteDesktopSessionEntity| #[trigger]
                self.remote_sessions@.insert(tab, now) == old(self).remote_sessions@.insert(tab, now) by {
                assert(self.remote_sessions@.insert(tab, now) =~= old(self).remote_sessions@.insert(
                    tab,
                    now,
                ));
            }
        }
        session
    }

    fn put_remote(&mut self, tab: u64, session: RemoteDesktopSessionEntity)
        requires
            old(self).remote_sessions.wf(),
        ensures
            final(self).remote_sessions.wf(),
            final(self).remote_changed(*old(self), tab, session),
    {
        self.remote_sessions.insert(tab, session);
    }

    /// The tab of the remote desktop that is shown.
    pub open spec fn shown_remote(self) -> Option<u64> {
        match self.active_tab {
            Some(tab) => if tab.kind == TabKind::RemoteDesktop {
                Some(tab.id)
            } else {
                None
            },
            None => None,
        }
    }

    pub fn active_remote_desktop_tab_id(&self) -> (res: Option<u64>)
        ensures
            res == self.shown_remote(),
    {
        match self.active_tab {
            Some(tab) => if tab.kind == TabKind::RemoteDesktop {
                Some(tab.id)
            } else {
                None
            },
            None => None,
        }
    }

    /// The key of the title of a preview.
    pub fn remote_desktop_preview_tab_title(&self, protocol: RemoteDesktopProtocol) -> (res: &'static str)
        ensures
            res@ == match protocol {
                RemoteDesktopProtocol::Rdp => "remote_desktop.rdp_preview_title"@,
                RemoteDesktopProtocol::Vnc => "remote_desktop.vnc_preview_title"@,
            },
    {
        match protocol {
            RemoteDesktopProtocol::Rdp => "remote_desktop.rdp_preview_title",
            RemoteDesktopProtocol::Vnc => "remote_desktop.vnc_preview_title",
        }
    }

    /// The user wants an answer to be remembered, or no longer.
    pub fn toggle_remote_desktop_certificate_remember(&mut self, tab: u64, challenge_id: &str)
        requires
            old(self).remote_sessions.wf(),
        ensures
            final(self).remote_sessions.wf(),
            match old(self).remote(tab) {
                Some(session) => exists|now: RemoteDesktopSessionEntity|
                    {
                        &&& #[trigger] final(self).remote_changed(*old(self), tab, now)
                        &&& now == (RemoteDesktopSessionEntity {
                            certificate_challenge: now.certificate_challenge,
                            ..session
                        })
                        &&& if session.is_asked(challenge_id@) {
                            now.certificate_challenge is Some
                                && now.certificate_challenge->0.remember
                                == !session.certificate_challenge->0.remember
                                && now.certificate_challenge->0.certificate
                                == session.certificate_challenge->0.certificate
                                && now.certificate_challenge->0.expected_fingerprint
                                == session.certificate_challenge->0.expected_fingerprint
                        } else {
                            now.certificate_challenge == session.certificate_challenge
                        }
                    },
                None => *final(self) == *old(self),
            },
    {
        match self.take_remote(tab) {
            Some(session) => {
                let mut session = session;
                session.toggle_certificate_remember(challenge_id);
                let ghost now = session;
                self.put_remote(tab, session);
                assert(self.remote_changed(*old(self), tab, now));
            },
            None => {},
        }
    }

    /// The user trusts a host. Says whether the user has to hear that storing this failed.
    pub fn accept_remote_desktop_certificate(
        &mut self,
        tab: u64,
        generation: u64,
        challenge_id: &str,
        fingerprint: &str,
        stored: bool,
    ) -> (res: bool)
        requires
            old(self).remote_sessions.wf(),
        ensures
            final(self).remote_sessions.wf(),
            match old(self).remote(tab) {
                Some(session) => {
                    let consents = session.consents(generation, challenge_id@, fingerprint@);
                    &&& res == (consents && session.stores_consent() && !stored)
                    &&& exists|now: RemoteDesktopSessionEntity|
                        {
                            &&& #[trigger] final(self).remote_changed(*old(self), tab, now)
                            &&& if consents && !res {
                                now.consented(session)
                            } else {
                                now == session
                            }
                        }
                },
                None => !res && *final(self) == *old(self),
            },
    {
        match self.take_remote(tab) {
            Some(session) => {
                let mut session = session;
                let acceptance = session.accept_certificate(
                    generation,
                    challenge_id,
                    fingerprint,
                    stored,
                );
                let ghost now = session;
                self.put_remote(tab, session);
                assert(self.remote_changed(*old(self), tab, now));
                acceptance == RemoteDesktopCertificateAcceptance::StoreFailed
            },
            None => false,
        }
    }

    /// The user does not trust a host.
    pub fn reject_remote_desktop_certificate(&mut self, tab: u64, generation: u64, challenge_id: &str)
        requires
            old(self).remote_sessions.wf(),
        ensures
            final(self).remote_sessions.wf(),
            match old(self).remote(tab) {
                Some(session) => exists|now: RemoteDesktopSessionEntity|
                    {
                        &&& #[trigger] final(self).remote_changed(*old(self), tab, now)
                        &&& if session.worker_generation == generation && session.is_asked(
                            challenge_id@,
                        ) {
                            now.asks(
                                (RemoteDesktopSessionEntity {
                                    certificate_challenge: None,
                                    ..session
                                }),
                                seq![HelperRequest::Close],
                            )
                        } else {
                            now == session
                        }
                    },
                None => *final(self) == *old(self),
            },
    {
        match self.take_remote(tab) {
            Some(session) => {
                let mut session = session;
                session.reject_certificate(generation, challenge_id);
                let ghost now = session;
                self.put_remote(tab, session);
                assert(self.remote_changed(*old(self), tab, now));
            },
            None => {},
        }
    }

    /// The pointer moved over a tab.
    pub fn handle_remote_desktop_mouse_move(&mut self, tab: u64, position: Option<RemoteDesktopMappedPoint>) -> (res: bool)
        requires
            old(self).remote_sessions.wf(),
        ensures
            final(self).remote_sessions.wf(),
            match old(self).remote(tab) {
                Some(session) => {
                    &&& res == position is Some
                    &&& exists|now: RemoteDesktopSessionEntity|
                        {
                            &&& #[trigger] final(self).remote_changed(*old(self), tab, now)
                            &&& match position {
                                Some(point) => now.asks(
                                    session.pointed(point),
                                    seq![HelperRequest::MouseMove { x: point.x, y: point.y }],
                                ),
                                None => now == session,
                            }
                        }
                },
                None => !res && *final(self) == *old(self),
            },
    {
        match self.take_remote(tab) {
            Some(session) => {
                let mut session = session;
                let taken = session.handle_mouse_move(position);
                let ghost now = session;
                self.put_remote(tab, session);
                assert(self.remote_changed(*old(self), tab, now));
                taken
            },
            None => false,
        }
    }

    /// A button went down or up over a tab.
    pub fn handle_remote_desktop_mouse_button(
        &mut self,
        tab: u64,
        position: Option<RemoteDesktopMappedPoint>,
        button: RemoteDesktopMouseButton,
        button_state: RemoteDesktopMouseButtonState,
    ) -> (res: bool)
        requires
            old(self).remote_sessions.wf(),
        ensures
            final(self).remote_sessions.wf(),
            match old(self).remote(tab) {
                Some(session) => {
                    &&& res == position is Some
                    &&& exists|now: RemoteDesktopSessionEntity|
                        {
                            &&& #[trigger] final(self).remote_changed(*old(self), tab, now)
                            &&& match position {
                                Some(point) => now.button_used(session, point, button, button_state),
                                None => now == session,
                            }
                        }
                },
                None => !res && *final(self) == *old(self),
            },
    {
        match self.take_remote(tab) {
            Some(session) => {
                let mut session = session;
                let taken = session.handle_mouse_button(position, button, button_state);
                let ghost now = session;
                self.put_remote(tab, session);
                assert(self.remote_changed(*old(self), tab, now));
                taken
            },
            None => false,
        }
    }

    /// The wheel turned over a tab.
    pub fn handle_remote_desktop_wheel(&mut self, tab: u64, position: Option<RemoteDesktopMappedPoint>, turn: WheelTurn) -> (res: bool)
        requires
            old(self).remote_sessions.wf(),
        ensures
            final(self).remote_sessions.wf(),
            match old(self).remote(tab) {
                Some(session) => {
                    &&& res == position is Some
                    &&& exists|now: RemoteDesktopSessionEntity|
                        {
                            &&& #[trigger] final(self).remote_changed(*old(self), tab, now)
                            &&& now.wheel_turned(session, position, turn)
                        }
                },
                None => !res && *final(self) == *old(self),
            },
    {
        match self.take_remote(tab) {
            Some(session) => {
                let mut session = session;
                let taken = session.handle_wheel(position, turn);
                let ghost now = session;
                self.put_remote(tab, session);
                assert(self.remote_changed(*old(self), tab, now));
                taken
            },
            None => false,
        }
    }

    /// A button went up outside a tab.
    pub fn handle_remote_desktop_mouse_button_release_out(&mut self, tab: u64, button: RemoteDesktopMouseButton) -> (res: bool)
        requires
            old(self).remote_sessions.wf(),
        ensures
            final(self).remote_sessions.wf(),
            match old(self).remote(tab) {
                Some(session) => {
                    &&& res == session.is_pressed(button)
                    &&& exists|now: RemoteDesktopSessionEntity|
                        {
                            &&& #[trigger] final(self).remote_changed(*old(self), tab, now)
                            &&& if res {
                                exists|set: RemoteDesktopSessionEntity|
                                    {
                                        &&& #[trigger] set.button_set(
                                            session,
                                            button,
                                            RemoteDesktopMouseButtonState::Released,
                                        )
                                        &&& now.asks(
                                            set,
                                            seq![
                                                HelperRequest::MouseButton {
                                                    button,
                                                    button_state: RemoteDesktopMouseButtonState::Released,
                                                },
                                            ],
                                        )
                                    }
                            } else {
                                now == session
                            }
                        }
                },
                None => !res && *final(self) == *old(self),
            },
    {
        match self.take_remote(tab) {
            Some(session) => {
                let mut session = session;
                let taken = session.release_mouse_button_out(button);
                let ghost now = session;
                self.put_remote(tab, session);
                assert(self.remote_changed(*old(self), tab, now));
                taken
            },
            None => false,
        }
    }

    /// What modifiers do to a session.
    pub open spec fn modifiers_forwarded(now: RemoteDesktopSessionEntity, session: RemoteDesktopSessionEntity, modifiers: RemoteDesktopModifierState, caps_lock: bool) -> bool {
        exists|told: RemoteDesktopSessionEntity|
            {
                &&& #[trigger] told.modifiers_told(session, modifiers)
                &&& now.locks_told(told, told.with_caps_lock(caps_lock))
            }
    }

    /// The modifiers changed. Says whether a remote desktop is shown.
    pub fn forward_remote_desktop_modifiers_changed(&mut self, modifiers: RemoteDesktopModifierState, caps_lock: bool) -> (res: bool)
        requires
            old(self).remote_sessions.wf(),
        ensures
            final(self).remote_sessions.wf(),
            res == old(self).shown_remote() is Some,
            match old(self).shown_remote() {
                Some(tab) => match old(self).remote(tab) {
                    Some(session) => exists|now: RemoteDesktopSessionEntity|
                        {
                            &&& #[trigger] final(self).remote_changed(*old(self), tab, now)
                            &&& Self::modifiers_forwarded(now, session, modifiers, caps_lock)
                        },
                    None => *final(self) == *old(self),
                },
                None => *final(self) == *old(self),
            },
    {
        let tab = match self.active_remote_desktop_tab_id() {
            Some(tab) => tab,
            None => {
                return false;
            },
        };
        match self.take_remote(tab) {
            Some(session) => {
                let ghost start = session;
                let mut session = session;
                session.sync_modifiers(modifiers);
                let ghost told = session;
                assert(told.modifiers_told(start, modifiers));
                session.sync_lock_keys(caps_lock);
                let ghost now = session;
                self.put_remote(tab, session);
                assert(self.remote_changed(*old(self), tab, now));
                assert(Self::modifiers_forwarded(now, start, modifiers, caps_lock));
            },
            None => {},
        }
        true
    }

    /// The remote desktop that is shown.
    pub open spec fn active_remote(self) -> Option<RemoteDesktopSessionEntity> {
        match self.shown_remote() {
            Some(tab) => self.remote(tab),
            None => None,
        }
    }

    /// A key went down. Says whether a remote desktop took it.
    pub fn forward_remote_desktop_key_from_capture(
        &mut self,
        keystroke: &Keystroke,
        role: KeyRole,
        clipboard: Option<ClipboardItem>,
        locks: Option<RemoteDesktopLockKeys>,
    ) -> (res: bool)
        requires
            old(self).remote_sessions.wf(),
        ensures
            final(self).remote_sessions.wf(),
            match old(self).active_remote() {
                Some(session) => res && exists|now: RemoteDesktopSessionEntity|
                    {
                        &&& #[trigger] final(self).remote_changed(
                            *old(self),
                            old(self).shown_remote()->0,
                            now,
                        )
                        &&& now.key_down(session, *keystroke, role, clipboard, locks)
                    },
                None => !res && *final(self) == *old(self),
            },
    {
        let tab = match self.active_remote_desktop_tab_id() {
            Some(tab) => tab,
            None => {
                return false;
            },
        };
        match self.take_remote(tab) {
            Some(session) => {
                let mut session = session;
                session.forward_key_down(keystroke, role, clipboard, locks);
                let ghost now = session;
                self.put_remote(tab, session);
                assert(self.remote_changed(*old(self), tab, now));
                true
            },
            None => false,
        }
    }

    /// A key went up. Says whether a remote desktop took it.
    pub fn forward_remote_desktop_key_up(&mut self, keystroke: &Keystroke, role: KeyRole) -> (res: bool)
        requires
            old(self).remote_sessions.wf(),
        ensures
            final(self).remote_sessions.wf(),
            match old(self).active_remote() {
                Some(session) => res && exists|now: RemoteDesktopSessionEntity|
                    {
                        &&& #[trigger] final(self).remote_changed(
                            *old(self),
                            old(self).shown_remote()->0,
                            now,
                        )
                        &&& if role == KeyRole::Input {
                            now.key_used(session, *keystroke, RemoteDesktopKeyState::Released)
                        } else {
                            now == session
                        }
                    },
                None => !res && *final(self) == *old(self),
            },
    {
        let tab = match self.active_remote_desktop_tab_id() {
            Some(tab) => tab,
            None => {
                return false;
            },
        };
        match self.take_remote(tab) {
            Some(session) => {
                let mut session = session;
                session.forward_key_up(keystroke, role);
                let ghost now = session;
                self.put_remote(tab, session);
                assert(self.remote_changed(*old(self), tab, now));
                true
            },
            None => false,
        }
    }

    /// What pressing a key together with the control key does to a tab.
    pub open spec fn shortcut_sent(self, before: WorkspaceApp, tab: u64, code: Seq<char>) -> bool {
        match before.remote(tab) {
            Some(session) => exists|now: RemoteDesktopSessionEntity|
                {
                    &&& #[trigger] self.remote_changed(before, tab, now)
                    &&& now.asks(session, RemoteDesktopSessionEntity::control_shortcut(code))
                },
            None => self == before,
        }
    }

    /// Presses a key together with the control key.
    pub fn send_remote_desktop_control_shortcut(&mut self, tab: u64, code: &str)
        requires
            old(self).remote_sessions.wf(),
        ensures
            final(self).remote_sessions.wf(),
            final(self).shortcut_sent(*old(self), tab, code@),
    {
        match self.take_remote(tab) {
            Some(session) => {
                let mut session = session;
                session.send_control_shortcut(code);
                let ghost now = session;
                self.put_remote(tab, session);
                assert(self.remote_changed(*old(self), tab, now));
            },
            None => {},
        }
    }

    /// Copies from the remote desktop that is shown. Says whether one is.
    pub fn copy_remote_desktop(&mut self) -> (res: bool)
        requires
            old(self).remote_sessions.wf(),
        ensures
            final(self).remote_sessions.wf(),
            match old(self).shown_remote() {
                Some(tab) => res && final(self).shortcut_sent(*old(self), tab, "c"@),
                None => !res && *final(self) == *old(self),
            },
    {
        match self.active_remote_desktop_tab_id() {
            Some(tab) => {
                self.send_remote_desktop_control_shortcut(tab, "c");
                true
            },
            None => false,
        }
    }

    /// Pastes into the remote desktop that is shown. Says whether one is.
    pub fn paste_remote_desktop(&mut self, clipboard: Option<ClipboardItem>) -> (res: bool)
        requires
            old(self).remote_sessions.wf(),
        ensures
            final(self).remote_sessions.wf(),
            res == old(self).shown_remote() is Some,
            match (old(self).active_remote(), clipboard) {
                (Some(session), Some(item)) => exists|now: RemoteDesktopSessionEntity|
                    {
                        &&& #[trigger] final(self).remote_changed(
                            *old(self),
                            old(self).shown_remote()->0,
                            now,
                        )
                        &&& now.clipboard_pasted(session, item)
                    },
                _ => *final(self) == *old(self),
            },
    {
        let tab = match self.active_remote_desktop_tab_id() {
            Some(tab) => tab,
            None => {
                return false;
            },
        };
        match clipboard {
            Some(item) => {
                match self.take_remote(tab) {
                    Some(session) => {
                        let mut session = session;
                        session.paste_clipboard(item);
                        let ghost now = session;
                        self.put_remote(tab, session);
                        assert(self.remote_changed(*old(self), tab, now));
                    },
                    None => {},
                }
            },
            None => {},
        }
        true
    }
}

/// What goes to one remote desktop never reaches another one.
pub proof fn law_input_stays_in_its_tab(
    before: WorkspaceApp,
    after: WorkspaceApp,
    tab: u64,
    other: u64,
    now: RemoteDesktopSessionEntity,
)
    requires
        after.remote_changed(before, tab, now),
        other != tab,
    ensures
        after.remote(other) == before.remote(other),
{
}

} // verus!
