//! Input and clipboard of a remote desktop.

use vstd::prelude::*;

use crate::ids::random_id;
use crate::text;
use crate::text::{opt_view, seq_view};
use crate::workspace::saved_connections::{secret_view, SecretText};

verus! {

#[derive(Clone, Copy, PartialEq, Eq, Structural, Debug)]
pub enum RemoteDesktopProtocol {
    Rdp,
    Vnc,
}

#[derive(Clone, Copy, PartialEq, Eq, Structural, Debug)]
pub enum RemoteDesktopMouseButton {
    Left,
    Middle,
    Right,
    Back,
    Forward,
}

#[derive(Clone, Copy, PartialEq, Eq, Structural, Debug)]
pub enum RemoteDesktopMouseButtonState {
    Pressed,
    Released,
}

#[derive(Clone, Copy, PartialEq, Eq, Structural, Debug)]
pub enum RemoteDesktopKeyState {
    Pressed,
    Released,
}

/// A point of the remote screen.
#[derive(Clone, Copy, PartialEq, Eq, Structural, Debug)]
pub struct RemoteDesktopMappedPoint {
    pub x: u32,
    pub y: u32,
}

/// The modifiers that the remote side was told of.
#[derive(Clone, Copy, PartialEq, Eq, Structural, Debug)]
pub struct RemoteDesktopModifierState {
    pub alt: bool,
    pub ctrl: bool,
    pub shift: bool,
    pub meta: bool,
}

#[derive(Clone, Copy, PartialEq, Eq, Structural, Debug)]
pub struct RemoteDesktopLockKeys {
    pub caps_lock: bool,
    pub num_lock: bool,
    pub scroll_lock: bool,
}

pub struct RemoteDesktopKey {
    pub code: String,
    pub text: Option<String>,
    pub modifiers: RemoteDesktopModifierState,
}

/// What is asked of the program that talks to the remote side.
pub enum RemoteDesktopHelperRequest {
    Resize { width: u32, height: u32 },
    Close,
    MouseMove { x: u32, y: u32 },
    MouseButton { button: RemoteDesktopMouseButton, button_state: RemoteDesktopMouseButtonState },
    Wheel { delta_x: i32, delta_y: i32 },
    Key { key: RemoteDesktopKey, key_state: RemoteDesktopKeyState },
    SynchronizeLockKeys { keys: RemoteDesktopLockKeys },
    ReleaseAllInputs,
    ClipboardFiles { transfer_id: String, paths: Vec<String> },
    /// A picture of the clipboard, by its number.
    ClipboardData { data: u64 },
    PasteText { secret: SecretText },
    ClipboardText { words: String },
    Text { words: String },
    Authenticate {
        challenge_id: String,
        sha256_fingerprint: String,
        username: Option<String>,
        password: Option<SecretText>,
        domain: Option<String>,
    },
}

/// What is asked of the program, in words.
pub enum HelperRequest {
    Resize { width: u32, height: u32 },
    Close,
    MouseMove { x: u32, y: u32 },
    MouseButton { button: RemoteDesktopMouseButton, button_state: RemoteDesktopMouseButtonState },
    Wheel { delta_x: i32, delta_y: i32 },
    Key {
        code: Seq<char>,
        text: Option<Seq<char>>,
        modifiers: RemoteDesktopModifierState,
        key_state: RemoteDesktopKeyState,
    },
    SynchronizeLockKeys { keys: RemoteDesktopLockKeys },
    ReleaseAllInputs,
    ClipboardFiles { transfer_id: Seq<char>, paths: Seq<Seq<char>> },
    ClipboardData { data: u64 },
    PasteText { words: Seq<char> },
    ClipboardText { words: Seq<char> },
    Text { words: Seq<char> },
    Authenticate {
        challenge_id: Seq<char>,
        sha256_fingerprint: Seq<char>,
        username: Option<Seq<char>>,
        password: Option<Seq<char>>,
        domain: Option<Seq<char>>,
    },
}

impl RemoteDesktopHelperRequest {
    pub open spec fn view(self) -> HelperRequest {
        match self {
            RemoteDesktopHelperRequest::Resize { width, height } => HelperRequest::Resize { width, height },
            RemoteDesktopHelperRequest::Close => HelperRequest::Close,
            RemoteDesktopHelperRequest::MouseMove { x, y } => HelperRequest::MouseMove { x, y },
            RemoteDesktopHelperRequest::MouseButton { button, button_state } => HelperRequest::MouseButton {
                button,
                button_state,
            },
            RemoteDesktopHelperRequest::Wheel { delta_x, delta_y } => HelperRequest::Wheel {
                delta_x,
                delta_y,
            },
            RemoteDesktopHelperRequest::Key { key, key_state } => HelperRequest::Key {
                code: key.code@,
                text: opt_view(key.text),
                modifiers: key.modifiers,
                key_state,
            },
            RemoteDesktopHelperRequest::SynchronizeLockKeys { keys } => HelperRequest::SynchronizeLockKeys {
                keys,
            },
            RemoteDesktopHelperRequest::ReleaseAllInputs => HelperRequest::ReleaseAllInputs,
            RemoteDesktopHelperRequest::ClipboardFiles { transfer_id, paths } => HelperRequest::ClipboardFiles {
                transfer_id: transfer_id@,
                paths: seq_view(paths@),
            },
            RemoteDesktopHelperRequest::ClipboardData { data } => HelperRequest::ClipboardData { data },
            RemoteDesktopHelperRequest::PasteText { secret } => HelperRequest::PasteText {
                words: secret@,
            },
            RemoteDesktopHelperRequest::ClipboardText { words } => HelperRequest::ClipboardText {
                words: words@,
            },
            RemoteDesktopHelperRequest::Text { words } => HelperRequest::Text { words: words@ },
            RemoteDesktopHelperRequest::Authenticate { challenge_id, sha256_fingerprint, username, password, domain } => HelperRequest::Authenticate {
                challenge_id: challenge_id@,
                sha256_fingerprint: sha256_fingerprint@,
                username: opt_view(username),
                password: secret_view(password),
                domain: opt_view(domain),
            },
        }
    }
}

pub open spec fn requests_view(requests: Seq<RemoteDesktopHelperRequest>) -> Seq<HelperRequest> {
    requests.map_values(|request: RemoteDesktopHelperRequest| request@)
}

/// What the program that talks to the remote side can do.
#[derive(Clone, Copy, PartialEq, Eq, Structural, Debug)]
pub struct RemoteDesktopCapabilities {
    pub resize: bool,
    pub clipboard_text: bool,
    pub clipboard_data: bool,
    pub clipboard_files: bool,
}

/// What of the clipboard the user shares.
#[derive(Clone, Copy, PartialEq, Eq, Structural, Debug)]
pub struct RemoteDesktopClipboardOptions {
    pub text: bool,
    pub images: bool,
    pub files: bool,
}

/// What both sides agreed on.
pub struct NegotiatedCapabilities {
    pub vendor_file_upload: bool,
    pub extended_clipboard: bool,
    pub extended_clipboard_formats: Vec<String>,
}

/// How weak a connection the user accepts.
#[derive(Clone, Copy, PartialEq, Eq, Structural, Debug)]
pub enum RemoteDesktopVncSecurityPolicy {
    RequireVerifiedEncryption,
    AllowUnverifiedEncryption,
    AllowLegacy,
}

#[derive(Clone, Copy, PartialEq, Eq, Structural, Debug)]
pub enum RemoteDesktopServerIdentityKind {
    X509Certificate,
    AnonymousTls,
    InsecureLegacy,
}

pub struct RemoteDesktopEndpoint {
    pub host: String,
    pub port: u16,
}

impl RemoteDesktopEndpoint {
    pub open spec fn view(self) -> (Seq<char>, u16) {
        (self.host@, self.port)
    }

    pub fn same(&self, other: &RemoteDesktopEndpoint) -> (res: bool)
        ensures
            res == (self@ == other@),
    {
        self.port == other.port && text::same(self.host.as_str(), other.host.as_str())
    }
}

/// Who the other side says it is.
pub struct RemoteDesktopServerCertificate {
    pub challenge_id: String,
    pub endpoint: RemoteDesktopEndpoint,
    pub protocol: RemoteDesktopProtocol,
    pub identity_kind: RemoteDesktopServerIdentityKind,
    pub sha256_fingerprint: String,
    pub security_method: String,
}

/// A question to the user: is this the right host?
pub struct RemoteDesktopCertificateChallengeState {
    pub certificate: RemoteDesktopServerCertificate,
    pub expected_fingerprint: Option<String>,
    pub remember: bool,
}

/// A remote desktop. `worker` says whether the program that talks to the remote side runs; `sent`
/// holds what was asked of it.
pub struct RemoteDesktopSessionEntity {
    pub protocol: RemoteDesktopProtocol,
    pub endpoint: RemoteDesktopEndpoint,
    pub username: Option<String>,
    pub domain: Option<String>,
    pub security_policy: RemoteDesktopVncSecurityPolicy,
    pub clipboard: RemoteDesktopClipboardOptions,
    pub capabilities: RemoteDesktopCapabilities,
    pub negotiated: Option<NegotiatedCapabilities>,
    pub worker: bool,
    pub worker_generation: u64,
    pub sent: Vec<RemoteDesktopHelperRequest>,
    pub disconnected: bool,
    pub resize_requested: Option<(u32, u32)>,
    pub cursor: Option<RemoteDesktopMappedPoint>,
    pub pressed_mouse_buttons: Vec<RemoteDesktopMouseButton>,
    /// What is left of a step of the wheel, as the bits of its two fractions; `None` where nothing
    /// is left.
    pub wheel_remainder: Option<(u64, u64)>,
    pub last_input_modifiers: RemoteDesktopModifierState,
    pub last_lock_keys: Option<RemoteDesktopLockKeys>,
    pub certificate_challenge: Option<RemoteDesktopCertificateChallengeState>,
    pub session_trusted_certificate_fingerprint: Option<String>,
    pub password: Option<SecretText>,
}

/// What a turn of the wheel comes to, with what was left of the turn before it: whole steps, where
/// there is one, and what is left of a step.
#[derive(Clone, Copy, Debug)]
pub struct WheelTurn {
    pub steps: Option<(i32, i32)>,
    pub remainder: Option<(u64, u64)>,
}

/// What the clipboard holds.
pub struct ClipboardItem {
    pub paths: Option<Vec<String>>,
    pub data: Option<u64>,
    pub text: Option<String>,
}

/// What a key is for.
#[derive(Clone, Copy, PartialEq, Eq, Structural, Debug)]
pub enum KeyRole {
    Paste,
    Copy,
    Input,
}

/// A key, with the modifiers that are down.
pub struct Keystroke {
    pub key: String,
    pub key_char: Option<String>,
    pub modifiers: RemoteDesktopModifierState,
}

pub open spec fn no_modifiers() -> RemoteDesktopModifierState {
    RemoteDesktopModifierState { alt: false, ctrl: false, shift: false, meta: false }
}

/// A key without text or modifiers.
pub open spec fn bare_key(code: Seq<char>, key_state: RemoteDesktopKeyState) -> HelperRequest {
    HelperRequest::Key { code, text: None, modifiers: no_modifiers(), key_state }
}

pub open spec fn key_change(code: Seq<char>, before: bool, after: bool) -> Seq<HelperRequest> {
    if before == after {
        Seq::empty()
    } else if after {
        seq![bare_key(code, RemoteDesktopKeyState::Pressed)]
    } else {
        seq![bare_key(code, RemoteDesktopKeyState::Released)]
    }
}

/// The keys that bring the remote side from some modifiers to others.
pub open spec fn modifier_changes(before: RemoteDesktopModifierState, after: RemoteDesktopModifierState) -> Seq<HelperRequest> {
    key_change("ControlLeft"@, before.ctrl, after.ctrl) + key_change(
        "ShiftLeft"@,
        before.shift,
        after.shift,
    ) + key_change("AltLeft"@, before.alt, after.alt) + key_change(
        "MetaLeft"@,
        before.meta,
        after.meta,
    )
}

/// The keys that release the modifiers of a shortcut.
pub open spec fn shortcut_releases(modifiers: RemoteDesktopModifierState) -> Seq<HelperRequest> {
    key_change("control"@, modifiers.ctrl, false) + key_change("meta"@, modifiers.meta, false)
        + key_change("shift"@, modifiers.shift, false)
}

impl RemoteDesktopSessionEntity {
    /// What was asked of the program that talks to the remote side.
    pub open spec fn asked(self) -> Seq<HelperRequest> {
        requests_view(self.sent@)
    }

    /// What asking for something does: only a running program hears of it, and only one that can
    /// resize hears of a new size.
    pub open spec fn after_request(self, before: RemoteDesktopSessionEntity, request: HelperRequest) -> bool {
        let resizes = request is Resize;
        if resizes && !before.capabilities.resize {
            self == before
        } else {
            &&& self == (RemoteDesktopSessionEntity {
                sent: self.sent,
                resize_requested: match request {
                    HelperRequest::Resize { width, height } => Some((width, height)),
                    _ => before.resize_requested,
                },
                disconnected: before.disconnected || (!before.worker && request is Close),
                ..before
            })
            &&& self.asked() == if before.worker {
                before.asked().push(request)
            } else {
                before.asked()
            }
            &&& !before.worker ==> self.sent == before.sent
        }
    }

    pub fn send_request(&mut self, request: RemoteDesktopHelperRequest)
        ensures
            final(self).after_request(*old(self), request@),
    {
        let mut closes = false;
        match &request {
            RemoteDesktopHelperRequest::Resize { width, height } => {
                if !self.capabilities.resize {
                    return;
                }
                self.resize_requested = Some((*width, *height));
            },
            RemoteDesktopHelperRequest::Close => {
                closes = true;
            },
            _ => {},
        }
        if self.worker {
            let ghost before = self.sent@;
            self.sent.push(request);
            assert(requests_view(self.sent@) =~= requests_view(before).push(request@));
        } else if closes {
            self.disconnected = true;
        }
    }

    /// Only what was asked of the program differs: these requests more, where it runs.
    pub open spec fn asks(self, before: RemoteDesktopSessionEntity, requests: Seq<HelperRequest>) -> bool {
        &&& self == (RemoteDesktopSessionEntity { sent: self.sent, ..before })
        &&& self.asked() == if before.worker {
            before.asked() + requests
        } else {
            before.asked()
        }
    }

    fn ask(&mut self, request: RemoteDesktopHelperRequest)
        requires
            !(request@ is Resize),
            !(request@ is Close),
        ensures
            final(self).asks(*old(self), seq![request@]),
    {
        self.send_request(request);
        assert(old(self).asked().push(request@) =~= old(self).asked() + seq![request@]);
    }

    /// The pointer is at a point of the remote screen; its picture moves at once.
    pub fn map_pointer_position(&mut self, point: Option<RemoteDesktopMappedPoint>) -> (res: Option<RemoteDesktopMappedPoint>)
        ensures
            res == point,
            *final(self) == match point {
                Some(point) => RemoteDesktopSessionEntity { cursor: Some(point), ..*old(self) },
                None => *old(self),
            },
    {
        match point {
            Some(point) => {
                self.cursor = Some(point);
            },
            None => {},
        }
        point
    }

    /// The state with the picture of the pointer at a point.
    pub open spec fn pointed(self, point: RemoteDesktopMappedPoint) -> RemoteDesktopSessionEntity {
        RemoteDesktopSessionEntity { cursor: Some(point), ..self }
    }

    /// The pointer moved to a point of the remote screen, or outside of it.
    pub fn handle_mouse_move(&mut self, position: Option<RemoteDesktopMappedPoint>) -> (res: bool)
        ensures
            res == position is Some,
            match position {
                Some(point) => final(self).asks(
                    old(self).pointed(point),
                    seq![HelperRequest::MouseMove { x: point.x, y: point.y }],
                ),
                None => *final(self) == *old(self),
            },
    {
        match self.map_pointer_position(position) {
            Some(point) => {
                self.ask(RemoteDesktopHelperRequest::MouseMove { x: point.x, y: point.y });
                true
            },
            None => false,
        }
    }

    /// Whether a button is down.
    pub open spec fn is_pressed(self, button: RemoteDesktopMouseButton) -> bool {
        self.pressed_mouse_buttons@.contains(button)
    }

    /// Only the buttons differ: one of them went down or up.
    pub open spec fn button_set(
        self,
        before: RemoteDesktopSessionEntity,
        button: RemoteDesktopMouseButton,
        button_state: RemoteDesktopMouseButtonState,
    ) -> bool {
        &&& self == (RemoteDesktopSessionEntity {
            pressed_mouse_buttons: self.pressed_mouse_buttons,
            ..before
        })
        &&& forall|other: RemoteDesktopMouseButton| #[trigger]
            self.is_pressed(other) == if other == button {
                button_state == RemoteDesktopMouseButtonState::Pressed
            } else {
                before.is_pressed(other)
            }
    }

    fn is_down(&self, button: RemoteDesktopMouseButton) -> (res: bool)
        ensures
            res == self.is_pressed(button),
    {
        let mut at: usize = 0;
        while at < self.pressed_mouse_buttons.len()
            invariant
                at <= self.pressed_mouse_buttons.len(),
                forall|i: int| 0 <= i < at ==> self.pressed_mouse_buttons@[i] != button,
            decreases self.pressed_mouse_buttons.len() - at,
        {
            if self.pressed_mouse_buttons[at] == button {
                return true;
            }
            at = at + 1;
        }
        false
    }

    fn set_button(&mut self, button: RemoteDesktopMouseButton, button_state: RemoteDesktopMouseButtonState)
        ensures
            final(self).button_set(*old(self), button, button_state),
    {
        let down = button_state == RemoteDesktopMouseButtonState::Pressed;
        let mut rest: Vec<RemoteDesktopMouseButton> = Vec::new();
        let mut at: usize = 0;
        let ghost all = self.pressed_mouse_buttons@;
        while at < self.pressed_mouse_buttons.len()
            invariant
                at <= all.len(),
                all == self.pressed_mouse_buttons@,
                forall|other: RemoteDesktopMouseButton| #[trigger]
                    rest@.contains(other) == (other != button && all.take(at as int).contains(other)),
            decreases all.len() - at,
        {
            let held = self.pressed_mouse_buttons[at];
            let ghost before = rest@;
            if held != button {
                rest.push(held);
            }
            proof {
                assert(all.take(at + 1) =~= all.take(at as int).push(held));
                assert forall|other: RemoteDesktopMouseButton| #[trigger] rest@.contains(other) == (other
                    != button && all.take(at + 1).contains(other)) by {
                    lemma_push_contains(all.take(at as int), held, other);
                    if held != button {
                        lemma_push_contains(before, held, other);
                    }
                }
            }
            at = at + 1;
        }
        assert(all.take(at as int) =~= all);
        let ghost kept = rest@;
        if down {
            rest.push(button);
        }
        self.pressed_mouse_buttons = rest;
        proof {
            assert forall|other: RemoteDesktopMouseButton| #[trigger] self.is_pressed(other) == if other
                == button {
                down
            } else {
                old(self).is_pressed(other)
            } by {
                if down {
                    lemma_push_contains(kept, button, other);
                }
                assert(kept.contains(other) == (other != button && all.contains(other)));
            }
        }
    }

    /// What a button that went down or up does.
    pub open spec fn button_used(
        self,
        before: RemoteDesktopSessionEntity,
        point: RemoteDesktopMappedPoint,
        button: RemoteDesktopMouseButton,
        button_state: RemoteDesktopMouseButtonState,
    ) -> bool {
        exists|set: RemoteDesktopSessionEntity|
            {
                &&& #[trigger] set.button_set(
                    before.pointed(point),
                    button,
                    button_state,
                )
                &&& self.asks(
                    set,
                    seq![
                        HelperRequest::MouseMove { x: point.x, y: point.y },
                        HelperRequest::MouseButton { button, button_state },
                    ],
                )
            }
    }

    /// A button went down or up over the remote screen.
    pub fn handle_mouse_button(
        &mut self,
        position: Option<RemoteDesktopMappedPoint>,
        button: RemoteDesktopMouseButton,
        button_state: RemoteDesktopMouseButtonState,
    ) -> (res: bool)
        ensures
            res == position is Some,
            match position {
                Some(point) => final(self).button_used(*old(self), point, button, button_state),
                None => *final(self) == *old(self),
            },
    {
        match self.map_pointer_position(position) {
            Some(point) => {
                self.set_button(button, button_state);
                let ghost set = *self;
                assert(set.button_set(
                    old(self).pointed(point),
                    button,
                    button_state,
                ));
                self.ask(RemoteDesktopHelperRequest::MouseMove { x: point.x, y: point.y });
                self.ask(RemoteDesktopHelperRequest::MouseButton { button, button_state });
                assert(self.asked() =~= if set.worker {
                    set.asked() + seq![
                        HelperRequest::MouseMove { x: point.x, y: point.y },
                        HelperRequest::MouseButton { button, button_state },
                    ]
                } else {
                    set.asked()
                });
                true
            },
            None => false,
        }
    }

    /// What a button that goes up outside the remote screen does: where it was down, it is up, and the
    /// remote side hears of it.
    pub open spec fn button_left(self, before: RemoteDesktopSessionEntity, button: RemoteDesktopMouseButton) -> bool {
        if before.is_pressed(button) {
            exists|set: RemoteDesktopSessionEntity|
                {
                    &&& #[trigger] set.button_set(before, button, RemoteDesktopMouseButtonState::Released)
                    &&& self.asks(
                        set,
                        seq![
                            HelperRequest::MouseButton {
                                button,
                                button_state: RemoteDesktopMouseButtonState::Released,
                            },
                        ],
                    )
                }
        } else {
            self == before
        }
    }

    /// A button went up outside the remote screen. The remote side hears of it where the button was
    /// down.
    pub fn release_mouse_button_out(&mut self, button: RemoteDesktopMouseButton) -> (res: bool)
        ensures
            res == old(self).is_pressed(button),
            final(self).button_left(*old(self), button),
    {
        if !self.is_down(button) {
            return false;
        }
        self.set_button(button, RemoteDesktopMouseButtonState::Released);
        assert(self.button_set(*old(self), button, RemoteDesktopMouseButtonState::Released));
        self.ask(
            RemoteDesktopHelperRequest::MouseButton {
                button,
                button_state: RemoteDesktopMouseButtonState::Released,
            },
        );
        true
    }

    /// What a turn of the wheel over a point of the remote screen does: the rest of a step is kept,
    /// and the remote side hears of the point and of the whole steps.
    pub open spec fn wheel_turned(self, before: RemoteDesktopSessionEntity, position: Option<RemoteDesktopMappedPoint>, turn: WheelTurn) -> bool {
        match position {
            Some(point) => self.asks(
                (RemoteDesktopSessionEntity {
                    wheel_remainder: turn.remainder,
                    ..before.pointed(point)
                }),
                match turn.steps {
                    Some((delta_x, delta_y)) => seq![
                        HelperRequest::MouseMove { x: point.x, y: point.y },
                        HelperRequest::Wheel { delta_x, delta_y },
                    ],
                    None => seq![HelperRequest::MouseMove { x: point.x, y: point.y }],
                },
            ),
            None => self == before,
        }
    }

    /// The wheel turned over the remote screen, or outside of it.
    pub fn handle_wheel(&mut self, position: Option<RemoteDesktopMappedPoint>, turn: WheelTurn) -> (res: bool)
        ensures
            res == position is Some,
            final(self).wheel_turned(*old(self), position, turn),
    {
        match self.map_pointer_position(position) {
            Some(point) => {
                self.wheel_remainder = turn.remainder;
                let ghost before = *self;
                self.ask(RemoteDesktopHelperRequest::MouseMove { x: point.x, y: point.y });
                match turn.steps {
                    Some((delta_x, delta_y)) => {
                        self.ask(RemoteDesktopHelperRequest::Wheel { delta_x, delta_y });
                        assert(before.worker ==> self.asked() =~= before.asked() + seq![
                            HelperRequest::MouseMove { x: point.x, y: point.y },
                            HelperRequest::Wheel { delta_x, delta_y },
                        ]);
                    },
                    None => {},
                }
                true
            },
            None => false,
        }
    }

    fn change_key(&mut self, code: &str, before: bool, after: bool)
        ensures
            final(self).asks(*old(self), key_change(code@, before, after)),
    {
        if before == after {
            assert(old(self).asked() + Seq::<HelperRequest>::empty() =~= old(self).asked());
            return;
        }
        let key = RemoteDesktopKey {
            code: code.to_owned(),
            text: None,
            modifiers: RemoteDesktopModifierState {
                alt: false,
                ctrl: false,
                shift: false,
                meta: false,
            },
        };
        let key_state = if after {
            RemoteDesktopKeyState::Pressed
        } else {
            RemoteDesktopKeyState::Released
        };
        self.ask(RemoteDesktopHelperRequest::Key { key, key_state });
    }

    /// The remote side was told of other modifiers.
    pub open spec fn modifiers_told(self, before: RemoteDesktopSessionEntity, modifiers: RemoteDesktopModifierState) -> bool {
        self.asks(
            RemoteDesktopSessionEntity { last_input_modifiers: modifiers, ..before },
            modifier_changes(before.last_input_modifiers, modifiers),
        )
    }

    /// Tells the remote side of the modifiers that changed.
    pub fn sync_modifiers(&mut self, modifiers: RemoteDesktopModifierState)
        ensures
            final(self).modifiers_told(*old(self), modifiers),
    {
        let previous = self.last_input_modifiers;
        self.last_input_modifiers = modifiers;
        let ghost start = *self;
        self.change_key("ControlLeft", previous.ctrl, modifiers.ctrl);
        self.change_key("ShiftLeft", previous.shift, modifiers.shift);
        self.change_key("AltLeft", previous.alt, modifiers.alt);
        self.change_key("MetaLeft", previous.meta, modifiers.meta);
        assert(start.worker ==> self.asked() =~= start.asked() + modifier_changes(
            previous,
            modifiers,
        ));
    }

    /// The remote side was told of other lock keys.
    pub open spec fn locks_told(self, before: RemoteDesktopSessionEntity, keys: RemoteDesktopLockKeys) -> bool {
        self.asks(
            RemoteDesktopSessionEntity { last_lock_keys: Some(keys), ..before },
            if before.last_lock_keys == Some(keys) {
                Seq::empty()
            } else {
                seq![HelperRequest::SynchronizeLockKeys { keys }]
            },
        )
    }

    fn tell_locks(&mut self, keys: RemoteDesktopLockKeys)
        ensures
            final(self).locks_told(*old(self), keys),
    {
        let same = match self.last_lock_keys {
            Some(previous) => previous == keys,
            None => false,
        };
        self.last_lock_keys = Some(keys);
        if same {
            assert(self.asked() + Seq::<HelperRequest>::empty() =~= self.asked());
        } else {
            self.ask(RemoteDesktopHelperRequest::SynchronizeLockKeys { keys });
        }
    }

    /// The lock keys with the state of the caps lock key.
    pub open spec fn with_caps_lock(self, caps_lock: bool) -> RemoteDesktopLockKeys {
        match self.last_lock_keys {
            Some(keys) => RemoteDesktopLockKeys { caps_lock, ..keys },
            None => RemoteDesktopLockKeys { caps_lock, num_lock: false, scroll_lock: false },
        }
    }

    /// Tells the remote side of the caps lock key where it changed.
    pub fn sync_lock_keys(&mut self, caps_lock: bool)
        ensures
            final(self).locks_told(*old(self), old(self).with_caps_lock(caps_lock)),
    {
        let keys = match self.last_lock_keys {
            Some(keys) => RemoteDesktopLockKeys {
                caps_lock,
                num_lock: keys.num_lock,
                scroll_lock: keys.scroll_lock,
            },
            None => RemoteDesktopLockKeys { caps_lock, num_lock: false, scroll_lock: false },
        };
        self.tell_locks(keys);
    }

    /// Tells the remote side of the lock keys after one of them was pressed.
    pub fn sync_lock_key_press(&mut self, next: Option<RemoteDesktopLockKeys>)
        ensures
            match next {
                Some(keys) => final(self).locks_told(*old(self), keys),
                None => *final(self) == *old(self),
            },
    {
        match next {
            Some(keys) => {
                self.tell_locks(keys);
            },
            None => {},
        }
    }

    /// No key or button is down, and the remote side hears of it in one request.
    pub open spec fn inputs_released(self, before: RemoteDesktopSessionEntity) -> bool {
        &&& self.pressed_mouse_buttons@.len() == 0
        &&& self.asks(
            (RemoteDesktopSessionEntity {
                last_input_modifiers: no_modifiers(),
                last_lock_keys: None,
                pressed_mouse_buttons: self.pressed_mouse_buttons,
                wheel_remainder: None,
                ..before
            }),
            seq![HelperRequest::ReleaseAllInputs],
        )
    }

    /// Lets go of every key and button.
    pub fn release_inputs(&mut self)
        ensures
            final(self).inputs_released(*old(self)),
    {
        self.last_input_modifiers = RemoteDesktopModifierState {
            alt: false,
            ctrl: false,
            shift: false,
            meta: false,
        };
        self.last_lock_keys = None;
        self.pressed_mouse_buttons.clear();
        self.wheel_remainder = None;
        self.ask(RemoteDesktopHelperRequest::ReleaseAllInputs);
    }

    /// The modifiers of a shortcut that the window takes itself are no longer down on the remote
    /// side.
    pub open spec fn shortcut_released(self, before: RemoteDesktopSessionEntity, modifiers: RemoteDesktopModifierState) -> bool {
        let last = before.last_input_modifiers;
        self.asks(
            RemoteDesktopSessionEntity {
                last_input_modifiers: RemoteDesktopModifierState {
                    ctrl: last.ctrl && !modifiers.ctrl,
                    meta: last.meta && !modifiers.meta,
                    shift: last.shift && !modifiers.shift,
                    ..last
                },
                ..before
            },
            shortcut_releases(modifiers),
        )
    }

    pub fn release_shortcut_modifiers(&mut self, modifiers: RemoteDesktopModifierState)
        ensures
            final(self).shortcut_released(*old(self), modifiers),
    {
        let last = self.last_input_modifiers;
        self.last_input_modifiers = RemoteDesktopModifierState {
            alt: last.alt,
            ctrl: last.ctrl && !modifiers.ctrl,
            shift: last.shift && !modifiers.shift,
            meta: last.meta && !modifiers.meta,
        };
        let ghost start = *self;
        self.change_key("control", modifiers.ctrl, false);
        self.change_key("meta", modifiers.meta, false);
        self.change_key("shift", modifiers.shift, false);
        assert(start.worker ==> self.asked() =~= start.asked() + shortcut_releases(modifiers));
    }

    /// A key together with the control key, pressed and released.
    pub open spec fn control_shortcut(code: Seq<char>) -> Seq<HelperRequest> {
        let modifiers = RemoteDesktopModifierState { ctrl: true, ..no_modifiers() };
        seq![
            HelperRequest::Key {
                code,
                text: Some(code),
                modifiers,
                key_state: RemoteDesktopKeyState::Pressed,
            },
            HelperRequest::Key {
                code,
                text: Some(code),
                modifiers,
                key_state: RemoteDesktopKeyState::Released,
            },
        ]
    }

    fn control_key(code: &str) -> (res: RemoteDesktopKey)
        ensures
            res.code@ == code@,
            opt_view(res.text) == Some(code@),
            res.modifiers == (RemoteDesktopModifierState { ctrl: true, ..no_modifiers() }),
    {
        RemoteDesktopKey {
            code: code.to_owned(),
            text: Some(code.to_owned()),
            modifiers: RemoteDesktopModifierState {
                alt: false,
                ctrl: true,
                shift: false,
                meta: false,
            },
        }
    }

    /// Presses and releases a key together with the control key.
    pub fn send_control_shortcut(&mut self, code: &str)
        ensures
            final(self).asks(*old(self), Self::control_shortcut(code@)),
    {
        self.ask(
            RemoteDesktopHelperRequest::Key {
                key: Self::control_key(code),
                key_state: RemoteDesktopKeyState::Pressed,
            },
        );
        self.ask(
            RemoteDesktopHelperRequest::Key {
                key: Self::control_key(code),
                key_state: RemoteDesktopKeyState::Released,
            },
        );
        assert(old(self).worker ==> self.asked() =~= old(self).asked() + Self::control_shortcut(
            code@,
        ));
    }

    /// What a key that went down or up does: the modifiers first.
    pub open spec fn key_used(self, before: RemoteDesktopSessionEntity, keystroke: Keystroke, key_state: RemoteDesktopKeyState) -> bool {
        exists|synced: RemoteDesktopSessionEntity|
            {
                &&& #[trigger] synced.modifiers_told(before, keystroke.modifiers)
                &&& self.asks(
                    synced,
                    seq![
                        HelperRequest::Key {
                            code: keystroke.key@,
                            text: opt_view(keystroke.key_char),
                            modifiers: keystroke.modifiers,
                            key_state,
                        },
                    ],
                )
            }
    }

    pub fn handle_key(&mut self, keystroke: &Keystroke, key_state: RemoteDesktopKeyState)
        ensures
            final(self).key_used(*old(self), *keystroke, key_state),
    {
        self.sync_modifiers(keystroke.modifiers);
        let ghost synced = *self;
        assert(synced.modifiers_told(*old(self), keystroke.modifiers));
        let key = RemoteDesktopKey {
            code: keystroke.key.clone(),
            text: text::duplicate_option(&keystroke.key_char),
            modifiers: keystroke.modifiers,
        };
        self.ask(RemoteDesktopHelperRequest::Key { key, key_state });
    }

    /// Whether both sides can exchange files.
    pub open spec fn takes_files(self) -> bool {
        &&& self.capabilities.clipboard_files
        &&& self.clipboard.files
        &&& self.protocol != RemoteDesktopProtocol::Vnc || (self.negotiated is Some
            && self.negotiated->0.vendor_file_upload)
    }

    /// Whether both sides can exchange pictures.
    pub open spec fn takes_pictures(self) -> bool {
        &&& self.capabilities.clipboard_data
        &&& self.clipboard.images
        &&& self.protocol != RemoteDesktopProtocol::Vnc || (self.negotiated is Some
            && self.negotiated->0.extended_clipboard && seq_view(
            self.negotiated->0.extended_clipboard_formats@,
        ).contains("dib-v5"@))
    }

    /// Whether the text of the clipboard is shared.
    pub open spec fn takes_text(self) -> bool {
        self.capabilities.clipboard_text && self.clipboard.text
    }

    fn accepts_files(&self) -> (res: bool)
        ensures
            res == self.takes_files(),
    {
        if !self.capabilities.clipboard_files || !self.clipboard.files {
            return false;
        }
        if self.protocol != RemoteDesktopProtocol::Vnc {
            return true;
        }
        match &self.negotiated {
            Some(negotiated) => negotiated.vendor_file_upload,
            None => false,
        }
    }

    fn accepts_pictures(&self) -> (res: bool)
        ensures
            res == self.takes_pictures(),
    {
        if !self.capabilities.clipboard_data || !self.clipboard.images {
            return false;
        }
        if self.protocol != RemoteDesktopProtocol::Vnc {
            return true;
        }
        match &self.negotiated {
            Some(negotiated) => negotiated.extended_clipboard && text::list_contains(
                &negotiated.extended_clipboard_formats,
                "dib-v5",
            ),
            None => false,
        }
    }

    /// What pasting a text asks for.
    pub open spec fn pasted_text(self, words: Seq<char>) -> Seq<HelperRequest> {
        if !self.takes_text() || words.len() == 0 {
            Seq::empty()
        } else if self.protocol == RemoteDesktopProtocol::Rdp {
            seq![HelperRequest::PasteText { words }]
        } else {
            seq![HelperRequest::ClipboardText { words }, HelperRequest::Text { words }]
        }
    }

    /// What pasting the clipboard asks for. Files are never pasted as text. `transfer` names a
    /// transfer of files.
    pub open spec fn pasted(self, item: ClipboardItem, transfer: Seq<char>) -> Seq<HelperRequest> {
        match item.paths {
            Some(paths) => if self.takes_files() {
                seq![
                    HelperRequest::ClipboardFiles {
                        transfer_id: transfer,
                        paths: seq_view(paths@),
                    },
                ]
            } else {
                Seq::empty()
            },
            None => if self.takes_pictures() && item.data is Some {
                seq![HelperRequest::ClipboardData { data: item.data->0 }]
            } else {
                match item.text {
                    Some(words) => self.pasted_text(words@),
                    None => Seq::empty(),
                }
            },
        }
    }

    fn paste_text(&mut self, words: String)
        ensures
            final(self).asks(*old(self), old(self).pasted_text(words@)),
    {
        if !self.capabilities.clipboard_text || !self.clipboard.text || words.as_str().is_empty() {
            assert(self.asked() + Seq::<HelperRequest>::empty() =~= self.asked());
            return;
        }
        if self.protocol == RemoteDesktopProtocol::Rdp {
            self.ask(RemoteDesktopHelperRequest::PasteText { secret: SecretText::new(words) });
        } else {
            self.ask(RemoteDesktopHelperRequest::ClipboardText { words: words.clone() });
            self.ask(RemoteDesktopHelperRequest::Text { words });
            assert(old(self).worker ==> self.asked() =~= old(self).asked() + old(self).pasted_text(
                words@,
            ));
        }
    }

    /// What pasting the clipboard does; a transfer of files gets a name of its own.
    pub open spec fn clipboard_pasted(self, before: RemoteDesktopSessionEntity, item: ClipboardItem) -> bool {
        exists|transfer: Seq<char>|
            transfer.len() == 36 && self.asks(before, #[trigger] before.pasted(item, transfer))
    }

    /// Pastes the clipboard into the remote side, as far as the user shares it.
    pub fn paste_clipboard(&mut self, item: ClipboardItem)
        ensures
            final(self).clipboard_pasted(*old(self), item),
    {
        let transfer_id = random_id();
        let ghost transfer = transfer_id@;
        let ghost wanted = self.pasted(item, transfer);
        assert(self.asked() + Seq::<HelperRequest>::empty() =~= self.asked());
        match item.paths {
            Some(paths) => {
                if self.accepts_files() {
                    self.ask(RemoteDesktopHelperRequest::ClipboardFiles { transfer_id, paths });
                }
                assert(self.asks(*old(self), wanted));
                return;
            },
            None => {},
        }
        if self.accepts_pictures() {
            match item.data {
                Some(data) => {
                    self.ask(RemoteDesktopHelperRequest::ClipboardData { data });
                    assert(self.asks(*old(self), wanted));
                    return;
                },
                None => {},
            }
        }
        match item.text {
            Some(words) => {
                self.paste_text(words);
            },
            None => {},
        }
        assert(self.asks(*old(self), wanted));
    }

    /// What a key that went down does.
    pub open spec fn key_down(
        self,
        before: RemoteDesktopSessionEntity,
        keystroke: Keystroke,
        role: KeyRole,
        clipboard: Option<ClipboardItem>,
        locks: Option<RemoteDesktopLockKeys>,
    ) -> bool {
        match role {
            KeyRole::Paste => exists|released: RemoteDesktopSessionEntity|
                {
                    &&& #[trigger] released.shortcut_released(before, keystroke.modifiers)
                    &&& match clipboard {
                        Some(item) => self.clipboard_pasted(released, item),
                        None => self == released,
                    }
                },
            KeyRole::Copy => exists|released: RemoteDesktopSessionEntity|
                {
                    &&& #[trigger] released.shortcut_released(before, keystroke.modifiers)
                    &&& self.asks(released, Self::control_shortcut("c"@))
                },
            KeyRole::Input => exists|used: RemoteDesktopSessionEntity|
                {
                    &&& #[trigger] used.key_used(
                        before,
                        keystroke,
                        RemoteDesktopKeyState::Pressed,
                    )
                    &&& match locks {
                        Some(keys) => self.locks_told(used, keys),
                        None => self == used,
                    }
                },
        }
    }

    /// A key went down. `clipboard` is what the clipboard holds, `locks` are the lock keys after
    /// this one, where it is one.
    pub fn forward_key_down(
        &mut self,
        keystroke: &Keystroke,
        role: KeyRole,
        clipboard: Option<ClipboardItem>,
        locks: Option<RemoteDesktopLockKeys>,
    )
        ensures
            final(self).key_down(*old(self), *keystroke, role, clipboard, locks),
    {
        match role {
            KeyRole::Paste => {
                self.release_shortcut_modifiers(keystroke.modifiers);
                assert(self.shortcut_released(*old(self), keystroke.modifiers));
                match clipboard {
                    Some(item) => {
                        self.paste_clipboard(item);
                    },
                    None => {},
                }
            },
            KeyRole::Copy => {
                self.release_shortcut_modifiers(keystroke.modifiers);
                assert(self.shortcut_released(*old(self), keystroke.modifiers));
                self.send_control_shortcut("c");
            },
            KeyRole::Input => {
                self.handle_key(keystroke, RemoteDesktopKeyState::Pressed);
                assert(self.key_used(*old(self), *keystroke, RemoteDesktopKeyState::Pressed));
                self.sync_lock_key_press(locks);
            },
        }
    }

    /// A key went up. The remote side does not hear of the shortcuts that the window takes itself.
    pub fn forward_key_up(&mut self, keystroke: &Keystroke, role: KeyRole)
        ensures
            if role == KeyRole::Input {
                final(self).key_used(*old(self), *keystroke, RemoteDesktopKeyState::Released)
            } else {
                *final(self) == *old(self)
            },
    {
        if role == KeyRole::Input {
            self.handle_key(keystroke, RemoteDesktopKeyState::Released);
        }
    }
}

proof fn lemma_push_contains<A>(list: Seq<A>, last: A, item: A)
    ensures
        list.push(last).contains(item) == (list.contains(item) || item == last),
{
    let now = list.push(last);
    if list.contains(item) {
        let i = choose|i: int| 0 <= i < list.len() && list[i] == item;
        assert(now[i] == item);
    }
    if item == last {
        assert(now[list.len() as int] == item);
    }
    if now.contains(item) {
        let i = choose|i: int| 0 <= i < now.len() && now[i] == item;
        if i < list.len() {
            assert(list[i] == item);
        }
    }
}

/// Pasting files never puts text into the remote side, whatever the clipboard holds beside them.
pub proof fn law_files_are_never_pasted_as_text(session: RemoteDesktopSessionEntity, item: ClipboardItem, transfer: Seq<char>, at: int)
    requires
        item.paths is Some,
        0 <= at < session.pasted(item, transfer).len(),
    ensures
        session.pasted(item, transfer)[at] is ClipboardFiles,
{
}

/// Pasting into an RDP session is one request at most.
pub proof fn law_rdp_pastes_once(session: RemoteDesktopSessionEntity, item: ClipboardItem, transfer: Seq<char>)
    requires
        session.protocol == RemoteDesktopProtocol::Rdp,
    ensures
        session.pasted(item, transfer).len() <= 1,
{
}

/// Text that the user does not share is never sent.
pub proof fn law_unshared_text_stays_here(session: RemoteDesktopSessionEntity, item: ClipboardItem, transfer: Seq<char>, at: int)
    requires
        !session.takes_text(),
        0 <= at < session.pasted(item, transfer).len(),
    ensures
        !(session.pasted(item, transfer)[at] is PasteText),
        !(session.pasted(item, transfer)[at] is ClipboardText),
        !(session.pasted(item, transfer)[at] is Text),
{
}

/// Once every input was let go no button is down any more: one that then goes up outside the remote
/// screen is none of the session's, and the remote side hears nothing of it.
pub proof fn law_released_inputs_are_released_once(
    before: RemoteDesktopSessionEntity,
    released: RemoteDesktopSessionEntity,
    after: RemoteDesktopSessionEntity,
    button: RemoteDesktopMouseButton,
)
    requires
        released.inputs_released(before),
        after.button_left(released, button),
    ensures
        released.last_input_modifiers == no_modifiers(),
        released.last_lock_keys is None,
        released.pressed_mouse_buttons@.len() == 0,
        released.wheel_remainder is None,
        before.worker ==> released.asked() == before.asked().push(HelperRequest::ReleaseAllInputs),
        !before.worker ==> released.asked() == before.asked(),
        !released.is_pressed(button),
        after == released,
{
}

} // verus!
