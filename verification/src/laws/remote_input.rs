//! Input for a remote desktop.

use vstd::prelude::*;

use crate::text;
use crate::workspace::remote_desktop::{
    ClipboardItem, HelperRequest, KeyRole, Keystroke, RemoteDesktopHelperRequest,
    RemoteDesktopKeyState, RemoteDesktopLockKeys, RemoteDesktopMappedPoint,
    RemoteDesktopModifierState, RemoteDesktopMouseButton, RemoteDesktopMouseButtonState,
    RemoteDesktopProtocol, RemoteDesktopSessionEntity, WheelTurn,
};

verus! {

proof fn lemma_sent(before: RemoteDesktopSessionEntity, after: RemoteDesktopSessionEntity, at: int)
    requires
        before.worker,
        after.asked().len() >= before.asked().len(),
        0 <= at < after.asked().len(),
    ensures
        after.asked().len() == after.sent@.len(),
        after.asked()[at] == after.sent@[at]@,
{
}

/// A key reaches the other side as it was used: the last request of a session that runs is that key,
/// with its text, going the same way, and with each of its modifiers; the session remembers these.
pub proof fn law_keys_arrive_as_they_were_used(
    session: &mut RemoteDesktopSessionEntity,
    keystroke: &Keystroke,
    key_state: RemoteDesktopKeyState,
)
    requires
        call_ensures(RemoteDesktopSessionEntity::handle_key, (session, keystroke, key_state), ()),
    ensures
        old(session).worker ==> {
            let last = final(session).sent@.last();
            &&& final(session).sent@.len() > old(session).sent@.len()
            &&& last is Key
            &&& last->Key_key_state == key_state
            &&& last->Key_key.code@ == keystroke.key@
            &&& last->Key_key.text is Some <==> keystroke.key_char is Some
            &&& keystroke.key_char is Some ==> last->Key_key.text->0@ == keystroke.key_char->0@
            &&& last->Key_key.modifiers.alt == keystroke.modifiers.alt
            &&& last->Key_key.modifiers.ctrl == keystroke.modifiers.ctrl
            &&& last->Key_key.modifiers.shift == keystroke.modifiers.shift
            &&& last->Key_key.modifiers.meta == keystroke.modifiers.meta
        },
        final(session).last_input_modifiers.alt == keystroke.modifiers.alt,
        final(session).last_input_modifiers.ctrl == keystroke.modifiers.ctrl,
        final(session).last_input_modifiers.shift == keystroke.modifiers.shift,
        final(session).last_input_modifiers.meta == keystroke.modifiers.meta,
        !old(session).worker ==> final(session).sent@.len() == old(session).sent@.len(),
{
    let before = *old(session);
    let after = *final(session);
    assert(after.asked().len() == after.sent@.len());
    assert(before.asked().len() == before.sent@.len());
    if before.worker {
        let at = after.asked().len() - 1;
        lemma_sent(before, after, at);
        assert(after.asked()[at] is Key);
        assert(text::opt_view(keystroke.key_char) is Some <==> keystroke.key_char is Some);
    }
}

/// Before a key that comes with other modifiers than the last one, each modifier that changed goes
/// down or up, and only those: first control, then shift, alt and meta.
pub proof fn law_changed_modifiers_go_first(
    session: &mut RemoteDesktopSessionEntity,
    modifiers: RemoteDesktopModifierState,
)
    requires
        call_ensures(RemoteDesktopSessionEntity::sync_modifiers, (session, modifiers), ()),
        session.worker,
    ensures
        ({
            let last = old(session).last_input_modifiers;
            let count = old(session).sent@.len() as int;
            let told = final(session).asked();
            let changes: int = (if last.ctrl != modifiers.ctrl {
                1int
            } else {
                0
            }) + (if last.shift != modifiers.shift {
                1int
            } else {
                0
            }) + (if last.alt != modifiers.alt {
                1int
            } else {
                0
            }) + (if last.meta != modifiers.meta {
                1int
            } else {
                0
            });
            &&& told.len() == count + changes
            &&& last.ctrl != modifiers.ctrl ==> told[count] is Key && told[count]->Key_code
                == "ControlLeft"@ && (told[count]->Key_key_state == RemoteDesktopKeyState::Pressed
                <==> modifiers.ctrl)
            &&& last.meta != modifiers.meta ==> told.last() is Key && told.last()->Key_code
                == "MetaLeft"@ && (told.last()->Key_key_state == RemoteDesktopKeyState::Pressed
                <==> modifiers.meta)
            &&& last.ctrl == modifiers.ctrl && last.shift != modifiers.shift
                ==> told[count]->Key_code == "ShiftLeft"@ && (told[count]->Key_key_state
                == RemoteDesktopKeyState::Pressed <==> modifiers.shift)
            &&& last.meta == modifiers.meta && last.alt != modifiers.alt ==> told.last()->Key_code
                == "AltLeft"@ && (told.last()->Key_key_state == RemoteDesktopKeyState::Pressed
                <==> modifiers.alt)
        }),
        final(session).last_input_modifiers == modifiers,
{
    assert(old(session).asked().len() == old(session).sent@.len());
}

/// The pointer goes where it was moved to, and nothing else is asked.
pub proof fn law_the_pointer_goes_where_it_is_moved(
    session: &mut RemoteDesktopSessionEntity,
    position: Option<RemoteDesktopMappedPoint>,
    res: bool,
)
    requires
        call_ensures(RemoteDesktopSessionEntity::handle_mouse_move, (session, position), res),
    ensures
        res <==> position is Some,
        position is None ==> *final(session) == *old(session),
        position is Some ==> final(session).cursor == position,
        position is Some && old(session).worker ==> final(session).sent@.len() == old(
            session).sent@.len() + 1 && final(session).sent@.last() is MouseMove && final(
            session).sent@.last()->MouseMove_x == position->0.x && final(
            session).sent@.last()->MouseMove_y == position->0.y,
{
    let after = *final(session);
    assert(old(session).asked().len() == old(session).sent@.len());
    assert(after.asked().len() == after.sent@.len());
    if position is Some && old(session).worker {
        lemma_sent(*old(session), after, after.asked().len() - 1);
    }
}

/// A button goes down or up where the pointer is, and is remembered as down exactly while it is.
pub proof fn law_buttons_go_down_and_up(
    session: &mut RemoteDesktopSessionEntity,
    position: Option<RemoteDesktopMappedPoint>,
    button: RemoteDesktopMouseButton,
    state: RemoteDesktopMouseButtonState,
    res: bool,
    other: RemoteDesktopMouseButton,
)
    requires
        call_ensures(
            RemoteDesktopSessionEntity::handle_mouse_button,
            (session, position, button, state),
            res,
        ),
    ensures
        res <==> position is Some,
        position is None ==> *final(session) == *old(session),
        position is Some ==> (final(session).pressed_mouse_buttons@.contains(button) <==> state
            == RemoteDesktopMouseButtonState::Pressed),
        position is Some && other != button ==> (final(session).pressed_mouse_buttons@.contains(other)
            <==> old(session).pressed_mouse_buttons@.contains(other)),
        position is Some && old(session).worker ==> {
            let told = final(session).sent@;
            let count = old(session).sent@.len() as int;
            &&& told.len() == count + 2
            &&& told[count] is MouseMove
            &&& told[count]->MouseMove_x == position->0.x
            &&& told[count]->MouseMove_y == position->0.y
            &&& told[count + 1] is MouseButton
            &&& told[count + 1]->MouseButton_button == button
            &&& told[count + 1]->MouseButton_button_state == state
        },
{
    let before = *old(session);
    let after = *final(session);
    assert(before.asked().len() == before.sent@.len());
    assert(after.asked().len() == after.sent@.len());
    if position is Some {
        let set = choose|set: RemoteDesktopSessionEntity|
            {
                &&& #[trigger] set.button_set(before.pointed(position->0), button, state)
                &&& after.asks(
                    set,
                    seq![
                        HelperRequest::MouseMove { x: position->0.x, y: position->0.y },
                        HelperRequest::MouseButton { button, button_state: state },
                    ],
                )
            };
        assert(set.is_pressed(button) == (state == RemoteDesktopMouseButtonState::Pressed));
        assert(set.is_pressed(other) == if other == button {
            state == RemoteDesktopMouseButtonState::Pressed
        } else {
            before.is_pressed(other)
        });
        assert(before.pointed(position->0).is_pressed(other) == before.is_pressed(other));
        if before.worker {
            lemma_sent(before, after, before.asked().len() as int);
            lemma_sent(before, after, (before.asked().len() + 1) as int);
        }
    }
}

/// A button that is let go outside the picture goes up on the other side, exactly where it was down.
pub proof fn law_buttons_let_go_outside_go_up(
    session: &mut RemoteDesktopSessionEntity,
    button: RemoteDesktopMouseButton,
    res: bool,
)
    requires
        call_ensures(RemoteDesktopSessionEntity::release_mouse_button_out, (session, button), res),
    ensures
        res <==> old(session).pressed_mouse_buttons@.contains(button),
        !final(session).pressed_mouse_buttons@.contains(button),
        !res ==> *final(session) == *old(session),
        res && old(session).worker ==> final(session).sent@.len() == old(session).sent@.len() + 1
            && final(session).sent@.last() is MouseButton && final(
            session).sent@.last()->MouseButton_button == button && final(
            session).sent@.last()->MouseButton_button_state
            == RemoteDesktopMouseButtonState::Released,
{
    let before = *old(session);
    let after = *final(session);
    assert(before.asked().len() == before.sent@.len());
    assert(after.asked().len() == after.sent@.len());
    if res {
        let set = choose|set: RemoteDesktopSessionEntity|
            {
                &&& #[trigger] set.button_set(before, button, RemoteDesktopMouseButtonState::Released)
                &&& after.asks(
                    set,
                    seq![
                        HelperRequest::MouseButton {
                            button,
                            button_state: RemoteDesktopMouseButtonState::Released,
                        },
                    ],
                )
            };
        assert(!set.is_pressed(button));
        if before.worker {
            lemma_sent(before, after, after.asked().len() - 1);
        }
    }
}

/// The wheel turns by whole steps where the pointer is; what is left of a step is kept.
pub proof fn law_the_wheel_turns_by_steps(
    session: &mut RemoteDesktopSessionEntity,
    position: Option<RemoteDesktopMappedPoint>,
    turn: WheelTurn,
    res: bool,
)
    requires
        call_ensures(RemoteDesktopSessionEntity::handle_wheel, (session, position, turn), res),
    ensures
        res <==> position is Some,
        position is None ==> *final(session) == *old(session),
        position is Some ==> final(session).wheel_remainder == turn.remainder,
        position is Some && old(session).worker && turn.steps is Some ==> {
            let last = final(session).sent@.last();
            &&& last is Wheel
            &&& turn.steps == Some((last->Wheel_delta_x, last->Wheel_delta_y))
        },
        position is Some && old(session).worker && turn.steps is None ==> final(
            session).sent@.last() is MouseMove,
{
    let before = *old(session);
    let after = *final(session);
    assert(before.asked().len() == before.sent@.len());
    assert(after.asked().len() == after.sent@.len());
    if position is Some && before.worker {
        lemma_sent(before, after, after.asked().len() - 1);
    }
}

/// The state of the lock keys is told once it changed, and then remembered.
pub proof fn law_lock_keys_are_told_once(session: &mut RemoteDesktopSessionEntity, caps: bool)
    requires
        call_ensures(RemoteDesktopSessionEntity::sync_lock_keys, (session, caps), ()),
    ensures
        final(session).last_lock_keys is Some,
        final(session).last_lock_keys->0.caps_lock == caps,
        old(session).last_lock_keys is Some ==> final(session).last_lock_keys->0.num_lock == old(
            session).last_lock_keys->0.num_lock && final(session).last_lock_keys->0.scroll_lock
            == old(session).last_lock_keys->0.scroll_lock,
        old(session).last_lock_keys is Some && old(session).last_lock_keys->0.caps_lock == caps
            ==> final(session).sent@.len() == old(session).sent@.len(),
        old(session).worker && (old(session).last_lock_keys is None || old(
            session).last_lock_keys->0.caps_lock != caps) ==> final(session).sent@.len() == old(
            session).sent@.len() + 1 && final(session).sent@.last() is SynchronizeLockKeys && final(
            session).sent@.last()->SynchronizeLockKeys_keys == final(session).last_lock_keys->0,
{
    let before = *old(session);
    let after = *final(session);
    assert(before.asked().len() == before.sent@.len());
    assert(after.asked().len() == after.sent@.len());
    if after.asked().len() > before.asked().len() {
        lemma_sent(before, after, after.asked().len() - 1);
    }
}

/// Letting everything go leaves nothing down.
pub proof fn law_releasing_leaves_nothing_down(session: &mut RemoteDesktopSessionEntity)
    requires
        call_ensures(RemoteDesktopSessionEntity::release_inputs, (session,), ()),
    ensures
        final(session).pressed_mouse_buttons@.len() == 0,
        !final(session).last_input_modifiers.alt,
        !final(session).last_input_modifiers.ctrl,
        !final(session).last_input_modifiers.shift,
        !final(session).last_input_modifiers.meta,
        final(session).last_lock_keys is None,
        final(session).wheel_remainder is None,
        old(session).worker ==> final(session).sent@.len() == old(session).sent@.len() + 1
            && final(session).sent@.last() is ReleaseAllInputs,
{
    let before = *old(session);
    let after = *final(session);
    assert(before.asked().len() == before.sent@.len());
    assert(after.asked().len() == after.sent@.len());
    if before.worker {
        lemma_sent(before, after, after.asked().len() - 1);
    }
}

/// A shortcut is a key with control alone, which goes down and up again.
pub proof fn law_shortcuts_go_down_and_up(session: &mut RemoteDesktopSessionEntity, code: &str)
    requires
        call_ensures(RemoteDesktopSessionEntity::send_control_shortcut, (session, code), ()),
        session.worker,
    ensures
        ({
            let told = final(session).sent@;
            let count = old(session).sent@.len() as int;
            &&& told.len() == count + 2
            &&& told[count] is Key && told[count + 1] is Key
            &&& told[count]->Key_key_state == RemoteDesktopKeyState::Pressed
            &&& told[count + 1]->Key_key_state == RemoteDesktopKeyState::Released
            &&& told[count]->Key_key.code@ == code@ && told[count + 1]->Key_key.code@ == code@
            &&& told[count]->Key_key.modifiers.ctrl && told[count + 1]->Key_key.modifiers.ctrl
            &&& !told[count]->Key_key.modifiers.alt && !told[count]->Key_key.modifiers.shift
            &&& !told[count]->Key_key.modifiers.meta && !told[count + 1]->Key_key.modifiers.alt
        }),
{
    let before = *old(session);
    let after = *final(session);
    assert(before.asked().len() == before.sent@.len());
    assert(after.asked().len() == after.sent@.len());
    lemma_sent(before, after, before.asked().len() as int);
    lemma_sent(before, after, (before.asked().len() + 1) as int);
}

/// Where a shortcut is used here, the modifiers that it came with do not stay down on the other side.
pub proof fn law_shortcuts_leave_no_modifier_down(
    session: &mut RemoteDesktopSessionEntity,
    modifiers: RemoteDesktopModifierState,
)
    requires
        call_ensures(
            RemoteDesktopSessionEntity::release_shortcut_modifiers,
            (session, modifiers),
            (),
        ),
    ensures
        modifiers.ctrl ==> !final(session).last_input_modifiers.ctrl,
        modifiers.meta ==> !final(session).last_input_modifiers.meta,
        modifiers.shift ==> !final(session).last_input_modifiers.shift,
        !modifiers.ctrl ==> final(session).last_input_modifiers.ctrl == old(
            session).last_input_modifiers.ctrl,
        !modifiers.meta ==> final(session).last_input_modifiers.meta == old(
            session).last_input_modifiers.meta,
        !modifiers.shift ==> final(session).last_input_modifiers.shift == old(
            session).last_input_modifiers.shift,
        final(session).last_input_modifiers.alt == old(session).last_input_modifiers.alt,
        !modifiers.ctrl && !modifiers.meta && !modifiers.shift ==> final(session).sent@.len() == old(
            session).sent@.len(),
        old(session).worker && modifiers.ctrl ==> {
            let first = final(session).sent@[old(session).sent@.len() as int];
            &&& first is Key
            &&& first->Key_key.code@ == "control"@
            &&& first->Key_key_state == RemoteDesktopKeyState::Released
        },
{
    let before = *old(session);
    let after = *final(session);
    assert(before.asked().len() == before.sent@.len());
    assert(after.asked().len() == after.sent@.len());
    if before.worker && modifiers.ctrl {
        lemma_sent(before, after, before.asked().len() as int);
    }
}

/// What the clipboard holds goes over as what it is, where both sides share that: files as files,
/// pictures as pictures, text as text. Files are never pasted as something else.
pub proof fn law_the_clipboard_goes_over_as_it_is(session: &mut RemoteDesktopSessionEntity, item: ClipboardItem)
    requires
        call_ensures(RemoteDesktopSessionEntity::paste_clipboard, (session, item), ()),
        session.worker,
        session.protocol == RemoteDesktopProtocol::Rdp,
    ensures
        ({
            let told = final(session).sent@;
            let count = old(session).sent@.len() as int;
            let files = old(session).capabilities.clipboard_files && old(session).clipboard.files;
            let pictures = old(session).capabilities.clipboard_data && old(session).clipboard.images;
            let words = old(session).capabilities.clipboard_text && old(session).clipboard.text;
            &&& item.paths is Some && files ==> told.len() == count + 1
                && told.last() is ClipboardFiles && text::seq_view(
                told.last()->ClipboardFiles_paths@,
            ) == text::seq_view(item.paths->0@)
            &&& item.paths is Some && !files ==> told.len() == count
            &&& item.paths is None && pictures && item.data is Some ==> told.len() == count + 1
                && told.last() is ClipboardData && told.last()->ClipboardData_data == item.data->0
            &&& item.paths is None && !(pictures && item.data is Some) && item.text is Some && words
                && item.text->0@.len() > 0 ==> told.len() == count + 1 && told.last() is PasteText
                && told.last()->PasteText_secret@ == item.text->0@
            &&& item.paths is None && !(pictures && item.data is Some) && (item.text is None || !words
                || item.text->0@.len() == 0) ==> told.len() == count
        }),
{
    let before = *old(session);
    let after = *final(session);
    assert(before.asked().len() == before.sent@.len());
    assert(after.asked().len() == after.sent@.len());
    if after.asked().len() > before.asked().len() {
        lemma_sent(before, after, after.asked().len() - 1);
    }
}

/// On a desktop of the other protocol text is both put into its clipboard and typed.
pub proof fn law_text_is_shared_and_typed(session: &mut RemoteDesktopSessionEntity, item: ClipboardItem)
    requires
        call_ensures(RemoteDesktopSessionEntity::paste_clipboard, (session, item), ()),
        session.worker,
        session.protocol == RemoteDesktopProtocol::Vnc,
        session.capabilities.clipboard_text && session.clipboard.text,
        item.paths is None && item.data is None && item.text is Some,
        item.text->0@.len() > 0,
    ensures
        ({
            let told = final(session).sent@;
            let count = old(session).sent@.len() as int;
            &&& told.len() == count + 2
            &&& told[count] is ClipboardText && told[count]->ClipboardText_words@ == item.text->0@
            &&& told[count + 1] is Text && told[count + 1]->Text_words@ == item.text->0@
        }),
{
    let before = *old(session);
    let after = *final(session);
    assert(before.asked().len() == before.sent@.len());
    assert(after.asked().len() == after.sent@.len());
    lemma_sent(before, after, before.asked().len() as int);
    lemma_sent(before, after, (before.asked().len() + 1) as int);
}

/// A desktop of the other protocol takes files and pictures only where that was agreed on.
pub proof fn law_transfers_need_agreement(session: &mut RemoteDesktopSessionEntity, item: ClipboardItem)
    requires
        call_ensures(RemoteDesktopSessionEntity::paste_clipboard, (session, item), ()),
        session.worker,
        session.protocol == RemoteDesktopProtocol::Vnc,
        item.paths is Some,
    ensures
        final(session).sent@.len() > old(session).sent@.len() <==> {
            &&& old(session).capabilities.clipboard_files
            &&& old(session).clipboard.files
            &&& old(session).negotiated is Some
            &&& old(session).negotiated->0.vendor_file_upload
        },
{
    let before = *old(session);
    let after = *final(session);
    assert(before.asked().len() == before.sent@.len());
    assert(after.asked().len() == after.sent@.len());
}

/// What is asked of a session that runs is sent, in order; a size is asked for only where it can be
/// changed; and only closing ends a session that does not run.
pub proof fn law_requests_are_sent(session: &mut RemoteDesktopSessionEntity, request: RemoteDesktopHelperRequest)
    requires
        call_ensures(RemoteDesktopSessionEntity::send_request, (session, request), ()),
    ensures
        old(session).worker && (!(request is Resize) || old(session).capabilities.resize)
            ==> final(session).sent@.len() == old(session).sent@.len() + 1 && final(
            session).sent@.last()@ == request@,
        request is Resize && !old(session).capabilities.resize ==> *final(session) == *old(session),
        request is Resize && old(session).capabilities.resize ==> final(session).resize_requested
            == Some((request->Resize_width, request->Resize_height)),
        final(session).disconnected <==> old(session).disconnected || (request is Close && !old(
            session).worker),
        !old(session).worker ==> final(session).sent == old(session).sent,
{
    let before = *old(session);
    let after = *final(session);
    assert(before.asked().len() == before.sent@.len());
    assert(after.asked().len() == after.sent@.len());
    assert(request@ is Resize <==> request is Resize);
    assert(request@ is Close <==> request is Close);
    if after.asked().len() > before.asked().len() {
        lemma_sent(before, after, after.asked().len() - 1);
    }
}

/// A key that is input goes over, and with it the lock keys where it is one of them; a key that pastes
/// or copies does not.
pub proof fn law_only_input_goes_over(session: &mut RemoteDesktopSessionEntity, keystroke: &Keystroke, role: KeyRole)
    requires
        call_ensures(RemoteDesktopSessionEntity::forward_key_up, (session, keystroke, role), ()),
    ensures
        role != KeyRole::Input ==> *final(session) == *old(session),
        role == KeyRole::Input && old(session).worker ==> {
            let last = final(session).sent@.last();
            &&& last is Key
            &&& last->Key_key.code@ == keystroke.key@
            &&& last->Key_key_state == RemoteDesktopKeyState::Released
            &&& last->Key_key.modifiers == keystroke.modifiers
        },
{
    let before = *old(session);
    let after = *final(session);
    if role == KeyRole::Input && before.worker {
        assert(after.asked().len() == after.sent@.len());
        assert(before.asked().len() == before.sent@.len());
        lemma_sent(before, after, after.asked().len() - 1);
        assert(after.asked()[after.asked().len() - 1] is Key);
    }
}

/// A key that goes down as input is the last thing asked, unless it is a lock key, whose state follows.
pub proof fn law_input_goes_down(
    session: &mut RemoteDesktopSessionEntity,
    keystroke: &Keystroke,
    clipboard: Option<ClipboardItem>,
    locks: Option<RemoteDesktopLockKeys>,
)
    requires
        call_ensures(
            RemoteDesktopSessionEntity::forward_key_down,
            (session, keystroke, KeyRole::Input, clipboard, locks),
            (),
        ),
        session.worker,
    ensures
        locks is None ==> {
            let last = final(session).sent@.last();
            &&& last is Key
            &&& last->Key_key.code@ == keystroke.key@
            &&& last->Key_key_state == RemoteDesktopKeyState::Pressed
            &&& last->Key_key.modifiers == keystroke.modifiers
        },
        locks is Some ==> final(session).last_lock_keys == locks,
        locks is Some && old(session).last_lock_keys != locks ==> final(
            session).sent@.last() is SynchronizeLockKeys && final(
            session).sent@.last()->SynchronizeLockKeys_keys == locks->0,
        final(session).last_input_modifiers == keystroke.modifiers,
{
    let before = *old(session);
    let after = *final(session);
    assert(after.asked().len() == after.sent@.len());
    let used = choose|used: RemoteDesktopSessionEntity|
        {
            &&& #[trigger] used.key_used(before, *keystroke, RemoteDesktopKeyState::Pressed)
            &&& match locks {
                Some(keys) => after.locks_told(used, keys),
                None => after == used,
            }
        };
    assert(used.asked().len() == used.sent@.len());
    assert(used.asked().last() is Key);
    lemma_sent(before, after, after.asked().len() - 1);
}

/// A key that copies here asks the other side to copy, with the modifiers let go first.
pub proof fn law_copying_asks_the_other_side(
    session: &mut RemoteDesktopSessionEntity,
    keystroke: &Keystroke,
    clipboard: Option<ClipboardItem>,
    locks: Option<RemoteDesktopLockKeys>,
)
    requires
        call_ensures(
            RemoteDesktopSessionEntity::forward_key_down,
            (session, keystroke, KeyRole::Copy, clipboard, locks),
            (),
        ),
        session.worker,
    ensures
        ({
            let told = final(session).sent@;
            let last = told.last();
            &&& told.len() >= old(session).sent@.len() + 2
            &&& last is Key
            &&& last->Key_key.code@ == "c"@
            &&& last->Key_key.modifiers.ctrl
            &&& last->Key_key_state == RemoteDesktopKeyState::Released
        }),
        keystroke.modifiers.ctrl ==> !final(session).last_input_modifiers.ctrl,
        keystroke.modifiers.meta ==> !final(session).last_input_modifiers.meta,
{
    let before = *old(session);
    let after = *final(session);
    assert(before.asked().len() == before.sent@.len());
    assert(after.asked().len() == after.sent@.len());
    lemma_sent(before, after, after.asked().len() - 1);
}

} // verus!
