//! The dispatch window: messages that arrive on the thread of the web view controller.

use vstd::prelude::*;

use crate::window_layer::messages;
use crate::window_layer::messages::{
    signed_dword_of, unpack_mouse, MessageParams, MouseInput, MOUSE_LDOWN, MOUSE_MDOWN, MOUSE_MOVE,
    MOUSE_RDOWN, WM_DISPLAYCHANGE, WM_MWP_MOUSE, WM_MWP_SETBOUNDS_PUB, WM_NCCALCSIZE, WM_NCDESTROY,
    WM_SETTINGCHANGE, WM_WTSSESSION_CHANGE, WTS_SESSION_LOCK, WTS_SESSION_UNLOCK,
};
use crate::window_layer::mouse_hook::HookState;

verus! {

/// What a message to the dispatch window asks for.
#[derive(Clone, Copy, PartialEq, Eq, Debug, Structural)]
pub enum Dispatched {
    /// Nothing, the message is done with.
    Handled,
    /// Give the web view these bounds.
    SetBounds { controller: isize, width: i32, height: i32 },
    /// Send the web view this input, after the move where there is one.
    SendMouse { controller: isize, sync: Option<MouseInput>, input: MouseInput },
    /// The monitors have changed.
    DisplayChange,
    /// The mouse settings may have changed.
    SettingsChange,
    /// The window has no interest in the message.
    Default,
}

pub open spec fn is_press(kind: i32) -> bool {
    kind == MOUSE_LDOWN || kind == MOUSE_RDOWN || kind == MOUSE_MDOWN
}

/// What a packed mouse input asks for: a press is preceded by a move to where it happens, so that
/// the web view has the cursor there.
pub open spec fn mouse_dispatch(controller: isize, input: MouseInput) -> Dispatched {
    Dispatched::SendMouse {
        controller,
        sync: if is_press(input.kind) {
            Some(MouseInput { kind: MOUSE_MOVE, data: 0, ..input })
        } else {
            None
        },
        input,
    }
}

/// Whether the session counts as active after a message.
pub open spec fn session_after(active: bool, msg: u32, wparam: u64) -> bool {
    if msg != WM_WTSSESSION_CHANGE {
        active
    } else if messages::low_dword(wparam as int) == WTS_SESSION_LOCK {
        false
    } else if messages::low_dword(wparam as int) == WTS_SESSION_UNLOCK {
        true
    } else {
        active
    }
}

/// What a message asks for.
pub open spec fn dispatched(controller: isize, msg: u32, params: MessageParams) -> Dispatched {
    let wparam = params.wparam as int;
    let lparam = params.lparam as int;
    if msg == WM_MWP_SETBOUNDS_PUB {
        if controller == 0 {
            Dispatched::Handled
        } else {
            Dispatched::SetBounds {
                controller,
                width: messages::signed_dword(wparam) as i32,
                height: messages::signed_dword(lparam) as i32,
            }
        }
    } else if msg == WM_MWP_MOUSE {
        if controller == 0 {
            Dispatched::Handled
        } else {
            mouse_dispatch(controller, messages::unpacked_input(wparam, lparam))
        }
    } else if msg == WM_WTSSESSION_CHANGE {
        Dispatched::Handled
    } else if msg == WM_DISPLAYCHANGE {
        Dispatched::DisplayChange
    } else if msg == WM_SETTINGCHANGE {
        Dispatched::SettingsChange
    } else {
        Dispatched::Default
    }
}

/// Decides what a message to the dispatch window asks for, and keeps track of the session.
pub fn dispatch_wnd_proc(state: &mut HookState, msg: u32, params: MessageParams) -> (r: Dispatched)
    ensures
        r == dispatched(old(state).comp_controller_ptr, msg, params),
        *final(state) == (HookState {
            session_active: session_after(old(state).session_active, msg, params.wparam),
            ..*old(state)
        }),
{
    let controller: isize = state.comp_controller_ptr;
    if msg == WM_MWP_SETBOUNDS_PUB {
        if controller == 0 {
            return Dispatched::Handled;
        }
        let height_bits: u64 = params.lparam as u32 as u64;
        let l: i64 = params.lparam;
        assert(height_bits == l % 0x1_0000_0000) by (bit_vector)
            requires
                height_bits == l as u32 as u64,
        ;
        return Dispatched::SetBounds {
            controller,
            width: signed_dword_of(params.wparam),
            height: signed_dword_of(height_bits),
        };
    }
    if msg == WM_MWP_MOUSE {
        if controller == 0 {
            return Dispatched::Handled;
        }
        let input = unpack_mouse(params);
        let press = input.kind == MOUSE_LDOWN || input.kind == MOUSE_RDOWN || input.kind
            == MOUSE_MDOWN;
        let sync: Option<MouseInput> = if press {
            Some(MouseInput { kind: MOUSE_MOVE, vk: input.vk, data: 0, x: input.x, y: input.y })
        } else {
            None
        };
        return Dispatched::SendMouse { controller, sync, input };
    }
    if msg == WM_WTSSESSION_CHANGE {
        let change: u64 = params.wparam % 0x1_0000_0000;
        if change == WTS_SESSION_LOCK as u64 {
            state.session_active = false;
        } else if change == WTS_SESSION_UNLOCK as u64 {
            state.session_active = true;
        }
        return Dispatched::Handled;
    }
    if msg == WM_DISPLAYCHANGE {
        return Dispatched::DisplayChange;
    }
    if msg == WM_SETTINGCHANGE {
        return Dispatched::SettingsChange;
    }
    Dispatched::Default
}

/// What an injected window does with a message of its own.
#[derive(Clone, Copy, PartialEq, Eq, Debug, Structural)]
pub enum FrameMessage {
    /// The whole window is client area: answer 0.
    NoFrame,
    /// The window is going away: take the subclass off, then handle the message as usual.
    Detach,
    /// Handle the message as usual.
    Default,
}

/// Keeps an injected window free of borders, whatever its styles say.
pub fn nccalc_subclass_proc(msg: u32) -> (r: FrameMessage)
    ensures
        r == if msg == WM_NCCALCSIZE {
            FrameMessage::NoFrame
        } else if msg == WM_NCDESTROY {
            FrameMessage::Detach
        } else {
            FrameMessage::Default
        },
{
    if msg == WM_NCCALCSIZE {
        FrameMessage::NoFrame
    } else if msg == WM_NCDESTROY {
        FrameMessage::Detach
    } else {
        FrameMessage::Default
    }
}

/// A mouse input that was packed for the dispatch window is what the web view gets, where its
/// kind and key state fit sixteen bits and its point fits sixteen signed bits.
pub proof fn lemma_packed_input_is_dispatched(controller: isize, m: MouseInput, p: MessageParams)
    requires
        controller != 0,
        0 <= m.kind < 0x1_0000,
        0 <= m.vk < 0x1_0000,
        -0x8000 <= m.x < 0x8000,
        -0x8000 <= m.y < 0x8000,
        (p.wparam as int, p.lparam as int) == messages::packed_input(m),
    ensures
        dispatched(controller, WM_MWP_MOUSE, p) == mouse_dispatch(controller, m),
{
    messages::lemma_mouse_input_round_trip(m);
}

/// Locking the session stops the hooks and unlocking it starts them again, whatever other
/// messages come in between.
pub proof fn lemma_session_follows_lock(active: bool, msg: u32, wparam: u64)
    ensures
        !session_after(active, WM_WTSSESSION_CHANGE, WTS_SESSION_LOCK as u64),
        session_after(active, WM_WTSSESSION_CHANGE, WTS_SESSION_UNLOCK as u64),
        msg != WM_WTSSESSION_CHANGE ==> session_after(active, msg, wparam) == active,
{
}

/// A message to the dispatch window goes by its number. Bounds are the low thirty-two bits of the
/// two parameters, with their signs, and go to the controller, if there is one. So does a mouse
/// input, after a move to the same point with the same key state where it is a press of any
/// button. A change of the session, the monitors or the settings is told apart, and every other
/// message is left alone.
#[verifier::rlimit(40)]
pub proof fn lemma_what_a_message_asks_for(controller: isize, msg: u32, params: MessageParams)
    ensures
        ({
            let d = dispatched(controller, msg, params);
            &&& d is Handled <==> msg == WM_WTSSESSION_CHANGE || controller == 0 && (msg
                == WM_MWP_MOUSE || msg == WM_MWP_SETBOUNDS_PUB)
            &&& d is SetBounds <==> controller != 0 && msg == WM_MWP_SETBOUNDS_PUB
            &&& d is SendMouse <==> controller != 0 && msg == WM_MWP_MOUSE
            &&& d is DisplayChange <==> msg == WM_DISPLAYCHANGE
            &&& d is SettingsChange <==> msg == WM_SETTINGCHANGE
            &&& d matches Dispatched::SetBounds { controller: c, width, height } ==> {
                &&& c == controller
                &&& (params.wparam - width) % 0x1_0000_0000 == 0
                &&& (params.lparam - height) % 0x1_0000_0000 == 0
            }
            &&& d matches Dispatched::SendMouse { controller: c, sync, input } ==> {
                &&& c == controller
                &&& input == messages::unpacked_input(params.wparam as int, params.lparam as int)
                &&& sync is Some <==> input.kind == MOUSE_LDOWN || input.kind == MOUSE_RDOWN
                    || input.kind == MOUSE_MDOWN
                &&& sync matches Some(m) ==> {
                    &&& m.kind == MOUSE_MOVE && m.data == 0
                    &&& m.vk == input.vk && m.x == input.x && m.y == input.y
                }
            }
        }),
{
}

/// Only the low thirty-two bits of a session change count: seven locks the session, eight unlocks
/// it, and every other change leaves it as it was.
pub proof fn lemma_session_changes(active: bool, wparam: u64)
    ensures
        session_after(active, WM_WTSSESSION_CHANGE, wparam) <==> {
            ||| wparam % 0x1_0000_0000 == 8
            ||| active && wparam % 0x1_0000_0000 != 7
        },
{
}

/// An injected window answers only the question for its client area itself, and lets go of its
/// subclass when it goes away.
pub proof fn lemma_frame_messages(msg: u32, r: FrameMessage)
    requires
        call_ensures(nccalc_subclass_proc, (msg,), r),
    ensures
        r is NoFrame <==> msg == 0x83,
        r is Detach <==> msg == 0x82,
{
}

} // verus!
