//! The low-level keyboard hook: key events for the web view in interface mode.

use vstd::prelude::*;

use crate::window_layer::messages::{
    MessageParams, WM_CHAR, WM_KEYDOWN, WM_KEYUP, WM_SYSCHAR, WM_SYSKEYDOWN, WM_SYSKEYUP,
};
use crate::window_layer::mouse_hook::{HookState, PostedMessage};

verus! {

/// One key event as the platform reports it.
#[derive(Clone, Copy, PartialEq, Eq, Debug, Structural)]
pub struct KeyEvent {
    pub msg: u32,
    pub vk_code: u32,
    pub scan_code: u32,
    pub flags: u32,
}

/// A key message for the web view's render window.
#[derive(Clone, Copy, PartialEq, Eq, Debug, Structural)]
pub struct KeyPost {
    pub hwnd: isize,
    pub msg: u32,
    pub params: MessageParams,
    /// For a key that goes down: the message that carries each character it types.
    pub char_msg: Option<u32>,
}

pub open spec fn is_key_up(msg: u32) -> bool {
    msg == WM_KEYUP || msg == WM_SYSKEYUP
}

pub open spec fn is_key_down(msg: u32) -> bool {
    msg == WM_KEYDOWN || msg == WM_SYSKEYDOWN
}

pub open spec fn is_system_key(msg: u32) -> bool {
    msg == WM_SYSKEYDOWN || msg == WM_SYSKEYUP
}

/// The second parameter of a key message: a repeat count of 1, the scan code in bits 16 to 23,
/// the extended key flag in bit 24, the context code in bit 29, and the previous and transition
/// states in bits 30 and 31.
pub open spec fn key_lparam(ev: KeyEvent) -> int {
    1 + 0x1_0000 * (ev.scan_code % 0x100) + (if ev.flags % 2 == 1 {
        0x100_0000int
    } else {
        0
    }) + (if is_system_key(ev.msg) {
        0x2000_0000int
    } else {
        0
    }) + (if is_key_up(ev.msg) {
        0xC000_0000int
    } else {
        0
    })
}

/// The message for a key event in the web view: none, unless interface mode is on and the render
/// window is known. A key that goes down may type characters.
pub open spec fn key_post(state: HookState, code: i32, ev: KeyEvent) -> Option<KeyPost> {
    if code < 0 || !state.interface_mode || state.chrome_rwhh == 0 {
        None
    } else {
        Some(
            KeyPost {
                hwnd: state.chrome_rwhh,
                msg: ev.msg,
                params: MessageParams {
                    wparam: ev.vk_code as u64,
                    lparam: key_lparam(ev) as i64,
                },
                char_msg: if !is_key_down(ev.msg) {
                    None
                } else if is_system_key(ev.msg) {
                    Some(WM_SYSCHAR)
                } else {
                    Some(WM_CHAR)
                },
            },
        )
    }
}

/// What a key event becomes for the web view. The event itself is always handed to the next hook.
pub fn keyboard_hook_proc(state: &HookState, code: i32, ev: KeyEvent) -> (r: Option<KeyPost>)
    ensures
        r == key_post(*state, code, ev),
        r matches Some(p) ==> p.params.lparam == key_lparam(ev),
{
    if code < 0 || !state.interface_mode || state.chrome_rwhh == 0 {
        return None;
    }
    let is_up = ev.msg == WM_KEYUP || ev.msg == WM_SYSKEYUP;
    let is_sys = ev.msg == WM_SYSKEYDOWN || ev.msg == WM_SYSKEYUP;
    let scan: i64 = (ev.scan_code % 0x100) as i64;
    let extended: i64 = if ev.flags % 2 == 1 { 0x100_0000 } else { 0 };
    let context: i64 = if is_sys { 0x2000_0000 } else { 0 };
    let transition: i64 = if is_up { 0xC000_0000 } else { 0 };
    let lparam: i64 = 1 + 0x1_0000 * scan + extended + context + transition;
    let char_msg: Option<u32> = if ev.msg == WM_KEYDOWN {
        Some(WM_CHAR)
    } else if ev.msg == WM_SYSKEYDOWN {
        Some(WM_SYSCHAR)
    } else {
        None
    };
    Some(
        KeyPost {
            hwnd: state.chrome_rwhh,
            msg: ev.msg,
            params: MessageParams { wparam: ev.vk_code as u64, lparam },
            char_msg,
        },
    )
}

/// Whether a key is held, by its entry in the keyboard state table.
pub fn key_is_held(entry: u8) -> (r: bool)
    ensures
        r == (entry >= 0x80),
{
    entry >= 0x80
}

/// The first parameters of the character messages that follow a key going down: one for each of
/// the first `count` characters that the key was translated to, none where the translation
/// yielded none.
pub fn typed_chars(count: i32, chars: &[u16; 4]) -> (r: Vec<u64>)
    requires
        count <= 4,
    ensures
        count <= 0 ==> r@.len() == 0,
        count > 0 ==> r@.len() == count,
        forall|i: int| 0 <= i < r@.len() ==> r@[i] == #[trigger] chars@[i],
{
    let mut out: Vec<u64> = Vec::new();
    let n: usize = if count > 0 { count as usize } else { 0 };
    let mut i: usize = 0;
    while i < n
        invariant
            i <= n <= 4,
            out@.len() == i,
            forall|j: int| 0 <= j < i ==> out@[j] == #[trigger] chars@[j],
        decreases n - i,
    {
        out.push(chars[i] as u64);
        i += 1;
    }
    out
}

/// Characters may follow a key message: the key goes down, and the control key is not held.
/// `control` is the control key's entry in the keyboard state table.
pub open spec fn may_type(post: KeyPost, control: u8) -> bool {
    post.char_msg is Some && control < 0x80
}

/// Whether to translate the key into characters.
pub fn types_characters(post: &KeyPost, control: u8) -> (r: bool)
    ensures
        r == may_type(*post, control),
{
    match post.char_msg {
        Some(_) => !key_is_held(control),
        None => false,
    }
}

/// The character messages that follow a key message: one for each of the first `count` characters
/// that the key types, with the key's own second parameter. None follow while the control key is
/// held, so that a shortcut is not typed as well.
pub open spec fn char_messages(
    post: KeyPost,
    control: u8,
    count: i32,
    chars: Seq<u16>,
) -> Seq<PostedMessage> {
    if may_type(post, control) && count > 0 {
        Seq::new(
            count as nat,
            |i: int|
                PostedMessage {
                    msg: post.char_msg->0,
                    params: MessageParams {
                        wparam: chars[i] as u64,
                        lparam: post.params.lparam,
                    },
                },
        )
    } else {
        Seq::empty()
    }
}

/// Lists the character messages that follow a key message.
pub fn character_messages(post: &KeyPost, control: u8, count: i32, chars: &[u16; 4]) -> (r: Vec<
    PostedMessage,
>)
    requires
        count <= 4,
    ensures
        r@ == char_messages(*post, control, count, chars@),
        r@.len() > 0 <==> post.char_msg is Some && control < 0x80 && count > 0,
        r@.len() > 0 ==> r@.len() == count,
        forall|i: int|
            0 <= i < r@.len() ==> {
                &&& (#[trigger] r@[i]).msg == post.char_msg->0
                &&& r@[i].params.wparam == chars@[i]
                &&& r@[i].params.lparam == post.params.lparam
            },
{
    let mut out: Vec<PostedMessage> = Vec::new();
    if !types_characters(post, control) {
        return out;
    }
    let msg: u32 = match post.char_msg {
        Some(msg) => msg,
        None => return out,
    };
    let typed = typed_chars(count, chars);
    let mut i: usize = 0;
    while i < typed.len()
        invariant
            i <= typed@.len(),
            may_type(*post, control),
            post.char_msg == Some(msg),
            typed@.len() == if count > 0 {
                count as int
            } else {
                0
            },
            forall|j: int| 0 <= j < typed@.len() ==> typed@[j] == #[trigger] chars@[j],
            out@.len() == i,
            forall|j: int|
                0 <= j < i ==> #[trigger] out@[j] == char_messages(
                    *post,
                    control,
                    count,
                    chars@,
                )[j],
        decreases typed@.len() - i,
    {
        assert(typed@[i as int] == chars@[i as int]);
        let params = MessageParams { wparam: typed[i], lparam: post.params.lparam };
        out.push(PostedMessage { msg, params });
        i += 1;
    }
    assert(out@ =~= char_messages(*post, control, count, chars@));
    out
}

/// Characters follow only a key that goes down while the control key is not held.
pub proof fn lemma_only_plain_key_down_types(
    state: HookState,
    code: i32,
    ev: KeyEvent,
    control: u8,
    count: i32,
    chars: Seq<u16>,
)
    ensures
        key_post(state, code, ev) matches Some(post) ==> char_messages(
            post,
            control,
            count,
            chars,
        ).len() > 0 ==> is_key_down(ev.msg) && control < 0x80,
{
}

/// A key event is posted exactly in interface mode, with a render window, where the platform does
/// not ask to leave it alone. The message is the event's own, the first parameter the key. Of the
/// second, the low word counts one press, the next byte is the scan code, the bit above says
/// whether the key is an extended one, whichever way it goes, the four above are clear, the next
/// says whether the key belongs to the system, and the last two whether it goes up.
#[verifier::rlimit(40)]
pub proof fn lemma_key_message_fields(state: HookState, code: i32, ev: KeyEvent)
    ensures
        key_post(state, code, ev) is Some <==> code >= 0 && state.interface_mode
            && state.chrome_rwhh != 0,
        key_post(state, code, ev) matches Some(post) ==> {
            let l = post.params.lparam as int;
            let up = ev.msg == WM_KEYUP || ev.msg == WM_SYSKEYUP;
            let system = ev.msg == WM_SYSKEYDOWN || ev.msg == WM_SYSKEYUP;
            &&& post.hwnd == state.chrome_rwhh && post.msg == ev.msg
            &&& post.params.wparam == ev.vk_code
            &&& 0 <= l < 0x1_0000_0000
            &&& l % 0x1_0000 == 1
            &&& (l / 0x1_0000) % 0x100 == ev.scan_code % 0x100
            &&& (l / 0x100_0000) % 2 == ev.flags % 2
            &&& (l / 0x200_0000) % 0x10 == 0
            &&& (l / 0x2000_0000) % 2 == 1 <==> system
            &&& (l / 0x4000_0000) % 2 == 1 <==> up
            &&& l / 0x8000_0000 == 1 <==> up
        },
{
}

/// Pressing and releasing one key gives two messages for the same key: their second parameters
/// differ in the two top bits alone.
#[verifier::rlimit(40)]
pub proof fn lemma_release_is_of_the_pressed_key(state: HookState, down: KeyEvent, up: KeyEvent)
    requires
        down.msg == WM_KEYDOWN && up.msg == WM_KEYUP || down.msg == WM_SYSKEYDOWN && up.msg
            == WM_SYSKEYUP,
        down.vk_code == up.vk_code && down.scan_code == up.scan_code,
        down.flags % 2 == up.flags % 2,
        state.interface_mode && state.chrome_rwhh != 0,
    ensures
        ({
            let pressed = key_post(state, 0, down)->0.params;
            let released = key_post(state, 0, up)->0.params;
            &&& pressed.wparam == released.wparam
            &&& released.lparam - pressed.lparam == 0xC000_0000
        }),
{
}

/// A key that goes down types characters by the plain or the system message, as it is a plain key
/// or one of the system; no other key message types any.
pub proof fn lemma_which_message_carries_characters(state: HookState, code: i32, ev: KeyEvent)
    ensures
        key_post(state, code, ev) matches Some(post) ==> {
            &&& post.char_msg == Some(WM_CHAR) <==> ev.msg == WM_KEYDOWN
            &&& post.char_msg == Some(WM_SYSCHAR) <==> ev.msg == WM_SYSKEYDOWN
            &&& post.char_msg is None <==> ev.msg != WM_KEYDOWN && ev.msg != WM_SYSKEYDOWN
        },
{
}

/// A key is held exactly if the top bit of its entry is set.
pub proof fn lemma_held_by_the_top_bit(entry: u8, r: bool)
    requires
        call_ensures(key_is_held, (entry,), r),
    ensures
        r <==> entry & 0x80u8 == 0x80u8,
{
    assert(entry >= 0x80u8 <==> entry & 0x80u8 == 0x80u8) by (bit_vector);
}

} // verus!
