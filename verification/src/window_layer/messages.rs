//! Window messages and the packing of mouse input into message parameters.

use vstd::prelude::*;

verus! {

pub const WM_NULL: u32 = 0x0000;

pub const WM_SETTINGCHANGE: u32 = 0x001A;

pub const WM_CONTEXTMENU: u32 = 0x007B;

pub const WM_DISPLAYCHANGE: u32 = 0x007E;

pub const WM_NCDESTROY: u32 = 0x0082;

pub const WM_NCCALCSIZE: u32 = 0x0083;

pub const WM_KEYDOWN: u32 = 0x0100;

pub const WM_KEYUP: u32 = 0x0101;

pub const WM_CHAR: u32 = 0x0102;

pub const WM_SYSKEYDOWN: u32 = 0x0104;

pub const WM_SYSKEYUP: u32 = 0x0105;

pub const WM_SYSCHAR: u32 = 0x0106;

pub const WM_MOUSEMOVE: u32 = 0x0200;

pub const WM_LBUTTONDOWN: u32 = 0x0201;

pub const WM_LBUTTONUP: u32 = 0x0202;

pub const WM_LBUTTONDBLCLK: u32 = 0x0203;

pub const WM_RBUTTONDOWN: u32 = 0x0204;

pub const WM_RBUTTONUP: u32 = 0x0205;

pub const WM_MBUTTONDOWN: u32 = 0x0207;

pub const WM_MBUTTONUP: u32 = 0x0208;

pub const WM_MOUSEWHEEL: u32 = 0x020A;

pub const WM_MOUSEHWHEEL: u32 = 0x020E;

pub const WM_MOUSELEAVE: u32 = 0x02A3;

pub const WM_WTSSESSION_CHANGE: u32 = 0x02B1;

pub const WTS_SESSION_LOCK: u32 = 0x7;

pub const WTS_SESSION_UNLOCK: u32 = 0x8;

/// First message number that an application may use for itself.
pub const WM_APP: u32 = 0x8000;

/// Carries one packed mouse input to the dispatch window.
pub const WM_MWP_MOUSE: u32 = WM_APP + 42;

/// Carries new web view bounds to the dispatch window.
pub const WM_MWP_SETBOUNDS_PUB: u32 = WM_APP + 43;

/// First message number of the list view control.
pub const LVM_FIRST: u32 = 0x1000;

pub const LVM_GETITEMRECT: u32 = LVM_FIRST + 14;

pub const LVM_SETITEMPOSITION: u32 = LVM_FIRST + 15;

pub const LVM_GETITEMPOSITION: u32 = LVM_FIRST + 16;

pub const LVM_HITTEST: u32 = LVM_FIRST + 18;

pub const LVM_SETHOTITEM: u32 = LVM_FIRST + 60;

pub const MOUSE_MOVE: i32 = 0x0200;

pub const MOUSE_LDOWN: i32 = 0x0201;

pub const MOUSE_LUP: i32 = 0x0202;

pub const MOUSE_RDOWN: i32 = 0x0204;

pub const MOUSE_RUP: i32 = 0x0205;

pub const MOUSE_MDOWN: i32 = 0x0207;

pub const MOUSE_MUP: i32 = 0x0208;

pub const MOUSE_WHEEL: i32 = 0x020A;

pub const MOUSE_HWHEEL: i32 = 0x020E;

pub const MK_NONE: i32 = 0x0;

pub const MK_LBUTTON: i32 = 0x0001;

pub const MK_RBUTTON: i32 = 0x0002;

pub const MK_MBUTTON: i32 = 0x0010;

/// A point, in the coordinates that the surrounding text names.
#[derive(Clone, Copy, PartialEq, Eq, Debug, Structural)]
pub struct Point {
    pub x: i32,
    pub y: i32,
}

/// One mouse input as the web view controller takes it.
#[derive(Clone, Copy, PartialEq, Eq, Debug, Structural)]
pub struct MouseInput {
    pub kind: i32,
    pub vk: i32,
    pub data: u32,
    pub x: i32,
    pub y: i32,
}

/// The two parameters of a window message.
#[derive(Clone, Copy, PartialEq, Eq, Debug, Structural)]
pub struct MessageParams {
    pub wparam: u64,
    pub lparam: i64,
}

/// The low sixteen bits of `v`, read as an unsigned number.
pub open spec fn low_word(v: int) -> int {
    v % 0x1_0000
}

/// The low thirty-two bits of `v`, read as an unsigned number.
pub open spec fn low_dword(v: int) -> int {
    v % 0x1_0000_0000
}

/// The low sixteen bits of `v`, read as a signed number.
pub open spec fn signed_word(v: int) -> int {
    if low_word(v) < 0x8000 {
        low_word(v)
    } else {
        low_word(v) - 0x1_0000
    }
}

/// The low thirty-two bits of `v`, read as a signed number.
pub open spec fn signed_dword(v: int) -> int {
    if low_dword(v) < 0x8000_0000 {
        low_dword(v)
    } else {
        low_dword(v) - 0x1_0000_0000
    }
}

/// A point packed into one parameter: `x` in the low word, `y` in the next.
pub open spec fn packed_point(x: int, y: int) -> int {
    low_word(x) + 0x1_0000 * low_word(y)
}

/// A mouse input packed into the two parameters of a message.
pub open spec fn packed_input(m: MouseInput) -> (int, int) {
    (
        low_word(m.kind as int) + 0x1_0000 * low_word(m.vk as int) + 0x1_0000_0000 * m.data,
        packed_point(m.x as int, m.y as int),
    )
}

/// The mouse input that the two parameters of a message stand for.
pub open spec fn unpacked_input(wparam: int, lparam: int) -> MouseInput {
    MouseInput {
        kind: low_word(wparam) as i32,
        vk: low_word(wparam / 0x1_0000) as i32,
        data: low_dword(wparam / 0x1_0000_0000) as u32,
        x: signed_word(lparam) as i32,
        y: signed_word(lparam / 0x1_0000) as i32,
    }
}

/// The low word of a number.
pub fn word_of(v: i64) -> (r: u32)
    ensures
        r == low_word(v as int),
        r < 0x1_0000,
{
    let r: u32 = v as u16 as u32;
    assert(r == v % 0x1_0000 && r < 0x1_0000) by (bit_vector)
        requires
            r == v as u16 as u32,
    ;
    r
}

/// The low word of a number, with its sign.
pub fn signed_word_of(v: i64) -> (r: i32)
    ensures
        r == signed_word(v as int),
        -0x8000 <= r < 0x8000,
{
    let w: u32 = word_of(v);
    if w < 0x8000 {
        w as i32
    } else {
        w as i32 - 0x1_0000
    }
}

/// The low double word of a number, with its sign.
pub fn signed_dword_of(v: u64) -> (r: i32)
    ensures
        r == signed_dword(v as int),
{
    let w: u64 = v % 0x1_0000_0000;
    if w < 0x8000_0000 {
        w as i32
    } else {
        (w as i64 - 0x1_0000_0000) as i32
    }
}

/// Packs two screen or client coordinates into a message's second parameter.
pub fn make_lparam(x: i32, y: i32) -> (r: i64)
    ensures
        r == packed_point(x as int, y as int),
{
    word_of(x as i64) as i64 + 0x1_0000 * (word_of(y as i64) as i64)
}

/// Packs a client point, moved back by an offset, into a message's second parameter.
pub fn offset_lparam(client: Point, offset_x: i64, offset_y: i64) -> (r: i64)
    ensures
        r == packed_point(client.x - offset_x, client.y - offset_y),
{
    let x: u32 = (word_of(client.x as i64) + 0x1_0000 - word_of(offset_x)) % 0x1_0000;
    let y: u32 = (word_of(client.y as i64) + 0x1_0000 - word_of(offset_y)) % 0x1_0000;
    x as i64 + 0x1_0000 * (y as i64)
}

/// Packs a mouse input for the dispatch window, unless there is no such window.
pub fn post_mouse(dispatch_hwnd: isize, input: MouseInput) -> (r: Option<MessageParams>)
    ensures
        dispatch_hwnd == 0 ==> r is None,
        dispatch_hwnd != 0 ==> (r matches Some(p) && (p.wparam as int, p.lparam as int)
            == packed_input(input)),
{
    if dispatch_hwnd == 0 {
        return None;
    }
    let kind: u64 = word_of(input.kind as i64) as u64;
    let vk: u64 = word_of(input.vk as i64) as u64;
    let wparam: u64 = kind + 0x1_0000 * vk + 0x1_0000_0000 * (input.data as u64);
    Some(MessageParams { wparam, lparam: make_lparam(input.x, input.y) })
}

/// Reads a mouse input back from the two parameters of a message.
pub fn unpack_mouse(params: MessageParams) -> (r: MouseInput)
    ensures
        r == unpacked_input(params.wparam as int, params.lparam as int),
{
    let wp: u64 = params.wparam;
    let lp: i64 = params.lparam;
    let kind: u64 = wp % 0x1_0000;
    let vk: u64 = (wp / 0x1_0000) % 0x1_0000;
    let data: u64 = wp / 0x1_0000_0000;
    let high: i64 = lp >> 16;
    assert(high == lp / 0x1_0000) by (bit_vector)
        requires
            high == lp >> 16,
    ;
    MouseInput {
        kind: kind as i32,
        vk: vk as i32,
        data: data as u32,
        x: signed_word_of(lp),
        y: signed_word_of(high),
    }
}

/// Unpacking what was packed gives every field back, cut to the width that the packing has for
/// it: sixteen unsigned bits for the kind and the key state, thirty-two for the data, sixteen
/// signed bits for each coordinate.
pub proof fn lemma_unpack_of_pack(m: MouseInput)
    ensures
        ({
            let (w, l) = packed_input(m);
            let u = unpacked_input(w, l);
            &&& u.kind == low_word(m.kind as int)
            &&& u.vk == low_word(m.vk as int)
            &&& u.data == m.data
            &&& u.x == signed_word(m.x as int)
            &&& u.y == signed_word(m.y as int)
        }),
{
}

/// A mouse input whose kind and key state fit sixteen bits, at a point whose coordinates fit
/// sixteen signed bits, survives the way to the dispatch window unchanged.
pub proof fn lemma_mouse_input_round_trip(m: MouseInput)
    requires
        0 <= m.kind < 0x1_0000,
        0 <= m.vk < 0x1_0000,
        -0x8000 <= m.x < 0x8000,
        -0x8000 <= m.y < 0x8000,
    ensures
        unpacked_input(packed_input(m).0, packed_input(m).1) == m,
{
    lemma_unpack_of_pack(m);
}

/// The numbers that the platform gives to messages, mouse inputs and held buttons.
pub proof fn lemma_platform_numbers()
    ensures
        WM_NULL == 0 && WM_SETTINGCHANGE == 0x1A && WM_CONTEXTMENU == 0x7B,
        WM_DISPLAYCHANGE == 0x7E && WM_NCDESTROY == 0x82 && WM_NCCALCSIZE == 0x83,
        WM_KEYDOWN == 0x100 && WM_KEYUP == 0x101 && WM_CHAR == 0x102,
        WM_SYSKEYDOWN == 0x104 && WM_SYSKEYUP == 0x105 && WM_SYSCHAR == 0x106,
        WM_MOUSEMOVE == 0x200 && WM_LBUTTONDOWN == 0x201 && WM_LBUTTONUP == 0x202,
        WM_LBUTTONDBLCLK == 0x203 && WM_RBUTTONDOWN == 0x204 && WM_RBUTTONUP == 0x205,
        WM_MBUTTONDOWN == 0x207 && WM_MBUTTONUP == 0x208,
        WM_MOUSEWHEEL == 0x20A && WM_MOUSEHWHEEL == 0x20E && WM_MOUSELEAVE == 0x2A3,
        WM_WTSSESSION_CHANGE == 0x2B1 && WTS_SESSION_LOCK == 7 && WTS_SESSION_UNLOCK == 8,
        WM_MWP_MOUSE == 0x802A && WM_MWP_SETBOUNDS_PUB == 0x802B,
        LVM_GETITEMRECT == 0x100E && LVM_SETITEMPOSITION == 0x100F && LVM_GETITEMPOSITION == 0x1010,
        LVM_HITTEST == 0x1012 && LVM_SETHOTITEM == 0x103C,
        MOUSE_MOVE == 0x200 && MOUSE_LDOWN == 0x201 && MOUSE_LUP == 0x202,
        MOUSE_RDOWN == 0x204 && MOUSE_RUP == 0x205 && MOUSE_MDOWN == 0x207 && MOUSE_MUP == 0x208,
        MOUSE_WHEEL == 0x20A && MOUSE_HWHEEL == 0x20E,
        MK_NONE == 0 && MK_LBUTTON == 1 && MK_RBUTTON == 2 && MK_MBUTTON == 0x10,
{
}

/// The parts of a number differ from it by whole multiples of their range, and lie in that range.
#[verifier::rlimit(40)]
pub proof fn lemma_words(v: int)
    ensures
        0 <= low_word(v) < 0x1_0000 && (v - low_word(v)) % 0x1_0000 == 0,
        0 <= low_dword(v) < 0x1_0000_0000 && (v - low_dword(v)) % 0x1_0000_0000 == 0,
        -0x8000 <= signed_word(v) < 0x8000 && (v - signed_word(v)) % 0x1_0000 == 0,
        -0x8000_0000 <= signed_dword(v) < 0x8000_0000,
        (v - signed_dword(v)) % 0x1_0000_0000 == 0,
{
}

/// A packed point holds both coordinates to sixteen bits each, the horizontal one in the low word,
/// and nothing above.
#[verifier::rlimit(40)]
pub proof fn lemma_packed_point(x: int, y: int)
    ensures
        0 <= packed_point(x, y) < 0x1_0000_0000,
        (packed_point(x, y) - x) % 0x1_0000 == 0,
        (packed_point(x, y) / 0x1_0000 - y) % 0x1_0000 == 0,
{
    let p = packed_point(x, y);
    assert(p / 0x1_0000 == y % 0x1_0000);
}

/// A packed mouse input holds its kind, its key state and its data in separate bits, the kind
/// lowest and the data above thirty-two bits.
#[verifier::rlimit(40)]
pub proof fn lemma_packed_input_fields(m: MouseInput)
    ensures
        ({
            let (w, l) = packed_input(m);
            &&& 0 <= w <= u64::MAX && w / 0x1_0000_0000 == m.data
            &&& (w - m.kind) % 0x1_0000 == 0
            &&& (w / 0x1_0000 - m.vk) % 0x1_0000 == 0
            &&& 0 <= l < 0x1_0000_0000
            &&& (l - m.x) % 0x1_0000 == 0
            &&& (l / 0x1_0000 - m.y) % 0x1_0000 == 0
        }),
{
    let (w, l) = packed_input(m);
    lemma_packed_point(m.x as int, m.y as int);
    assert(w / 0x1_0000_0000 == m.data);
    assert(w / 0x1_0000 == (m.vk as int) % 0x1_0000 + 0x1_0000 * m.data);
}

/// A mouse input that is unpacked has its kind in the lowest sixteen bits of the first parameter,
/// its key state in the next, its data above, and its signed coordinates in the two low words of
/// the second parameter.
#[verifier::rlimit(40)]
pub proof fn lemma_unpacked_input_fields(wparam: u64, lparam: i64)
    ensures
        ({
            let u = unpacked_input(wparam as int, lparam as int);
            &&& u.kind + 0x1_0000 * u.vk + 0x1_0000_0000 * u.data == wparam
            &&& 0 <= u.kind < 0x1_0000 && 0 <= u.vk < 0x1_0000
            &&& -0x8000 <= u.x < 0x8000 && (lparam - u.x) % 0x1_0000 == 0
            &&& -0x8000 <= u.y < 0x8000 && (lparam as int / 0x1_0000 - u.y) % 0x1_0000 == 0
        }),
{
}

} // verus!
