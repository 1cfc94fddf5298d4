//! Leave messages inside the browser process.
//!
//! A posted mouse move makes the browser ask to be told when the cursor leaves. The real cursor
//! is over the desktop, so the system says so at once, and every hover effect ends. Such a message
//! is taken out of the queue, unless the host has flagged it as intended.
//!
//! Host and browser process talk through window properties: a mark on the window that is meant,
//! a flag before an intended leave, and a count of the messages that were taken out.

use vstd::prelude::*;

use crate::window_layer::messages::{WM_MOUSELEAVE, WM_NULL};

verus! {

/// The window properties that decide over a leave message.
#[derive(Clone, Copy, PartialEq, Eq, Debug, Structural)]
pub struct LeaveProps {
    /// The window is the one that is meant.
    pub target: bool,
    /// The host has flagged the next leave as intended.
    pub explicit: bool,
    /// Messages taken out so far.
    pub suppressed: u64,
}

/// What becomes of a message.
#[derive(Clone, Copy, PartialEq, Eq, Debug, Structural)]
pub enum LeaveAction {
    /// It goes through as it is.
    PassThrough,
    /// It goes through, and the host's flag is taken away.
    ClearExplicit,
    /// Its number becomes `message`, and the count of messages taken out becomes `count`.
    Replace { message: u32, count: u64 },
}

/// A window property that has been set.
pub fn prop_is_set(h: isize) -> (r: bool)
    ensures
        r == (h != 0),
{
    h != 0
}

/// The message is a leave message that the hook may act on. `has_message` says that the platform
/// handed one over.
pub open spec fn is_leave(code: i32, has_message: bool, message: u32) -> bool {
    code >= 0 && has_message && message == WM_MOUSELEAVE
}

/// Whether the window's properties have to be looked at.
pub fn concerns_leave(code: i32, has_message: bool, message: u32) -> (r: bool)
    ensures
        r == is_leave(code, has_message, message),
{
    code >= 0 && has_message && message == WM_MOUSELEAVE
}

/// What becomes of a message, by the properties of its window.
pub open spec fn leave_action(
    code: i32,
    has_message: bool,
    message: u32,
    props: LeaveProps,
) -> LeaveAction {
    if !is_leave(code, has_message, message) || !props.target {
        LeaveAction::PassThrough
    } else if props.explicit {
        LeaveAction::ClearExplicit
    } else {
        LeaveAction::Replace {
            message: WM_NULL,
            count: ((props.suppressed + 1) % 0x1_0000_0000_0000_0000) as u64,
        }
    }
}

/// The properties of the window after the action.
pub open spec fn props_after(props: LeaveProps, action: LeaveAction) -> LeaveProps {
    match action {
        LeaveAction::PassThrough => props,
        LeaveAction::ClearExplicit => LeaveProps { explicit: false, ..props },
        LeaveAction::Replace { count, .. } => LeaveProps { suppressed: count, ..props },
    }
}

/// Decides what becomes of a message that the browser process is about to handle.
pub fn mouseleave_hook_proc(
    code: i32,
    has_message: bool,
    message: u32,
    props: LeaveProps,
) -> (r: LeaveAction)
    ensures
        r == leave_action(code, has_message, message, props),
{
    if !concerns_leave(code, has_message, message) || !props.target {
        return LeaveAction::PassThrough;
    }
    if props.explicit {
        return LeaveAction::ClearExplicit;
    }
    LeaveAction::Replace { message: WM_NULL, count: props.suppressed.wrapping_add(1) }
}

/// One flag of the host lets one leave message through: the next one to the same window is taken
/// out.
pub proof fn lemma_flag_lets_one_leave_through(code: i32, props: LeaveProps)
    requires
        code >= 0,
        props.target && props.explicit,
    ensures
        ({
            let first = leave_action(code, true, WM_MOUSELEAVE, props);
            let second = leave_action(code, true, WM_MOUSELEAVE, props_after(props, first));
            first == LeaveAction::ClearExplicit && second is Replace
        }),
{
}

/// Messages of other kinds, and messages to other windows, go through untouched.
pub proof fn lemma_other_messages_are_untouched(
    code: i32,
    has_message: bool,
    message: u32,
    props: LeaveProps,
)
    requires
        message != WM_MOUSELEAVE || !props.target,
    ensures
        leave_action(code, has_message, message, props) == LeaveAction::PassThrough,
{
}

/// A leave message to the window that is meant, which the host has not flagged, becomes a message
/// without meaning, and is counted; the count starts again at 0 after the greatest number. The
/// platform may ask to leave a message alone, or hand over none: then nothing is done.
pub proof fn lemma_unintended_leave_is_taken_out(
    code: i32,
    has_message: bool,
    message: u32,
    props: LeaveProps,
)
    requires
        props.target && !props.explicit,
    ensures
        ({
            let action = leave_action(code, has_message, message, props);
            let after = props_after(props, action);
            let out = code >= 0 && has_message && message == 0x2A3;
            &&& action is Replace <==> out
            &&& action is PassThrough <==> !out
            &&& action matches LeaveAction::Replace { message: m, count } ==> m == 0 && {
                if props.suppressed < u64::MAX {
                    count == props.suppressed + 1
                } else {
                    count == 0
                }
            }
            &&& action matches LeaveAction::Replace { count, .. } ==> after == (LeaveProps {
                suppressed: count,
                ..props
            })
            &&& !out ==> after == props
        }),
{
}

/// A leave message that the host has flagged goes through, and takes the flag with it. Nothing is
/// counted.
pub proof fn lemma_flagged_leave_goes_through(code: i32, props: LeaveProps)
    requires
        props.target && props.explicit,
    ensures
        ({
            let action = leave_action(code, true, 0x2A3, props);
            let after = props_after(props, action);
            &&& action is ClearExplicit <==> code >= 0
            &&& code < 0 ==> action is PassThrough && after == props
            &&& code >= 0 ==> !after.explicit && after.target && after.suppressed
                == props.suppressed
        }),
{
}

} // verus!
