//! Presence in the chat client. Where the client does not run, nothing is shown and nothing fails.

use vstd::prelude::*;

use crate::error;
use crate::error::{AppError, AppResult};

verus! {

/// Identifies the application to the chat client.
pub const DISCORD_APP_ID: &'static str = "1307092087033782272";

/// What the chat client shows.
#[derive(Debug)]
pub struct Activity {
    pub details: String,
    pub state: String,
    /// Key of the picture.
    pub large_image: String,
    /// Text of the picture.
    pub large_text: String,
}

/// `a` shows these two lines beside the application's logo.
pub open spec fn shows(a: Activity, details: Seq<char>, state: Seq<char>) -> bool {
    &&& a.details@ == details
    &&& a.state@ == state
    &&& a.large_image@ == "logo"@
    &&& a.large_text@ == "MyWallpaper Desktop"@
}

/// Puts two lines beside the application's logo.
pub fn build_activity(details: &str, state: &str) -> (r: Activity)
    ensures
        shows(r, details@, state@),
        r.details@ == details@ && r.state@ == state@,
        r.large_image@ == "logo"@ && r.large_text@ == "MyWallpaper Desktop"@,
{
    Activity {
        details: details.to_owned(),
        state: state.to_owned(),
        large_image: "logo".to_owned(),
        large_text: "MyWallpaper Desktop".to_owned(),
    }
}

/// What to show first, if the chat client was reached. The connection is kept exactly then.
pub fn init(reached: bool) -> (r: Option<Activity>)
    ensures
        match r {
            Some(a) => reached && shows(a, "Using MyWallpaper"@, "Animated Wallpaper"@),
            None => !reached,
        },
{
    if reached {
        Some(build_activity("Using MyWallpaper", "Animated Wallpaper"))
    } else {
        None
    }
}

/// What to show from now on, if there is a connection to the chat client.
pub fn update_presence(connected: bool, details: &str, state: &str) -> (r: Option<Activity>)
    ensures
        match r {
            Some(a) => connected && shows(a, details@, state@),
            None => !connected,
        },
{
    if connected {
        Some(build_activity(details, state))
    } else {
        None
    }
}

/// Reports what came of showing an activity, if one was shown.
pub fn presence_result(shown: Option<Result<(), String>>) -> (r: AppResult<()>)
    ensures
        match shown {
            Some(Err(e)) => error::fails_with(r, error::ErrorView::Discord(e@)),
            _ => r is Ok,
        },
{
    match shown {
        Some(Err(e)) => Err(AppError::Discord(e)),
        _ => Ok(()),
    }
}

} // verus!
