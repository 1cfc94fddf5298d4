//! Start and supervision, and the presence in the chat client.

use mywallpaper_desktop::discord::{
    build_activity, init, presence_result, update_presence, DISCORD_APP_ID,
};
use mywallpaper_desktop::error::AppError;
use mywallpaper_desktop::startup::{
    init_script, is_log_name, logs_to_delete, Heartbeat, HEARTBEAT_GRACE, HEARTBEAT_LIMIT,
    HEARTBEAT_PERIOD, KEPT_LOGS,
};

#[test]
fn logs_are_told_by_their_extension() {
    assert!(is_log_name("app.log"));
    assert!(is_log_name("app.2024.log"));
    assert!(!is_log_name("app.log.gz"));
    assert!(!is_log_name(".log"));
    assert!(!is_log_name("log"));
}

#[test]
fn the_newest_logs_are_kept() {
    assert_eq!(KEPT_LOGS, 5);
    assert_eq!(logs_to_delete(&[]), Vec::<usize>::new());
    assert_eq!(logs_to_delete(&[3, 1, 2, 5, 4]), Vec::<usize>::new());
    assert_eq!(logs_to_delete(&[3, 1, 2, 5, 4, 6, -1]), vec![1, 6]);
    // Of equally old logs the earlier ones stay.
    assert_eq!(logs_to_delete(&[0, 0, 0, 0, 0, 0, 0]), vec![5, 6]);
}

#[test]
fn deletion_is_that_of_a_stable_sort() {
    let times: Vec<i128> = (0..50).map(|i| (i * 37 % 11) as i128).collect();
    let mut order: Vec<usize> = (0..times.len()).collect();
    order.sort_by(|a, b| times[*b].cmp(&times[*a]));
    assert_eq!(logs_to_delete(&times), order[5..].to_vec());
}

#[test]
fn the_page_is_greeted() {
    assert_eq!(
        init_script("windows", "x86_64", "1.2.3", "2.0.0", false),
        "window.__MW_INIT__ = { isTauri: true, platform: \"windows\", arch: \"x86_64\", \
         appVersion: \"1.2.3\", tauriVersion: \"2.0.0\", debug: false };"
    );
    assert!(init_script("linux", "x86_64", "1.2.3", "2.0.0", true).ends_with("debug: true };"));
}

#[test]
fn a_silent_page_is_noticed() {
    assert_eq!((HEARTBEAT_GRACE, HEARTBEAT_PERIOD, HEARTBEAT_LIMIT), (30, 5, 15));
    let mut heart = Heartbeat { last: 100 };
    assert_eq!(heart.silence(100), None);
    assert_eq!(heart.silence(115), None);
    assert_eq!(heart.silence(116), Some(16));
    assert_eq!(heart.silence(50), None);
    heart.beat(116);
    assert_eq!(heart.silence(131), None);
    assert_eq!(heart.silence(u64::MAX), Some(u64::MAX - 116));
}

#[test]
fn presence_is_shown_only_when_connected() {
    assert_eq!(DISCORD_APP_ID, "1307092087033782272");
    let a = build_activity("d", "s");
    assert_eq!((a.details.as_str(), a.state.as_str()), ("d", "s"));
    assert_eq!((a.large_image.as_str(), a.large_text.as_str()), ("logo", "MyWallpaper Desktop"));
    let first = init(true).unwrap();
    assert_eq!(first.details, "Using MyWallpaper");
    assert_eq!(first.state, "Animated Wallpaper");
    assert!(init(false).is_none());
    let next = update_presence(true, "Editing", "Layers").unwrap();
    assert_eq!((next.details.as_str(), next.state.as_str()), ("Editing", "Layers"));
    assert!(update_presence(false, "Editing", "Layers").is_none());
}

#[test]
fn presence_fails_only_where_it_was_tried() {
    assert!(presence_result(None).is_ok());
    assert!(presence_result(Some(Ok(()))).is_ok());
    let e = presence_result(Some(Err("closed".to_string()))).unwrap_err();
    assert_eq!(e.message(), "closed");
    assert!(matches!(e, AppError::Discord(_)));
}
