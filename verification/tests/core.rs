use wallpaper_cli::command::{dispatch, Action, Command};
use wallpaper_cli::dispatch::{
    describe_monitors_failure, finish_get, finish_set, if_chosen_monitor_within_range,
    resolve_monitor, MonitorRangeError,
};
use wallpaper_cli::position::PositionMode;
use wallpaper_cli::text::{str_eq, usize_to_string};

#[test]
fn parse_recognizes_all_six_tokens() {
    assert_eq!(PositionMode::parse("center"), Some(PositionMode::Center));
    assert_eq!(PositionMode::parse("tile"), Some(PositionMode::Tile));
    assert_eq!(PositionMode::parse("stretch"), Some(PositionMode::Stretch));
    assert_eq!(PositionMode::parse("fit"), Some(PositionMode::Fit));
    assert_eq!(PositionMode::parse("fill"), Some(PositionMode::Fill));
    assert_eq!(PositionMode::parse("span"), Some(PositionMode::Span));
}

#[test]
fn parse_refuses_unrecognized_tokens() {
    assert_eq!(PositionMode::parse(""), None);
    assert_eq!(PositionMode::parse("Center"), None);
    assert_eq!(PositionMode::parse("FIT"), None);
    assert_eq!(PositionMode::parse("crop"), None);
    assert_eq!(PositionMode::parse("spann"), None);
    assert_eq!(PositionMode::parse("spa"), None);
}

#[test]
fn tokens_round_trip_through_parse() {
    let modes = [
        PositionMode::Center,
        PositionMode::Tile,
        PositionMode::Stretch,
        PositionMode::Fit,
        PositionMode::Fill,
        PositionMode::Span,
    ];
    for m in modes {
        assert_eq!(PositionMode::parse(m.token()), Some(m));
    }
}

#[test]
fn default_mode_is_span() {
    assert_eq!(PositionMode::default(), PositionMode::Span);
}

#[test]
fn decimal_rendering_matches_expected_values() {
    assert_eq!(usize_to_string(0), "0");
    assert_eq!(usize_to_string(5), "5");
    assert_eq!(usize_to_string(9), "9");
    assert_eq!(usize_to_string(10), "10");
    assert_eq!(usize_to_string(12345), "12345");
    assert_eq!(usize_to_string(usize::MAX), usize::MAX.to_string());
}

#[test]
fn str_eq_compares_contents() {
    assert!(str_eq("span", "span"));
    assert!(!str_eq("span", "spa"));
    assert!(!str_eq("span", "spam"));
    assert!(!str_eq("", "a"));
    assert!(str_eq("", ""));
    assert!(str_eq("h\u{e9}llo", "h\u{e9}llo"));
    assert!(!str_eq("h\u{e9}llo", "hello"));
}

#[test]
fn resolve_rejects_index_zero_with_no_monitors() {
    let monitors: Vec<&str> = vec![];
    let r = resolve_monitor(0, &monitors);
    let e = r.expect_err("an empty monitor list accepts no index");
    assert_eq!(e, MonitorRangeError { requested: 0, monitor_count: 0 });
    assert_eq!(e.message(), "No monitors are available but 0 was given");
}

#[test]
fn resolve_accepts_last_monitor_and_rejects_one_past_it() {
    let monitors = vec!["A", "B", "C"];
    assert_eq!(resolve_monitor(2, &monitors), Ok(&"C"));
    let e = resolve_monitor(3, &monitors).expect_err("index == count is out of range");
    assert_eq!(e, MonitorRangeError { requested: 3, monitor_count: 3 });
    assert_eq!(e.max_valid(), 2);
}

#[test]
fn resolve_picks_second_of_two_monitors() {
    let monitors = vec!["A", "B"];
    assert_eq!(resolve_monitor(1, &monitors), Ok(&"B"));
}

#[test]
fn out_of_range_message_names_range_and_value() {
    let e = MonitorRangeError { requested: 5, monitor_count: 1 };
    assert_eq!(e.message(), "The available monitors are from 0 - 0 but 5 was given");
    let e = MonitorRangeError { requested: 17, monitor_count: 3 };
    assert_eq!(e.message(), "The available monitors are from 0 - 2 but 17 was given");
}

#[test]
fn get_on_second_monitor_returns_what_the_service_yields() {
    let monitors = vec!["A", "B"];
    let r = dispatch(Command::GetWallpaper { monitor: 1 }, monitors.len());
    assert_eq!(r, Ok(Action::PrintWallpaper { monitor: 1 }));
    let resolved = resolve_monitor(1, &monitors).expect("index 1 of two monitors is valid");
    assert_eq!(*resolved, "B");
    let outcome = finish_get(Ok(String::from("C:\\pictures\\b.png")));
    assert_eq!(outcome, Ok(String::from("C:\\pictures\\b.png")));
}

#[test]
fn set_on_only_monitor_applies_path_and_mode() {
    let cmd = Command::SetWallpaper {
        monitor: 0,
        path: String::from("path.jpg"),
        scale: PositionMode::Fit,
    };
    let r = dispatch(cmd, 1);
    assert_eq!(
        r,
        Ok(Action::ApplyWallpaper {
            monitor: 0,
            path: String::from("path.jpg"),
            scale: PositionMode::Fit,
        })
    );
    assert_eq!(finish_set(Ok(())), Ok(()));
}

#[test]
fn get_monitor_five_of_one_reports_range_and_value() {
    let r = dispatch(Command::GetWallpaper { monitor: 5 }, 1);
    let e = r.expect_err("index 5 of one monitor is out of range");
    assert_eq!(e.message(), "The available monitors are from 0 - 0 but 5 was given");
}

#[test]
fn no_monitors_fails_get_and_set_before_any_service_work() {
    let get = dispatch(Command::GetWallpaper { monitor: 0 }, 0);
    let e = get.expect_err("no monitors accepts no get");
    assert_eq!(e.message(), "No monitors are available but 0 was given");

    let set = dispatch(
        Command::SetWallpaper {
            monitor: 0,
            path: String::from("path.jpg"),
            scale: PositionMode::Span,
        },
        0,
    );
    let e = set.expect_err("no monitors accepts no set");
    assert_eq!(e.message(), "No monitors are available but 0 was given");
}

#[test]
fn repeating_an_identical_set_dispatches_the_identical_action() {
    let cmd = || Command::SetWallpaper {
        monitor: 0,
        path: String::from("path.jpg"),
        scale: PositionMode::Fit,
    };
    let first = dispatch(cmd(), 1);
    let second = dispatch(cmd(), 1);
    assert_eq!(first, second);
    assert!(first.is_ok());
}

#[test]
fn service_failures_are_wrapped_with_operation_prefixes() {
    let got = finish_get(Err(String::from("no wallpaper is set")));
    assert_eq!(
        got,
        Err(String::from("Failed to get the desktop wallpaper: no wallpaper is set"))
    );
    let set = finish_set(Err(String::from("unsupported format")));
    assert_eq!(
        set,
        Err(String::from("Failed to set the desktop wallpaper: unsupported format"))
    );
    assert_eq!(
        describe_monitors_failure("query rejected"),
        "Failed to retrieve available monitors: query rejected"
    );
}

#[test]
fn within_range_runs_the_operation_on_the_chosen_monitor() {
    let monitors = vec!["A", "B"];
    let mut seen: Option<String> = None;
    let r = if_chosen_monitor_within_range(1, &monitors, |m: &&str| {
        seen = Some(m.to_string());
        Ok(())
    });
    assert_eq!(r, Ok(()));
    assert_eq!(seen, Some(String::from("B")));
}

#[test]
fn out_of_range_reports_without_running_the_operation() {
    let monitors = vec!["A"];
    let mut ran = false;
    let r = if_chosen_monitor_within_range(5, &monitors, |_m: &&str| {
        ran = true;
        Ok(())
    });
    assert_eq!(
        r,
        Err(String::from("The available monitors are from 0 - 0 but 5 was given"))
    );
    assert!(!ran);
}

#[test]
fn empty_monitor_list_reports_no_monitors_available() {
    let monitors: Vec<&str> = vec![];
    let r = if_chosen_monitor_within_range(0, &monitors, |_m: &&str| Ok(()));
    assert_eq!(r, Err(String::from("No monitors are available but 0 was given")));
}

#[test]
fn operation_failures_pass_through_unchanged() {
    let monitors = vec!["A"];
    let r = if_chosen_monitor_within_range(0, &monitors, |_m: &&str| {
        Err(String::from("stale handle"))
    });
    assert_eq!(r, Err(String::from("stale handle")));
}
