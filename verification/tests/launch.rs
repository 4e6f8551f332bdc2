use alleycat::launch::{launch_plan, pty_geometry, report_exit, report_read, PtyGeometry};
use alleycat::payload::TerminalSize;
use alleycat::session::TerminalEvent;

const SIZE: TerminalSize = TerminalSize {
    cols: 101,
    rows: 37,
};

fn env_of(lang: Option<&str>) -> Vec<(String, String)> {
    launch_plan(None, SIZE, lang.map(str::to_string))
        .unwrap()
        .env
        .into_iter()
        .map(|v| (v.name, v.value))
        .collect()
}

#[test]
fn plan_has_the_size_and_the_environment() {
    let plan = launch_plan(None, SIZE, None).unwrap();
    assert_eq!(
        plan.geometry,
        PtyGeometry {
            rows: 37,
            cols: 101,
            pixel_width: 0,
            pixel_height: 0
        }
    );
    let pair = |a: &str, b: &str| (a.to_string(), b.to_string());
    assert_eq!(
        env_of(None),
        vec![
            pair("TERM", "xterm-256color"),
            pair("COLORTERM", "truecolor"),
            pair("LANG", "C.UTF-8")
        ]
    );
    assert_eq!(env_of(Some("de_DE.UTF-8"))[2], pair("LANG", "de_DE.UTF-8"));
    assert_eq!(env_of(Some(""))[2], pair("LANG", ""));
}

#[test]
fn blank_directory_is_left_out_and_others_are_kept_as_they_are() {
    let dir = |cwd: Option<&str>| launch_plan(cwd.map(str::to_string), SIZE, None).unwrap().cwd;
    assert_eq!(dir(None), None);
    assert_eq!(dir(Some("")), None);
    assert_eq!(dir(Some(" \t\n")), None);
    assert_eq!(dir(Some("/tmp")), Some("/tmp".to_string()));
    assert_eq!(dir(Some(" /tmp ")), Some(" /tmp ".to_string()));
}

#[test]
fn invalid_size_is_not_launched_or_resized_to() {
    let size = TerminalSize { cols: 80, rows: 0 };
    assert_eq!(launch_plan(None, size, None).unwrap_err().size, size);
    assert_eq!(pty_geometry(size).unwrap_err().size, size);
    assert_eq!(
        pty_geometry(TerminalSize {
            cols: 132,
            rows: 43
        })
        .unwrap(),
        PtyGeometry {
            rows: 43,
            cols: 132,
            pixel_width: 0,
            pixel_height: 0
        }
    );
}

#[test]
fn reads_are_reported_until_the_output_ends() {
    let buf = *b"abcdef";
    assert_eq!(report_read(&buf, Some(3)), TerminalEvent::Output(b"abc".to_vec()));
    assert_eq!(report_read(&buf, Some(6)), TerminalEvent::Output(b"abcdef".to_vec()));
    assert_eq!(report_read(&buf, Some(0)), TerminalEvent::OutputClosed);
    assert_eq!(report_read(&buf, None), TerminalEvent::OutputClosed);
}

#[test]
fn exit_status_is_reported_as_a_signed_code() {
    assert_eq!(report_exit(Some(0)), TerminalEvent::Exit(0));
    assert_eq!(report_exit(Some(130)), TerminalEvent::Exit(130));
    assert_eq!(report_exit(Some(u32::MAX)), TerminalEvent::Exit(-1));
    assert_eq!(report_exit(None), TerminalEvent::Exit(-1));
}

#[test]
fn only_the_end_of_the_output_is_the_last_report() {
    assert!(report_read(b"ab", Some(0)).is_last());
    assert!(report_read(b"ab", None).is_last());
    assert!(!report_read(b"ab", Some(2)).is_last());
    assert!(!report_exit(Some(0)).is_last());
}
