use show::remote::{ip_lines, ip_report, time_lines, time_report, Line, Report};
use show::timefmt::{local_time_text, TimeParts};

fn line_text(line: &Line) -> &str {
    match line {
        Line::Info(s) => s.as_str(),
        Line::Success(s) => s.as_str(),
        Line::Failure(s) => s.as_str(),
    }
}

fn sample_parts() -> TimeParts {
    TimeParts {
        year: 2020,
        month: 1,
        day: 2,
        hour: 3,
        minute: 4,
        second: 5,
        millis: 67,
        offset_seconds: 8 * 3600,
    }
}

#[test]
fn ip_success_reports_the_literal_address() {
    let r = ip_report("{\"ip\": \"203.0.113.5\"}", false);
    assert!(r.error.is_none());
    assert_eq!(r.lines.len(), 1);
    match &r.lines[0] {
        Line::Success(s) => assert_eq!(s.as_str(), "Your IP address is: 203.0.113.5"),
        _ => panic!("expected a success line"),
    }
}

#[test]
fn ip_null_reports_the_fixed_failure() {
    let r = ip_report("{\"ip\": null}", false);
    assert!(r.error.is_none());
    assert_eq!(r.lines.len(), 1);
    match &r.lines[0] {
        Line::Failure(s) => assert_eq!(s.as_str(), "Get IP failed."),
        _ => panic!("expected a failure line"),
    }
}

#[test]
fn ip_absent_member_reports_the_fixed_failure() {
    let r = ip_report("{}", false);
    assert!(r.error.is_none());
    assert_eq!(r.lines.len(), 1);
    match &r.lines[0] {
        Line::Failure(s) => assert_eq!(s.as_str(), "Get IP failed."),
        _ => panic!("expected a failure line"),
    }
}

#[test]
fn ip_malformed_body_is_fatal() {
    let r = ip_report("not json at all", false);
    assert!(r.lines.is_empty());
    assert!(r.error.is_some());
}

#[test]
fn ip_verbose_echoes_the_body_first() {
    let body = "{\"ip\": \"203.0.113.5\"}";
    let r = ip_report(body, true);
    assert_eq!(r.lines.len(), 2);
    match &r.lines[0] {
        Line::Info(s) => assert_eq!(s.as_str(), "Received response: {\"ip\": \"203.0.113.5\"}"),
        _ => panic!("expected the verbose echo"),
    }
    let quiet = ip_report(body, false);
    assert!(quiet.lines.iter().all(|l| !matches!(l, Line::Info(_))));
}

#[test]
fn ip_verbose_echo_comes_even_when_the_body_is_malformed() {
    let r = ip_report("broken", true);
    assert_eq!(r.lines.len(), 1);
    match &r.lines[0] {
        Line::Info(s) => assert_eq!(s.as_str(), "Received response: broken"),
        _ => panic!("expected the verbose echo"),
    }
    assert!(r.error.is_some());
}

#[test]
fn ip_lines_pin_each_lookup_outcome() {
    let ok: Report = ip_lines(Ok(Some("198.51.100.7".to_string())), "ignored", false);
    assert_eq!(line_text(&ok.lines[0]), "Your IP address is: 198.51.100.7");
    let null: Report = ip_lines(Ok(None), "ignored", false);
    assert_eq!(line_text(&null.lines[0]), "Get IP failed.");
    let bad: Report = ip_lines(Err("oops".to_string()), "ignored", false);
    assert!(bad.lines.is_empty());
    assert_eq!(bad.error.as_deref(), Some("oops"));
}

#[test]
fn local_time_is_rendered_exactly() {
    assert_eq!(local_time_text(&sample_parts()).as_str(), "2020/01/02 03:04:05.067 +0800");
}

#[test]
fn local_time_handles_a_western_offset() {
    let parts = TimeParts { offset_seconds: -(7 * 3600 + 30 * 60), ..sample_parts() };
    assert_eq!(local_time_text(&parts).as_str(), "2020/01/02 03:04:05.067 -0730");
}

#[test]
fn local_time_handles_the_zero_offset() {
    let parts = TimeParts { offset_seconds: 0, millis: 999, ..sample_parts() };
    assert_eq!(local_time_text(&parts).as_str(), "2020/01/02 03:04:05.999 +0000");
}

#[test]
fn time_lines_report_remote_and_local_time() {
    let parts = sample_parts();
    let r = time_lines(
        Ok(Some("2021-06-01 10:00:00".to_string())),
        "ignored",
        false,
        &parts,
    );
    assert!(r.error.is_none());
    assert_eq!(r.lines.len(), 2);
    assert_eq!(line_text(&r.lines[0]), "Remote time is: 2021-06-01 10:00:00");
    assert_eq!(line_text(&r.lines[1]), "Local  time is: 2020/01/02 03:04:05.067 +0800");
}

#[test]
fn time_null_still_prints_the_local_line() {
    let r = time_lines(Ok(None), "ignored", false, &sample_parts());
    assert!(r.error.is_none());
    assert_eq!(line_text(&r.lines[0]), "Get remote time failed.");
    assert_eq!(line_text(&r.lines[1]), "Local  time is: 2020/01/02 03:04:05.067 +0800");
}

#[test]
fn time_report_reads_the_datetime_member() {
    let r = time_report("{\"datetime\": \"2021-06-01 10:00:00\"}", false);
    assert!(r.error.is_none());
    assert_eq!(r.lines.len(), 2);
    assert_eq!(line_text(&r.lines[0]), "Remote time is: 2021-06-01 10:00:00");
    let local = line_text(&r.lines[1]);
    assert!(local.starts_with("Local  time is: "));
    let rest: Vec<char> = local["Local  time is: ".len()..].chars().collect();
    assert!(rest.len() >= 26);
    assert_eq!(rest[4], '/');
    assert_eq!(rest[7], '/');
    assert_eq!(rest[10], ' ');
    assert_eq!(rest[13], ':');
    assert_eq!(rest[16], ':');
    assert_eq!(rest[19], '.');
    assert_eq!(rest[23], ' ');
    assert!(rest[0].is_ascii_digit());
    assert!(rest[24] == '+' || rest[24] == '-');
}

#[test]
fn time_report_verbose_echoes_the_body() {
    let r = time_report("{\"datetime\": null}", true);
    assert!(r.error.is_none());
    assert_eq!(r.lines.len(), 3);
    assert_eq!(line_text(&r.lines[0]), "Received response: {\"datetime\": null}");
    assert_eq!(line_text(&r.lines[1]), "Get remote time failed.");
    assert!(line_text(&r.lines[2]).starts_with("Local  time is: "));
}

#[test]
fn a_number_member_is_shown_as_its_text() {
    let r = ip_report("{\"ip\": 7}", false);
    assert_eq!(line_text(&r.lines[0]), "Your IP address is: 7");
}
