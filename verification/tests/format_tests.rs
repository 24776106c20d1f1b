use port_check::cli::{Cli, OutputFormat};
use port_check::format::{
    blank_line, decimal_string, format_duration, format_error_document, format_since,
    handle_error, human_report, make_field_row, make_headline, make_span, prepare_data,
    process_block_lines, render_output, select_shown, ErrorOutput, FreeStatus, PortStatus,
    Rendering, Span, StatusReport, Style,
};
use port_check::types::{FullPortInfo, PortInfo, ProcessExtra};

fn record(port: u16, pid: u32, name: &str) -> FullPortInfo {
    FullPortInfo {
        base: PortInfo {
            port,
            process_name: name.to_string(),
            pid,
            user: None,
            command: None,
        },
        extra: ProcessExtra::default(),
    }
}

fn plain(line: &Vec<Span>) -> String {
    line.iter().map(|s| s.text.as_str()).collect()
}

fn styles(line: &Vec<Span>) -> Vec<Style> {
    line.iter().map(|s| s.style).collect()
}

#[test]
fn duration_below_an_hour_shows_minutes_and_seconds() {
    assert_eq!(format_duration(0), "00:00");
    assert_eq!(format_duration(5), "00:05");
    assert_eq!(format_duration(59), "00:59");
    assert_eq!(format_duration(60), "01:00");
    assert_eq!(format_duration(754), "12:34");
    assert_eq!(format_duration(3599), "59:59");
}

#[test]
fn duration_from_an_hour_on_shows_hours() {
    assert_eq!(format_duration(3600), "1:00:00");
    assert_eq!(format_duration(3661), "1:01:01");
    assert_eq!(format_duration(86399), "23:59:59");
    assert_eq!(format_duration(360000), "100:00:00");
    assert_eq!(format_duration(u64::MAX), "5124095576030431:00:15");
}

#[test]
fn since_is_the_time_that_has_passed() {
    assert_eq!(format_since(100, 40), "01:00");
    assert_eq!(format_since(1_700_003_661, 1_700_000_000), "1:01:01");
    assert_eq!(format_since(40, 40), "00:00");
    assert_eq!(format_since(40, 100), "unknown");
}

#[test]
fn decimal_string_writes_the_number() {
    assert_eq!(decimal_string(0), "0");
    assert_eq!(decimal_string(8080), "8080");
}

#[test]
fn status_of_a_record() {
    let mut info = record(8080, 1234, "nginx");
    let status = PortStatus::from(&info);
    assert_eq!(status.port, 8080);
    assert_eq!(status.status, "in_use");
    assert_eq!(status.process, "nginx");
    assert_eq!(status.pid, 1234);
    assert_eq!(status.user, "");
    assert_eq!(status.command, "");
    assert_eq!(status.tty, None);
    assert_eq!(status.start_time, None);
    assert_eq!(status.uptime_seconds, None);
    info.base.user = Some("www-data".to_string());
    info.base.command = Some("nginx -g daemon off;".to_string());
    info.extra.tty = Some("pts/0".to_string());
    info.extra.start_time = Some(1_700_000_000);
    info.extra.uptime = Some(90);
    let status = PortStatus::from(&info);
    assert_eq!(status.user, "www-data");
    assert_eq!(status.command, "nginx -g daemon off;");
    assert_eq!(status.tty, Some("pts/0".to_string()));
    assert_eq!(status.start_time, Some(1_700_000_000));
    assert_eq!(status.uptime_seconds, Some(90));
}

#[test]
fn free_port_gives_one_free_status() {
    match prepare_data(9999, &Vec::new()) {
        StatusReport::Free(status) => {
            assert_eq!(status.port, 9999);
            assert_eq!(status.status, "free");
        }
        other => panic!("{:?}", other),
    }
    let status = FreeStatus::new(1);
    assert_eq!((status.port, status.status.as_str()), (1, "free"));
}

#[test]
fn report_shape_follows_the_number_of_records() {
    assert!(matches!(prepare_data(80, &Vec::new()), StatusReport::Free(_)));
    assert!(matches!(prepare_data(80, &vec![record(80, 1, "a")]), StatusReport::One(_)));
    let two = vec![record(80, 1, "a"), record(80, 2, "b")];
    assert!(matches!(prepare_data(80, &two), StatusReport::Many(_)));
}

#[test]
fn one_record_gives_one_status() {
    match prepare_data(8080, &vec![record(8080, 1234, "nginx")]) {
        StatusReport::One(status) => {
            assert_eq!(status.status, "in_use");
            assert_eq!((status.port, status.pid), (8080, 1234));
        }
        other => panic!("{:?}", other),
    }
}

#[test]
fn several_records_give_a_list_in_order() {
    let infos = vec![record(80, 1, "a"), record(80, 2, "b"), record(80, 3, "c")];
    match prepare_data(80, &infos) {
        StatusReport::Many(list) => {
            let pids: Vec<u32> = list.iter().map(|s| s.pid).collect();
            assert_eq!(pids, vec![1, 2, 3]);
            assert!(list.iter().all(|s| s.status == "in_use"));
            assert_eq!(list[1].process, "b");
        }
        other => panic!("{:?}", other),
    }
}

#[test]
fn free_port_in_the_human_format() {
    let lines = human_report(9999, &Vec::new(), 0);
    assert_eq!(lines.len(), 1);
    assert_eq!(plain(&lines[0]), "\u{2713} Port 9999 is free");
    assert!(plain(&lines[0]).ends_with("Port 9999 is free"));
    assert_eq!(
        styles(&lines[0]),
        vec![Style::GreenBold, Style::Plain, Style::Cyan, Style::Plain, Style::Green]
    );
    assert_eq!(lines[0][2].text, "9999");
}

#[test]
fn headline_of_a_port_in_use() {
    let line = make_headline(8080, true);
    assert_eq!(plain(&line), "\u{25cf} Port 8080 is in use");
    assert_eq!(
        styles(&line),
        vec![Style::RedBold, Style::Plain, Style::Cyan, Style::Plain, Style::Red]
    );
}

#[test]
fn spans_and_rows() {
    let span = make_span("PID:", Style::Bold);
    assert_eq!(span.text, "PID:");
    assert_eq!(span.style, Style::Bold);
    let row = make_field_row("PID:", "      ", "1234".to_string(), Style::Plain);
    assert_eq!(plain(&row), "  PID:      1234");
    assert_eq!(styles(&row), vec![Style::Plain, Style::Bold, Style::Plain, Style::Plain]);
    assert!(blank_line().is_empty());
}

#[test]
fn block_of_a_bare_record() {
    let lines = process_block_lines(&record(8080, 1234, "nginx"), 0);
    let text: Vec<String> = lines.iter().map(plain).collect();
    assert_eq!(
        text,
        vec![
            "\u{25cf} Port 8080 is in use",
            "",
            "  Process:  nginx",
            "  PID:      1234",
            "  User:     ",
            "",
            "  Command:  ",
            "",
        ]
    );
    assert_eq!(lines[2][3].style, Style::Yellow);
    assert_eq!(lines[6][3].style, Style::Dimmed);
}

#[test]
fn block_of_a_complete_record() {
    let mut info = record(8080, 1234, "nginx");
    info.base.user = Some("www-data".to_string());
    info.base.command = Some("nginx -g daemon off;".to_string());
    info.extra.tty = Some("pts/0".to_string());
    info.extra.start_time = Some(1_000);
    info.extra.uptime = Some(3_725);
    let lines = process_block_lines(&info, 1_090);
    let text: Vec<String> = lines.iter().map(plain).collect();
    assert_eq!(
        text,
        vec![
            "\u{25cf} Port 8080 is in use",
            "",
            "  Process:  nginx",
            "  PID:      1234",
            "  User:     www-data",
            "  TTY:      pts/0",
            "  Since:  01:30",
            "  Uptime: 1:02:05",
            "",
            "  Command:  nginx -g daemon off;",
            "",
        ]
    );
    info.extra.tty = None;
    info.extra.start_time = Some(2_000);
    info.extra.uptime = None;
    let lines = process_block_lines(&info, 1_090);
    let text: Vec<String> = lines.iter().map(plain).collect();
    assert_eq!(text[5], "  Since:  unknown");
    assert_eq!(text.len(), 9);
}

#[test]
fn human_report_shows_one_block_for_each_record() {
    let infos = vec![record(80, 1, "a"), record(80, 2, "b")];
    let lines = human_report(80, &infos, 0);
    assert_eq!(lines.len(), 16);
    assert_eq!(plain(&lines[0]), "\u{25cf} Port 80 is in use");
    assert_eq!(plain(&lines[2]), "  Process:  a");
    assert_eq!(plain(&lines[8]), "\u{25cf} Port 80 is in use");
    assert_eq!(plain(&lines[10]), "  Process:  b");
    assert_eq!(plain(&lines[11]), "  PID:      2");
}

#[test]
fn output_is_chosen_by_the_format() {
    let infos = vec![record(8080, 1234, "nginx")];
    let json = Cli { ports: vec![8080], format: "json".to_string(), extra: false };
    match render_output(8080, &infos, &json, 0) {
        Rendering::Structured(format, StatusReport::One(status)) => {
            assert_eq!(format, OutputFormat::Json);
            assert_eq!(status.pid, 1234);
        }
        other => panic!("{:?}", other),
    }
    let yaml = Cli { ports: vec![9999], format: "YAML".to_string(), extra: true };
    match render_output(9999, &Vec::new(), &yaml, 0) {
        Rendering::Structured(format, StatusReport::Free(status)) => {
            assert_eq!(format, OutputFormat::Yaml);
            assert_eq!(status.status, "free");
            assert_eq!(status.port, 9999);
        }
        other => panic!("{:?}", other),
    }
    let human = Cli { ports: vec![9999], format: "human".to_string(), extra: false };
    match render_output(9999, &Vec::new(), &human, 0) {
        Rendering::Human(lines) => assert_eq!(plain(&lines[0]), "\u{2713} Port 9999 is free"),
        other => panic!("{:?}", other),
    }
    let unknown = Cli { ports: vec![8080], format: "csv".to_string(), extra: false };
    match render_output(8080, &infos, &unknown, 0) {
        Rendering::Human(lines) => assert_eq!(lines.len(), 8),
        other => panic!("{:?}", other),
    }
}

#[test]
fn error_document_escapes_quotes() {
    assert_eq!(
        format_error_document(8080, "Permission denied (os error 13)"),
        "{\"port\": 8080, \"status\": \"error\", \"message\": \"Permission denied (os error 13)\"}"
    );
    assert_eq!(
        format_error_document(1, "no \"ss\" found"),
        "{\"port\": 1, \"status\": \"error\", \"message\": \"no \\\"ss\\\" found\"}"
    );
    assert_eq!(
        format_error_document(65535, ""),
        "{\"port\": 65535, \"status\": \"error\", \"message\": \"\"}"
    );
    assert_eq!(
        format_error_document(2, "a\\b\"\""),
        format!(
            "{{\"port\": {}, \"status\": \"error\", \"message\": \"{}\"}}",
            2,
            "a\\b\"\"".replace("\"", "\\\"")
        )
    );
}

#[test]
fn denied_command_in_a_structured_format_is_a_document() {
    match handle_error(8080, true, "Permission denied (os error 13)") {
        ErrorOutput::Document(text) => assert_eq!(
            text,
            "{\"port\": 8080, \"status\": \"error\", \"message\": \"Permission denied (os error 13)\"}"
        ),
        other => panic!("{:?}", other),
    }
}

#[test]
fn denied_command_in_the_human_format_ends_the_program() {
    match handle_error(8080, false, "Permission denied (os error 13)") {
        ErrorOutput::Fatal { line, exit_code } => {
            assert_eq!(exit_code, 1);
            assert_eq!(plain(&line), "Error: Permission denied (os error 13)");
            assert_eq!(styles(&line), vec![Style::RedBold, Style::Plain, Style::Plain]);
            assert_eq!(line[0].text, "Error:");
        }
        other => panic!("{:?}", other),
    }
}

fn complete_record() -> FullPortInfo {
    let mut info = record(8080, 1234, "nginx");
    info.base.user = Some("www-data".to_string());
    info.base.command = Some("nginx -g daemon off;".to_string());
    info.extra.tty = Some("pts/0".to_string());
    info.extra.start_time = Some(1_000);
    info.extra.uptime = Some(3_725);
    info
}

#[test]
fn records_are_copied_field_by_field() {
    let info = complete_record();
    let base = info.base.duplicate();
    assert_eq!((base.port, base.pid, base.process_name.as_str()), (8080, 1234, "nginx"));
    assert_eq!(base.user, Some("www-data".to_string()));
    assert_eq!(base.command, Some("nginx -g daemon off;".to_string()));
    let extra = info.extra.duplicate();
    assert_eq!(extra.tty, Some("pts/0".to_string()));
    assert_eq!(extra.start_time, Some(1_000));
    assert_eq!(extra.uptime, Some(3_725));
}

#[test]
fn extra_information_is_shown_only_on_demand() {
    let infos = vec![complete_record(), record(8080, 2, "b")];
    let with = select_shown(&infos, true);
    assert_eq!(with.len(), 2);
    assert_eq!(with[0].extra.tty, Some("pts/0".to_string()));
    assert_eq!(with[0].extra.start_time, Some(1_000));
    assert_eq!(with[0].extra.uptime, Some(3_725));
    assert_eq!(with[0].base.user, Some("www-data".to_string()));
    let without = select_shown(&infos, false);
    assert_eq!(without.len(), 2);
    assert_eq!(without[0].extra.tty, None);
    assert_eq!(without[0].extra.start_time, None);
    assert_eq!(without[0].extra.uptime, None);
    assert_eq!(without[0].base.user, Some("www-data".to_string()));
    assert_eq!(without[0].base.command, Some("nginx -g daemon off;".to_string()));
    assert_eq!((without[1].base.pid, without[1].base.process_name.as_str()), (2, "b"));
}

#[test]
fn output_follows_the_extra_option() {
    let infos = vec![complete_record()];
    let plain_human = Cli { ports: vec![8080], format: "human".to_string(), extra: false };
    match render_output(8080, &infos, &plain_human, 1_090) {
        Rendering::Human(lines) => {
            let text: Vec<String> = lines.iter().map(plain).collect();
            assert_eq!(text.len(), 8);
            assert_eq!(text[4], "  User:     www-data");
            assert_eq!(text[6], "  Command:  nginx -g daemon off;");
        }
        other => panic!("{:?}", other),
    }
    let extra_human = Cli { ports: vec![8080], format: "human".to_string(), extra: true };
    match render_output(8080, &infos, &extra_human, 1_090) {
        Rendering::Human(lines) => {
            let text: Vec<String> = lines.iter().map(plain).collect();
            assert_eq!(text.len(), 11);
            assert_eq!(text[5], "  TTY:      pts/0");
            assert_eq!(text[6], "  Since:  01:30");
            assert_eq!(text[7], "  Uptime: 1:02:05");
        }
        other => panic!("{:?}", other),
    }
    let plain_json = Cli { ports: vec![8080], format: "json".to_string(), extra: false };
    match render_output(8080, &infos, &plain_json, 0) {
        Rendering::Structured(_, StatusReport::One(status)) => {
            assert_eq!(status.user, "www-data");
            assert_eq!(status.tty, None);
            assert_eq!(status.start_time, None);
            assert_eq!(status.uptime_seconds, None);
        }
        other => panic!("{:?}", other),
    }
    let extra_json = Cli { ports: vec![8080], format: "json".to_string(), extra: true };
    match render_output(8080, &infos, &extra_json, 0) {
        Rendering::Structured(_, StatusReport::One(status)) => {
            assert_eq!(status.tty, Some("pts/0".to_string()));
            assert_eq!(status.start_time, Some(1_000));
            assert_eq!(status.uptime_seconds, Some(3_725));
        }
        other => panic!("{:?}", other),
    }
}
