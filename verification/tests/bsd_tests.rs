use port_check::platform::backend::{PlatformProvider, PortSource};
use port_check::platform::unix::bsd::Bsd;
use port_check::types::{FullPortInfo, PortInfo, ProcessExtra};

#[test]
fn bsd_row_gives_name_pid_owner_and_port() {
    let line = "nginx    1234 root    6u  IPv4 0x1234567890abcdef      0t0  TCP 127.0.0.1:8080 (LISTEN)";
    let info = Bsd::parse_port_line(line).expect("the row stands for a listener");
    assert_eq!(info.port, 8080);
    assert_eq!(info.pid, 1234);
    assert_eq!(info.process_name, "nginx");
    assert_eq!(info.user, Some("root".to_string()));
    assert_eq!(info.command, None);
}

#[test]
fn bsd_row_with_other_address_forms() {
    let any = "node 4321 alice 23u IPv6 0xabc 0t0 TCP *:3000 (LISTEN)";
    let info = Bsd::parse_port_line(any).expect("the row stands for a listener");
    assert_eq!((info.port, info.pid, info.process_name.as_str()), (3000, 4321, "node"));
    let v6 = "sshd 77 root 4u IPv6 0xabc 0t0 TCP [::1]:22 (LISTEN)";
    let info = Bsd::parse_port_line(v6).expect("the row stands for a listener");
    assert_eq!((info.port, info.pid, info.process_name.as_str()), (22, 77, "sshd"));
}

#[test]
fn bsd_header_gives_no_record() {
    assert!(Bsd::parse_port_line(
        "COMMAND   PID USER   FD   TYPE             DEVICE SIZE/OFF NODE NAME"
    )
    .is_none());
    assert!(Bsd::parse_port_line("COMMAND 1 root 6u IPv4 0x1 0t0 TCP *:80 (LISTEN)").is_none());
}

#[test]
fn bsd_malformed_lines_give_no_record() {
    let lines = [
        "",
        "   ",
        "nginx 1234 root",
        "nginx 1234 root (LISTEN)",
        "nginx abc root 6u IPv4 0x1 0t0 TCP 127.0.0.1:8080 (LISTEN)",
        "nginx 1234 root 6u IPv4 0x1 0t0 TCP 127.0.0.1:http (LISTEN)",
        "nginx 1234 root 6u IPv4 0x1 0t0 TCP 127.0.0.1:8080",
        "nginx 1234 root 6u IPv4 0x1 0t0 TCP 127.0.0.1:8080 (ESTABLISHED)",
        "nginx 1234 root 6u IPv4 0x1 0t0 TCP 127.0.0.1:8080->10.0.0.1:55555 (ESTABLISHED)",
        "nginx 1234 root 6u IPv4 0x1 0t0 TCP 127.0.0.1:8080 (listen)",
    ];
    for line in lines {
        assert!(Bsd::parse_port_line(line).is_none(), "{:?}", line);
    }
}

#[test]
fn bsd_address_is_sought_after_the_owner() {
    let line = "a:1 2 b:3 6u IPv4 0x1 0t0 TCP *:80 (LISTEN)";
    let info = Bsd::parse_port_line(line).expect("the row stands for a listener");
    assert_eq!(info.port, 80);
    assert_eq!(info.process_name, "a:1");
    assert_eq!(info.user, Some("b:3".to_string()));
}

#[test]
fn bsd_command() {
    let c = Bsd::port_command(8080);
    assert_eq!(c.program, "lsof");
    assert_eq!(c.args, vec!["-nP", "-iTCP:8080", "-sTCP:LISTEN"]);
    match <Bsd as PlatformProvider>::port_source(1) {
        Ok(PortSource::Command(c)) => assert_eq!(c.args[1], "-iTCP:1"),
        Err(e) => panic!("{:?}", e),
    }
}

#[test]
fn bsd_enrichment_knows_nothing_more() {
    let extra = Bsd::enrich_process(1234);
    assert_eq!(extra.tty, None);
    assert_eq!(extra.start_time, None);
    assert_eq!(extra.uptime, None);
    assert!(<Bsd as PlatformProvider>::enrichment_requests(1234).is_empty());
    let record = FullPortInfo {
        base: PortInfo {
            port: 8080,
            process_name: "nginx".to_string(),
            pid: 1234,
            user: Some("root".to_string()),
            command: None,
        },
        extra: ProcessExtra::default(),
    };
    let full = <Bsd as PlatformProvider>::enrich(record, &vec![Some("ignored".to_string())]);
    assert_eq!(full.base.port, 8080);
    assert_eq!(full.base.pid, 1234);
    assert_eq!(full.base.process_name, "nginx");
    assert_eq!(full.base.user, Some("root".to_string()));
    assert_eq!(full.base.command, None);
    assert_eq!(full.extra.tty, None);
}
