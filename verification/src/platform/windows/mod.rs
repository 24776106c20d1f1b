//! The Windows backend: `netstat` for discovery.

use vstd::prelude::*;
use crate::platform::backend::{
    get_reply, read_output, read_result, reply_at, request_views, result_view, CommandSpec,
    CommandSpecView, PlatformProvider, PortSource, ProbeOutcome, Request, RequestView,
    ResolveError, ResolveErrorView,
};
use crate::platform::windows::process::{
    command_line_query, command_line_query_of, name_query, name_query_of, process_info_from_pid,
    process_name, process_user, ps_answer, ps_command, ps_utf8, tasklist_command,
    tasklist_command_of, username_variable,
};
use crate::text::chars::{chars_of, same_chars, string_of};
use crate::text::number::{decimal, parse_u16, parse_u32, push_decimal, read_u16, read_u32};
use crate::text::search::{after_last, take_after_last};
use crate::text::split::{append_chars, split_words, texts, words, Delim};
use crate::types::{opt_info, FullPortInfo, FullPortInfoView, PortInfo, PortInfoView};

pub mod process;

verus! {

/// The backend for Windows.
pub struct Windows;

impl Windows {
    /// The command that lists the listeners on `port`: `netstat` with
    /// numeric addresses and process ids, its rows filtered by `findstr` to
    /// those that hold a colon and the port's digits.
    pub open spec fn command(port: u16) -> CommandSpecView {
        CommandSpecView {
            program: "cmd"@,
            args: seq!["/C"@, "netstat -ano | findstr :"@ + decimal(port as nat)],
        }
    }

    /// The port of the local address `local`: the number after its last
    /// colon, or all of it where it holds no colon.
    pub open spec fn local_port(local: Seq<char>) -> Option<u16> {
        match after_last(local, ':') {
            Some(digits) => parse_u16(digits),
            None => parse_u16(local),
        }
    }

    /// The name that a record carries until the process has been looked up.
    pub open spec fn unknown_name() -> Seq<char> {
        "unknown"@
    }

    /// Whether `row` is well formed, that is, stands for a listener: it has
    /// at least five columns, the first is exactly `TCP`, the fourth exactly
    /// `LISTENING`, the last a number, and the second ends in a port.
    pub open spec fn is_listener_row(row: Seq<char>) -> bool {
        let columns = words(row, Delim::Whitespace);
        &&& columns.len() >= 5
        &&& columns[0] == "TCP"@
        &&& columns[3] == "LISTENING"@
        &&& parse_u32(columns.last()) is Some
        &&& Self::local_port(columns[1]) is Some
    }

    /// The record that `row` stands for.
    ///
    /// The columns of a row are separated by white space: protocol, local
    /// address, foreign address, state, and last the process id. A row
    /// stands for a listener if it has at least five columns, the first is
    /// exactly `TCP`, the fourth exactly `LISTENING`, the last a number, and
    /// the second ends in a port.
    pub open spec fn row_record(row: Seq<char>) -> Option<PortInfoView> {
        let columns = words(row, Delim::Whitespace);
        if columns.len() < 5 || columns[0] != "TCP"@ || columns[3] != "LISTENING"@ {
            None
        } else {
            match (parse_u32(columns.last()), Self::local_port(columns[1])) {
                (Some(pid), Some(port)) => Some(
                    PortInfoView {
                        port,
                        process_name: Self::unknown_name(),
                        pid,
                        user: None,
                        command: None,
                    },
                ),
                _ => None,
            }
        }
    }

    /// The result of a lookup of `port`, given how the discovery command
    /// ended. A pipeline that reports failure found no row for the port,
    /// which is the answer that nothing listens there.
    pub open spec fn check_result(port: u16, outcome: ProbeOutcome) -> Result<
        Seq<FullPortInfoView>,
        ResolveErrorView,
    > {
        match outcome {
            ProbeOutcome::Finished { success, stdout } => if success {
                read_result::<Windows>(port, stdout@)
            } else {
                Ok(Seq::empty())
            },
            ProbeOutcome::SpawnFailed { reason } => Err(
                ResolveErrorView::ExecutionFailed {
                    reason: "Failed to execute command: "@ + reason@,
                },
            ),
        }
    }

    /// Builds the command that lists the listeners on `port`.
    pub fn port_command(port: u16) -> (c: CommandSpec)
        ensures
            c@ == Self::command(port),
    {
        let mut pipeline = chars_of("netstat -ano | findstr :");
        push_decimal(&mut pipeline, port as u64);
        let args = vec!["/C".to_string(), string_of(&pipeline)];
        let c = CommandSpec { program: "cmd".to_string(), args };
        assert(c@.args == Self::command(port).args);
        c
    }

    /// Answers a lookup of `port` from the way the discovery command ended.
    ///
    /// Gives the listeners on exactly `port` among the rows that the command
    /// printed, in their order, and none where the command reported failure.
    /// A command that could not be started, or whose output is not valid
    /// UTF-8, gives `ExecutionFailed`.
    pub fn check_port(port: u16, outcome: ProbeOutcome) -> (r: Result<
        Vec<FullPortInfo>,
        ResolveError,
    >)
        ensures
            result_view(r) == Self::check_result(port, outcome),
            r matches Ok(found) ==> forall|k: int|
                0 <= k < found.len() ==> (#[trigger] found[k]).base.port == port,
    {
        match outcome {
            ProbeOutcome::Finished { success, stdout } => {
                if success {
                    read_output::<Windows>(port, stdout)
                } else {
                    let none: Vec<FullPortInfo> = Vec::new();
                    assert(crate::types::record_views(none@) == Seq::<FullPortInfoView>::empty());
                    Ok(none)
                }
            },
            ProbeOutcome::SpawnFailed { reason } => {
                let mut text = chars_of("Failed to execute command: ");
                append_chars(&mut text, &chars_of(reason.as_str()));
                Err(ResolveError::ExecutionFailed { reason: string_of(&text) })
            },
        }
    }

    /// Reads one row of the output of `netstat`.
    ///
    /// Gives the record that the row stands for, with the name `unknown` and
    /// `user` and `command` absent. A row of another protocol or state, or
    /// one without a readable process id or port, gives `None`.
    pub fn parse_port_line(row: &str) -> (r: Option<PortInfo>)
        ensures
            opt_info(r) == Self::row_record(row@),
            r is Some <==> Self::is_listener_row(row@),
            words(row@, Delim::Whitespace).len() < 5 ==> r is None,
            r is Some ==> words(row@, Delim::Whitespace)[0] == "TCP"@ && words(
                row@,
                Delim::Whitespace,
            )[3] == "LISTENING"@,
            r matches Some(info) ==> Some(info.pid) == parse_u32(
                words(row@, Delim::Whitespace).last(),
            ),
            r matches Some(info) ==> info.user is None && info.command is None,
    {
        let columns = split_words(&chars_of(row), &Delim::Whitespace);
        assert(texts(columns@).len() == columns.len());
        if columns.len() < 5 {
            return None;
        }
        assert(texts(columns@)[0] == columns[0]@);
        assert(texts(columns@)[1] == columns[1]@);
        assert(texts(columns@)[3] == columns[3]@);
        let last = columns.len() - 1;
        assert(texts(columns@).last() == columns[last as int]@);
        if !same_chars(&columns[0], &chars_of("TCP")) || !same_chars(
            &columns[3],
            &chars_of("LISTENING"),
        ) {
            return None;
        }
        let pid = match read_u32(&columns[last]) {
            Some(pid) => pid,
            None => {
                return None;
            },
        };
        let port = match take_after_last(&columns[1], ':') {
            Some(digits) => read_u16(&digits),
            None => read_u16(&columns[1]),
        };
        match port {
            Some(port) => Some(
                PortInfo {
                    port,
                    process_name: "unknown".to_string(),
                    pid,
                    user: None,
                    command: None,
                },
            ),
            None => None,
        }
    }
}

impl PlatformProvider for Windows {
    open spec fn source(port: u16) -> CommandSpecView {
        Windows::command(port)
    }

    open spec fn record(row: Seq<char>) -> Option<PortInfoView> {
        Windows::row_record(row)
    }

    fn port_source(port: u16) -> (r: Result<PortSource, ResolveError>) {
        Ok(PortSource::Command(Windows::port_command(port)))
    }

    open spec fn lookups(pid: u32) -> Seq<RequestView> {
        seq![
            RequestView::Run(ps_command(name_query_of(pid))),
            RequestView::Run(ps_command(command_line_query_of(pid))),
            RequestView::Run(tasklist_command_of(pid)),
            RequestView::Variable(username_variable()),
        ]
    }

    open spec fn completed(
        record: FullPortInfoView,
        replies: Seq<Option<Seq<char>>>,
    ) -> FullPortInfoView {
        FullPortInfoView {
            base: PortInfoView {
                process_name: match process_name(reply_at(replies, 0)) {
                    Some(name) => name,
                    None => record.base.process_name,
                },
                command: ps_answer(reply_at(replies, 1)),
                user: process_user(reply_at(replies, 2), reply_at(replies, 3)),
                ..record.base
            },
            extra: record.extra,
        }
    }

    fn parse_port(row: &str) -> (r: Option<PortInfo>) {
        Windows::parse_port_line(row)
    }

    fn enrichment_requests(pid: u32) -> (r: Vec<Request>) {
        let r = vec![
            Request::Run(ps_utf8(name_query(pid).as_str())),
            Request::Run(ps_utf8(command_line_query(pid).as_str())),
            Request::Run(tasklist_command(pid)),
            Request::Variable("USERNAME".to_string()),
        ];
        assert(request_views(r@) == Windows::lookups(pid));
        r
    }

    fn enrich(record: FullPortInfo, replies: &Vec<Option<String>>) -> (r: FullPortInfo) {
        let (name, command, user) = process_info_from_pid(
            get_reply(replies, 0),
            get_reply(replies, 1),
            get_reply(replies, 2),
            get_reply(replies, 3),
        );
        let process_name = match name {
            Some(name) => name,
            None => record.base.process_name,
        };
        FullPortInfo {
            base: PortInfo {
                port: record.base.port,
                process_name,
                pid: record.base.pid,
                user,
                command,
            },
            extra: record.extra,
        }
    }
}

} // verus!
