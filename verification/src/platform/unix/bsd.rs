//! The backend for the BSD family and macOS: `lsof` for discovery.

use vstd::prelude::*;
use crate::platform::address::{find_address_port, first_address_port};
use crate::platform::backend::{
    request_views, CommandSpec, CommandSpecView, PlatformProvider, PortSource, Request,
    RequestView, ResolveError,
};
use crate::text::chars::{chars_of, same_chars, string_of};
use crate::text::number::{decimal, parse_u32, push_decimal, read_u32};
use crate::text::search::{has_prefix, starts_with};
use crate::text::split::{split_words, texts, words, Delim};
use crate::types::{
    bare, opt_info, FullPortInfo, FullPortInfoView, PortInfo, PortInfoView, ProcessExtra,
    ProcessExtraView,
};

verus! {

/// The backend for the BSD family and macOS.
pub struct Bsd;

impl Bsd {
    /// The command that lists the listeners on `port`: `lsof`, asked for
    /// numeric hosts and ports, for TCP on that port, in the listening state.
    pub open spec fn command(port: u16) -> CommandSpecView {
        CommandSpecView {
            program: "lsof"@,
            args: seq!["-nP"@, "-iTCP:"@ + decimal(port as nat), "-sTCP:LISTEN"@],
        }
    }

    /// Whether `line` is the header that `lsof` prints above its rows.
    pub open spec fn is_header(line: Seq<char>) -> bool {
        starts_with(line, "COMMAND"@)
    }

    /// Whether `line` is well formed, that is, stands for a listener: it is
    /// no header, has at least four columns of which the last is
    /// `(LISTEN)`, its second column is a number, and one of its columns
    /// after the third is an address.
    pub open spec fn is_listener_row(line: Seq<char>) -> bool {
        let columns = words(line, Delim::Whitespace);
        &&& !Self::is_header(line)
        &&& columns.len() >= 4
        &&& columns.last() == "(LISTEN)"@
        &&& parse_u32(columns[1]) is Some
        &&& first_address_port(columns, 3) is Some
    }

    /// The record that `line` stands for.
    ///
    /// The columns of a row are separated by white space: the command name,
    /// the process id, the owner, further columns, and at the end the state
    /// in brackets. A row stands for a listener if it is no header, has at
    /// least four columns, ends in `(LISTEN)`, and its second column is a
    /// number. The port is that of the first column after the owner that is
    /// an address.
    pub open spec fn line_record(line: Seq<char>) -> Option<PortInfoView> {
        let columns = words(line, Delim::Whitespace);
        if Self::is_header(line) || columns.len() < 4 || columns.last() != "(LISTEN)"@ {
            None
        } else {
            match (parse_u32(columns[1]), first_address_port(columns, 3)) {
                (Some(pid), Some(port)) => Some(
                    PortInfoView {
                        port,
                        process_name: columns[0],
                        pid,
                        user: Some(columns[2]),
                        command: None,
                    },
                ),
                _ => None,
            }
        }
    }

    /// Builds the command that lists the listeners on `port`.
    pub fn port_command(port: u16) -> (c: CommandSpec)
        ensures
            c@ == Self::command(port),
    {
        let mut selector = chars_of("-iTCP:");
        push_decimal(&mut selector, port as u64);
        let args = vec!["-nP".to_string(), string_of(&selector), "-sTCP:LISTEN".to_string()];
        let c = CommandSpec { program: "lsof".to_string(), args };
        assert(c@.args == Self::command(port).args);
        c
    }

    /// Reads one line of the output of `lsof`.
    ///
    /// Gives the record that the line stands for, with the owner that the
    /// row names and `command` absent. A header, a row in another state, or
    /// one without a readable process id or address gives `None`.
    pub fn parse_port_line(line: &str) -> (r: Option<PortInfo>)
        ensures
            opt_info(r) == Self::line_record(line@),
            r is Some <==> Self::is_listener_row(line@),
            Self::is_header(line@) ==> r is None,
            words(line@, Delim::Whitespace).len() < 4 ==> r is None,
            r is Some ==> words(line@, Delim::Whitespace).last() == "(LISTEN)"@,
            r matches Some(info) ==> Some(info.pid) == parse_u32(
                words(line@, Delim::Whitespace)[1],
            ),
            r matches Some(info) ==> info.command is None,
    {
        let text = chars_of(line);
        if has_prefix(&text, &chars_of("COMMAND")) {
            return None;
        }
        let columns = split_words(&text, &Delim::Whitespace);
        assert(texts(columns@).len() == columns.len());
        if columns.len() < 4 {
            return None;
        }
        let last = columns.len() - 1;
        assert(texts(columns@).last() == columns[last as int]@);
        if !same_chars(&columns[last], &chars_of("(LISTEN)")) {
            return None;
        }
        assert(texts(columns@)[0] == columns[0]@);
        assert(texts(columns@)[1] == columns[1]@);
        assert(texts(columns@)[2] == columns[2]@);
        let pid = match read_u32(&columns[1]) {
            Some(pid) => pid,
            None => {
                return None;
            },
        };
        match find_address_port(&columns, 3) {
            Some(port) => Some(
                PortInfo {
                    port,
                    process_name: string_of(&columns[0]),
                    pid,
                    user: Some(string_of(&columns[2])),
                    command: None,
                },
            ),
            None => None,
        }
    }

    /// What is known of process `pid` beyond its row: nothing.
    pub fn enrich_process(pid: u32) -> (extra: ProcessExtra)
        ensures
            extra@ == ProcessExtraView::absent(),
    {
        ProcessExtra::default()
    }
}

impl PlatformProvider for Bsd {
    open spec fn source(port: u16) -> CommandSpecView {
        Bsd::command(port)
    }

    open spec fn record(row: Seq<char>) -> Option<PortInfoView> {
        Bsd::line_record(row)
    }

    fn port_source(port: u16) -> (r: Result<PortSource, ResolveError>) {
        Ok(PortSource::Command(Bsd::port_command(port)))
    }

    open spec fn lookups(pid: u32) -> Seq<RequestView> {
        Seq::empty()
    }

    open spec fn completed(
        record: FullPortInfoView,
        replies: Seq<Option<Seq<char>>>,
    ) -> FullPortInfoView {
        bare(record.base)
    }

    fn parse_port(row: &str) -> (r: Option<PortInfo>) {
        Bsd::parse_port_line(row)
    }

    fn enrichment_requests(pid: u32) -> (r: Vec<Request>) {
        let r: Vec<Request> = Vec::new();
        assert(request_views(r@) == Bsd::lookups(pid));
        r
    }

    fn enrich(record: FullPortInfo, replies: &Vec<Option<String>>) -> (r: FullPortInfo) {
        let extra = Bsd::enrich_process(record.base.pid);
        FullPortInfo { base: record.base, extra }
    }
}

} // verus!
