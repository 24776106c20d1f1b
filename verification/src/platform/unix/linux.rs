//! The Linux backend: `ss` for discovery, the process file system for the rest.

use vstd::prelude::*;
use crate::platform::address::{find_address_port, first_address_port};
use crate::platform::backend::{
    get_reply, opt_str, reply_at, request_views, CommandSpec, CommandSpecView, PlatformProvider,
    PortSource, Request, RequestView, ResolveError,
};
use crate::text::chars::{chars_of, string_of};
use crate::text::number::{decimal, parse_u32, push_decimal, read_u32};
use crate::text::search::{
    after_first, between, contains, has_prefix, lemma_contains_find, starts_with,
    take_after_first, take_between,
};
use crate::text::split::{
    append_chars, fields, join, join_texts, lines, split_fields, split_lines, split_words, texts,
    words, Delim,
};
use crate::types::{opt_info, opt_text, FullPortInfo, FullPortInfoView, PortInfo, PortInfoView};

verus! {

/// The backend for Linux.
pub struct Linux;

impl Linux {
    /// The command that lists the listeners on `port`: `ss`, asked for
    /// listening TCP sockets with numeric addresses and their processes,
    /// filtered by source port.
    pub open spec fn command(port: u16) -> CommandSpecView {
        CommandSpecView {
            program: "ss"@,
            args: seq!["-ltnp"@, "sport = :"@ + decimal(port as nat)],
        }
    }

    /// The same command run through `sudo`, which lets `ss` name the
    /// processes of other users.
    pub open spec fn elevated_command(port: u16) -> CommandSpecView {
        CommandSpecView {
            program: "sudo"@,
            args: seq!["ss"@, "-ltnp"@, "sport = :"@ + decimal(port as nat)],
        }
    }

    /// Whether `line` is the header that `ss` prints above its rows.
    pub open spec fn is_header(line: Seq<char>) -> bool {
        starts_with(line, "State"@) || starts_with(line, "Netid"@)
    }

    /// The process name in what follows the users marker of a row: what
    /// stands between the first double quote and the next.
    pub open spec fn users_name(users: Seq<char>) -> Option<Seq<char>> {
        between(users, seq!['"'], seq!['"'])
    }

    /// The process id in what follows the users marker of a row: the number
    /// that stands between the first `pid=` and the next comma.
    pub open spec fn users_pid(users: Seq<char>) -> Option<u32> {
        match between(users, "pid="@, seq![',']) {
            Some(digits) => parse_u32(digits),
            None => None,
        }
    }

    /// Whether `line` is well formed, that is, stands for a listener: it is
    /// no header, one of its tokens is an address, and the `users:` marker
    /// is followed by a name between double quotes and by a process id
    /// between `pid=` and a comma.
    pub open spec fn is_listener_row(line: Seq<char>) -> bool {
        &&& !Self::is_header(line)
        &&& first_address_port(words(line, Delim::Whitespace), 0) is Some
        &&& after_first(line, "users:"@) matches Some(users)
        &&& Self::users_name(users) is Some
        &&& Self::users_pid(users) is Some
    }

    /// The record that `line` stands for.
    ///
    /// A header stands for none, nor does a line without the `users:`
    /// marker. The port is that of the first white-space separated token
    /// that is an address. Name and process id are read from what follows
    /// the first `users:`, each between its delimiters, so that of several
    /// entries the first is taken. A line that lacks one of these stands for
    /// no record.
    pub open spec fn line_record(line: Seq<char>) -> Option<PortInfoView> {
        if Self::is_header(line) {
            None
        } else {
            match (
                first_address_port(words(line, Delim::Whitespace), 0),
                after_first(line, "users:"@),
            ) {
                (Some(port), Some(users)) => match (Self::users_name(users), Self::users_pid(users)) {
                    (Some(name), Some(pid)) => Some(
                        PortInfoView { port, process_name: name, pid, user: None, command: None },
                    ),
                    _ => None,
                },
                _ => None,
            }
        }
    }

    /// Builds the command that lists the listeners on `port`.
    pub fn port_command(port: u16) -> (c: CommandSpec)
        ensures
            c@ == Self::command(port),
    {
        let args = vec!["-ltnp".to_string(), Self::port_filter(port)];
        let c = CommandSpec { program: "ss".to_string(), args };
        assert(c@.args == Self::command(port).args);
        c
    }

    /// Builds the command that lists the listeners on `port` through `sudo`.
    pub fn elevated_port_command(port: u16) -> (c: CommandSpec)
        ensures
            c@ == Self::elevated_command(port),
    {
        let args = vec!["ss".to_string(), "-ltnp".to_string(), Self::port_filter(port)];
        let c = CommandSpec { program: "sudo".to_string(), args };
        assert(c@.args == Self::elevated_command(port).args);
        c
    }

    /// The filter expression that selects the sockets bound to `port`.
    fn port_filter(port: u16) -> (s: String)
        ensures
            s@ == "sport = :"@ + decimal(port as nat),
    {
        let mut text = chars_of("sport = :");
        push_decimal(&mut text, port as u64);
        string_of(&text)
    }

    /// Reads one line of the output of `ss`.
    ///
    /// Gives the record that the line stands for, with `user` and `command`
    /// absent. A header, a line without the users marker, without an address
    /// or without a name and a process id between their delimiters gives
    /// `None`.
    pub fn parse_port_line(line: &str) -> (r: Option<PortInfo>)
        ensures
            opt_info(r) == Self::line_record(line@),
            r is Some <==> Self::is_listener_row(line@),
            Self::is_header(line@) ==> r is None,
            !contains(line@, "users:"@) ==> r is None,
            first_address_port(words(line@, Delim::Whitespace), 0) is None ==> r is None,
            r matches Some(info) ==> info.user is None && info.command is None,
    {
        let text = chars_of(line);
        if has_prefix(&text, &chars_of("State")) || has_prefix(&text, &chars_of("Netid")) {
            return None;
        }
        proof {
            lemma_contains_find(line@, "users:"@);
        }
        let users = match take_after_first(&text, &chars_of("users:")) {
            Some(users) => users,
            None => {
                return None;
            },
        };
        let tokens = split_words(&text, &Delim::Whitespace);
        let port = match find_address_port(&tokens, 0) {
            Some(port) => port,
            None => {
                return None;
            },
        };
        let quote: Vec<char> = vec!['"'];
        assert(quote@ == seq!['"']);
        let name = match take_between(&users, &quote, &quote) {
            Some(name) => name,
            None => {
                return None;
            },
        };
        let comma: Vec<char> = vec![','];
        assert(comma@ == seq![',']);
        let pid = match take_between(&users, &chars_of("pid="), &comma) {
            Some(digits) => match read_u32(&digits) {
                Some(pid) => pid,
                None => {
                    return None;
                },
            },
            None => {
                return None;
            },
        };
        Some(PortInfo { port, process_name: string_of(&name), pid, user: None, command: None })
    }
}

/// The first of `rows`, from index `i` on, that begins with `prefix`.
pub open spec fn first_with_prefix(rows: Seq<Seq<char>>, prefix: Seq<char>, i: int) -> Option<
    Seq<char>,
>
    decreases rows.len() - i,
{
    if i < 0 || i >= rows.len() {
        None
    } else if starts_with(rows[i], prefix) {
        Some(rows[i])
    } else {
        first_with_prefix(rows, prefix, i + 1)
    }
}

/// The owner's numeric id in the text of a process status file: the second
/// white-space separated token of the first line that begins with `Uid:`.
pub open spec fn status_uid(status: Seq<char>) -> Option<u32> {
    match first_with_prefix(lines(status), "Uid:"@, 0) {
        Some(line) => {
            let tokens = words(line, Delim::Whitespace);
            if tokens.len() > 1 {
                parse_u32(tokens[1])
            } else {
                None
            }
        },
        None => None,
    }
}

/// The login name of one line of the account database, if the line has at
/// least three colon-separated fields and the third writes `uid`.
pub open spec fn entry_name(line: Seq<char>, uid: u32) -> Option<Seq<char>> {
    let parts = fields(line, Delim::Char(':'));
    if parts.len() >= 3 && parse_u32(parts[2]) == Some(uid) {
        Some(parts[0])
    } else {
        None
    }
}

/// The login name of the first of `rows`, from index `i` on, that is an
/// entry for `uid`.
pub open spec fn account_name_from(rows: Seq<Seq<char>>, uid: u32, i: int) -> Option<Seq<char>>
    decreases rows.len() - i,
{
    if i < 0 || i >= rows.len() {
        None
    } else {
        match entry_name(rows[i], uid) {
            Some(name) => Some(name),
            None => account_name_from(rows, uid, i + 1),
        }
    }
}

/// The login name that the account database `passwd` gives for `uid`.
pub open spec fn account_name(passwd: Seq<char>, uid: u32) -> Option<Seq<char>> {
    account_name_from(lines(passwd), uid, 0)
}

/// The owner of a process, from the text of its status file and of the
/// account database, each `None` where it could not be read.
///
/// Without a status file, or an owner id in it, the owner is unknown. The
/// id is resolved to a login name through the account database; where that
/// has no entry for it, or could not be read, the owner is the id written in
/// base ten.
pub open spec fn process_user(status: Option<Seq<char>>, passwd: Option<Seq<char>>) -> Option<
    Seq<char>,
> {
    match status {
        Some(status) => match status_uid(status) {
            Some(uid) => match passwd {
                Some(passwd) => match account_name(passwd, uid) {
                    Some(name) => Some(name),
                    None => Some(decimal(uid as nat)),
                },
                None => Some(decimal(uid as nat)),
            },
            None => None,
        },
        None => None,
    }
}

/// The command line of a process, from the text of its argument file, `None`
/// where it could not be read: the arguments, which NUL characters separate,
/// joined by single spaces. Empty arguments are left out; without any
/// argument the command line is unknown.
pub open spec fn process_command(cmdline: Option<Seq<char>>) -> Option<Seq<char>> {
    match cmdline {
        Some(cmdline) => {
            let joined = join(words(cmdline, Delim::Char('\0')), seq![' ']);
            if joined.len() == 0 {
                None
            } else {
                Some(joined)
            }
        },
        None => None,
    }
}

/// The path of the account database.
pub open spec fn passwd_path_of() -> Seq<char> {
    "/etc/passwd"@
}

/// The path of the status file of process `pid`.
pub open spec fn status_path_of(pid: u32) -> Seq<char> {
    "/proc/"@ + decimal(pid as nat) + "/status"@
}

/// The path of the argument file of process `pid`.
pub open spec fn cmdline_path_of(pid: u32) -> Seq<char> {
    "/proc/"@ + decimal(pid as nat) + "/cmdline"@
}

/// The path of the status file of process `pid`.
pub fn status_path(pid: u32) -> (path: String)
    ensures
        path@ == status_path_of(pid),
{
    let mut text = chars_of("/proc/");
    push_decimal(&mut text, pid as u64);
    append_chars(&mut text, &chars_of("/status"));
    string_of(&text)
}

/// The path of the argument file of process `pid`.
pub fn cmdline_path(pid: u32) -> (path: String)
    ensures
        path@ == cmdline_path_of(pid),
{
    let mut text = chars_of("/proc/");
    push_decimal(&mut text, pid as u64);
    append_chars(&mut text, &chars_of("/cmdline"));
    string_of(&text)
}

/// Reads the owner's numeric id from the text of a process status file.
pub fn read_status_uid(status: &str) -> (r: Option<u32>)
    ensures
        r == status_uid(status@),
{
    let rows = split_lines(&chars_of(status));
    let prefix = chars_of("Uid:");
    let mut i: usize = 0;
    while i < rows.len()
        invariant
            i <= rows.len(),
            prefix@ == "Uid:"@,
            texts(rows@) == lines(status@),
            first_with_prefix(texts(rows@), prefix@, 0) == first_with_prefix(
                texts(rows@),
                prefix@,
                i as int,
            ),
        decreases rows.len() - i,
    {
        if has_prefix(&rows[i], &prefix) {
            let tokens = split_words(&rows[i], &Delim::Whitespace);
            assert(texts(tokens@).len() == tokens.len());
            if tokens.len() > 1 {
                assert(texts(tokens@)[1] == tokens[1]@);
                return read_u32(&tokens[1]);
            }
            return None;
        }
        i += 1;
    }
    None
}

/// Looks `uid` up in the text of the account database.
pub fn find_account_name(passwd: &str, uid: u32) -> (r: Option<String>)
    ensures
        opt_text(r) == account_name(passwd@, uid),
{
    let rows = split_lines(&chars_of(passwd));
    let colon = Delim::Char(':');
    let mut i: usize = 0;
    while i < rows.len()
        invariant
            i <= rows.len(),
            colon == Delim::Char(':'),
            texts(rows@) == lines(passwd@),
            account_name_from(texts(rows@), uid, 0) == account_name_from(
                texts(rows@),
                uid,
                i as int,
            ),
        decreases rows.len() - i,
    {
        let parts = split_fields(&rows[i], &colon);
        assert(texts(parts@).len() == parts.len());
        if parts.len() >= 3 {
            assert(texts(parts@)[2] == parts[2]@);
            assert(texts(parts@)[0] == parts[0]@);
            match read_u32(&parts[2]) {
                Some(found) => {
                    if found == uid {
                        return Some(string_of(&parts[0]));
                    }
                },
                None => {},
            }
        }
        i += 1;
    }
    None
}

/// Finds the owner of a process from the text of its status file and of the
/// account database, each `None` where it could not be read.
pub fn get_process_user(status: Option<&str>, passwd: Option<&str>) -> (r: Option<String>)
    ensures
        opt_text(r) == process_user(opt_str(status), opt_str(passwd)),
{
    let status = match status {
        Some(status) => status,
        None => {
            return None;
        },
    };
    let uid = match read_status_uid(status) {
        Some(uid) => uid,
        None => {
            return None;
        },
    };
    if let Some(passwd) = passwd {
        if let Some(name) = find_account_name(passwd, uid) {
            return Some(name);
        }
    }
    let mut text: Vec<char> = Vec::new();
    push_decimal(&mut text, uid as u64);
    assert(text@ == decimal(uid as nat));
    Some(string_of(&text))
}

/// Rebuilds the command line of a process from the text of its argument
/// file, `None` where it could not be read.
pub fn get_process_command(cmdline: Option<&str>) -> (r: Option<String>)
    ensures
        opt_text(r) == process_command(opt_str(cmdline)),
{
    match cmdline {
        Some(cmdline) => {
            let args = split_words(&chars_of(cmdline), &Delim::Char('\0'));
            let space: Vec<char> = vec![' '];
            assert(space@ == seq![' ']);
            let joined = join_texts(&args, &space);
            if joined.len() == 0 {
                None
            } else {
                Some(string_of(&joined))
            }
        },
        None => None,
    }
}

impl PlatformProvider for Linux {
    open spec fn source(port: u16) -> CommandSpecView {
        Linux::command(port)
    }

    open spec fn record(row: Seq<char>) -> Option<PortInfoView> {
        Linux::line_record(row)
    }

    fn port_source(port: u16) -> (r: Result<PortSource, ResolveError>) {
        Ok(PortSource::Command(Linux::port_command(port)))
    }

    open spec fn lookups(pid: u32) -> Seq<RequestView> {
        seq![
            RequestView::ReadFile(status_path_of(pid)),
            RequestView::ReadFile(passwd_path_of()),
            RequestView::ReadFile(cmdline_path_of(pid)),
        ]
    }

    open spec fn completed(
        record: FullPortInfoView,
        replies: Seq<Option<Seq<char>>>,
    ) -> FullPortInfoView {
        FullPortInfoView {
            base: PortInfoView {
                user: process_user(reply_at(replies, 0), reply_at(replies, 1)),
                command: process_command(reply_at(replies, 2)),
                ..record.base
            },
            extra: record.extra,
        }
    }

    fn parse_port(row: &str) -> (r: Option<PortInfo>) {
        Linux::parse_port_line(row)
    }

    fn enrichment_requests(pid: u32) -> (r: Vec<Request>) {
        let r = vec![
            Request::ReadFile(status_path(pid)),
            Request::ReadFile("/etc/passwd".to_string()),
            Request::ReadFile(cmdline_path(pid)),
        ];
        assert(request_views(r@) == Linux::lookups(pid));
        r
    }

    fn enrich(record: FullPortInfo, replies: &Vec<Option<String>>) -> (r: FullPortInfo) {
        let user = get_process_user(get_reply(replies, 0), get_reply(replies, 1));
        let command = get_process_command(get_reply(replies, 2));
        FullPortInfo {
            base: PortInfo {
                port: record.base.port,
                process_name: record.base.process_name,
                pid: record.base.pid,
                user,
                command,
            },
            extra: record.extra,
        }
    }
}

} // verus!
