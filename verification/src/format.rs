//! What is shown of an answer: the status documents of the structured
//! formats, and the styled lines of the human format.

use vstd::prelude::*;
use crate::cli::{chosen_format, Cli, OutputFormat};
use crate::text::chars::{chars_of, string_of};
use crate::text::number::{decimal, decimal_two, push_decimal, push_decimal_two};
use crate::text::split::append_chars;
use crate::types::{
    clone_text, opt_text, record_views, FullPortInfo, FullPortInfoView, ProcessExtra,
    ProcessExtraView,
};

verus! {

/// The status of a port on which nothing listens, as the structured
/// formats show it: the port and the word `free`, and nothing of a process.
#[derive(Debug, Clone)]
pub struct FreeStatus {
    pub port: u16,
    /// Always `free`.
    pub status: String,
}

/// What a `FreeStatus` holds, as mathematical values.
pub struct FreeStatusView {
    pub port: u16,
    pub status: Seq<char>,
}

impl View for FreeStatus {
    type V = FreeStatusView;

    open spec fn view(&self) -> FreeStatusView {
        FreeStatusView { port: self.port, status: self.status@ }
    }
}

impl FreeStatus {
    /// The status of the free port `port`.
    pub open spec fn of(port: u16) -> FreeStatusView {
        FreeStatusView { port, status: "free"@ }
    }

    /// Makes the status of the free port `port`.
    pub fn new(port: u16) -> (status: FreeStatus)
        ensures
            status@ == Self::of(port),
    {
        FreeStatus { port, status: "free".to_string() }
    }
}

/// The status of a port in use, as the structured formats show it.
#[derive(Debug, Clone)]
pub struct PortStatus {
    pub port: u16,
    /// Always `in_use`.
    pub status: String,
    pub process: String,
    pub pid: u32,
    pub user: String,
    pub command: String,
    pub tty: Option<String>,
    /// Seconds since the Unix epoch.
    pub start_time: Option<u64>,
    pub uptime_seconds: Option<u64>,
}

/// What a `PortStatus` holds, as mathematical values.
pub struct PortStatusView {
    pub port: u16,
    pub status: Seq<char>,
    pub process: Seq<char>,
    pub pid: u32,
    pub user: Seq<char>,
    pub command: Seq<char>,
    pub tty: Option<Seq<char>>,
    pub start_time: Option<u64>,
    pub uptime_seconds: Option<u64>,
}

impl View for PortStatus {
    type V = PortStatusView;

    open spec fn view(&self) -> PortStatusView {
        PortStatusView {
            port: self.port,
            status: self.status@,
            process: self.process@,
            pid: self.pid,
            user: self.user@,
            command: self.command@,
            tty: opt_text(self.tty),
            start_time: self.start_time,
            uptime_seconds: self.uptime_seconds,
        }
    }
}

/// The text of an optional field; empty where it is absent.
pub open spec fn text_or_empty(o: Option<Seq<char>>) -> Seq<char> {
    match o {
        Some(text) => text,
        None => Seq::empty(),
    }
}

/// The text of an optional field; empty where it is absent.
pub fn clone_or_empty(o: &Option<String>) -> (s: String)
    ensures
        s@ == text_or_empty(opt_text(*o)),
{
    match o {
        Some(text) => text.clone(),
        None => String::new(),
    }
}

impl PortStatus {
    /// The status that the record `info` gives: the port is in use, and
    /// an absent owner or command line is shown as empty text.
    pub open spec fn in_use(info: FullPortInfoView) -> PortStatusView {
        PortStatusView {
            port: info.base.port,
            status: "in_use"@,
            process: info.base.process_name,
            pid: info.base.pid,
            user: text_or_empty(info.base.user),
            command: text_or_empty(info.base.command),
            tty: info.extra.tty,
            start_time: info.extra.start_time,
            uptime_seconds: info.extra.uptime,
        }
    }

    /// The status that the record `info` gives.
    pub fn from(info: &FullPortInfo) -> (status: PortStatus)
        ensures
            status@ == Self::in_use(info@),
    {
        PortStatus {
            port: info.base.port,
            status: "in_use".to_string(),
            process: info.base.process_name.clone(),
            pid: info.base.pid,
            user: clone_or_empty(&info.base.user),
            command: clone_or_empty(&info.base.command),
            tty: clone_text(&info.extra.tty),
            start_time: info.extra.start_time,
            uptime_seconds: info.extra.uptime,
        }
    }
}

/// What a structured format is given to write.
#[derive(Debug, Clone)]
pub enum StatusReport {
    /// Nothing listens on the port: one document without process fields.
    Free(FreeStatus),
    /// One process listens: one document.
    One(PortStatus),
    /// Several processes listen: a list of documents, in order.
    Many(Vec<PortStatus>),
}

/// What a `StatusReport` holds, as mathematical values.
pub enum StatusReportView {
    Free(FreeStatusView),
    One(PortStatusView),
    Many(Seq<PortStatusView>),
}

impl View for StatusReport {
    type V = StatusReportView;

    open spec fn view(&self) -> StatusReportView {
        match self {
            StatusReport::Free(status) => StatusReportView::Free(status@),
            StatusReport::One(status) => StatusReportView::One(status@),
            StatusReport::Many(list) => StatusReportView::Many(
                Seq::new(list@.len(), |k: int| list@[k]@),
            ),
        }
    }
}

/// The report on `port` for the records `infos`: the free status of the
/// port, which holds no process id and no process name, where there is
/// none; the status of the one where there is one; and the list of their
/// statuses, in order, where there are more.
pub open spec fn report(port: u16, infos: Seq<FullPortInfoView>) -> StatusReportView {
    if infos.len() == 0 {
        StatusReportView::Free(FreeStatus::of(port))
    } else if infos.len() == 1 {
        StatusReportView::One(PortStatus::in_use(infos[0]))
    } else {
        StatusReportView::Many(Seq::new(infos.len(), |k: int| PortStatus::in_use(infos[k])))
    }
}

/// Prepares the report on `port` that a structured format writes.
pub fn prepare_data(port: u16, infos: &Vec<FullPortInfo>) -> (r: StatusReport)
    ensures
        r@ == report(port, record_views(infos@)),
        r is Free <==> infos.len() == 0,
        r is One <==> infos.len() == 1,
{
    if infos.len() == 0 {
        return StatusReport::Free(FreeStatus::new(port));
    }
    if infos.len() == 1 {
        return StatusReport::One(PortStatus::from(&infos[0]));
    }
    let mut list: Vec<PortStatus> = Vec::new();
    let mut i: usize = 0;
    while i < infos.len()
        invariant
            i <= infos.len(),
            list.len() == i,
            forall|k: int| 0 <= k < i ==> (#[trigger] list[k])@ == PortStatus::in_use(infos[k]@),
        decreases infos.len() - i,
    {
        list.push(PortStatus::from(&infos[i]));
        i += 1;
    }
    let r = StatusReport::Many(list);
    assert(r@->Many_0 == report(port, record_views(infos@))->Many_0);
    r
}

/// A duration of `secs` seconds as hours, minutes and seconds: `h:mm:ss`
/// from one hour on, `mm:ss` below.
pub open spec fn duration_text(secs: nat) -> Seq<char> {
    let h = secs / 3600;
    let m = (secs % 3600) / 60;
    let s = secs % 60;
    if h > 0 {
        decimal(h) + seq![':'] + decimal_two(m) + seq![':'] + decimal_two(s)
    } else {
        decimal_two(m) + seq![':'] + decimal_two(s)
    }
}

/// The time that has passed at `now` since `start`, both in seconds since
/// the epoch; `unknown` where `start` lies after `now`.
pub open spec fn since_text(now: u64, start: u64) -> Seq<char> {
    if now >= start {
        duration_text((now - start) as nat)
    } else {
        "unknown"@
    }
}

/// Writes a duration of `secs` seconds as `h:mm:ss` or `mm:ss`.
pub fn format_duration(secs: u64) -> (text: String)
    ensures
        text@ == duration_text(secs as nat),
{
    let h = secs / 3600;
    let m = (secs % 3600) / 60;
    let s = secs % 60;
    let mut out: Vec<char> = Vec::new();
    if h > 0 {
        push_decimal(&mut out, h);
        out.push(':');
    }
    push_decimal_two(&mut out, m);
    out.push(':');
    push_decimal_two(&mut out, s);
    assert(out@ == duration_text(secs as nat));
    string_of(&out)
}

/// Writes the time that has passed at `now` since `start`.
pub fn format_since(now: u64, start: u64) -> (text: String)
    ensures
        text@ == since_text(now, start),
{
    if now >= start {
        format_duration(now - start)
    } else {
        "unknown".to_string()
    }
}

/// `n` written in base ten.
pub fn decimal_string(n: u64) -> (text: String)
    ensures
        text@ == decimal(n as nat),
{
    let mut out: Vec<char> = Vec::new();
    push_decimal(&mut out, n);
    assert(out@ == decimal(n as nat));
    string_of(&out)
}

/// How a piece of a line is set off on a terminal.
#[derive(Debug, Clone, Copy, PartialEq, Eq, Structural)]
pub enum Style {
    Plain,
    Bold,
    Dimmed,
    Cyan,
    Yellow,
    Green,
    GreenBold,
    Red,
    RedBold,
}

/// A piece of a line, in one style.
#[derive(Debug, Clone)]
pub struct Span {
    pub text: String,
    pub style: Style,
}

/// What a `Span` holds, as mathematical values.
pub struct SpanView {
    pub text: Seq<char>,
    pub style: Style,
}

impl View for Span {
    type V = SpanView;

    open spec fn view(&self) -> SpanView {
        SpanView { text: self.text@, style: self.style }
    }
}

/// The views of the spans of a line, in order.
pub open spec fn line_view(line: Seq<Span>) -> Seq<SpanView> {
    Seq::new(line.len(), |k: int| line[k]@)
}

/// The views of the lines of `lines`, in order.
pub open spec fn lines_view(lines: Seq<Vec<Span>>) -> Seq<Seq<SpanView>> {
    Seq::new(lines.len(), |k: int| line_view(lines[k]@))
}

/// The span of `text` in `style`.
pub open spec fn span(text: Seq<char>, style: Style) -> SpanView {
    SpanView { text, style }
}

/// The text of a line without its styles.
pub open spec fn plain_text(line: Seq<SpanView>) -> Seq<char>
    decreases line.len(),
{
    if line.len() == 0 {
        Seq::empty()
    } else {
        plain_text(line.drop_last()) + line.last().text
    }
}

/// The line for a free port reads: a check mark, ` Port `, the port in base
/// ten, ` is ` and `free`.
pub proof fn lemma_free_line_text(port: u16)
    ensures
        plain_text(headline(port, false)) == "\u{2713}"@ + " Port "@ + decimal(port as nat) + " is "@
            + "free"@,
{
    let line = headline(port, false);
    assert(line.drop_last().drop_last().drop_last().drop_last().drop_last() == Seq::<
        SpanView,
    >::empty());
    reveal_with_fuel(plain_text, 6);
    assert(plain_text(line) == Seq::<char>::empty() + line[0].text + line[1].text + line[2].text
        + line[3].text + line[4].text);
}

/// The line that says whether `port` is free or in use: a mark, the port
/// and the state.
pub open spec fn headline(port: u16, in_use: bool) -> Seq<SpanView> {
    seq![
        if in_use {
            span("\u{25cf}"@, Style::RedBold)
        } else {
            span("\u{2713}"@, Style::GreenBold)
        },
        span(" Port "@, Style::Plain),
        span(decimal(port as nat), Style::Cyan),
        span(" is "@, Style::Plain),
        if in_use {
            span("in use"@, Style::Red)
        } else {
            span("free"@, Style::Green)
        },
    ]
}

/// An indented line with a bold label, a gap and a value.
pub open spec fn field_row(label: Seq<char>, gap: Seq<char>, value: Seq<char>, style: Style) -> Seq<
    SpanView,
> {
    seq![span("  "@, Style::Plain), span(label, Style::Bold), span(gap, Style::Plain), span(value, style)]
}

/// The lines for the terminal, the start time and the uptime of a process,
/// in this order, one for each that is known.
pub open spec fn extra_rows(extra: ProcessExtraView, now: u64) -> Seq<Seq<SpanView>> {
    (match extra.tty {
        Some(tty) => seq![field_row("TTY:"@, "      "@, tty, Style::Plain)],
        None => Seq::empty(),
    }) + (match extra.start_time {
        Some(start) => seq![field_row("Since:"@, "  "@, since_text(now, start), Style::Plain)],
        None => Seq::empty(),
    }) + (match extra.uptime {
        Some(up) => seq![field_row("Uptime:"@, " "@, duration_text(up as nat), Style::Plain)],
        None => Seq::empty(),
    })
}

/// The lines that show one record: the headline, the process with its id
/// and owner, what else is known of it, and its command line, with empty
/// lines between the parts.
pub open spec fn process_block(info: FullPortInfoView, now: u64) -> Seq<Seq<SpanView>> {
    seq![
        headline(info.base.port, true),
        Seq::empty(),
        field_row("Process:"@, "  "@, info.base.process_name, Style::Yellow),
        field_row("PID:"@, "      "@, decimal(info.base.pid as nat), Style::Plain),
        field_row("User:"@, "     "@, text_or_empty(info.base.user), Style::Plain),
    ] + extra_rows(info.extra, now) + seq![
        Seq::empty(),
        field_row("Command:"@, "  "@, text_or_empty(info.base.command), Style::Dimmed),
        Seq::empty(),
    ]
}

/// The blocks of the records `infos`, one after the other.
pub open spec fn process_blocks(infos: Seq<FullPortInfoView>, now: u64) -> Seq<Seq<SpanView>>
    decreases infos.len(),
{
    if infos.len() == 0 {
        Seq::empty()
    } else {
        process_blocks(infos.drop_last(), now) + process_block(infos.last(), now)
    }
}

/// The lines that the human format shows for `port`: one line that says the
/// port is free where there is no record, and the block of each record where
/// there are some.
pub open spec fn human_lines(port: u16, infos: Seq<FullPortInfoView>, now: u64) -> Seq<
    Seq<SpanView>,
> {
    if infos.len() == 0 {
        seq![headline(port, false)]
    } else {
        process_blocks(infos, now)
    }
}

/// Makes the span of `text` in `style`.
pub fn make_span(text: &str, style: Style) -> (s: Span)
    ensures
        s@ == span(text@, style),
{
    Span { text: text.to_string(), style }
}

/// Makes the line that says whether `port` is free or in use.
pub fn make_headline(port: u16, in_use: bool) -> (line: Vec<Span>)
    ensures
        line_view(line@) == headline(port, in_use),
{
    let mark = if in_use {
        make_span("\u{25cf}", Style::RedBold)
    } else {
        make_span("\u{2713}", Style::GreenBold)
    };
    let state = if in_use {
        make_span("in use", Style::Red)
    } else {
        make_span("free", Style::Green)
    };
    let line = vec![
        mark,
        make_span(" Port ", Style::Plain),
        Span { text: decimal_string(port as u64), style: Style::Cyan },
        make_span(" is ", Style::Plain),
        state,
    ];
    assert(line_view(line@) == headline(port, in_use));
    line
}

/// Makes an indented line with a bold label, a gap and a value.
pub fn make_field_row(label: &str, gap: &str, value: String, style: Style) -> (line: Vec<Span>)
    ensures
        line_view(line@) == field_row(label@, gap@, value@, style),
{
    let line = vec![
        make_span("  ", Style::Plain),
        make_span(label, Style::Bold),
        make_span(gap, Style::Plain),
        Span { text: value, style },
    ];
    assert(line_view(line@) == field_row(label@, gap@, value@, style));
    line
}

/// Appends `line` to `lines`.
pub fn push_line(lines: &mut Vec<Vec<Span>>, line: Vec<Span>)
    ensures
        lines_view(final(lines)@) == lines_view(old(lines)@).push(line_view(line@)),
{
    lines.push(line);
}

/// A line without text.
pub fn blank_line() -> (line: Vec<Span>)
    ensures
        line_view(line@) == Seq::<SpanView>::empty(),
{
    Vec::new()
}

/// Appends the lines that show the record `info` to `lines`.
pub fn push_process_block(lines: &mut Vec<Vec<Span>>, info: &FullPortInfo, now: u64)
    ensures
        lines_view(final(lines)@) == lines_view(old(lines)@) + process_block(info@, now),
{
    let ghost before = lines_view(lines@);
    push_line(lines, make_headline(info.base.port, true));
    push_line(lines, blank_line());
    push_line(lines, make_field_row("Process:", "  ", info.base.process_name.clone(), Style::Yellow));
    push_line(lines, make_field_row("PID:", "      ", decimal_string(info.base.pid as u64), Style::Plain));
    push_line(lines, make_field_row("User:", "     ", clone_or_empty(&info.base.user), Style::Plain));
    let ghost head = lines_view(lines@);
    assert(head == before + seq![
        headline(info@.base.port, true),
        Seq::empty(),
        field_row("Process:"@, "  "@, info@.base.process_name, Style::Yellow),
        field_row("PID:"@, "      "@, decimal(info@.base.pid as nat), Style::Plain),
        field_row("User:"@, "     "@, text_or_empty(info@.base.user), Style::Plain),
    ]);
    if let Some(tty) = &info.extra.tty {
        push_line(lines, make_field_row("TTY:", "      ", tty.clone(), Style::Plain));
    }
    let ghost with_tty = lines_view(lines@);
    assert(with_tty == head + (match info@.extra.tty {
        Some(tty) => seq![field_row("TTY:"@, "      "@, tty, Style::Plain)],
        None => Seq::empty(),
    }));
    if let Some(start) = info.extra.start_time {
        push_line(lines, make_field_row("Since:", "  ", format_since(now, start), Style::Plain));
    }
    let ghost with_since = lines_view(lines@);
    assert(with_since == with_tty + (match info@.extra.start_time {
        Some(start) => seq![field_row("Since:"@, "  "@, since_text(now, start), Style::Plain)],
        None => Seq::empty(),
    }));
    if let Some(up) = info.extra.uptime {
        push_line(lines, make_field_row("Uptime:", " ", format_duration(up), Style::Plain));
    }
    let ghost with_extra = lines_view(lines@);
    assert(with_extra == with_since + (match info@.extra.uptime {
        Some(up) => seq![field_row("Uptime:"@, " "@, duration_text(up as nat), Style::Plain)],
        None => Seq::empty(),
    }));
    assert(with_extra == head + extra_rows(info@.extra, now));
    push_line(lines, blank_line());
    push_line(lines, make_field_row("Command:", "  ", clone_or_empty(&info.base.command), Style::Dimmed));
    push_line(lines, blank_line());
    assert(lines_view(lines@) == with_extra + seq![
        Seq::empty(),
        field_row("Command:"@, "  "@, text_or_empty(info@.base.command), Style::Dimmed),
        Seq::empty(),
    ]);
}

/// The lines that show the record `info`.
pub fn process_block_lines(info: &FullPortInfo, now: u64) -> (lines: Vec<Vec<Span>>)
    ensures
        lines_view(lines@) == process_block(info@, now),
{
    let mut lines: Vec<Vec<Span>> = Vec::new();
    push_process_block(&mut lines, info, now);
    assert(lines_view(Seq::<Vec<Span>>::empty()) + process_block(info@, now) == process_block(
        info@,
        now,
    ));
    lines
}

/// The lines that the human format shows for `port`, `now` being the
/// current time in seconds since the epoch.
pub fn human_report(port: u16, infos: &Vec<FullPortInfo>, now: u64) -> (lines: Vec<Vec<Span>>)
    ensures
        lines_view(lines@) == human_lines(port, record_views(infos@), now),
{
    let mut lines: Vec<Vec<Span>> = Vec::new();
    if infos.len() == 0 {
        push_line(&mut lines, make_headline(port, false));
        assert(lines_view(lines@) == seq![headline(port, false)]);
        return lines;
    }
    let mut i: usize = 0;
    while i < infos.len()
        invariant
            i <= infos.len(),
            lines_view(lines@) == process_blocks(record_views(infos@).take(i as int), now),
        decreases infos.len() - i,
    {
        let ghost done = record_views(infos@).take(i + 1);
        assert(done.drop_last() == record_views(infos@).take(i as int));
        assert(done.last() == infos[i as int]@);
        push_process_block(&mut lines, &infos[i], now);
        i += 1;
    }
    assert(record_views(infos@).take(infos.len() as int) == record_views(infos@));
    lines
}

/// The records as they are shown: as they are where the extra information
/// was asked for, and without terminal, start time and uptime where not.
pub open spec fn shown(infos: Seq<FullPortInfoView>, extra: bool) -> Seq<FullPortInfoView> {
    Seq::new(
        infos.len(),
        |k: int|
            FullPortInfoView {
                base: infos[k].base,
                extra: if extra {
                    infos[k].extra
                } else {
                    ProcessExtraView::absent()
                },
            },
    )
}

/// Copies the records as they are shown, with or without the extra
/// information.
pub fn select_shown(infos: &Vec<FullPortInfo>, extra: bool) -> (r: Vec<FullPortInfo>)
    ensures
        record_views(r@) == shown(record_views(infos@), extra),
{
    let mut r: Vec<FullPortInfo> = Vec::new();
    let mut i: usize = 0;
    while i < infos.len()
        invariant
            i <= infos.len(),
            r.len() == i,
            forall|k: int| 0 <= k < i ==> (#[trigger] r[k])@ == shown(record_views(infos@), extra)[k],
        decreases infos.len() - i,
    {
        let kept = if extra {
            infos[i].extra.duplicate()
        } else {
            ProcessExtra::default()
        };
        r.push(FullPortInfo { base: infos[i].base.duplicate(), extra: kept });
        i += 1;
    }
    r
}

/// What is shown for a port: a report in a structured format, or lines for
/// a person to read.
#[derive(Debug, Clone)]
pub enum Rendering {
    Structured(OutputFormat, StatusReport),
    Human(Vec<Vec<Span>>),
}

/// Chooses what is shown for `port` by the options `cli`: the report where
/// they name a structured format, the human lines where they name `human` or
/// no format at all; either with the extra information of the records only
/// where the options ask for it. `now` is the current time in seconds since
/// the epoch.
pub fn render_output(port: u16, infos: &Vec<FullPortInfo>, cli: &Cli, now: u64) -> (r: Rendering)
    ensures
        (match chosen_format(cli.format@) {
            Some(format) => r matches Rendering::Structured(f, data) && f == format && data@
                == report(port, shown(record_views(infos@), cli.extra)),
            None => r matches Rendering::Human(lines) && lines_view(lines@) == human_lines(
                port,
                shown(record_views(infos@), cli.extra),
                now,
            ),
        }),
{
    let selected = select_shown(infos, cli.extra);
    match cli.get_output_format() {
        Some(format) => Rendering::Structured(format, prepare_data(port, &selected)),
        None => Rendering::Human(human_report(port, &selected, now)),
    }
}

/// `s` with a backslash in front of each double quote.
pub open spec fn escape_quotes(s: Seq<char>) -> Seq<char>
    decreases s.len(),
{
    if s.len() == 0 {
        Seq::empty()
    } else if s.last() == '"' {
        escape_quotes(s.drop_last()) + seq!['\\', '"']
    } else {
        escape_quotes(s.drop_last()).push(s.last())
    }
}

/// The document that reports the failure of the lookup of `port` to a
/// program: an object with the port, the status `error` and the message.
pub open spec fn error_document(port: u16, message: Seq<char>) -> Seq<char> {
    "{\"port\": "@ + decimal(port as nat) + ", \"status\": \"error\", \"message\": \""@
        + escape_quotes(message) + "\"}"@
}

/// The line that reports a failure to a person.
pub open spec fn error_line(message: Seq<char>) -> Seq<SpanView> {
    seq![span("Error:"@, Style::RedBold), span(" "@, Style::Plain), span(message, Style::Plain)]
}

/// Writes the document that reports the failure of the lookup of `port`.
pub fn format_error_document(port: u16, message: &str) -> (text: String)
    ensures
        text@ == error_document(port, message@),
{
    let mut out = chars_of("{\"port\": ");
    push_decimal(&mut out, port as u64);
    append_chars(&mut out, &chars_of(", \"status\": \"error\", \"message\": \""));
    let ghost head = out@;
    let chars = chars_of(message);
    let mut i: usize = 0;
    while i < chars.len()
        invariant
            i <= chars.len(),
            out@ == head + escape_quotes(chars@.take(i as int)),
        decreases chars.len() - i,
    {
        let ghost done = chars@.take(i + 1);
        assert(done.drop_last() == chars@.take(i as int));
        assert(done.last() == chars@[i as int]);
        if chars[i] == '"' {
            out.push('\\');
            out.push('"');
            assert(out@ == head + (escape_quotes(chars@.take(i as int)) + seq!['\\', '"']));
        } else {
            out.push(chars[i]);
            assert(out@ == head + escape_quotes(chars@.take(i as int)).push(chars@[i as int]));
        }
        i += 1;
    }
    assert(chars@.take(chars.len() as int) == chars@);
    append_chars(&mut out, &chars_of("\"}"));
    string_of(&out)
}

/// What is done about a lookup that failed.
#[derive(Debug, Clone)]
pub enum ErrorOutput {
    /// Write this document to the standard output and go on with the next
    /// port.
    Document(String),
    /// Write this line to the error stream and end the program with this
    /// status.
    Fatal { line: Vec<Span>, exit_code: i32 },
}

/// Decides what is done about the lookup of `port` that failed with the
/// message `error`. In a structured format the failure is reported as a
/// document and the remaining ports are still looked up; in the human
/// format it is reported as a line and ends the program with status 1.
pub fn handle_error(port: u16, structured: bool, error: &str) -> (r: ErrorOutput)
    ensures
        structured ==> (r matches ErrorOutput::Document(text) && text@ == error_document(
            port,
            error@,
        )),
        !structured ==> (r matches ErrorOutput::Fatal { line, exit_code } && line_view(line@)
            == error_line(error@) && exit_code == 1),
{
    if structured {
        ErrorOutput::Document(format_error_document(port, error))
    } else {
        let line = vec![
            make_span("Error:", Style::RedBold),
            make_span(" ", Style::Plain),
            make_span(error, Style::Plain),
        ];
        assert(line_view(line@) == error_line(error@));
        ErrorOutput::Fatal { line, exit_code: 1 }
    }
}

} // verus!
