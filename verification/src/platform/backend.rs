//! What every platform backend offers, and the lookup built on it.

use vstd::prelude::*;
use crate::text::chars::{chars_of, decoded, string_of, string_views, text_of_bytes};
use crate::text::split::{lines, split_lines, texts};
use crate::types::{
    bare, opt_info, opt_text, record_views, FullPortInfo, FullPortInfoView, PortInfo, PortInfoView,
    ProcessExtra,
};

verus! {

/// An external command: the program to start and its arguments.
#[derive(Debug, Clone)]
pub struct CommandSpec {
    pub program: String,
    pub args: Vec<String>,
}

/// What a `CommandSpec` holds, as mathematical values.
pub struct CommandSpecView {
    pub program: Seq<char>,
    pub args: Seq<Seq<char>>,
}

impl View for CommandSpec {
    type V = CommandSpecView;

    open spec fn view(&self) -> CommandSpecView {
        CommandSpecView { program: self.program@, args: string_views(self.args@) }
    }
}

/// Where the listeners on a port are read from.
#[derive(Debug, Clone)]
pub enum PortSource {
    /// The standard output of a command.
    Command(CommandSpec),
}

/// Something that the caller is asked to fetch for the library.
#[derive(Debug, Clone)]
pub enum Request {
    /// Run a command and hand back what it printed on its standard output.
    Run(CommandSpec),
    /// Read the file at this path as text.
    ReadFile(String),
    /// Read the environment variable of this name.
    Variable(String),
}

/// What a `Request` holds, as mathematical values.
pub enum RequestView {
    Run(CommandSpecView),
    ReadFile(Seq<char>),
    Variable(Seq<char>),
}

impl View for Request {
    type V = RequestView;

    open spec fn view(&self) -> RequestView {
        match self {
            Request::Run(c) => RequestView::Run(c@),
            Request::ReadFile(path) => RequestView::ReadFile(path@),
            Request::Variable(name) => RequestView::Variable(name@),
        }
    }
}

/// The views of the requests of `v`, in order.
pub open spec fn request_views(v: Seq<Request>) -> Seq<RequestView> {
    Seq::new(v.len(), |k: int| v[k]@)
}

/// The answers to a list of requests, as mathematical values: for each the
/// text that was fetched, or `None` where it could not be fetched.
pub open spec fn reply_views(v: Seq<Option<String>>) -> Seq<Option<Seq<char>>> {
    Seq::new(v.len(), |k: int| opt_text(v[k]))
}

/// The answer to the request with index `k`; `None` where there is none.
pub open spec fn reply_at(replies: Seq<Option<Seq<char>>>, k: int) -> Option<Seq<char>> {
    if 0 <= k < replies.len() {
        replies[k]
    } else {
        None
    }
}

/// The answer to the request with index `k`.
pub fn get_reply(replies: &Vec<Option<String>>, k: usize) -> (r: Option<&str>)
    ensures
        opt_str(r) == reply_at(reply_views(replies@), k as int),
{
    if k < replies.len() {
        match &replies[k] {
            Some(text) => Some(text.as_str()),
            None => None,
        }
    } else {
        None
    }
}

/// An optional string slice as an optional sequence of characters.
pub open spec fn opt_str(o: Option<&str>) -> Option<Seq<char>> {
    match o {
        Some(s) => Some(s@),
        None => None,
    }
}

/// Why a lookup gave no answer.
#[derive(Debug, Clone)]
pub enum ResolveError {
    /// No backend exists for the running system.
    UnsupportedPlatform,
    /// The discovery command could not be started, or what it printed is
    /// not text.
    ExecutionFailed { reason: String },
}

/// What a `ResolveError` holds, as mathematical values.
pub enum ResolveErrorView {
    UnsupportedPlatform,
    ExecutionFailed { reason: Seq<char> },
}

impl View for ResolveError {
    type V = ResolveErrorView;

    open spec fn view(&self) -> ResolveErrorView {
        match self {
            ResolveError::UnsupportedPlatform => ResolveErrorView::UnsupportedPlatform,
            ResolveError::ExecutionFailed { reason } => ResolveErrorView::ExecutionFailed {
                reason: reason@,
            },
        }
    }
}

impl ResolveError {
    /// The text that tells a user of the failure.
    pub open spec fn message_text(self) -> Seq<char> {
        match self {
            ResolveError::UnsupportedPlatform => "unsupported platform"@,
            ResolveError::ExecutionFailed { reason } => reason@,
        }
    }

    /// The text that tells a user of the failure: for a command that
    /// failed, the reason as it was given.
    pub fn message(&self) -> (text: String)
        ensures
            text@ == self.message_text(),
    {
        match self {
            ResolveError::UnsupportedPlatform => "unsupported platform".to_string(),
            ResolveError::ExecutionFailed { reason } => reason.clone(),
        }
    }
}

/// How the run of the discovery command ended.
#[derive(Debug, Clone)]
pub enum ProbeOutcome {
    /// The command ran to its end and printed the bytes `stdout` on its
    /// standard output; `success` tells whether it reported success.
    Finished { success: bool, stdout: Vec<u8> },
    /// The command could not be started, for the reason that the system gave.
    SpawnFailed { reason: String },
}

/// The capabilities of one platform: which command lists the listeners on a
/// port, what one row of its output says, and how a record is completed by
/// secondary lookups.
pub trait PlatformProvider {
    /// The command that lists the listeners on `port`.
    spec fn source(port: u16) -> CommandSpecView;

    /// The record that `row` stands for, if it stands for one.
    spec fn record(row: Seq<char>) -> Option<PortInfoView>;

    /// What is to be fetched to complete the record of process `pid`.
    spec fn lookups(pid: u32) -> Seq<RequestView>;

    /// `record` completed by the answers to its lookups, `replies[k]` being
    /// the answer to `lookups[k]`. An answer that is `None`, or missing,
    /// leaves what depends on it absent.
    spec fn completed(record: FullPortInfoView, replies: Seq<Option<Seq<char>>>) -> FullPortInfoView;

    /// Builds the command that lists the listeners on `port`. A backend
    /// always has one.
    fn port_source(port: u16) -> (r: Result<PortSource, ResolveError>)
        ensures
            r matches Ok(PortSource::Command(c)) && c@ == Self::source(port),
    ;

    /// Reads one row of the command's output. Rows that are not a listener's
    /// give `None`.
    fn parse_port(row: &str) -> (r: Option<PortInfo>)
        ensures
            opt_info(r) == Self::record(row@),
    ;

    /// Lists what is to be fetched to complete the record of process `pid`.
    fn enrichment_requests(pid: u32) -> (r: Vec<Request>)
        ensures
            request_views(r@) == Self::lookups(pid),
    ;

    /// Completes `record` by the answers to its lookups. Whatever the
    /// answers are, the record stays, bound to the same port and process.
    fn enrich(record: FullPortInfo, replies: &Vec<Option<String>>) -> (r: FullPortInfo)
        ensures
            r@ == Self::completed(record@, reply_views(replies@)),
            r@.base.port == record@.base.port,
            r@.base.pid == record@.base.pid,
    ;
}

/// Whether `row` stands for a listener on exactly `port`.
pub open spec fn row_matches<P: PlatformProvider>(row: Seq<char>, port: u16) -> bool {
    P::record(row) matches Some(info) && info.port == port
}

/// The records of the rows that stand for a listener on exactly `port`, in
/// the order of the rows, with nothing known beyond what the row says.
pub open spec fn matching_records<P: PlatformProvider>(
    rows: Seq<Seq<char>>,
    port: u16,
) -> Seq<FullPortInfoView>
    decreases rows.len(),
{
    if rows.len() == 0 {
        Seq::empty()
    } else if row_matches::<P>(rows.last(), port) {
        matching_records::<P>(rows.drop_last(), port).push(bare(P::record(rows.last())->0))
    } else {
        matching_records::<P>(rows.drop_last(), port)
    }
}

/// The answer to a lookup of `port`, given what the discovery command
/// printed: the matching records of its lines.
pub open spec fn listeners<P: PlatformProvider>(stdout: Seq<char>, port: u16) -> Seq<
    FullPortInfoView,
> {
    matching_records::<P>(lines(stdout), port)
}

/// Every matching record is bound to the port that was asked for, and has
/// nothing but what its row says.
pub proof fn lemma_matching_records_port<P: PlatformProvider>(rows: Seq<Seq<char>>, port: u16)
    ensures
        matching_records::<P>(rows, port).len() <= rows.len(),
        forall|k: int|
            0 <= k < matching_records::<P>(rows, port).len() ==> (#[trigger] matching_records::<P>(
                rows,
                port,
            )[k]).base.port == port,
    decreases rows.len(),
{
    if rows.len() > 0 {
        lemma_matching_records_port::<P>(rows.drop_last(), port);
    }
}

/// Where no row stands for a listener on `port`, there is no matching record.
pub proof fn lemma_no_listener<P: PlatformProvider>(rows: Seq<Seq<char>>, port: u16)
    requires
        forall|k: int| 0 <= k < rows.len() ==> !row_matches::<P>(#[trigger] rows[k], port),
    ensures
        matching_records::<P>(rows, port) == Seq::<FullPortInfoView>::empty(),
    decreases rows.len(),
{
    if rows.len() > 0 {
        assert(!row_matches::<P>(rows[rows.len() - 1], port));
        lemma_no_listener::<P>(rows.drop_last(), port);
    }
}

/// Reads the rows of `stdout` and keeps the listeners on exactly `port`, in
/// the order in which the rows stand.
pub fn collect_listeners<P: PlatformProvider>(port: u16, stdout: &str) -> (found: Vec<FullPortInfo>)
    ensures
        record_views(found@) == listeners::<P>(stdout@, port),
        forall|k: int| 0 <= k < found.len() ==> (#[trigger] found[k]).base.port == port,
{
    let text = chars_of(stdout);
    let rows = split_lines(&text);
    let mut found: Vec<FullPortInfo> = Vec::new();
    let mut i: usize = 0;
    while i < rows.len()
        invariant
            i <= rows.len(),
            texts(rows@) == lines(stdout@),
            record_views(found@) == matching_records::<P>(texts(rows@).take(i as int), port),
            forall|k: int| 0 <= k < found.len() ==> (#[trigger] found[k]).base.port == port,
        decreases rows.len() - i,
    {
        let row = string_of(&rows[i]);
        let ghost done = texts(rows@).take(i + 1);
        assert(done.drop_last() == texts(rows@).take(i as int));
        assert(done.last() == row@);
        match P::parse_port(row.as_str()) {
            Some(base) => {
                if base.port == port {
                    let ghost before = record_views(found@);
                    let ghost view = base@;
                    found.push(FullPortInfo { base, extra: ProcessExtra::default() });
                    assert(record_views(found@) == before.push(bare(view)));
                }
            },
            None => {},
        }
        i += 1;
    }
    assert(texts(rows@).take(rows.len() as int) == texts(rows@));
    found
}

/// The reason given when the command's output is not valid UTF-8.
pub open spec fn undecodable_reason() -> Seq<char> {
    "command output is not valid UTF-8"@
}

/// The result of reading the bytes `stdout` that the discovery command
/// printed: the listeners on exactly `port` among the lines of the text that
/// they encode, and `ExecutionFailed` where they are not valid UTF-8.
pub open spec fn read_result<P: PlatformProvider>(port: u16, stdout: Seq<u8>) -> Result<
    Seq<FullPortInfoView>,
    ResolveErrorView,
> {
    match decoded(stdout) {
        Some(text) => Ok(listeners::<P>(text, port)),
        None => Err(ResolveErrorView::ExecutionFailed { reason: undecodable_reason() }),
    }
}

/// The result of a lookup of `port`, given how the discovery command ended.
pub open spec fn run_result<P: PlatformProvider>(port: u16, outcome: ProbeOutcome) -> Result<
    Seq<FullPortInfoView>,
    ResolveErrorView,
> {
    match outcome {
        ProbeOutcome::Finished { success, stdout } => read_result::<P>(port, stdout@),
        ProbeOutcome::SpawnFailed { reason } => Err(
            ResolveErrorView::ExecutionFailed { reason: reason@ },
        ),
    }
}

/// A lookup result as mathematical values.
pub open spec fn result_view(r: Result<Vec<FullPortInfo>, ResolveError>) -> Result<
    Seq<FullPortInfoView>,
    ResolveErrorView,
> {
    match r {
        Ok(found) => Ok(record_views(found@)),
        Err(e) => Err(e@),
    }
}

/// Reads the bytes that the discovery command printed: gives the listeners
/// on exactly `port` among its lines, in their order, and `ExecutionFailed`
/// where the bytes are not valid UTF-8.
pub fn read_output<P: PlatformProvider>(port: u16, stdout: Vec<u8>) -> (r: Result<
    Vec<FullPortInfo>,
    ResolveError,
>)
    ensures
        result_view(r) == read_result::<P>(port, stdout@),
        r matches Ok(found) ==> forall|k: int|
            0 <= k < found.len() ==> (#[trigger] found[k]).base.port == port,
{
    match text_of_bytes(stdout) {
        Some(text) => Ok(collect_listeners::<P>(port, text.as_str())),
        None => Err(
            ResolveError::ExecutionFailed {
                reason: "command output is not valid UTF-8".to_string(),
            },
        ),
    }
}

/// Answers a lookup of `port` from the way the discovery command ended.
///
/// A command that ran gives the listeners on exactly `port` among the lines
/// it printed, in their order, whatever status it reported; none is a
/// normal answer. A command that could not be started, or whose output is
/// not valid UTF-8, gives `ExecutionFailed`.
pub fn run<P: PlatformProvider>(port: u16, outcome: ProbeOutcome) -> (r: Result<
    Vec<FullPortInfo>,
    ResolveError,
>)
    ensures
        result_view(r) == run_result::<P>(port, outcome),
        r matches Ok(found) ==> forall|k: int|
            0 <= k < found.len() ==> (#[trigger] found[k]).base.port == port,
{
    match outcome {
        ProbeOutcome::Finished { success, stdout } => read_output::<P>(port, stdout),
        ProbeOutcome::SpawnFailed { reason } => Err(ResolveError::ExecutionFailed { reason }),
    }
}

} // verus!
