//! The platform layer: one backend for each family of systems, and the
//! choice among them.

use vstd::prelude::*;
use crate::platform::backend::{
    lemma_matching_records_port, lemma_no_listener, request_views, reply_views, result_view,
    row_matches, run_result, CommandSpecView, PlatformProvider, PortSource, ProbeOutcome, Request,
    RequestView, ResolveError, ResolveErrorView,
};
use crate::platform::unix::bsd::Bsd;
use crate::platform::unix::linux::Linux;
use crate::platform::windows::Windows;
use crate::text::chars::{decoded, same_text};
use crate::text::split::{lines, words, Delim};
use crate::types::{FullPortInfo, FullPortInfoView, PortInfoView};

pub mod address;
pub mod backend;
pub mod lookup;
pub mod unix;
pub mod windows;

verus! {

/// The families of systems that have a backend.
#[derive(Debug, Clone, Copy, PartialEq, Eq, Structural)]
pub enum Platform {
    /// Linux, where `ss` lists the listeners.
    Linux,
    /// macOS, FreeBSD, OpenBSD and NetBSD, where `lsof` lists them.
    Bsd,
    /// Windows, where `netstat` lists them.
    Windows,
}

impl Platform {
    /// The backend for the system that calls itself `os`, if there is one.
    pub open spec fn named(os: Seq<char>) -> Option<Platform> {
        if os == "linux"@ {
            Some(Platform::Linux)
        } else if os == "macos"@ || os == "freebsd"@ || os == "openbsd"@ || os == "netbsd"@ {
            Some(Platform::Bsd)
        } else if os == "windows"@ {
            Some(Platform::Windows)
        } else {
            None
        }
    }

    /// The command that lists the listeners on `port`.
    pub open spec fn source(self, port: u16) -> CommandSpecView {
        match self {
            Platform::Linux => Linux::source(port),
            Platform::Bsd => Bsd::source(port),
            Platform::Windows => Windows::source(port),
        }
    }

    /// The record that `row` of the command's output stands for, if it
    /// stands for one.
    pub open spec fn record(self, row: Seq<char>) -> Option<PortInfoView> {
        match self {
            Platform::Linux => Linux::record(row),
            Platform::Bsd => Bsd::record(row),
            Platform::Windows => Windows::record(row),
        }
    }

    /// Whether `row` is well formed for the platform's discovery tool, that
    /// is, stands for a listener.
    pub open spec fn is_listener_row(self, row: Seq<char>) -> bool {
        match self {
            Platform::Linux => Linux::is_listener_row(row),
            Platform::Bsd => Bsd::is_listener_row(row),
            Platform::Windows => Windows::is_listener_row(row),
        }
    }

    /// Whether `row` stands for a listener on exactly `port`.
    pub open spec fn row_matches(self, row: Seq<char>, port: u16) -> bool {
        self.record(row) matches Some(info) && info.port == port
    }

    /// The result of a lookup of `port`, given how the discovery command
    /// ended.
    pub open spec fn answer(self, port: u16, outcome: ProbeOutcome) -> Result<
        Seq<FullPortInfoView>,
        ResolveErrorView,
    > {
        match self {
            Platform::Linux => run_result::<Linux>(port, outcome),
            Platform::Bsd => run_result::<Bsd>(port, outcome),
            Platform::Windows => Windows::check_result(port, outcome),
        }
    }

    /// What is to be fetched to complete the record of process `pid`.
    pub open spec fn lookups(self, pid: u32) -> Seq<RequestView> {
        match self {
            Platform::Linux => Linux::lookups(pid),
            Platform::Bsd => Bsd::lookups(pid),
            Platform::Windows => Windows::lookups(pid),
        }
    }

    /// `record` completed by the answers to its lookups.
    pub open spec fn completed(
        self,
        record: FullPortInfoView,
        replies: Seq<Option<Seq<char>>>,
    ) -> FullPortInfoView {
        match self {
            Platform::Linux => Linux::completed(record, replies),
            Platform::Bsd => Bsd::completed(record, replies),
            Platform::Windows => Windows::completed(record, replies),
        }
    }

    /// Chooses the backend for the system that calls itself `os_name`, in
    /// the lower case names by which the standard library tells target
    /// systems apart. A system without a backend gives
    /// `UnsupportedPlatform`.
    pub fn detect(os_name: &str) -> (r: Result<Platform, ResolveError>)
        ensures
            (match r {
                Ok(platform) => Self::named(os_name@) == Some(platform),
                Err(e) => e is UnsupportedPlatform && Self::named(os_name@) is None,
            }),
    {
        if same_text(os_name, "linux") {
            Ok(Platform::Linux)
        } else if same_text(os_name, "macos") || same_text(os_name, "freebsd") || same_text(
            os_name,
            "openbsd",
        ) || same_text(os_name, "netbsd") {
            Ok(Platform::Bsd)
        } else if same_text(os_name, "windows") {
            Ok(Platform::Windows)
        } else {
            Err(ResolveError::UnsupportedPlatform)
        }
    }

    /// Builds the command that lists the listeners on `port`.
    pub fn port_source(self, port: u16) -> (r: PortSource)
        ensures
            r matches PortSource::Command(c) && c@ == self.source(port),
    {
        match self {
            Platform::Linux => PortSource::Command(Linux::port_command(port)),
            Platform::Bsd => PortSource::Command(Bsd::port_command(port)),
            Platform::Windows => PortSource::Command(Windows::port_command(port)),
        }
    }

    /// Answers a lookup of `port` from the way the discovery command ended.
    pub fn check(self, port: u16, outcome: ProbeOutcome) -> (r: Result<
        Vec<FullPortInfo>,
        ResolveError,
    >)
        ensures
            result_view(r) == self.answer(port, outcome),
            r matches Ok(found) ==> forall|k: int|
                0 <= k < found.len() ==> (#[trigger] found[k]).base.port == port,
    {
        match self {
            Platform::Linux => unix::check_port::<Linux>(port, outcome),
            Platform::Bsd => unix::check_port::<Bsd>(port, outcome),
            Platform::Windows => Windows::check_port(port, outcome),
        }
    }

    /// A row stands for a record exactly if it is well formed: a header or
    /// a malformed row stands for none, on every platform.
    pub proof fn lemma_malformed_row(self, row: Seq<char>)
        ensures
            self.record(row) is Some <==> self.is_listener_row(row),
            Linux::is_header(row) ==> Platform::Linux.record(row) is None,
            Bsd::is_header(row) ==> Platform::Bsd.record(row) is None,
    {
    }

    /// A row without a word, empty or of white space only, stands for no
    /// record on any platform.
    pub proof fn lemma_blank_row(self, row: Seq<char>)
        requires
            words(row, Delim::Whitespace).len() == 0,
        ensures
            self.record(row) is None,
    {
    }

    /// On Linux and on the BSD family the process name of a record is that
    /// of its row: completing the record leaves it as it is.
    pub proof fn lemma_completed_keeps_name(
        self,
        record: FullPortInfoView,
        replies: Seq<Option<Seq<char>>>,
    )
        requires
            self != Platform::Windows,
        ensures
            self.completed(record, replies).base.process_name == record.base.process_name,
    {
    }

    /// A port is free where the discovery command ran and none of the lines
    /// of the text it printed stands for a listener on exactly that port:
    /// the answer is the empty list, and no error.
    pub proof fn lemma_free_port(self, port: u16, success: bool, stdout: Vec<u8>)
        requires
            decoded(stdout@) matches Some(text) && forall|k: int|
                0 <= k < lines(text).len() ==> !self.row_matches(#[trigger] lines(text)[k], port),
        ensures
            self.answer(port, ProbeOutcome::Finished { success, stdout }) == Ok::<
                Seq<FullPortInfoView>,
                ResolveErrorView,
            >(Seq::empty()),
    {
        let rows = lines(decoded(stdout@)->0);
        match self {
            Platform::Linux => {
                assert forall|k: int| 0 <= k < rows.len() implies !row_matches::<Linux>(
                    #[trigger] rows[k],
                    port,
                ) by {
                    assert(!self.row_matches(rows[k], port));
                }
                lemma_no_listener::<Linux>(rows, port);
            },
            Platform::Bsd => {
                assert forall|k: int| 0 <= k < rows.len() implies !row_matches::<Bsd>(
                    #[trigger] rows[k],
                    port,
                ) by {
                    assert(!self.row_matches(rows[k], port));
                }
                lemma_no_listener::<Bsd>(rows, port);
            },
            Platform::Windows => {
                assert forall|k: int| 0 <= k < rows.len() implies !row_matches::<Windows>(
                    #[trigger] rows[k],
                    port,
                ) by {
                    assert(!self.row_matches(rows[k], port));
                }
                lemma_no_listener::<Windows>(rows, port);
            },
        }
    }

    /// A discovery command that could not be started, be it for want of
    /// permission or of the program, is never taken for a free port: the
    /// result is `ExecutionFailed`, not a list. Its reason holds the reason
    /// that the system gave: as it is on Linux and on the BSD family, behind
    /// a prefix on Windows, where it is therefore never empty.
    pub proof fn lemma_spawn_failure(self, port: u16, reason: String)
        ensures
            self.answer(port, ProbeOutcome::SpawnFailed { reason }) matches Err(
                ResolveErrorView::ExecutionFailed { reason: told },
            ) && told.len() >= reason@.len() && told.skip(told.len() - reason@.len()) == reason@
                && (self != Platform::Windows ==> told == reason@) && (self == Platform::Windows
                ==> told.len() > 0),
    {
        reveal_strlit("Failed to execute command: ");
        let prefix = "Failed to execute command: "@;
        assert((prefix + reason@).skip(prefix.len() as int) == reason@);
        assert(reason@.skip(0) == reason@);
    }

    /// The port filter is exact: every record of an answer to a lookup of
    /// `port` is bound to `port`, whatever the discovery command printed.
    pub proof fn lemma_answer_ports(self, port: u16, outcome: ProbeOutcome)
        ensures
            self.answer(port, outcome) matches Ok(found) ==> forall|k: int|
                0 <= k < found.len() ==> (#[trigger] found[k]).base.port == port,
    {
        match outcome {
            ProbeOutcome::Finished { success, stdout } => {
                match decoded(stdout@) {
                    Some(text) => {
                        lemma_matching_records_port::<Linux>(lines(text), port);
                        lemma_matching_records_port::<Bsd>(lines(text), port);
                        lemma_matching_records_port::<Windows>(lines(text), port);
                    },
                    None => {},
                }
            },
            _ => {},
        }
    }

    /// Completing a record changes neither its port nor its process id,
    /// whatever the lookups answered.
    pub proof fn lemma_completed_keeps_key(
        self,
        record: FullPortInfoView,
        replies: Seq<Option<Seq<char>>>,
    )
        ensures
            self.completed(record, replies).base.port == record.base.port,
            self.completed(record, replies).base.pid == record.base.pid,
    {
    }

    /// Lists what is to be fetched to complete the record of process `pid`.
    pub fn enrichment_requests(self, pid: u32) -> (r: Vec<Request>)
        ensures
            request_views(r@) == self.lookups(pid),
    {
        match self {
            Platform::Linux => Linux::enrichment_requests(pid),
            Platform::Bsd => Bsd::enrichment_requests(pid),
            Platform::Windows => Windows::enrichment_requests(pid),
        }
    }

    /// Completes `record` by the answers to its lookups. Whatever the
    /// answers are, the record stays, bound to the same port and process.
    pub fn enrich(self, record: FullPortInfo, replies: &Vec<Option<String>>) -> (r: FullPortInfo)
        ensures
            r@ == self.completed(record@, reply_views(replies@)),
            r@.base.port == record@.base.port,
            r@.base.pid == record@.base.pid,
    {
        match self {
            Platform::Linux => Linux::enrich(record, replies),
            Platform::Bsd => Bsd::enrich(record, replies),
            Platform::Windows => Windows::enrich(record, replies),
        }
    }
}

/// Answers a lookup of `port` on the system that calls itself `os_name`,
/// from the way the discovery command ended.
///
/// On a system with a backend the answer is that of the backend: the
/// listeners on exactly `port` among the lines that the command printed, in
/// their order, or `ExecutionFailed`. An empty answer means that the port is
/// free. A system without a backend gives `UnsupportedPlatform`.
pub fn check_port(os_name: &str, port: u16, outcome: ProbeOutcome) -> (r: Result<
    Vec<FullPortInfo>,
    ResolveError,
>)
    ensures
        (match Platform::named(os_name@) {
            Some(platform) => result_view(r) == platform.answer(port, outcome),
            None => r matches Err(ResolveError::UnsupportedPlatform),
        }),
        r matches Ok(found) ==> forall|k: int|
            0 <= k < found.len() ==> (#[trigger] found[k]).base.port == port,
        outcome is SpawnFailed ==> r is Err,
        (outcome is SpawnFailed && Platform::named(os_name@) is Some) ==> (r matches Err(
            ResolveError::ExecutionFailed { reason },
        ) && reason@.len() >= outcome->SpawnFailed_reason@.len()),
{
    match Platform::detect(os_name) {
        Ok(platform) => platform.check(port, outcome),
        Err(e) => Err(e),
    }
}

} // verus!
