//! A lookup as a sequence of steps. The library decides at each step what
//! is to be fetched; the caller fetches it and hands the answer back.
//!
//! A lookup begins with `start`, which names the discovery command. Its
//! outcome goes to `Probing::probed`. From then on each `Stage::Ask` names
//! one thing to fetch for the record that is being completed, and its answer
//! goes to `Enriching::answered`, until the lookup ends in `Stage::Done` or
//! `Stage::Failed`.

use vstd::prelude::*;
use crate::platform::backend::{
    reply_views, request_views, PortSource, ProbeOutcome, Request, RequestView, ResolveError,
    ResolveErrorView,
};
use crate::platform::Platform;
use crate::text::chars::decoded;
use crate::text::split::lines;
use crate::types::{opt_text, record_views, FullPortInfo, FullPortInfoView};

verus! {

/// A lookup that waits for the outcome of its discovery command.
#[derive(Debug)]
pub struct Probing {
    platform: Platform,
    port: u16,
}

/// What a `Probing` holds.
pub struct ProbingView {
    pub platform: Platform,
    pub port: u16,
}

impl View for Probing {
    type V = ProbingView;

    closed spec fn view(&self) -> ProbingView {
        ProbingView { platform: self.platform, port: self.port }
    }
}

/// A lookup that is completing its records, and waits for an answer.
#[derive(Debug)]
pub struct Enriching {
    platform: Platform,
    port: u16,
    done: Vec<FullPortInfo>,
    current: FullPortInfo,
    rest: Vec<FullPortInfo>,
    replies: Vec<Option<String>>,
}

/// What an `Enriching` holds: the records that are complete, the one that is
/// being completed with the answers it has so far, and those still to come.
pub struct EnrichingView {
    pub platform: Platform,
    pub port: u16,
    pub done: Seq<FullPortInfoView>,
    pub current: FullPortInfoView,
    pub rest: Seq<FullPortInfoView>,
    pub replies: Seq<Option<Seq<char>>>,
}

impl View for Enriching {
    type V = EnrichingView;

    closed spec fn view(&self) -> EnrichingView {
        EnrichingView {
            platform: self.platform,
            port: self.port,
            done: record_views(self.done@),
            current: self.current@,
            rest: record_views(self.rest@),
            replies: reply_views(self.replies@),
        }
    }
}

impl EnrichingView {
    /// All records of the lookup, in order.
    pub open spec fn records(self) -> Seq<FullPortInfoView> {
        self.done.push(self.current) + self.rest
    }
}

/// Where a lookup stands after a step.
#[derive(Debug)]
pub enum Stage {
    /// The request is to be fetched and its answer handed to `answered`.
    Ask(Enriching, Request),
    /// The lookup has ended with these records.
    Done(Vec<FullPortInfo>),
    /// The lookup has ended without an answer.
    Failed(ResolveError),
}

/// What a `Stage` holds, as mathematical values.
pub enum StageView {
    Ask(EnrichingView, RequestView),
    Done(Seq<FullPortInfoView>),
    Failed(ResolveErrorView),
}

impl View for Stage {
    type V = StageView;

    open spec fn view(&self) -> StageView {
        match self {
            Stage::Ask(state, request) => StageView::Ask(state@, request@),
            Stage::Done(records) => StageView::Done(record_views(records@)),
            Stage::Failed(e) => StageView::Failed(e@),
        }
    }
}

impl StageView {
    /// All records of the lookup, in order; none where it failed.
    pub open spec fn records(self) -> Seq<FullPortInfoView> {
        match self {
            StageView::Ask(state, _) => state.records(),
            StageView::Done(records) => records,
            StageView::Failed(_) => Seq::empty(),
        }
    }
}

/// The port and the process id of a record.
pub open spec fn key_of(record: FullPortInfoView) -> (u16, u32) {
    (record.base.port, record.base.pid)
}

/// The ports and process ids of `records`, in order.
pub open spec fn keys(records: Seq<FullPortInfoView>) -> Seq<(u16, u32)> {
    Seq::new(records.len(), |k: int| key_of(records[k]))
}

/// The stage of a lookup whose records `done` are complete and whose records
/// `rest` are still to be completed: a record without lookups is complete as
/// it is; the first that has some is asked about; with none left the lookup
/// is done.
pub open spec fn settle(
    platform: Platform,
    port: u16,
    done: Seq<FullPortInfoView>,
    rest: Seq<FullPortInfoView>,
) -> StageView
    decreases rest.len(),
{
    if rest.len() == 0 {
        StageView::Done(done)
    } else {
        let lookups = platform.lookups(rest[0].base.pid);
        if lookups.len() == 0 {
            settle(
                platform,
                port,
                done.push(platform.completed(rest[0], Seq::empty())),
                rest.drop_first(),
            )
        } else {
            StageView::Ask(
                EnrichingView {
                    platform,
                    port,
                    done,
                    current: rest[0],
                    rest: rest.drop_first(),
                    replies: Seq::empty(),
                },
                lookups[0],
            )
        }
    }
}

/// The stage after the discovery command has ended: failed where the
/// command gave no answer, and else settled on the records it gave.
pub open spec fn after_probe(platform: Platform, port: u16, outcome: ProbeOutcome) -> StageView {
    match platform.answer(port, outcome) {
        Ok(found) => settle(platform, port, Seq::empty(), found),
        Err(e) => StageView::Failed(e),
    }
}

/// The stage after `reply` has answered the request that `state` waited
/// for: the next lookup of the same record is asked, or, after the last, the
/// record is completed by its answers and the lookup settles on the rest.
pub open spec fn after_answer(state: EnrichingView, reply: Option<Seq<char>>) -> StageView {
    let replies = state.replies.push(reply);
    let lookups = state.platform.lookups(state.current.base.pid);
    if replies.len() < lookups.len() {
        StageView::Ask(EnrichingView { replies, ..state }, lookups[replies.len() as int])
    } else {
        settle(
            state.platform,
            state.port,
            state.done.push(state.platform.completed(state.current, replies)),
            state.rest,
        )
    }
}

/// Settling never fails, and neither drops, adds nor reorders a record, nor
/// changes the port or the process id of one.
pub proof fn lemma_settle_keeps_records(
    platform: Platform,
    port: u16,
    done: Seq<FullPortInfoView>,
    rest: Seq<FullPortInfoView>,
)
    ensures
        !(settle(platform, port, done, rest) is Failed),
        keys(settle(platform, port, done, rest).records()) == keys(done + rest),
    decreases rest.len(),
{
    if rest.len() == 0 {
        assert(done + rest == done);
    } else {
        let lookups = platform.lookups(rest[0].base.pid);
        if lookups.len() == 0 {
            let first = platform.completed(rest[0], Seq::empty());
            platform.lemma_completed_keeps_key(rest[0], Seq::empty());
            lemma_settle_keeps_records(platform, port, done.push(first), rest.drop_first());
            assert(keys(done.push(first) + rest.drop_first()) == keys(done + rest));
        } else {
            assert(done.push(rest[0]) + rest.drop_first() == done + rest);
        }
    }
}

/// An answer never fails the lookup, and neither drops, adds nor reorders a
/// record, nor changes the port or the process id of one, whatever it is.
pub proof fn lemma_answer_keeps_records(state: EnrichingView, reply: Option<Seq<char>>)
    ensures
        !(after_answer(state, reply) is Failed),
        keys(after_answer(state, reply).records()) == keys(state.records()),
{
    let replies = state.replies.push(reply);
    let lookups = state.platform.lookups(state.current.base.pid);
    if replies.len() < lookups.len() {
    } else {
        let complete = state.platform.completed(state.current, replies);
        state.platform.lemma_completed_keeps_key(state.current, replies);
        lemma_settle_keeps_records(state.platform, state.port, state.done.push(complete), state.rest);
        assert(keys(state.done.push(complete) + state.rest) == keys(state.records()));
    }
}

/// After the discovery command has given its answer, the lookup holds one
/// record for each listener that the answer names, in the same order and
/// with the same port and process id.
pub proof fn lemma_probe_keeps_records(platform: Platform, port: u16, outcome: ProbeOutcome)
    ensures
        (match platform.answer(port, outcome) {
            Ok(found) => !(after_probe(platform, port, outcome) is Failed) && keys(
                after_probe(platform, port, outcome).records(),
            ) == keys(found),
            Err(e) => after_probe(platform, port, outcome) == StageView::Failed(e),
        }),
{
    match platform.answer(port, outcome) {
        Ok(found) => {
            lemma_settle_keeps_records(platform, port, Seq::empty(), found);
            assert(Seq::<FullPortInfoView>::empty() + found == found);
        },
        Err(e) => {},
    }
}

/// The stage that is reached from `stage` when the answers of `replies`
/// arrive one after the other, until they are used up or the lookup has
/// ended.
pub open spec fn after_answers(stage: StageView, replies: Seq<Option<Seq<char>>>) -> StageView
    decreases replies.len(),
{
    if replies.len() == 0 {
        stage
    } else {
        match stage {
            StageView::Ask(state, _) => after_answers(
                after_answer(state, replies[0]),
                replies.drop_first(),
            ),
            _ => stage,
        }
    }
}

/// Secondary lookups never fail a lookup and never drop a record: whatever
/// answers arrive, the records stay, each bound to its port and process.
pub proof fn lemma_answers_keep_records(stage: StageView, replies: Seq<Option<Seq<char>>>)
    requires
        !(stage is Failed),
    ensures
        !(after_answers(stage, replies) is Failed),
        keys(after_answers(stage, replies).records()) == keys(stage.records()),
    decreases replies.len(),
{
    if replies.len() > 0 {
        match stage {
            StageView::Ask(state, _) => {
                lemma_answer_keeps_records(state, replies[0]);
                lemma_answers_keep_records(after_answer(state, replies[0]), replies.drop_first());
            },
            _ => {},
        }
    }
}

/// Two lookups of the same port whose discovery command ended the same way
/// hold the same number of records, which agree on port and process id,
/// whatever the secondary lookups of the one and of the other answered. With
/// the same answers, the two lookups are equal in everything.
pub proof fn lemma_lookup_repeatable(
    platform: Platform,
    port: u16,
    outcome: ProbeOutcome,
    first: Seq<Option<Seq<char>>>,
    second: Seq<Option<Seq<char>>>,
)
    ensures
        keys(after_answers(after_probe(platform, port, outcome), first).records()) == keys(
            after_answers(after_probe(platform, port, outcome), second).records(),
        ),
        first == second ==> after_answers(after_probe(platform, port, outcome), first)
            == after_answers(after_probe(platform, port, outcome), second),
{
    lemma_probe_keeps_records(platform, port, outcome);
    let probed = after_probe(platform, port, outcome);
    if !(probed is Failed) {
        lemma_answers_keep_records(probed, first);
        lemma_answers_keep_records(probed, second);
    } else {
        lemma_failed_stays(probed, first);
        lemma_failed_stays(probed, second);
    }
}

/// A lookup that has ended stays as it is.
proof fn lemma_failed_stays(stage: StageView, replies: Seq<Option<Seq<char>>>)
    requires
        !(stage is Ask),
    ensures
        after_answers(stage, replies) == stage,
{
}

/// Every record of a lookup of `port` is bound to `port`, at every stage.
pub proof fn lemma_lookup_ports(
    platform: Platform,
    port: u16,
    outcome: ProbeOutcome,
    replies: Seq<Option<Seq<char>>>,
)
    ensures
        forall|k: int|
            0 <= k < after_answers(after_probe(platform, port, outcome), replies).records().len()
                ==> (#[trigger] after_answers(
                after_probe(platform, port, outcome),
                replies,
            ).records()[k]).base.port == port,
{
    lemma_probe_keeps_records(platform, port, outcome);
    platform.lemma_answer_ports(port, outcome);
    let probed = after_probe(platform, port, outcome);
    let end = after_answers(probed, replies);
    match platform.answer(port, outcome) {
        Ok(found) => {
            lemma_answers_keep_records(probed, replies);
            assert forall|k: int| 0 <= k < end.records().len() implies (#[trigger] end.records()[k]).base.port
                == port by {
                assert(keys(end.records()).len() == keys(found).len());
                assert(keys(end.records())[k] == keys(found)[k]);
                assert(key_of(end.records()[k]) == key_of(found[k]));
                assert(found[k].base.port == port);
            }
        },
        Err(e) => {
            lemma_failed_stays(probed, replies);
        },
    }
}

/// Where the discovery command could not be started the lookup fails at
/// once with `ExecutionFailed`: it is never done, with or without records,
/// and asks for nothing more.
pub proof fn lemma_spawn_failure_fails(platform: Platform, port: u16, reason: String)
    ensures
        after_probe(platform, port, ProbeOutcome::SpawnFailed { reason }) matches StageView::Failed(
            ResolveErrorView::ExecutionFailed { reason: told },
        ) && told.len() >= reason@.len(),
{
    platform.lemma_spawn_failure(port, reason);
}

/// Where the discovery command ran and none of the lines of the text it
/// printed stands for a listener on exactly `port`, the lookup is done at
/// once, with no record and no error.
pub proof fn lemma_free_port_is_done(platform: Platform, port: u16, success: bool, stdout: Vec<u8>)
    requires
        decoded(stdout@) matches Some(text) && forall|k: int|
            0 <= k < lines(text).len() ==> !platform.row_matches(#[trigger] lines(text)[k], port),
    ensures
        after_probe(platform, port, ProbeOutcome::Finished { success, stdout }) == StageView::Done(
            Seq::empty(),
        ),
{
    platform.lemma_free_port(port, success, stdout);
}

/// Begins a lookup of `port` on the system that calls itself `os_name`:
/// names the discovery command, whose outcome is to be handed to `probed`.
/// A system without a backend gives `UnsupportedPlatform`.
pub fn start(os_name: &str, port: u16) -> (r: Result<(Probing, PortSource), ResolveError>)
    ensures
        (match Platform::named(os_name@) {
            Some(platform) => r matches Ok((probing, PortSource::Command(c))) && probing@
                == (ProbingView { platform, port }) && c@ == platform.source(port),
            None => r matches Err(ResolveError::UnsupportedPlatform),
        }),
{
    match Platform::detect(os_name) {
        Ok(platform) => Ok((Probing { platform, port }, platform.port_source(port))),
        Err(e) => Err(e),
    }
}

/// Carries a lookup on from complete records `done` and records `rest`
/// that are still to be completed.
fn settle_on(
    platform: Platform,
    port: u16,
    complete: Vec<FullPortInfo>,
    pending: Vec<FullPortInfo>,
) -> (stage: Stage)
    ensures
        stage@ == settle(platform, port, record_views(complete@), record_views(pending@)),
{
    let ghost goal = settle(platform, port, record_views(complete@), record_views(pending@));
    let mut done = complete;
    let mut rest = pending;
    while rest.len() > 0
        invariant
            goal == settle(platform, port, record_views(complete@), record_views(pending@)),
            goal == settle(platform, port, record_views(done@), record_views(rest@)),
        decreases rest.len(),
    {
        let ghost done_before = record_views(done@);
        let ghost rest_before = record_views(rest@);
        let current = rest.remove(0);
        assert(record_views(rest@) == rest_before.drop_first());
        assert(current@ == rest_before[0]);
        let mut requests = platform.enrichment_requests(current.base.pid);
        assert(request_views(requests@).len() == requests.len());
        if requests.len() == 0 {
            let replies: Vec<Option<String>> = Vec::new();
            assert(reply_views(replies@) == Seq::<Option<Seq<char>>>::empty());
            let enriched = platform.enrich(current, &replies);
            done.push(enriched);
            assert(record_views(done@) == done_before.push(enriched@));
        } else {
            assert(request_views(requests@)[0] == requests[0]@);
            let first = requests.remove(0);
            let replies: Vec<Option<String>> = Vec::new();
            assert(reply_views(replies@) == Seq::<Option<Seq<char>>>::empty());
            return Stage::Ask(Enriching { platform, port, done, current, rest, replies }, first);
        }
    }
    Stage::Done(done)
}

impl Probing {
    /// Carries the lookup on with the outcome of the discovery command.
    ///
    /// A command that gave no answer fails the lookup. Else the lookup holds
    /// the listeners on exactly the port, and asks for the first thing that
    /// is to be fetched to complete the first of them, or is done.
    pub fn probed(self, outcome: ProbeOutcome) -> (stage: Stage)
        ensures
            stage@ == after_probe(self@.platform, self@.port, outcome),
    {
        match self.platform.check(self.port, outcome) {
            Ok(found) => {
                let done: Vec<FullPortInfo> = Vec::new();
                assert(record_views(done@) == Seq::<FullPortInfoView>::empty());
                settle_on(self.platform, self.port, done, found)
            },
            Err(e) => Stage::Failed(e),
        }
    }
}

impl Enriching {
    /// Carries the lookup on with the answer to the request that it waited
    /// for: the text that was fetched, or `None` where it could not be
    /// fetched.
    ///
    /// No answer fails the lookup or drops a record: what depends on a
    /// missing answer stays absent.
    pub fn answered(self, reply: Option<String>) -> (stage: Stage)
        ensures
            stage@ == after_answer(self@, opt_text(reply)),
            !(stage is Failed),
    {
        proof {
            lemma_answer_keeps_records(self@, opt_text(reply));
        }
        let Enriching { platform, port, done, current, rest, replies } = self;
        let mut replies = replies;
        let ghost before = reply_views(replies@);
        replies.push(reply);
        assert(reply_views(replies@) == before.push(opt_text(reply)));
        let mut requests = platform.enrichment_requests(current.base.pid);
        assert(request_views(requests@).len() == requests.len());
        if replies.len() < requests.len() {
            assert(request_views(requests@)[replies.len() as int] == requests[replies.len() as int]@);
            let next = requests.remove(replies.len());
            Stage::Ask(Enriching { platform, port, done, current, rest, replies }, next)
        } else {
            let mut done = done;
            let ghost done_before = record_views(done@);
            let complete = platform.enrich(current, &replies);
            done.push(complete);
            assert(record_views(done@) == done_before.push(complete@));
            settle_on(platform, port, done, rest)
        }
    }
}

} // verus!
