//! The records that a port lookup produces.

use vstd::prelude::*;

verus! {

/// An optional string as an optional sequence of characters.
pub open spec fn opt_text(o: Option<String>) -> Option<Seq<char>> {
    match o {
        Some(s) => Some(s@),
        None => None,
    }
}

/// One process bound to a port, as the discovery tool reports it.
///
/// `port` and `pid` come from the tool's output line. `process_name` is a
/// short display name. `user` and `command` are found by secondary lookups
/// and are absent until one succeeds.
#[derive(Debug, Clone)]
pub struct PortInfo {
    pub port: u16,
    pub process_name: String,
    pub pid: u32,
    pub user: Option<String>,
    pub command: Option<String>,
}

/// What a `PortInfo` holds, as mathematical values.
pub struct PortInfoView {
    pub port: u16,
    pub process_name: Seq<char>,
    pub pid: u32,
    pub user: Option<Seq<char>>,
    pub command: Option<Seq<char>>,
}

impl View for PortInfo {
    type V = PortInfoView;

    open spec fn view(&self) -> PortInfoView {
        PortInfoView {
            port: self.port,
            process_name: self.process_name@,
            pid: self.pid,
            user: opt_text(self.user),
            command: opt_text(self.command),
        }
    }
}

/// A copy of an optional text.
pub fn clone_text(o: &Option<String>) -> (r: Option<String>)
    ensures
        opt_text(r) == opt_text(*o),
{
    match o {
        Some(text) => Some(text.clone()),
        None => None,
    }
}

impl PortInfo {
    /// A copy of the record, equal to it in every field.
    pub fn duplicate(&self) -> (copy: PortInfo)
        ensures
            copy@ == self@,
    {
        PortInfo {
            port: self.port,
            process_name: self.process_name.clone(),
            pid: self.pid,
            user: clone_text(&self.user),
            command: clone_text(&self.command),
        }
    }
}

/// What is known of a process beyond its name and owner. Times are whole
/// seconds: `start_time` counts from the Unix epoch, `uptime` is a duration.
#[derive(Debug, Clone)]
pub struct ProcessExtra {
    pub tty: Option<String>,
    pub start_time: Option<u64>,
    pub uptime: Option<u64>,
}

/// What a `ProcessExtra` holds, as mathematical values.
pub struct ProcessExtraView {
    pub tty: Option<Seq<char>>,
    pub start_time: Option<u64>,
    pub uptime: Option<u64>,
}

impl View for ProcessExtra {
    type V = ProcessExtraView;

    open spec fn view(&self) -> ProcessExtraView {
        ProcessExtraView {
            tty: opt_text(self.tty),
            start_time: self.start_time,
            uptime: self.uptime,
        }
    }
}

impl ProcessExtraView {
    /// The value in which every field is absent.
    pub open spec fn absent() -> ProcessExtraView {
        ProcessExtraView { tty: None, start_time: None, uptime: None }
    }
}

impl ProcessExtra {
    /// A copy of the value, equal to it in every field.
    pub fn duplicate(&self) -> (copy: ProcessExtra)
        ensures
            copy@ == self@,
    {
        ProcessExtra {
            tty: clone_text(&self.tty),
            start_time: self.start_time,
            uptime: self.uptime,
        }
    }
}

impl Default for ProcessExtra {
    /// Every field absent.
    fn default() -> (extra: ProcessExtra)
        ensures
            extra@ == ProcessExtraView::absent(),
    {
        ProcessExtra { tty: None, start_time: None, uptime: None }
    }
}

/// A process bound to a port, with everything that is known of it.
#[derive(Debug, Clone)]
pub struct FullPortInfo {
    pub base: PortInfo,
    pub extra: ProcessExtra,
}

/// What a `FullPortInfo` holds, as mathematical values.
pub struct FullPortInfoView {
    pub base: PortInfoView,
    pub extra: ProcessExtraView,
}

impl View for FullPortInfo {
    type V = FullPortInfoView;

    open spec fn view(&self) -> FullPortInfoView {
        FullPortInfoView { base: self.base@, extra: self.extra@ }
    }
}

/// The views of the records of `v`, in order.
pub open spec fn record_views(v: Seq<FullPortInfo>) -> Seq<FullPortInfoView> {
    Seq::new(v.len(), |k: int| v[k]@)
}

/// An optional record as an optional view.
pub open spec fn opt_info(o: Option<PortInfo>) -> Option<PortInfoView> {
    match o {
        Some(info) => Some(info@),
        None => None,
    }
}

/// A record with nothing known beyond `base`.
pub open spec fn bare(base: PortInfoView) -> FullPortInfoView {
    FullPortInfoView { base, extra: ProcessExtraView::absent() }
}

} // verus!
