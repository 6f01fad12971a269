//! Configuration switches as distinct newtypes over `bool`, and a processing
//! step that reports which notices the switches call for.

use vstd::prelude::*;

verus! {

/// Whether verbose logging is on.
#[derive(Debug, Clone, Copy)]
pub struct VerboseLogging(bool);

/// Whether debug mode is on.
#[derive(Debug, Clone, Copy)]
pub struct DebugMode(bool);

/// Whether results are cached.
#[derive(Debug, Clone, Copy)]
pub struct CacheEnabled(bool);

impl VerboseLogging {
    pub closed spec fn enabled(self) -> bool {
        self.0
    }

    pub fn new(enabled: bool) -> (r: Self)
        ensures
            r.enabled() == enabled,
    {
        VerboseLogging(enabled)
    }

    pub fn is_enabled(self) -> (r: bool)
        ensures
            r == self.enabled(),
    {
        self.0
    }
}

impl DebugMode {
    pub closed spec fn enabled(self) -> bool {
        self.0
    }

    pub fn new(enabled: bool) -> (r: Self)
        ensures
            r.enabled() == enabled,
    {
        DebugMode(enabled)
    }

    pub fn is_enabled(self) -> (r: bool)
        ensures
            r == self.enabled(),
    {
        self.0
    }
}

impl CacheEnabled {
    pub closed spec fn enabled(self) -> bool {
        self.0
    }

    pub fn new(enabled: bool) -> (r: Self)
        ensures
            r.enabled() == enabled,
    {
        CacheEnabled(enabled)
    }

    pub fn is_enabled(self) -> (r: bool)
        ensures
            r == self.enabled(),
    {
        self.0
    }
}

/// A line that processing announces, depending on the switches.
#[derive(Debug, Clone, Copy, PartialEq, Eq, Structural)]
pub enum Notice {
    /// Verbose logging: the data being processed.
    Processing,
    /// Debug mode: that more information follows.
    Debugging,
    /// Caching: that results are kept.
    Caching,
}

/// The notices that the switches call for, in the order they are announced.
pub open spec fn notices_for(verbose: bool, debug: bool, cache: bool) -> Seq<Notice> {
    (if verbose { seq![Notice::Processing] } else { Seq::empty() })
        + (if debug { seq![Notice::Debugging] } else { Seq::empty() })
        + (if cache { seq![Notice::Caching] } else { Seq::empty() })
}

pub open spec fn notice_text(n: Notice, data: Seq<char>) -> Seq<char> {
    match n {
        Notice::Processing => "Processing data: "@ + data,
        Notice::Debugging => "Debug mode enabled, showing additional information"@,
        Notice::Caching => "Caching results for future use"@,
    }
}

impl Notice {
    /// The text of the notice; only the verbose one shows the data.
    pub fn text(&self, data: &str) -> (r: String)
        ensures
            r@ == notice_text(*self, data@),
    {
        match self {
            Notice::Processing => String::from_str("Processing data: ").concat(data),
            Notice::Debugging => String::from_str(
                "Debug mode enabled, showing additional information",
            ),
            Notice::Caching => String::from_str("Caching results for future use"),
        }
    }
}

/// The notices to announce before processing, one per switch that is on.
pub fn processing_notices(verbose: VerboseLogging, debug: DebugMode, cache: CacheEnabled) -> (r:
    Vec<Notice>)
    ensures
        r@ == notices_for(verbose.enabled(), debug.enabled(), cache.enabled()),
{
    let mut r: Vec<Notice> = Vec::new();
    if verbose.is_enabled() {
        r.push(Notice::Processing);
    }
    if debug.is_enabled() {
        r.push(Notice::Debugging);
    }
    if cache.is_enabled() {
        r.push(Notice::Caching);
    }
    assert(r@ =~= notices_for(verbose.enabled(), debug.enabled(), cache.enabled()));
    r
}

/// The result of processing: the data after a fixed prefix, whatever the
/// switches say.
pub fn process_data(data: &str, verbose: VerboseLogging, debug: DebugMode, cache: CacheEnabled) -> (r:
    String)
    ensures
        r@ == "Processed: "@ + data@,
{
    String::from_str("Processed: ").concat(data)
}

} // verus!
