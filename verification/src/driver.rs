use vstd::prelude::*;
use vstd::pervasive::unreached;
use crate::errors::{SinkError, SourceError};
use crate::retry::RetryBudget;
use crate::sink::FlushCounts;
use crate::source::PageHeader;
use crate::stats::MigrationStats;

verus! {

/// Where a transfer stands.
#[derive(Clone, Copy, Debug, PartialEq, Eq, Structural)]
pub enum Phase {
    /// The initial query has not been issued yet.
    Init,
    /// A non-empty page awaits delivery to the sink.
    Flushing,
    /// The current page has been flushed; the next page must be fetched.
    Advancing,
    /// The loop is over, well or badly; the server-side cursor must be
    /// released before the terminal state is entered.
    Releasing { to_failed: bool },
    /// Terminal: the source was exhausted and the cursor released.
    Done,
    /// Terminal: a fatal source error aborted the transfer.
    Failed,
}

/// The one network operation the surrounding loop must perform next.
#[derive(Clone, Copy, Debug, PartialEq, Eq, Structural)]
pub enum Action {
    /// Issue the initial query.
    Open,
    /// Deliver the current page's records to the sink.
    Flush,
    /// Fetch the next page with the current cursor token.
    Advance,
    /// Release the server-side cursor, best effort.
    Release,
}

/// The transfer loop's decisions, separated from the network calls that carry
/// them out. The loop asks for the `next_action`, performs it, and reports
/// the outcome back through the matching `on_*` method; the driver advances
/// its phase and its accounting and never touches the network itself.
pub struct MigrationDriver {
    /// Where the transfer stands.
    pub phase: Phase,
    /// Per-record accounting, merged once per page.
    pub stats: MigrationStats,
    /// The one live cursor token, forwarded unchanged between fetches.
    pub cursor_token: Option<String>,
    /// Records on the page currently awaiting flush.
    pub page_len: u64,
    /// Retry budget of the continuation fetch under way; reset per fetch.
    pub budget: RetryBudget,
    /// Configured retry bound, handed to every fresh budget.
    pub max_attempts: i32,
    /// Records actually fetched across all pages so far.
    pub fetched: u64,
    /// Records of pages whose flush outcome has been merged into `stats`.
    pub flushed: u64,
    /// True while every acknowledged flush reported counts that summed to its
    /// page's size; the sink's accounting is authoritative and may not.
    pub accounted: bool,
    /// True once the initial query created a server-side cursor.
    pub opened: bool,
    /// How many times a release has been performed.
    pub releases: u64,
}

impl MigrationDriver {
    /// Everything the transfer protocol keeps true between steps.
    pub open spec fn wf(self) -> bool {
        &&& self.max_attempts >= 0
        &&& self.budget.wf()
        &&& self.budget.max_attempts == self.max_attempts
        &&& self.flushed <= self.fetched
        &&& (self.accounted ==> self.stats.processed + self.stats.failed == self.flushed)
        &&& (self.phase is Flushing ==> self.page_len > 0
                && self.fetched == self.flushed + self.page_len)
        &&& (!(self.phase is Flushing) ==> self.flushed == self.fetched)
        &&& (self.opened <==> self.cursor_token is Some)
        &&& ((self.phase is Flushing || self.phase is Advancing
                || self.phase is Releasing || self.phase is Done) ==> self.opened)
        &&& (self.phase is Init ==> !self.opened && self.fetched == 0)
        &&& (!self.opened ==> self.fetched == 0 && self.stats.processed == 0
                && self.stats.failed == 0 && self.accounted)
        &&& self.releases <= 1
        &&& ((self.releases == 1) <==> (self.phase is Done
                || (self.phase is Failed && self.opened)))
    }

    /// The transfer has ended, well or badly.
    pub open spec fn is_terminal(self) -> bool {
        self.phase is Done || self.phase is Failed
    }

    pub fn new(max_attempts: i32) -> (r: Self)
        requires
            max_attempts >= 0,
        ensures
            r.wf(),
            r.phase is Init,
            r.stats.processed == 0,
            r.stats.failed == 0,
            r.max_attempts == max_attempts,
            r.fetched == 0,
            r.releases == 0,
            !r.opened,
            r.accounted,
    {
        MigrationDriver {
            phase: Phase::Init,
            stats: MigrationStats::new(),
            cursor_token: None,
            page_len: 0,
            budget: RetryBudget::new(max_attempts),
            max_attempts,
            fetched: 0,
            flushed: 0,
            accounted: true,
            opened: false,
            releases: 0,
        }
    }

    /// A driver with the default retry bound.
    pub fn with_default_retries() -> (r: Self)
        ensures
            r.wf(),
            r.phase is Init,
            r.stats.processed == 0,
            r.stats.failed == 0,
            r.max_attempts == crate::retry::DEFAULT_MAX_ATTEMPTS,
            r.fetched == 0,
            r.releases == 0,
            !r.opened,
            r.accounted,
    {
        Self::new(crate::retry::DEFAULT_MAX_ATTEMPTS)
    }

    pub fn finished(&self) -> (r: bool)
        ensures
            r == self.is_terminal(),
    {
        matches!(self.phase, Phase::Done | Phase::Failed)
    }

    pub fn succeeded(&self) -> (r: bool)
        ensures
            r == (self.phase is Done),
    {
        matches!(self.phase, Phase::Done)
    }

    /// What the loop must do next; defined by the phase alone.
    pub fn next_action(&self) -> (a: Action)
        requires
            !self.is_terminal(),
        ensures
            self.phase is Init ==> a is Open,
            self.phase is Flushing ==> a is Flush,
            self.phase is Advancing ==> a is Advance,
            self.phase is Releasing ==> a is Release,
    {
        match self.phase {
            Phase::Init => Action::Open,
            Phase::Flushing => Action::Flush,
            Phase::Advancing => Action::Advance,
            Phase::Releasing { .. } => Action::Release,
            Phase::Done | Phase::Failed => unreached(),
        }
    }

    /// The token a fetch or a release must carry: the one live token.
    pub fn current_token(&self) -> (t: &String)
        requires
            self.cursor_token is Some,
        ensures
            t == self.cursor_token->0,
    {
        match &self.cursor_token {
            Some(t) => t,
            None => unreached(),
        }
    }

    /// Outcome of the initial query. A failure is fatal at once, and no
    /// cursor was created, so none is released. An empty first page means the
    /// source is exhausted: release, then done. A non-empty first page starts
    /// the streaming loop with its flush.
    pub fn on_open(&mut self, outcome: Result<PageHeader, SourceError>)
        requires
            old(self).wf(),
            old(self).phase is Init,
        ensures
            final(self).wf(),
            final(self).max_attempts == old(self).max_attempts,
            final(self).stats == old(self).stats,
            final(self).releases == 0,
            outcome matches Err(_) ==> final(self).phase is Failed
                && !final(self).opened
                && final(self).fetched == 0,
            outcome matches Ok(p) ==>
                (p.record_count == 0 ==>
                    final(self).phase == (Phase::Releasing { to_failed: false })
                    && final(self).cursor_token == Some(p.cursor_token)
                    && final(self).fetched == 0
                    && final(self).opened)
                && (p.record_count > 0 ==>
                    final(self).phase is Flushing
                    && final(self).cursor_token == Some(p.cursor_token)
                    && final(self).page_len == p.record_count
                    && final(self).fetched == p.record_count
                    && final(self).opened),
    {
        match outcome {
            Err(_) => {
                self.phase = Phase::Failed;
            },
            Ok(p) => {
                self.opened = true;
                self.cursor_token = Some(p.cursor_token);
                if p.record_count == 0 {
                    self.phase = Phase::Releasing { to_failed: false };
                } else {
                    self.page_len = p.record_count;
                    self.fetched = p.record_count;
                    self.phase = Phase::Flushing;
                }
            },
        }
    }

    /// Outcome of delivering the current page to the sink. An acknowledged
    /// flush merges the sink's own counts; a transport failure counts the
    /// whole page as failed and is never fatal. Either way the loop goes on
    /// to fetch the next page, with a fresh retry budget.
    pub fn on_flush(&mut self, outcome: Result<FlushCounts, SinkError>)
        requires
            old(self).wf(),
            old(self).phase is Flushing,
            outcome matches Ok(c) ==> old(self).stats.processed + c.successful <= u64::MAX
                && old(self).stats.failed + c.failed <= u64::MAX,
            outcome matches Err(_) ==> old(self).stats.failed + old(self).page_len <= u64::MAX,
        ensures
            final(self).wf(),
            final(self).phase is Advancing,
            final(self).max_attempts == old(self).max_attempts,
            final(self).cursor_token == old(self).cursor_token,
            final(self).fetched == old(self).fetched,
            final(self).flushed == old(self).flushed + old(self).page_len,
            final(self).releases == old(self).releases,
            final(self).budget.attempts_used == 0,
            outcome matches Ok(c) ==>
                final(self).stats.processed == old(self).stats.processed + c.successful
                && final(self).stats.failed == old(self).stats.failed + c.failed
                && final(self).accounted == (old(self).accounted
                    && c.successful + c.failed == old(self).page_len),
            outcome matches Err(_) ==>
                final(self).stats.processed == old(self).stats.processed
                && final(self).stats.failed == old(self).stats.failed + old(self).page_len
                && final(self).accounted == old(self).accounted,
    {
        match outcome {
            Ok(c) => {
                let exact: bool = c.successful <= self.page_len
                    && c.failed == self.page_len - c.successful;
                self.accounted = self.accounted && exact;
                self.stats.merge_acknowledged(c);
            },
            Err(_) => {
                self.stats.merge_transport_failure(self.page_len);
            },
        }
        self.flushed = self.flushed + self.page_len;
        self.page_len = 0;
        self.budget = RetryBudget::new(self.max_attempts);
        self.phase = Phase::Advancing;
    }

    /// Outcome of a continuation fetch. A non-empty page restarts the flush;
    /// an empty page means the source is exhausted: release, then done. A
    /// transient error with retry budget left keeps the phase at `Advancing`
    /// so the same fetch is tried again; any other error — fatal, or
    /// transient with the budget exhausted — heads for release and failure.
    pub fn on_advance(&mut self, outcome: Result<PageHeader, SourceError>)
        requires
            old(self).wf(),
            old(self).phase is Advancing,
            outcome matches Ok(p) ==> old(self).fetched + p.record_count <= u64::MAX,
        ensures
            final(self).wf(),
            final(self).max_attempts == old(self).max_attempts,
            final(self).stats == old(self).stats,
            final(self).flushed == old(self).flushed,
            final(self).accounted == old(self).accounted,
            final(self).releases == old(self).releases,
            outcome matches Ok(p) ==>
                (p.record_count > 0 ==>
                    final(self).phase is Flushing
                    && final(self).cursor_token == Some(p.cursor_token)
                    && final(self).page_len == p.record_count
                    && final(self).fetched == old(self).fetched + p.record_count)
                && (p.record_count == 0 ==>
                    final(self).phase == (Phase::Releasing { to_failed: false })
                    && final(self).cursor_token == Some(p.cursor_token)
                    && final(self).fetched == old(self).fetched),
            outcome matches Err(e) ==>
                final(self).cursor_token == old(self).cursor_token
                && final(self).fetched == old(self).fetched
                && ((e.is_transient()
                        && old(self).budget.attempts_used < old(self).max_attempts) ==>
                    final(self).phase is Advancing
                    && final(self).budget.attempts_used == old(self).budget.attempts_used + 1)
                && (!(e.is_transient()
                        && old(self).budget.attempts_used < old(self).max_attempts) ==>
                    final(self).phase == (Phase::Releasing { to_failed: true })),
    {
        match outcome {
            Ok(p) => {
                self.cursor_token = Some(p.cursor_token);
                if p.record_count == 0 {
                    self.phase = Phase::Releasing { to_failed: false };
                } else {
                    self.page_len = p.record_count;
                    self.fetched = self.fetched + p.record_count;
                    self.phase = Phase::Flushing;
                }
            },
            Err(e) => {
                let granted = self.budget.grant_retry(&e);
                if !granted {
                    self.phase = Phase::Releasing { to_failed: true };
                }
            },
        }
    }

    /// The release has been attempted. Its result is ignored: release is
    /// best effort, performed exactly once, and its failure is never
    /// propagated. The transfer then enters its terminal state.
    pub fn on_released(&mut self)
        requires
            old(self).wf(),
            old(self).phase is Releasing,
        ensures
            final(self).wf(),
            final(self).releases == old(self).releases + 1,
            final(self).releases == 1,
            final(self).stats == old(self).stats,
            final(self).fetched == old(self).fetched,
            final(self).accounted == old(self).accounted,
            final(self).cursor_token == old(self).cursor_token,
            final(self).opened == old(self).opened,
            final(self).is_terminal(),
            old(self).phase == (Phase::Releasing { to_failed: false })
                ==> final(self).phase is Done,
            old(self).phase == (Phase::Releasing { to_failed: true })
                ==> final(self).phase is Failed,
    {
        match self.phase {
            Phase::Releasing { to_failed } => {
                self.releases = self.releases + 1;
                self.phase = if to_failed { Phase::Failed } else { Phase::Done };
            },
            _ => unreached(),
        }
    }
}

/// Law: whenever a transfer has terminated and every acknowledged flush
/// reported counts that summed to its page's size, the records processed and
/// failed together equal the records actually fetched across all pages — not
/// the source's advisory total.
pub proof fn lemma_counts_reconcile(d: MigrationDriver)
    requires
        d.wf(),
        d.is_terminal(),
        d.accounted,
    ensures
        d.stats.processed + d.stats.failed == d.fetched,
{
}

/// Law: a continuation fetch is never granted more retries than the
/// configured bound; the used count can never pass `max_attempts`.
pub proof fn lemma_retry_bound(d: MigrationDriver)
    requires
        d.wf(),
    ensures
        0 <= d.budget.attempts_used <= d.max_attempts,
{
}

/// Law: a transfer releases the cursor exactly once if the initial query
/// ever created one, and never otherwise — whatever the terminal state.
pub proof fn lemma_release_exactly_once(d: MigrationDriver)
    requires
        d.wf(),
        d.is_terminal(),
    ensures
        d.opened ==> d.releases == 1,
        !d.opened ==> d.releases == 0,
{
}

/// Law: a completed transfer that never fetched a record reports empty
/// statistics.
pub proof fn lemma_empty_source_stats(d: MigrationDriver)
    requires
        d.wf(),
        d.phase is Done,
        d.fetched == 0,
        d.accounted,
    ensures
        d.stats.processed == 0,
        d.stats.failed == 0,
{
}

} // verus!
