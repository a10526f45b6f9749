//! Progress of one transfer: the latest counters reported by the backend,
//! and the status lines rendered from them.

use vstd::prelude::*;
use crate::text::{decimal, padded, push_decimal, push_padded, push_str};

verus! {

/// One snapshot of the counters of a network transfer.
#[derive(Clone, Copy, Debug, PartialEq, Eq, Structural)]
pub struct TransferStats {
    pub received_objects: usize,
    pub indexed_objects: usize,
    pub total_objects: usize,
    pub received_bytes: usize,
    pub indexed_deltas: usize,
    pub total_deltas: usize,
    pub local_objects: usize,
}

impl TransferStats {
    /// The counters before anything is known of a transfer.
    pub fn zero() -> (r: TransferStats)
        ensures
            r == TransferStats::zero_spec(),
    {
        TransferStats {
            received_objects: 0,
            indexed_objects: 0,
            total_objects: 0,
            received_bytes: 0,
            indexed_deltas: 0,
            total_deltas: 0,
            local_objects: 0,
        }
    }

    pub open spec fn zero_spec() -> TransferStats {
        TransferStats {
            received_objects: 0,
            indexed_objects: 0,
            total_objects: 0,
            received_bytes: 0,
            indexed_deltas: 0,
            total_deltas: 0,
            local_objects: 0,
        }
    }

    /// All objects have arrived and only delta resolution is left.
    pub open spec fn resolving_deltas_spec(&self) -> bool {
        self.total_objects > 0 && self.received_objects == self.total_objects
    }

    #[verifier::when_used_as_spec(resolving_deltas_spec)]
    pub fn resolving_deltas(&self) -> (r: bool)
        ensures
            r == self.resolving_deltas_spec(),
    {
        self.total_objects > 0 && self.received_objects == self.total_objects
    }
}

/// `100 * part / whole`, rounded down; 0 when `whole` is 0.
pub open spec fn percent_of(part: nat, whole: nat) -> nat {
    if whole == 0 { 0 } else { (100 * part) / whole }
}

/// Computes `percent_of(part, whole)` without overflow.
pub fn percent(part: usize, whole: usize) -> (r: u128)
    ensures
        r == percent_of(part as nat, whole as nat),
{
    if whole == 0 {
        0
    } else {
        let p = part as u128;
        assert(100 * p <= 100 * 0xffff_ffff_ffff_ffffu128) by (nonlinear_arith)
            requires p <= 0xffff_ffff_ffff_ffffu128;
        (100 * p) / (whole as u128)
    }
}

/// Counters of a transfer in the order the backend reported them are
/// well-behaved: the received object count never decreases, and it never
/// exceeds the total once the total is known.
pub open spec fn transfer_ordered(h: Seq<TransferStats>) -> bool {
    &&& forall|i: int, j: int|
        0 <= i < j < h.len() ==> #[trigger] h[i].received_objects <= #[trigger] h[j].received_objects
    &&& forall|i: int|
        0 <= i < h.len() && (#[trigger] h[i]).total_objects > 0 ==> h[i].received_objects
            <= h[i].total_objects
}

/// The text of an optional path; empty when there is none.
pub open spec fn path_text(p: Option<String>) -> Seq<char> {
    match p {
        Some(s) => s@,
        None => Seq::empty(),
    }
}

/// The status line of the delta-resolution phase.
pub open spec fn delta_line(t: TransferStats) -> Seq<char> {
    "Resolving deltas "@ + decimal(t.indexed_deltas as nat) + "/"@ + decimal(t.total_deltas as nat)
}

/// The status line of the transfer phase, with the checkout counters.
pub open spec fn transfer_line(t: TransferStats, path: Seq<char>, current: nat, total: nat) -> Seq<char> {
    "downloading "@
        + padded(percent_of(t.received_objects as nat, t.total_objects as nat), 3)
        + "% ("@
        + padded(t.received_bytes as nat / 1024, 4)
        + " kb, "@
        + padded(t.received_objects as nat, 5)
        + "/"@
        + padded(t.total_objects as nat, 5)
        + ")  /  idx "@
        + padded(percent_of(t.indexed_objects as nat, t.total_objects as nat), 3)
        + "% ("@
        + padded(t.indexed_objects as nat, 5)
        + "/"@
        + padded(t.total_objects as nat, 5)
        + ")  /  chk "@
        + padded(percent_of(current, total), 3)
        + "% ("@
        + padded(current, 4)
        + "/"@
        + padded(total, 4)
        + ") "@
        + path
}

/// The line shown while a fetch runs; none before the total is known.
pub open spec fn fetch_line(t: TransferStats) -> Option<Seq<char>> {
    if t.resolving_deltas_spec() {
        Some(delta_line(t))
    } else if t.total_objects > 0 {
        Some(
            "Received "@ + decimal(t.received_objects as nat) + "/"@ + decimal(t.total_objects as nat)
                + " objects ("@ + decimal(t.indexed_objects as nat) + ") in "@
                + decimal(t.received_bytes as nat) + " bytes"@,
        )
    } else {
        None
    }
}

/// The line that closes a fetch.
pub open spec fn fetch_summary(t: TransferStats) -> Seq<char> {
    let base = "Received "@ + decimal(t.indexed_objects as nat) + "/"@ + decimal(t.total_objects as nat)
        + " objects in "@ + decimal(t.received_bytes as nat) + " bytes"@;
    if t.local_objects > 0 {
        base + " (used "@ + decimal(t.local_objects as nat) + " local objects)"@
    } else {
        base
    }
}

fn push_delta_line(out: &mut String, t: &TransferStats)
    ensures
        final(out)@ == old(out)@ + delta_line(*t),
{
    let ghost start = out@;
    push_str(out, "Resolving deltas ");
    push_decimal(out, t.indexed_deltas as u128);
    push_str(out, "/");
    push_decimal(out, t.total_deltas as u128);
    assert(out@ =~= start + delta_line(*t));
}

/// Renders the line shown while a fetch runs, if any.
pub fn render_fetch_line(t: &TransferStats) -> (r: Option<String>)
    ensures
        match (r, fetch_line(*t)) {
            (Some(s), Some(l)) => s@ == l,
            (None, None) => true,
            _ => false,
        },
{
    if t.resolving_deltas() {
        let mut out = String::new();
        push_delta_line(&mut out, t);
        assert(out@ =~= delta_line(*t));
        Some(out)
    } else if t.total_objects > 0 {
        let mut out = String::new();
        push_str(&mut out, "Received ");
        push_decimal(&mut out, t.received_objects as u128);
        push_str(&mut out, "/");
        push_decimal(&mut out, t.total_objects as u128);
        push_str(&mut out, " objects (");
        push_decimal(&mut out, t.indexed_objects as u128);
        push_str(&mut out, ") in ");
        push_decimal(&mut out, t.received_bytes as u128);
        push_str(&mut out, " bytes");
        assert(out@ =~= fetch_line(*t)->Some_0);
        Some(out)
    } else {
        None
    }
}

/// Renders the line that closes a fetch.
pub fn render_fetch_summary(t: &TransferStats) -> (r: String)
    ensures
        r@ == fetch_summary(*t),
{
    let mut out = String::new();
    push_str(&mut out, "Received ");
    push_decimal(&mut out, t.indexed_objects as u128);
    push_str(&mut out, "/");
    push_decimal(&mut out, t.total_objects as u128);
    push_str(&mut out, " objects in ");
    push_decimal(&mut out, t.received_bytes as u128);
    push_str(&mut out, " bytes");
    if t.local_objects > 0 {
        push_str(&mut out, " (used ");
        push_decimal(&mut out, t.local_objects as u128);
        push_str(&mut out, " local objects)");
    }
    assert(out@ =~= fetch_summary(*t));
    out
}

/// The latest transfer and checkout counters of one clone or fetch, as the
/// backend's callbacks report them. Each report overwrites the previous one.
/// Only one execution context touches a state at a time: the callbacks
/// write it, and rendering reads it between two callbacks.
pub struct ProgressState {
    /// Latest transfer snapshot; none before the first report.
    pub transfer: Option<TransferStats>,
    /// Path being written by the checkout, if any.
    pub checkout_path: Option<String>,
    pub checkout_current: usize,
    pub checkout_total: usize,
    /// The line break that precedes the delta-resolution phase was emitted.
    pub line_broken: bool,
    /// Every transfer snapshot reported so far kept the ordering guarantee.
    pub ordered: bool,
    /// Every transfer snapshot reported so far, oldest first.
    pub history: Ghost<Seq<TransferStats>>,
}

impl ProgressState {
    pub open spec fn stats(&self) -> TransferStats {
        match self.transfer {
            Some(t) => t,
            None => TransferStats::zero_spec(),
        }
    }

    /// Well-formed: the ordering flag tells the truth about the history,
    /// and the latest snapshot is the last one of the history.
    pub open spec fn wf(&self) -> bool {
        &&& self.ordered == transfer_ordered(self.history@)
        &&& self.transfer == (if self.history@.len() == 0 {
            None::<TransferStats>
        } else {
            Some(self.history@.last())
        })
    }

    /// The state at the start of a transfer.
    pub fn new() -> (r: ProgressState)
        ensures
            r.wf(),
            r.transfer.is_none(),
            r.checkout_path.is_none(),
            r.checkout_current == 0,
            r.checkout_total == 0,
            !r.line_broken,
            r.history@ == Seq::<TransferStats>::empty(),
    {
        ProgressState {
            transfer: None,
            checkout_path: None,
            checkout_current: 0,
            checkout_total: 0,
            line_broken: false,
            ordered: true,
            history: Ghost(Seq::empty()),
        }
    }

    /// Records a transfer snapshot, replacing the previous one, and checks
    /// it against the ordering guarantee of the stream.
    pub fn record_transfer(&mut self, stats: TransferStats)
        requires
            old(self).wf(),
        ensures
            final(self).wf(),
            final(self).transfer == Some(stats),
            final(self).history@ == old(self).history@.push(stats),
            final(self).ordered == transfer_ordered(old(self).history@.push(stats)),
            final(self).checkout_path == old(self).checkout_path,
            final(self).checkout_current == old(self).checkout_current,
            final(self).checkout_total == old(self).checkout_total,
            final(self).line_broken == old(self).line_broken,
    {
        let keeps_order = match self.transfer {
            Some(prev) => prev.received_objects <= stats.received_objects,
            None => true,
        };
        let within_total = stats.total_objects == 0 || stats.received_objects <= stats.total_objects;
        let ghost h = self.history@;
        let ghost h2 = h.push(stats);
        proof {
            lemma_ordered_push(h, stats);
        }
        self.ordered = self.ordered && keeps_order && within_total;
        self.transfer = Some(stats);
        self.history = Ghost(h2);
        assert(h2.last() == stats);
    }

    /// Records a checkout report, replacing the previous one.
    pub fn record_checkout(&mut self, path: Option<String>, current: usize, total: usize)
        requires
            old(self).wf(),
        ensures
            final(self).wf(),
            final(self).checkout_path == path,
            final(self).checkout_current == current,
            final(self).checkout_total == total,
            final(self).transfer == old(self).transfer,
            final(self).history == old(self).history,
            final(self).ordered == old(self).ordered,
            final(self).line_broken == old(self).line_broken,
    {
        self.checkout_path = path;
        self.checkout_current = current;
        self.checkout_total = total;
    }

    /// The status line of this state.
    pub open spec fn line(&self) -> Seq<char> {
        let t = self.stats();
        if t.resolving_deltas_spec() {
            delta_line(t)
        } else {
            transfer_line(
                t,
                path_text(self.checkout_path),
                self.checkout_current as nat,
                self.checkout_total as nat,
            )
        }
    }

    /// Renders the status line of this state.
    pub fn render(&self) -> (r: String)
        ensures
            r@ == self.line(),
    {
        let t = match self.transfer {
            Some(t) => t,
            None => TransferStats::zero(),
        };
        let mut out = String::new();
        if t.resolving_deltas() {
            push_delta_line(&mut out, &t);
            assert(out@ =~= self.line());
        } else {
            push_str(&mut out, "downloading ");
            push_padded(&mut out, percent(t.received_objects, t.total_objects), 3);
            push_str(&mut out, "% (");
            push_padded(&mut out, (t.received_bytes / 1024) as u128, 4);
            push_str(&mut out, " kb, ");
            push_padded(&mut out, t.received_objects as u128, 5);
            push_str(&mut out, "/");
            push_padded(&mut out, t.total_objects as u128, 5);
            push_str(&mut out, ")  /  idx ");
            push_padded(&mut out, percent(t.indexed_objects, t.total_objects), 3);
            push_str(&mut out, "% (");
            push_padded(&mut out, t.indexed_objects as u128, 5);
            push_str(&mut out, "/");
            push_padded(&mut out, t.total_objects as u128, 5);
            push_str(&mut out, ")  /  chk ");
            push_padded(&mut out, percent(self.checkout_current, self.checkout_total), 3);
            push_str(&mut out, "% (");
            push_padded(&mut out, self.checkout_current as u128, 4);
            push_str(&mut out, "/");
            push_padded(&mut out, self.checkout_total as u128, 4);
            push_str(&mut out, ") ");
            match &self.checkout_path {
                Some(p) => push_str(&mut out, p.as_str()),
                None => {},
            }
            assert(out@ =~= self.line());
        }
        out
    }

    /// Whether a line break has to be emitted before the status line: once,
    /// when the delta-resolution phase first shows.
    pub fn take_line_break(&mut self) -> (r: bool)
        requires
            old(self).wf(),
        ensures
            final(self).wf(),
            r == (old(self).stats().resolving_deltas_spec() && !old(self).line_broken),
            final(self).line_broken == (old(self).line_broken || r),
            final(self).transfer == old(self).transfer,
            final(self).history == old(self).history,
            final(self).ordered == old(self).ordered,
            final(self).checkout_path == old(self).checkout_path,
            final(self).checkout_current == old(self).checkout_current,
            final(self).checkout_total == old(self).checkout_total,
    {
        let resolving = match self.transfer {
            Some(t) => t.resolving_deltas(),
            None => false,
        };
        let r = resolving && !self.line_broken;
        if r {
            self.line_broken = true;
        }
        r
    }
}

/// Appending one snapshot keeps the stream ordered exactly when the stream
/// was ordered, the snapshot does not go below the last one, and it stays
/// within its own total.
pub proof fn lemma_ordered_push(h: Seq<TransferStats>, s: TransferStats)
    ensures
        transfer_ordered(h.push(s)) == (transfer_ordered(h) && (h.len() > 0
            ==> h.last().received_objects <= s.received_objects) && (s.total_objects > 0
            ==> s.received_objects <= s.total_objects)),
{
    let h2 = h.push(s);
    assert(forall|i: int| 0 <= i < h.len() ==> h2[i] == h[i]);
    if transfer_ordered(h) && (h.len() > 0 ==> h.last().received_objects <= s.received_objects)
        && (s.total_objects > 0 ==> s.received_objects <= s.total_objects) {
        assert forall|i: int, j: int|
            0 <= i < j < h2.len() implies #[trigger] h2[i].received_objects
                <= #[trigger] h2[j].received_objects by {
            if j == h.len() && i < h.len() - 1 {
                assert(h[i].received_objects <= h[h.len() - 1].received_objects);
            }
        }
        assert(transfer_ordered(h2));
    }
    if transfer_ordered(h2) {
        assert(h2[h.len() as int] == s);
        if h.len() > 0 {
            assert(h2[h.len() - 1].received_objects <= h2[h.len() as int].received_objects);
        }
        assert forall|i: int, j: int|
            0 <= i < j < h.len() implies #[trigger] h[i].received_objects
                <= #[trigger] h[j].received_objects by {
            assert(h2[i].received_objects <= h2[j].received_objects);
        }
        assert forall|i: int|
            0 <= i < h.len() && (#[trigger] h[i]).total_objects > 0 implies h[i].received_objects
                <= h[i].total_objects by {
            assert(h2[i] == h[i]);
        }
    }
}

/// While the ordering flag of a well-formed state is set, every pair of
/// reported snapshots is in order and no snapshot with a known total
/// exceeds it.
pub proof fn lemma_received_monotone(p: ProgressState, i: int, j: int)
    requires
        p.wf(),
        p.ordered,
        0 <= i <= j < p.history@.len(),
    ensures
        p.history@[i].received_objects <= p.history@[j].received_objects,
        p.history@[j].total_objects > 0 ==> p.history@[j].received_objects
            <= p.history@[j].total_objects,
{
    if i < j {
        assert(p.history@[i].received_objects <= p.history@[j].received_objects);
    }
    assert(p.history@[j].total_objects > 0 ==> p.history@[j].received_objects
        <= p.history@[j].total_objects);
}

} // verus!
