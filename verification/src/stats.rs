//! Throughput counters and the per-interval stats report. The capture side
//! counts frames received, the render side counts frames rendered, and a
//! reporter tick derives the frames-per-interval readout and snapshots the
//! counters. The caller shares one `Counters` value across its tasks and
//! mutates it only under a single lock.

use vstd::prelude::*;

verus! {

/// The shared counters: running totals on one side, the reporter's last
/// snapshot of them on the other.
#[derive(Clone, Copy, Debug, PartialEq, Eq, Structural)]
pub struct Counters {
    pub frames_received: u64,
    pub frames_rendered: u64,
    pub prev_received: u64,
    pub prev_rendered: u64,
}

/// The snapshot never runs ahead of the running total it mirrors.
pub open spec fn counters_wf(c: Counters) -> bool {
    c.prev_received <= c.frames_received && c.prev_rendered <= c.frames_rendered
}

/// All four counters at zero: the state at session start.
pub open spec fn zero_counters() -> Counters {
    Counters { frames_received: 0, frames_rendered: 0, prev_received: 0, prev_rendered: 0 }
}

/// One captured frame: the received total steps by one.
pub open spec fn received_step(c: Counters) -> Counters {
    Counters { frames_received: (c.frames_received + 1) as u64, ..c }
}

/// One rendered frame: the rendered total steps by one.
pub open spec fn rendered_step(c: Counters) -> Counters {
    Counters { frames_rendered: (c.frames_rendered + 1) as u64, ..c }
}

/// One reporter tick: both snapshots catch up to the running totals.
pub open spec fn snapshot_step(c: Counters) -> Counters {
    Counters { prev_received: c.frames_received, prev_rendered: c.frames_rendered, ..c }
}

/// The counters after `n` captured frames from state `c`.
pub open spec fn after_captures(c: Counters, n: nat) -> Counters
    decreases n,
{
    if n == 0 {
        c
    } else {
        received_step(after_captures(c, (n - 1) as nat))
    }
}

/// The counters after `m` rendered frames from state `c`.
pub open spec fn after_renders(c: Counters, m: nat) -> Counters
    decreases m,
{
    if m == 0 {
        c
    } else {
        rendered_step(after_renders(c, (m - 1) as nat))
    }
}

impl Counters {
    /// Fresh counters, all zero.
    pub fn new() -> (c: Counters)
        ensures
            c == zero_counters(),
            counters_wf(c),
    {
        Counters { frames_received: 0, frames_rendered: 0, prev_received: 0, prev_rendered: 0 }
    }

    /// The capture loop calls this once per published frame, holding the
    /// lock.
    pub fn record_received(&mut self)
        requires
            old(self).frames_received < u64::MAX,
        ensures
            *final(self) == received_step(*old(self)),
            counters_wf(*old(self)) ==> counters_wf(*final(self)),
    {
        self.frames_received = self.frames_received + 1;
    }

    /// The render consumer calls this once per submitted frame, holding the
    /// lock.
    pub fn record_rendered(&mut self)
        requires
            old(self).frames_rendered < u64::MAX,
        ensures
            *final(self) == rendered_step(*old(self)),
            counters_wf(*old(self)) ==> counters_wf(*final(self)),
    {
        self.frames_rendered = self.frames_rendered + 1;
    }

    /// One reporter tick: yields the frames received since the previous
    /// tick, then snapshots both totals.
    pub fn stats_tick(&mut self) -> (delta: u64)
        requires
            counters_wf(*old(self)),
        ensures
            delta == old(self).frames_received - old(self).prev_received,
            *final(self) == snapshot_step(*old(self)),
            counters_wf(*final(self)),
    {
        let delta = self.frames_received - self.prev_received;
        self.prev_received = self.frames_received;
        self.prev_rendered = self.frames_rendered;
        delta
    }
}

/// The character for one decimal digit.
pub open spec fn digit_char(d: nat) -> char {
    if d == 0 {
        '0'
    } else if d == 1 {
        '1'
    } else if d == 2 {
        '2'
    } else if d == 3 {
        '3'
    } else if d == 4 {
        '4'
    } else if d == 5 {
        '5'
    } else if d == 6 {
        '6'
    } else if d == 7 {
        '7'
    } else if d == 8 {
        '8'
    } else {
        '9'
    }
}

/// The decimal digits of `n`, most significant first, with no sign, padding
/// or separators.
pub open spec fn decimal_digits(n: nat) -> Seq<char>
    decreases n,
{
    if n < 10 {
        seq![digit_char(n)]
    } else {
        decimal_digits(n / 10).push(digit_char(n % 10))
    }
}

/// The title line shown for a reporter delta: the camera name and the
/// frames received over the last interval.
pub open spec fn title_chars(delta: u64) -> Seq<char> {
    seq!['M', 'y', ' ', 'C', 'a', 'm', 'e', 'r', 'a', ' ', '('] + decimal_digits(delta as nat)
        + seq![' ', 'f', 'p', 's', ')']
}

/// Relies on std's `format!` with `u64`'s `Display`: an unsigned integer
/// formats as its plain decimal digits.
#[verifier::external_body]
fn format_title(delta: u64) -> (s: String)
    ensures
        s@ == title_chars(delta),
{
    format!("My Camera ({} fps)", delta)
}

/// Derives the display title from a reporter delta. The string is read by
/// both capture and render sides to push to the window title; staleness of
/// up to one reporting interval is acceptable.
pub fn display_title(delta: u64) -> (s: String)
    ensures
        s@ == title_chars(delta),
{
    format_title(delta)
}

/// Capturing a frame leaves everything but the received total alone, and
/// steps that total by one, as long as it cannot overflow.
proof fn lemma_after_captures(c: Counters, n: nat)
    requires
        c.frames_received + n <= u64::MAX,
    ensures
        after_captures(c, n).frames_received == c.frames_received + n,
        after_captures(c, n).frames_rendered == c.frames_rendered,
        after_captures(c, n).prev_received == c.prev_received,
        after_captures(c, n).prev_rendered == c.prev_rendered,
    decreases n,
{
    if n > 0 {
        lemma_after_captures(c, (n - 1) as nat);
    }
}

/// Rendering a frame leaves everything but the rendered total alone, and
/// steps that total by one, as long as it cannot overflow.
proof fn lemma_after_renders(c: Counters, m: nat)
    requires
        c.frames_rendered + m <= u64::MAX,
    ensures
        after_renders(c, m).frames_rendered == c.frames_rendered + m,
        after_renders(c, m).frames_received == c.frames_received,
        after_renders(c, m).prev_received == c.prev_received,
        after_renders(c, m).prev_rendered == c.prev_rendered,
    decreases m,
{
    if m > 0 {
        lemma_after_renders(c, (m - 1) as nat);
    }
}

/// Law: after `n` capture iterations and `m` render iterations from fresh
/// counters, the totals read exactly `n` and `m`, and a reporter tick taken
/// at that point reads a delta of exactly `n` — the received total minus the
/// untouched snapshot.
pub proof fn lemma_counter_totals(n: nat, m: nat)
    requires
        n <= u64::MAX,
        m <= u64::MAX,
    ensures
        after_renders(after_captures(zero_counters(), n), m).frames_received == n,
        after_renders(after_captures(zero_counters(), n), m).frames_rendered == m,
        after_renders(after_captures(zero_counters(), n), m).prev_received == 0,
        after_renders(after_captures(zero_counters(), n), m).prev_rendered == 0,
{
    lemma_after_captures(zero_counters(), n);
    lemma_after_renders(after_captures(zero_counters(), n), m);
}

} // verus!
