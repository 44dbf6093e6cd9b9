//! Lightweight observability: counters plus a Prometheus text exporter.
//!
//! The bot tracks a small, fixed set of runtime counters for operations,
//! errors and synthesis work, and renders them in the Prometheus text
//! exposition format for the `/metrics` endpoint.

use crate::text::dec_int;
use crate::text::dec_nat;
use crate::text::digit_char;
use crate::text::push_i64;
use crate::text::push_str;
use crate::text::push_u64;
use crate::text::str_eq;
use vstd::prelude::*;
use crate::clock::instant_now;
use crate::clock::elapsed_secs;


verus! {

/// The counter names, in rendering order.
pub open spec fn counter_names() -> Seq<&'static str> {
    seq![
        "messages_total",
        "commands_total",
        "callbacks_total",
        "asks_total",
        "asks_errors_total",
        "speak_total",
        "clones_total",
        "clone_errors_total",
        "voice_input_total",
        "watermarks_total",
        "payments_total",
        "marketplace_installs_total",
        "ws_connections_total",
        "memory_cleared_total",
    ]
}

/// The counter names as a vector, in rendering order.
pub fn all_counters() -> (v: Vec<&'static str>)
    ensures
        v@ == counter_names(),
{
    vec![
        "messages_total",
        "commands_total",
        "callbacks_total",
        "asks_total",
        "asks_errors_total",
        "speak_total",
        "clones_total",
        "clone_errors_total",
        "voice_input_total",
        "watermarks_total",
        "payments_total",
        "marketplace_installs_total",
        "ws_connections_total",
        "memory_cleared_total",
    ]
}

/// The index of the first counter named `name`, counted from `start`.
pub open spec fn counter_index_from(name: Seq<char>, start: int) -> Option<int>
    decreases counter_names().len() - start,
{
    if start < 0 || start >= counter_names().len() {
        None
    } else if counter_names()[start]@ == name {
        Some(start)
    } else {
        counter_index_from(name, start + 1)
    }
}

/// The index of the counter named `name`, if there is one.
pub open spec fn counter_index(name: Seq<char>) -> Option<int> {
    counter_index_from(name, 0)
}

/// What one `inc` does to the counter values: the counter named `name`,
/// if there is one, goes up by one (wrapping); the others stay.
pub open spec fn inc_effect(counts: Seq<u64>, name: Seq<char>) -> Seq<u64> {
    match counter_index(name) {
        None => counts,
        Some(i) => counts.update(i, counts[i].wrapping_add(1)),
    }
}

/// The counter values after `inc` was called with each of `names` in turn,
/// starting from fresh metrics.
pub open spec fn counts_after(names: Seq<Seq<char>>) -> Seq<u64>
    decreases names.len(),
{
    if names.len() == 0 {
        Seq::new(counter_names().len(), |i: int| 0u64)
    } else {
        inc_effect(counts_after(names.drop_last()), names.last())
    }
}

/// How many of `names` are `name`.
pub open spec fn occurrences(names: Seq<Seq<char>>, name: Seq<char>) -> nat
    decreases names.len(),
{
    if names.len() == 0 {
        0
    } else {
        occurrences(names.drop_last(), name) + if names.last() == name {
            1nat
        } else {
            0nat
        }
    }
}

/// The two lines each counter renders as: its type line and its sample,
/// both under the metric name `anubis_<name>`.
pub open spec fn counter_lines(name: Seq<char>, value: u64) -> Seq<char> {
    "# TYPE anubis_"@ + name + " counter\n"@ + "anubis_"@ + name + " "@ + dec_nat(value as nat)
        + "\n"@
}

/// The lines of the first `n` counters.
pub open spec fn counters_text(counts: Seq<u64>, n: int) -> Seq<char>
    decreases n,
{
    if n <= 0 {
        Seq::empty()
    } else {
        counters_text(counts, n - 1) + counter_lines(counter_names()[n - 1]@, counts[n - 1])
    }
}

/// The full exposition text for the given uptime, last synthesis duration
/// and counter values.
pub open spec fn exposition(uptime_secs: u64, last_synth_ms: i64, counts: Seq<u64>) -> Seq<char> {
    "# HELP anubis_uptime_seconds Process uptime since start.\n"@
        + "# TYPE anubis_uptime_seconds counter\n"@ + "anubis_uptime_seconds "@ + dec_nat(
        uptime_secs as nat,
    ) + "\n"@ + "# HELP anubis_last_synth_ms Last synthesis duration in milliseconds.\n"@ + "anubis_last_synth_ms "@ + dec_int(
        last_synth_ms as int,
    ) + "\n"@ + counters_text(counts, counter_names().len() as int)
}

/// Runtime counters.
pub struct Metrics {
    counter: Vec<u64>,
    started_at: std::time::Instant,
    /// Running sum of whole seconds spent inside synthesis (approximate).
    synth_seconds_running: u64,
    /// Duration of the last synthesis call, in milliseconds.
    last_synth_ms: i64,
}

impl Metrics {
    /// The counter values, in the order of `counter_names()`.
    pub closed spec fn counts(&self) -> Seq<u64> {
        self.counter@
    }

    /// The running total of synthesis seconds.
    pub closed spec fn synth_seconds(&self) -> u64 {
        self.synth_seconds_running
    }

    /// The last synthesis duration in milliseconds.
    pub closed spec fn last_synth(&self) -> i64 {
        self.last_synth_ms
    }

    /// The well-formedness invariant: one counter per name.
    pub closed spec fn wf(&self) -> bool {
        self.counter@.len() == counter_names().len()
    }

    /// Fresh metrics: every counter at zero, clock started now.
    pub fn new() -> (m: Self)
        ensures
            m.wf(),
            m.counts() == Seq::new(counter_names().len(), |i: int| 0u64),
            m.synth_seconds() == 0,
            m.last_synth() == 0,
    {
        let names = all_counters();
        let mut counter: Vec<u64> = Vec::new();
        let mut k: usize = 0;
        while k < names.len()
            invariant
                names@ == counter_names(),
                k <= names.len(),
                counter@ == Seq::new(k as nat, |i: int| 0u64),
            decreases names.len() - k,
        {
            counter.push(0);
            k = k + 1;
            assert(counter@ =~= Seq::new(k as nat, |i: int| 0u64));
        }
        Metrics { counter, started_at: instant_now(), synth_seconds_running: 0, last_synth_ms: 0 }
    }

    /// Bump the counter named `name` by one (wrapping); an unknown name is
    /// ignored.
    pub fn inc(&mut self, name: &str)
        requires
            old(self).wf(),
        ensures
            final(self).wf(),
            final(self).synth_seconds() == old(self).synth_seconds(),
            final(self).last_synth() == old(self).last_synth(),
            final(self).counts() == inc_effect(old(self).counts(), name@),
    {
        let names = all_counters();
        let mut k: usize = 0;
        while k < names.len()
            invariant
                names@ == counter_names(),
                k <= names.len(),
                self.wf(),
                self.counter@ == old(self).counter@,
                self.synth_seconds_running == old(self).synth_seconds_running,
                self.last_synth_ms == old(self).last_synth_ms,
                counter_index(name@) == counter_index_from(name@, k as int),
            decreases names.len() - k,
        {
            if str_eq(names[k], name) {
                let v = self.counter[k];
                self.counter.set(k, v.wrapping_add(1));
                return;
            }
            k = k + 1;
        }
    }

    /// Record a synthesis duration: adds its whole seconds to the running
    /// total (wrapping) and keeps it as the last duration.
    pub fn add_synth_time(&mut self, millis: u64)
        ensures
            final(self).counts() == old(self).counts(),
            final(self).synth_seconds() == old(self).synth_seconds().wrapping_add(millis / 1000),
            final(self).last_synth() == millis as i64,
            old(self).wf() ==> final(self).wf(),
    {
        self.synth_seconds_running = self.synth_seconds_running.wrapping_add(millis / 1000);
        self.last_synth_ms = millis as i64;
    }

    /// Whole seconds since the metrics were created.
    pub fn uptime_secs(&self) -> u64 {
        elapsed_secs(&self.started_at)
    }

    /// Render all metrics in Prometheus text exposition format, with the
    /// given uptime.
    pub fn render_with_uptime(&self, uptime_secs: u64) -> (s: String)
        requires
            self.wf(),
        ensures
            s@ == exposition(uptime_secs, self.last_synth(), self.counts()),
    {
        let mut out = String::new();
        push_str(&mut out, "# HELP anubis_uptime_seconds Process uptime since start.\n");
        push_str(&mut out, "# TYPE anubis_uptime_seconds counter\n");
        push_str(&mut out, "anubis_uptime_seconds ");
        push_u64(&mut out, uptime_secs);
        push_str(&mut out, "\n");
        push_str(&mut out, "# HELP anubis_last_synth_ms Last synthesis duration in milliseconds.\n");
        push_str(&mut out, "anubis_last_synth_ms ");
        push_i64(&mut out, self.last_synth_ms);
        push_str(&mut out, "\n");
        let ghost header = out@;
        let names = all_counters();
        let mut k: usize = 0;
        while k < names.len()
            invariant
                names@ == counter_names(),
                k <= names.len(),
                self.wf(),
                out@ == header + counters_text(self.counter@, k as int),
            decreases names.len() - k,
        {
            push_str(&mut out, "# TYPE anubis_");
            push_str(&mut out, names[k]);
            push_str(&mut out, " counter\n");
            push_str(&mut out, "anubis_");
            push_str(&mut out, names[k]);
            push_str(&mut out, " ");
            push_u64(&mut out, self.counter[k]);
            push_str(&mut out, "\n");
            k = k + 1;
            assert(out@ =~= header + counters_text(self.counter@, k as int));
        }
        out
    }

    /// Render all metrics in Prometheus text exposition format.
    pub fn render(&self) -> (s: String)
        requires
            self.wf(),
        ensures
            exists|up: u64| s@ == exposition(up, self.last_synth(), self.counts()),
    {
        let up = self.uptime_secs();
        self.render_with_uptime(up)
    }
}

impl Default for Metrics {
    /// Fresh metrics: every counter at zero, clock started now.
    fn default() -> (m: Self)
        ensures
            m.wf(),
            m.counts() == Seq::new(counter_names().len(), |i: int| 0u64),
            m.synth_seconds() == 0,
            m.last_synth() == 0,
    {
        Metrics::new()
    }
}

proof fn lemma_index_from(name: Seq<char>, start: int)
    requires
        0 <= start <= counter_names().len(),
    ensures
        match counter_index_from(name, start) {
            Some(j) => start <= j < counter_names().len() && counter_names()[j]@ == name,
            None => forall|k: int|
                start <= k < counter_names().len() ==> #[trigger] counter_names()[k]@ != name,
        },
    decreases counter_names().len() - start,
{
    if start < counter_names().len() && counter_names()[start]@ != name {
        lemma_index_from(name, start + 1);
    }
}

/// Each counter is found under its own name: no earlier counter has it.
proof fn lemma_counter_index_of_name(i: int)
    requires
        0 <= i < counter_names().len(),
    ensures
        counter_index(counter_names()[i]@) == Some(i),
{
    reveal_strlit("messages_total");
    reveal_strlit("commands_total");
    reveal_strlit("callbacks_total");
    reveal_strlit("asks_total");
    reveal_strlit("asks_errors_total");
    reveal_strlit("speak_total");
    reveal_strlit("clones_total");
    reveal_strlit("clone_errors_total");
    reveal_strlit("voice_input_total");
    reveal_strlit("watermarks_total");
    reveal_strlit("payments_total");
    reveal_strlit("marketplace_installs_total");
    reveal_strlit("ws_connections_total");
    reveal_strlit("memory_cleared_total");
    if i == 0 {
        let n = "messages_total"@;
        assert(counter_names()[0]@ == n);
        assert(counter_index_from(n, 0) == Some(0int));
    } else if i == 1 {
        let n = "commands_total"@;
        assert(counter_names()[1]@ == n);
        assert(counter_index_from(n, 1) == Some(1int));
        assert(counter_names()[0]@ == "messages_total"@);
        assert("messages_total"@[0] != n[0]);
        assert(counter_index_from(n, 0) == counter_index_from(n, 1));
    } else if i == 2 {
        let n = "callbacks_total"@;
        assert(counter_names()[2]@ == n);
        assert(counter_index_from(n, 2) == Some(2int));
        assert(counter_names()[1]@ == "commands_total"@);
        assert("commands_total"@.len() != n.len());
        assert(counter_index_from(n, 1) == counter_index_from(n, 2));
        assert(counter_names()[0]@ == "messages_total"@);
        assert("messages_total"@.len() != n.len());
        assert(counter_index_from(n, 0) == counter_index_from(n, 1));
    } else if i == 3 {
        let n = "asks_total"@;
        assert(counter_names()[3]@ == n);
        assert(counter_index_from(n, 3) == Some(3int));
        assert(counter_names()[2]@ == "callbacks_total"@);
        assert("callbacks_total"@.len() != n.len());
        assert(counter_index_from(n, 2) == counter_index_from(n, 3));
        assert(counter_names()[1]@ == "commands_total"@);
        assert("commands_total"@.len() != n.len());
        assert(counter_index_from(n, 1) == counter_index_from(n, 2));
        assert(counter_names()[0]@ == "messages_total"@);
        assert("messages_total"@.len() != n.len());
        assert(counter_index_from(n, 0) == counter_index_from(n, 1));
    } else if i == 4 {
        let n = "asks_errors_total"@;
        assert(counter_names()[4]@ == n);
        assert(counter_index_from(n, 4) == Some(4int));
        assert(counter_names()[3]@ == "asks_total"@);
        assert("asks_total"@.len() != n.len());
        assert(counter_index_from(n, 3) == counter_index_from(n, 4));
        assert(counter_names()[2]@ == "callbacks_total"@);
        assert("callbacks_total"@.len() != n.len());
        assert(counter_index_from(n, 2) == counter_index_from(n, 3));
        assert(counter_names()[1]@ == "commands_total"@);
        assert("commands_total"@.len() != n.len());
        assert(counter_index_from(n, 1) == counter_index_from(n, 2));
        assert(counter_names()[0]@ == "messages_total"@);
        assert("messages_total"@.len() != n.len());
        assert(counter_index_from(n, 0) == counter_index_from(n, 1));
    } else if i == 5 {
        let n = "speak_total"@;
        assert(counter_names()[5]@ == n);
        assert(counter_index_from(n, 5) == Some(5int));
        assert(counter_names()[4]@ == "asks_errors_total"@);
        assert("asks_errors_total"@.len() != n.len());
        assert(counter_index_from(n, 4) == counter_index_from(n, 5));
        assert(counter_names()[3]@ == "asks_total"@);
        assert("asks_total"@.len() != n.len());
        assert(counter_index_from(n, 3) == counter_index_from(n, 4));
        assert(counter_names()[2]@ == "callbacks_total"@);
        assert("callbacks_total"@.len() != n.len());
        assert(counter_index_from(n, 2) == counter_index_from(n, 3));
        assert(counter_names()[1]@ == "commands_total"@);
        assert("commands_total"@.len() != n.len());
        assert(counter_index_from(n, 1) == counter_index_from(n, 2));
        assert(counter_names()[0]@ == "messages_total"@);
        assert("messages_total"@.len() != n.len());
        assert(counter_index_from(n, 0) == counter_index_from(n, 1));
    } else if i == 6 {
        let n = "clones_total"@;
        assert(counter_names()[6]@ == n);
        assert(counter_index_from(n, 6) == Some(6int));
        assert(counter_names()[5]@ == "speak_total"@);
        assert("speak_total"@.len() != n.len());
        assert(counter_index_from(n, 5) == counter_index_from(n, 6));
        assert(counter_names()[4]@ == "asks_errors_total"@);
        assert("asks_errors_total"@.len() != n.len());
        assert(counter_index_from(n, 4) == counter_index_from(n, 5));
        assert(counter_names()[3]@ == "asks_total"@);
        assert("asks_total"@.len() != n.len());
        assert(counter_index_from(n, 3) == counter_index_from(n, 4));
        assert(counter_names()[2]@ == "callbacks_total"@);
        assert("callbacks_total"@.len() != n.len());
        assert(counter_index_from(n, 2) == counter_index_from(n, 3));
        assert(counter_names()[1]@ == "commands_total"@);
        assert("commands_total"@.len() != n.len());
        assert(counter_index_from(n, 1) == counter_index_from(n, 2));
        assert(counter_names()[0]@ == "messages_total"@);
        assert("messages_total"@.len() != n.len());
        assert(counter_index_from(n, 0) == counter_index_from(n, 1));
    } else if i == 7 {
        let n = "clone_errors_total"@;
        assert(counter_names()[7]@ == n);
        assert(counter_index_from(n, 7) == Some(7int));
        assert(counter_names()[6]@ == "clones_total"@);
        assert("clones_total"@.len() != n.len());
        assert(counter_index_from(n, 6) == counter_index_from(n, 7));
        assert(counter_names()[5]@ == "speak_total"@);
        assert("speak_total"@.len() != n.len());
        assert(counter_index_from(n, 5) == counter_index_from(n, 6));
        assert(counter_names()[4]@ == "asks_errors_total"@);
        assert("asks_errors_total"@.len() != n.len());
        assert(counter_index_from(n, 4) == counter_index_from(n, 5));
        assert(counter_names()[3]@ == "asks_total"@);
        assert("asks_total"@.len() != n.len());
        assert(counter_index_from(n, 3) == counter_index_from(n, 4));
        assert(counter_names()[2]@ == "callbacks_total"@);
        assert("callbacks_total"@.len() != n.len());
        assert(counter_index_from(n, 2) == counter_index_from(n, 3));
        assert(counter_names()[1]@ == "commands_total"@);
        assert("commands_total"@.len() != n.len());
        assert(counter_index_from(n, 1) == counter_index_from(n, 2));
        assert(counter_names()[0]@ == "messages_total"@);
        assert("messages_total"@.len() != n.len());
        assert(counter_index_from(n, 0) == counter_index_from(n, 1));
    } else if i == 8 {
        let n = "voice_input_total"@;
        assert(counter_names()[8]@ == n);
        assert(counter_index_from(n, 8) == Some(8int));
        assert(counter_names()[7]@ == "clone_errors_total"@);
        assert("clone_errors_total"@.len() != n.len());
        assert(counter_index_from(n, 7) == counter_index_from(n, 8));
        assert(counter_names()[6]@ == "clones_total"@);
        assert("clones_total"@.len() != n.len());
        assert(counter_index_from(n, 6) == counter_index_from(n, 7));
        assert(counter_names()[5]@ == "speak_total"@);
        assert("speak_total"@.len() != n.len());
        assert(counter_index_from(n, 5) == counter_index_from(n, 6));
        assert(counter_names()[4]@ == "asks_errors_total"@);
        assert("asks_errors_total"@[0] != n[0]);
        assert(counter_index_from(n, 4) == counter_index_from(n, 5));
        assert(counter_names()[3]@ == "asks_total"@);
        assert("asks_total"@.len() != n.len());
        assert(counter_index_from(n, 3) == counter_index_from(n, 4));
        assert(counter_names()[2]@ == "callbacks_total"@);
        assert("callbacks_total"@.len() != n.len());
        assert(counter_index_from(n, 2) == counter_index_from(n, 3));
        assert(counter_names()[1]@ == "commands_total"@);
        assert("commands_total"@.len() != n.len());
        assert(counter_index_from(n, 1) == counter_index_from(n, 2));
        assert(counter_names()[0]@ == "messages_total"@);
        assert("messages_total"@.len() != n.len());
        assert(counter_index_from(n, 0) == counter_index_from(n, 1));
    } else if i == 9 {
        let n = "watermarks_total"@;
        assert(counter_names()[9]@ == n);
        assert(counter_index_from(n, 9) == Some(9int));
        assert(counter_names()[8]@ == "voice_input_total"@);
        assert("voice_input_total"@.len() != n.len());
        assert(counter_index_from(n, 8) == counter_index_from(n, 9));
        assert(counter_names()[7]@ == "clone_errors_total"@);
        assert("clone_errors_total"@.len() != n.len());
        assert(counter_index_from(n, 7) == counter_index_from(n, 8));
        assert(counter_names()[6]@ == "clones_total"@);
        assert("clones_total"@.len() != n.len());
        assert(counter_index_from(n, 6) == counter_index_from(n, 7));
        assert(counter_names()[5]@ == "speak_total"@);
        assert("speak_total"@.len() != n.len());
        assert(counter_index_from(n, 5) == counter_index_from(n, 6));
        assert(counter_names()[4]@ == "asks_errors_total"@);
        assert("asks_errors_total"@.len() != n.len());
        assert(counter_index_from(n, 4) == counter_index_from(n, 5));
        assert(counter_names()[3]@ == "asks_total"@);
        assert("asks_total"@.len() != n.len());
        assert(counter_index_from(n, 3) == counter_index_from(n, 4));
        assert(counter_names()[2]@ == "callbacks_total"@);
        assert("callbacks_total"@.len() != n.len());
        assert(counter_index_from(n, 2) == counter_index_from(n, 3));
        assert(counter_names()[1]@ == "commands_total"@);
        assert("commands_total"@.len() != n.len());
        assert(counter_index_from(n, 1) == counter_index_from(n, 2));
        assert(counter_names()[0]@ == "messages_total"@);
        assert("messages_total"@.len() != n.len());
        assert(counter_index_from(n, 0) == counter_index_from(n, 1));
    } else if i == 10 {
        let n = "payments_total"@;
        assert(counter_names()[10]@ == n);
        assert(counter_index_from(n, 10) == Some(10int));
        assert(counter_names()[9]@ == "watermarks_total"@);
        assert("watermarks_total"@.len() != n.len());
        assert(counter_index_from(n, 9) == counter_index_from(n, 10));
        assert(counter_names()[8]@ == "voice_input_total"@);
        assert("voice_input_total"@.len() != n.len());
        assert(counter_index_from(n, 8) == counter_index_from(n, 9));
        assert(counter_names()[7]@ == "clone_errors_total"@);
        assert("clone_errors_total"@.len() != n.len());
        assert(counter_index_from(n, 7) == counter_index_from(n, 8));
        assert(counter_names()[6]@ == "clones_total"@);
        assert("clones_total"@.len() != n.len());
        assert(counter_index_from(n, 6) == counter_index_from(n, 7));
        assert(counter_names()[5]@ == "speak_total"@);
        assert("speak_total"@.len() != n.len());
        assert(counter_index_from(n, 5) == counter_index_from(n, 6));
        assert(counter_names()[4]@ == "asks_errors_total"@);
        assert("asks_errors_total"@.len() != n.len());
        assert(counter_index_from(n, 4) == counter_index_from(n, 5));
        assert(counter_names()[3]@ == "asks_total"@);
        assert("asks_total"@.len() != n.len());
        assert(counter_index_from(n, 3) == counter_index_from(n, 4));
        assert(counter_names()[2]@ == "callbacks_total"@);
        assert("callbacks_total"@.len() != n.len());
        assert(counter_index_from(n, 2) == counter_index_from(n, 3));
        assert(counter_names()[1]@ == "commands_total"@);
        assert("commands_total"@[0] != n[0]);
        assert(counter_index_from(n, 1) == counter_index_from(n, 2));
        assert(counter_names()[0]@ == "messages_total"@);
        assert("messages_total"@[0] != n[0]);
        assert(counter_index_from(n, 0) == counter_index_from(n, 1));
    } else if i == 11 {
        let n = "marketplace_installs_total"@;
        assert(counter_names()[11]@ == n);
        assert(counter_index_from(n, 11) == Some(11int));
        assert(counter_names()[10]@ == "payments_total"@);
        assert("payments_total"@.len() != n.len());
        assert(counter_index_from(n, 10) == counter_index_from(n, 11));
        assert(counter_names()[9]@ == "watermarks_total"@);
        assert("watermarks_total"@.len() != n.len());
        assert(counter_index_from(n, 9) == counter_index_from(n, 10));
        assert(counter_names()[8]@ == "voice_input_total"@);
        assert("voice_input_total"@.len() != n.len());
        assert(counter_index_from(n, 8) == counter_index_from(n, 9));
        assert(counter_names()[7]@ == "clone_errors_total"@);
        assert("clone_errors_total"@.len() != n.len());
        assert(counter_index_from(n, 7) == counter_index_from(n, 8));
        assert(counter_names()[6]@ == "clones_total"@);
        assert("clones_total"@.len() != n.len());
        assert(counter_index_from(n, 6) == counter_index_from(n, 7));
        assert(counter_names()[5]@ == "speak_total"@);
        assert("speak_total"@.len() != n.len());
        assert(counter_index_from(n, 5) == counter_index_from(n, 6));
        assert(counter_names()[4]@ == "asks_errors_total"@);
        assert("asks_errors_total"@.len() != n.len());
        assert(counter_index_from(n, 4) == counter_index_from(n, 5));
        assert(counter_names()[3]@ == "asks_total"@);
        assert("asks_total"@.len() != n.len());
        assert(counter_index_from(n, 3) == counter_index_from(n, 4));
        assert(counter_names()[2]@ == "callbacks_total"@);
        assert("callbacks_total"@.len() != n.len());
        assert(counter_index_from(n, 2) == counter_index_from(n, 3));
        assert(counter_names()[1]@ == "commands_total"@);
        assert("commands_total"@.len() != n.len());
        assert(counter_index_from(n, 1) == counter_index_from(n, 2));
        assert(counter_names()[0]@ == "messages_total"@);
        assert("messages_total"@.len() != n.len());
        assert(counter_index_from(n, 0) == counter_index_from(n, 1));
    } else if i == 12 {
        let n = "ws_connections_total"@;
        assert(counter_names()[12]@ == n);
        assert(counter_index_from(n, 12) == Some(12int));
        assert(counter_names()[11]@ == "marketplace_installs_total"@);
        assert("marketplace_installs_total"@.len() != n.len());
        assert(counter_index_from(n, 11) == counter_index_from(n, 12));
        assert(counter_names()[10]@ == "payments_total"@);
        assert("payments_total"@.len() != n.len());
        assert(counter_index_from(n, 10) == counter_index_from(n, 11));
        assert(counter_names()[9]@ == "watermarks_total"@);
        assert("watermarks_total"@.len() != n.len());
        assert(counter_index_from(n, 9) == counter_index_from(n, 10));
        assert(counter_names()[8]@ == "voice_input_total"@);
        assert("voice_input_total"@.len() != n.len());
        assert(counter_index_from(n, 8) == counter_index_from(n, 9));
        assert(counter_names()[7]@ == "clone_errors_total"@);
        assert("clone_errors_total"@.len() != n.len());
        assert(counter_index_from(n, 7) == counter_index_from(n, 8));
        assert(counter_names()[6]@ == "clones_total"@);
        assert("clones_total"@.len() != n.len());
        assert(counter_index_from(n, 6) == counter_index_from(n, 7));
        assert(counter_names()[5]@ == "speak_total"@);
        assert("speak_total"@.len() != n.len());
        assert(counter_index_from(n, 5) == counter_index_from(n, 6));
        assert(counter_names()[4]@ == "asks_errors_total"@);
        assert("asks_errors_total"@.len() != n.len());
        assert(counter_index_from(n, 4) == counter_index_from(n, 5));
        assert(counter_names()[3]@ == "asks_total"@);
        assert("asks_total"@.len() != n.len());
        assert(counter_index_from(n, 3) == counter_index_from(n, 4));
        assert(counter_names()[2]@ == "callbacks_total"@);
        assert("callbacks_total"@.len() != n.len());
        assert(counter_index_from(n, 2) == counter_index_from(n, 3));
        assert(counter_names()[1]@ == "commands_total"@);
        assert("commands_total"@.len() != n.len());
        assert(counter_index_from(n, 1) == counter_index_from(n, 2));
        assert(counter_names()[0]@ == "messages_total"@);
        assert("messages_total"@.len() != n.len());
        assert(counter_index_from(n, 0) == counter_index_from(n, 1));
    } else if i == 13 {
        let n = "memory_cleared_total"@;
        assert(counter_names()[13]@ == n);
        assert(counter_index_from(n, 13) == Some(13int));
        assert(counter_names()[12]@ == "ws_connections_total"@);
        assert("ws_connections_total"@[0] != n[0]);
        assert(counter_index_from(n, 12) == counter_index_from(n, 13));
        assert(counter_names()[11]@ == "marketplace_installs_total"@);
        assert("marketplace_installs_total"@.len() != n.len());
        assert(counter_index_from(n, 11) == counter_index_from(n, 12));
        assert(counter_names()[10]@ == "payments_total"@);
        assert("payments_total"@.len() != n.len());
        assert(counter_index_from(n, 10) == counter_index_from(n, 11));
        assert(counter_names()[9]@ == "watermarks_total"@);
        assert("watermarks_total"@.len() != n.len());
        assert(counter_index_from(n, 9) == counter_index_from(n, 10));
        assert(counter_names()[8]@ == "voice_input_total"@);
        assert("voice_input_total"@.len() != n.len());
        assert(counter_index_from(n, 8) == counter_index_from(n, 9));
        assert(counter_names()[7]@ == "clone_errors_total"@);
        assert("clone_errors_total"@.len() != n.len());
        assert(counter_index_from(n, 7) == counter_index_from(n, 8));
        assert(counter_names()[6]@ == "clones_total"@);
        assert("clones_total"@.len() != n.len());
        assert(counter_index_from(n, 6) == counter_index_from(n, 7));
        assert(counter_names()[5]@ == "speak_total"@);
        assert("speak_total"@.len() != n.len());
        assert(counter_index_from(n, 5) == counter_index_from(n, 6));
        assert(counter_names()[4]@ == "asks_errors_total"@);
        assert("asks_errors_total"@.len() != n.len());
        assert(counter_index_from(n, 4) == counter_index_from(n, 5));
        assert(counter_names()[3]@ == "asks_total"@);
        assert("asks_total"@.len() != n.len());
        assert(counter_index_from(n, 3) == counter_index_from(n, 4));
        assert(counter_names()[2]@ == "callbacks_total"@);
        assert("callbacks_total"@.len() != n.len());
        assert(counter_index_from(n, 2) == counter_index_from(n, 3));
        assert(counter_names()[1]@ == "commands_total"@);
        assert("commands_total"@.len() != n.len());
        assert(counter_index_from(n, 1) == counter_index_from(n, 2));
        assert(counter_names()[0]@ == "messages_total"@);
        assert("messages_total"@.len() != n.len());
        assert(counter_index_from(n, 0) == counter_index_from(n, 1));
    }
}

/// Counting law: after any sequence of `inc` calls on fresh metrics, each
/// counter holds the number of calls that named it (modulo 2^64); calls
/// with other names change nothing.
pub proof fn lemma_counts_tally(names: Seq<Seq<char>>, i: int)
    requires
        0 <= i < counter_names().len(),
    ensures
        counts_after(names).len() == counter_names().len(),
        counts_after(names)[i] == occurrences(names, counter_names()[i]@) % 0x1_0000_0000_0000_0000,
    decreases names.len(),
{
    if names.len() > 0 {
        let prev = names.drop_last();
        lemma_counts_tally(prev, i);
        let n = names.last();
        let c = counts_after(prev);
        let occ = occurrences(prev, counter_names()[i]@);
        lemma_index_from(n, 0);
        lemma_counter_index_of_name(i);
        match counter_index(n) {
            Some(j) => {
                if j == i {
                    assert(n == counter_names()[i]@);
                    assert(c[i].wrapping_add(1) == (occ + 1) % 0x1_0000_0000_0000_0000) by {
                        vstd::arithmetic::div_mod::lemma_add_mod_noop(
                            occ as int,
                            1,
                            0x1_0000_0000_0000_0000,
                        );
                    }
                } else {
                    assert(n != counter_names()[i]@);
                }
            },
            None => {
                assert(n != counter_names()[i]@);
            },
        }
    }
}

/// A call that changes the metrics: `inc` of a name, or `add_synth_time`
/// of a duration in milliseconds.
pub enum MetricsCall {
    Inc(Seq<char>),
    SynthTime(u64),
}

/// The counter values and the last synthesis duration after `calls`, made
/// in turn on fresh metrics, as `inc` and `add_synth_time` state them.
pub open spec fn state_after(calls: Seq<MetricsCall>) -> (Seq<u64>, i64)
    decreases calls.len(),
{
    if calls.len() == 0 {
        (Seq::new(counter_names().len(), |i: int| 0u64), 0)
    } else {
        let prev = state_after(calls.drop_last());
        match calls.last() {
            MetricsCall::Inc(name) => (inc_effect(prev.0, name), prev.1),
            MetricsCall::SynthTime(ms) => (prev.0, ms as i64),
        }
    }
}

/// The names of the `inc` calls among `calls`, in order.
pub open spec fn inc_names(calls: Seq<MetricsCall>) -> Seq<Seq<char>>
    decreases calls.len(),
{
    if calls.len() == 0 {
        Seq::empty()
    } else {
        match calls.last() {
            MetricsCall::Inc(name) => inc_names(calls.drop_last()).push(name),
            MetricsCall::SynthTime(_) => inc_names(calls.drop_last()),
        }
    }
}

/// The duration of the last `add_synth_time` call among `calls`, as `i64`;
/// zero when there is none.
pub open spec fn last_synth_of(calls: Seq<MetricsCall>) -> i64
    decreases calls.len(),
{
    if calls.len() == 0 {
        0
    } else {
        match calls.last() {
            MetricsCall::Inc(_) => last_synth_of(calls.drop_last()),
            MetricsCall::SynthTime(ms) => ms as i64,
        }
    }
}

/// Metrics law: after any sequence of `inc` and `add_synth_time` calls on
/// fresh metrics, counter `i` holds the number of `inc` calls that named it
/// (modulo 2^64), whatever other calls came between, and the last synthesis
/// duration is that of the last `add_synth_time` call (zero if none), so
/// `render` shows exactly these values.
pub proof fn lemma_metrics_after_calls(calls: Seq<MetricsCall>, i: int)
    requires
        0 <= i < counter_names().len(),
    ensures
        state_after(calls).0 == counts_after(inc_names(calls)),
        state_after(calls).0[i] == occurrences(inc_names(calls), counter_names()[i]@)
            % 0x1_0000_0000_0000_0000,
        state_after(calls).1 == last_synth_of(calls),
    decreases calls.len(),
{
    if calls.len() > 0 {
        lemma_metrics_after_calls(calls.drop_last(), i);
        match calls.last() {
            MetricsCall::Inc(name) => {
                let ns = inc_names(calls);
                assert(ns.drop_last() =~= inc_names(calls.drop_last()));
                assert(ns.last() == name);
            },
            MetricsCall::SynthTime(_) => {},
        }
    }
    lemma_counts_tally(inc_names(calls), i);
}

/// The number of newlines among the first `k` characters of `s`.
pub open spec fn newlines_upto(s: Seq<char>, k: int) -> nat
    decreases k,
{
    if k <= 0 {
        0
    } else {
        newlines_upto(s, k - 1) + if s[k - 1] == '\n' {
            1nat
        } else {
            0nat
        }
    }
}

/// The number of newlines in a text: its number of lines when it ends with
/// one.
pub open spec fn newlines(s: Seq<char>) -> nat {
    newlines_upto(s, s.len() as int)
}

/// Counting a prefix only looks at the prefix.
proof fn lemma_newlines_prefix(a: Seq<char>, b: Seq<char>, k: int)
    requires
        0 <= k <= a.len(),
    ensures
        newlines_upto(a + b, k) == newlines_upto(a, k),
    decreases k,
{
    if k > 0 {
        lemma_newlines_prefix(a, b, k - 1);
        assert((a + b)[k - 1] == a[k - 1]);
    }
}

proof fn lemma_newlines_suffix(a: Seq<char>, b: Seq<char>, j: int)
    requires
        0 <= j <= b.len(),
    ensures
        newlines_upto(a + b, a.len() + j) == newlines(a) + newlines_upto(b, j),
    decreases j,
{
    if j > 0 {
        lemma_newlines_suffix(a, b, j - 1);
        assert((a + b)[a.len() + j - 1] == b[j - 1]);
    } else {
        lemma_newlines_prefix(a, b, a.len() as int);
    }
}

proof fn lemma_newlines_add(a: Seq<char>, b: Seq<char>)
    ensures
        newlines(a + b) == newlines(a) + newlines(b),
{
    lemma_newlines_suffix(a, b, b.len() as int);
}

proof fn lemma_dec_nat_newlines(n: nat)
    ensures
        newlines(dec_nat(n)) == 0,
    decreases n,
{
    if n >= 10 {
        lemma_dec_nat_newlines(n / 10);
        let d = digit_char(n % 10);
        assert(d != '\n');
        assert(dec_nat(n / 10).push(d) =~= dec_nat(n / 10) + seq![d]);
        lemma_newlines_add(dec_nat(n / 10), seq![d]);
        assert(newlines_upto(seq![d], 0) == 0);
    } else {
        assert(digit_char(n) != '\n');
        assert(newlines_upto(dec_nat(n), 0) == 0);
    }
}

proof fn lemma_dec_int_newlines(n: int)
    ensures
        newlines(dec_int(n)) == 0,
{
    if n < 0 {
        lemma_dec_nat_newlines((-n) as nat);
        lemma_newlines_add(seq!['-'], dec_nat((-n) as nat));
        assert(newlines_upto(seq!['-'], 0) == 0);
    } else {
        lemma_dec_nat_newlines(n as nat);
    }
}

proof fn lemma_literal_newlines()
    ensures
        newlines("anubis_uptime_seconds "@) == 0,
        newlines("anubis_last_synth_ms "@) == 0,
        newlines("# TYPE anubis_"@) == 0,
        newlines("anubis_"@) == 0,
        newlines(" "@) == 0,
        newlines("# TYPE anubis_uptime_seconds counter\n"@) == 1,
        newlines(" counter\n"@) == 1,
        newlines("\n"@) == 1,
        newlines("# HELP anubis_uptime_seconds Process uptime since start.\n"@) == 1,
        newlines("# HELP anubis_last_synth_ms Last synthesis duration in milliseconds.\n"@) == 1,
{
    reveal_strlit("anubis_uptime_seconds ");
    reveal_strlit("anubis_last_synth_ms ");
    reveal_strlit("# TYPE anubis_");
    reveal_strlit("anubis_");
    reveal_strlit(" ");
    reveal_strlit("# TYPE anubis_uptime_seconds counter\n");
    reveal_strlit(" counter\n");
    reveal_strlit("\n");
    reveal_with_fuel(newlines_upto, 40);
    lemma_help_uptime_newlines();
    lemma_help_synth_newlines();
}

#[verifier::rlimit(40)]
proof fn lemma_help_uptime_newlines()
    ensures
        newlines("# HELP anubis_uptime_seconds Process uptime since start.\n"@) == 1,
{
    reveal_strlit("# HELP anubis_uptime_seconds Process uptime since start.\n");
    reveal_with_fuel(newlines_upto, 58);
}

#[verifier::rlimit(40)]
proof fn lemma_help_synth_newlines()
    ensures
        newlines("# HELP anubis_last_synth_ms Last synthesis duration in milliseconds.\n"@) == 1,
{
    reveal_strlit("# HELP anubis_last_synth_ms Last synthesis duration in milliseconds.\n");
    reveal_with_fuel(newlines_upto, 70);
}

proof fn lemma_name_newlines(i: int)
    requires
        0 <= i < counter_names().len(),
    ensures
        newlines(counter_names()[i]@) == 0,
{
    if i == 0 {
        assert(counter_names()[0]@ == "messages_total"@);
        assert(newlines("messages_total"@) == 0) by {
            reveal_strlit("messages_total");
            reveal_with_fuel(newlines_upto, 15);
        }
    } else if i == 1 {
        assert(counter_names()[1]@ == "commands_total"@);
        assert(newlines("commands_total"@) == 0) by {
            reveal_strlit("commands_total");
            reveal_with_fuel(newlines_upto, 15);
        }
    } else if i == 2 {
        assert(counter_names()[2]@ == "callbacks_total"@);
        assert(newlines("callbacks_total"@) == 0) by {
            reveal_strlit("callbacks_total");
            reveal_with_fuel(newlines_upto, 16);
        }
    } else if i == 3 {
        assert(counter_names()[3]@ == "asks_total"@);
        assert(newlines("asks_total"@) == 0) by {
            reveal_strlit("asks_total");
            reveal_with_fuel(newlines_upto, 11);
        }
    } else if i == 4 {
        assert(counter_names()[4]@ == "asks_errors_total"@);
        assert(newlines("asks_errors_total"@) == 0) by {
            reveal_strlit("asks_errors_total");
            reveal_with_fuel(newlines_upto, 18);
        }
    } else if i == 5 {
        assert(counter_names()[5]@ == "speak_total"@);
        assert(newlines("speak_total"@) == 0) by {
            reveal_strlit("speak_total");
            reveal_with_fuel(newlines_upto, 12);
        }
    } else if i == 6 {
        assert(counter_names()[6]@ == "clones_total"@);
        assert(newlines("clones_total"@) == 0) by {
            reveal_strlit("clones_total");
            reveal_with_fuel(newlines_upto, 13);
        }
    } else if i == 7 {
        assert(counter_names()[7]@ == "clone_errors_total"@);
        assert(newlines("clone_errors_total"@) == 0) by {
            reveal_strlit("clone_errors_total");
            reveal_with_fuel(newlines_upto, 19);
        }
    } else if i == 8 {
        assert(counter_names()[8]@ == "voice_input_total"@);
        assert(newlines("voice_input_total"@) == 0) by {
            reveal_strlit("voice_input_total");
            reveal_with_fuel(newlines_upto, 18);
        }
    } else if i == 9 {
        assert(counter_names()[9]@ == "watermarks_total"@);
        assert(newlines("watermarks_total"@) == 0) by {
            reveal_strlit("watermarks_total");
            reveal_with_fuel(newlines_upto, 17);
        }
    } else if i == 10 {
        assert(counter_names()[10]@ == "payments_total"@);
        assert(newlines("payments_total"@) == 0) by {
            reveal_strlit("payments_total");
            reveal_with_fuel(newlines_upto, 15);
        }
    } else if i == 11 {
        assert(counter_names()[11]@ == "marketplace_installs_total"@);
        assert(newlines("marketplace_installs_total"@) == 0) by {
            reveal_strlit("marketplace_installs_total");
            reveal_with_fuel(newlines_upto, 27);
        }
    } else if i == 12 {
        assert(counter_names()[12]@ == "ws_connections_total"@);
        assert(newlines("ws_connections_total"@) == 0) by {
            reveal_strlit("ws_connections_total");
            reveal_with_fuel(newlines_upto, 21);
        }
    } else if i == 13 {
        assert(counter_names()[13]@ == "memory_cleared_total"@);
        assert(newlines("memory_cleared_total"@) == 0) by {
            reveal_strlit("memory_cleared_total");
            reveal_with_fuel(newlines_upto, 21);
        }
    }
}

proof fn lemma_counters_text_newlines(counts: Seq<u64>, n: int)
    requires
        0 <= n <= counter_names().len(),
    ensures
        newlines(counters_text(counts, n)) == 2 * n,
    decreases n,
{
    if n > 0 {
        lemma_counters_text_newlines(counts, n - 1);
        let name = counter_names()[n - 1]@;
        lemma_name_newlines(n - 1);
        lemma_literal_newlines();
        lemma_dec_nat_newlines(counts[n - 1] as nat);
        let l1 = "# TYPE anubis_"@ + name;
        let l2 = l1 + " counter\n"@;
        let l3 = l2 + "anubis_"@;
        let l4 = l3 + name;
        let l5 = l4 + " "@;
        let l6 = l5 + dec_nat(counts[n - 1] as nat);
        lemma_newlines_add("# TYPE anubis_"@, name);
        lemma_newlines_add(l1, " counter\n"@);
        lemma_newlines_add(l2, "anubis_"@);
        lemma_newlines_add(l3, name);
        lemma_newlines_add(l4, " "@);
        lemma_newlines_add(l5, dec_nat(counts[n - 1] as nat));
        lemma_newlines_add(l6, "\n"@);
        lemma_newlines_add(counters_text(counts, n - 1), counter_lines(name, counts[n - 1]));
    }
}

/// Line-count law: the exposition has exactly 33 lines, one per newline
/// and ending with one: five for uptime and the last synthesis duration,
/// then two (type and sample) for each of the fourteen counters.
pub proof fn lemma_exposition_lines(uptime_secs: u64, last_synth_ms: i64, counts: Seq<u64>)
    ensures
        newlines(exposition(uptime_secs, last_synth_ms, counts)) == 33,
        exposition(uptime_secs, last_synth_ms, counts).last() == '\n',
{
    lemma_literal_newlines();
    lemma_dec_nat_newlines(uptime_secs as nat);
    lemma_dec_int_newlines(last_synth_ms as int);
    lemma_counters_text_newlines(counts, 14);
    let h1 = "# HELP anubis_uptime_seconds Process uptime since start.\n"@;
    let p1 = h1 + "# TYPE anubis_uptime_seconds counter\n"@;
    let p2 = p1 + "anubis_uptime_seconds "@;
    let p3 = p2 + dec_nat(uptime_secs as nat);
    let p4 = p3 + "\n"@;
    let p5 = p4 + "# HELP anubis_last_synth_ms Last synthesis duration in milliseconds.\n"@;
    let p6 = p5 + "anubis_last_synth_ms "@;
    let p7 = p6 + dec_int(last_synth_ms as int);
    let p8 = p7 + "\n"@;
    lemma_newlines_add(h1, "# TYPE anubis_uptime_seconds counter\n"@);
    lemma_newlines_add(p1, "anubis_uptime_seconds "@);
    lemma_newlines_add(p2, dec_nat(uptime_secs as nat));
    lemma_newlines_add(p3, "\n"@);
    lemma_newlines_add(p4, "# HELP anubis_last_synth_ms Last synthesis duration in milliseconds.\n"@);
    lemma_newlines_add(p5, "anubis_last_synth_ms "@);
    lemma_newlines_add(p6, dec_int(last_synth_ms as int));
    lemma_newlines_add(p7, "\n"@);
    lemma_newlines_add(p8, counters_text(counts, 14));
    reveal_strlit("\n");
    let c = counters_text(counts, 14);
    let last = counter_lines(counter_names()[13]@, counts[13]);
    assert(c == counters_text(counts, 13) + last);
    assert(last.last() == '\n');
    assert((p8 + c).last() == c.last());
}

} // verus!
