//! The people of the hello plugin: who is spawned at start-up, how names are
//! updated each frame, and what is printed when the greet timer fires.

use vstd::arithmetic::div_mod::{lemma_fundamental_div_mod, lemma_hoist_over_denominator};
use vstd::prelude::*;

verus! {

/// The state of a repeating timer, in nanoseconds.
pub struct TimerState {
    /// Time run since the timer last finished.
    pub elapsed_nanos: nat,
    /// Length of one period.
    pub duration_nanos: nat,
}

/// A well-formed repeating timer: a period of positive length, and less
/// than one period run.
pub open spec fn timer_valid(s: TimerState) -> bool {
    0 < s.duration_nanos && s.elapsed_nanos < s.duration_nanos
}

/// The timer after it has run `delta` more nanoseconds: a repeating timer
/// keeps only the time run since its last period ended.
pub open spec fn ticked(s: TimerState, delta: nat) -> TimerState {
    TimerState {
        elapsed_nanos: (s.elapsed_nanos + delta) % s.duration_nanos,
        duration_nanos: s.duration_nanos,
    }
}

/// Whether running `delta` more nanoseconds makes the timer finish: the
/// number of periods completed, counted in a `u32` that wraps, is not zero.
pub open spec fn tick_fires(s: TimerState, delta: nat) -> bool {
    s.elapsed_nanos + delta >= s.duration_nanos && ((s.elapsed_nanos + delta) / s.duration_nanos)
        % 0x1_0000_0000 != 0
}

/// Runs bevy's repeating `Timer` of period `duration_nanos`, with
/// `elapsed_nanos` run, through `Timer::tick` by `delta_nanos`, and returns
/// the time run afterwards (`Timer::elapsed`) and `Timer::just_finished`.
/// As bevy's source shows, the time run wraps around the period, and the
/// timer has just finished when the number of completed periods, cast to a
/// `u32`, is not zero.
#[verifier::external_body]
fn tick_repeating(elapsed_nanos: u64, duration_nanos: u64, delta_nanos: u64) -> (res: (u64, bool))
    requires
        0 < duration_nanos,
        elapsed_nanos < duration_nanos,
    ensures
        res.0 == (elapsed_nanos + delta_nanos) % (duration_nanos as int),
        res.1 == (elapsed_nanos + delta_nanos >= duration_nanos && ((elapsed_nanos + delta_nanos)
            / (duration_nanos as int)) % 0x1_0000_0000 != 0),
{
    let mut timer = bevy::time::Timer::new(
        core::time::Duration::from_nanos(duration_nanos),
        bevy::time::TimerMode::Repeating,
    );
    timer.set_elapsed(core::time::Duration::from_nanos(elapsed_nanos));
    timer.tick(core::time::Duration::from_nanos(delta_nanos));
    (timer.elapsed().as_nanos() as u64, timer.just_finished())
}

/// The repeating timer that paces the greetings.
pub struct GreetTimer {
    elapsed_nanos: u64,
    duration_nanos: u64,
}

impl View for GreetTimer {
    type V = TimerState;

    closed spec fn view(&self) -> TimerState {
        TimerState {
            elapsed_nanos: self.elapsed_nanos as nat,
            duration_nanos: self.duration_nanos as nat,
        }
    }
}

impl GreetTimer {
    #[verifier::type_invariant]
    spec fn well_formed(self) -> bool {
        0 < self.duration_nanos && self.elapsed_nanos < self.duration_nanos
    }

    /// Time run since the timer last finished, in nanoseconds.
    pub fn elapsed_nanos(&self) -> (r: u64)
        ensures
            r == self@.elapsed_nanos,
            timer_valid(self@),
    {
        proof {
            use_type_invariant(self);
        }
        self.elapsed_nanos
    }

    /// Length of one period, in nanoseconds.
    pub fn duration_nanos(&self) -> (r: u64)
        ensures
            r == self@.duration_nanos,
            timer_valid(self@),
    {
        proof {
            use_type_invariant(self);
        }
        self.duration_nanos
    }
}

/// `'a'..='z'` shifted to `'A'..='Z'`; any other character is kept.
pub open spec fn ascii_upper_char(c: char) -> char {
    if 97 <= (c as u32) && (c as u32) <= 122 {
        ((c as u32) - 32) as char
    } else {
        c
    }
}

/// Every character of `s` passed through [`ascii_upper_char`].
pub open spec fn ascii_upper(s: Seq<char>) -> Seq<char> {
    s.map_values(|c: char| ascii_upper_char(c))
}

/// Whether every character of `s` is ASCII.
pub open spec fn all_ascii(s: Seq<char>) -> bool {
    forall|i: int| 0 <= i < s.len() ==> (#[trigger] s[i] as u32) < 128
}

/// What `str::to_uppercase` returns for the characters `s`.
pub uninterp spec fn uppercase_of(s: Seq<char>) -> Seq<char>;

/// Calls `str::to_uppercase`.  Its result is named [`uppercase_of`] of the
/// argument; for ASCII input the Unicode uppercase mapping is the ASCII one,
/// which the second clause states.
#[verifier::external_body]
fn to_uppercase(s: &str) -> (res: String)
    ensures
        res@ == uppercase_of(s@),
        all_ascii(s@) ==> res@ == ascii_upper(s@),
{
    s.to_uppercase()
}

/// The name that the update system gives a person now called `name`:
/// "Alpha" becomes its uppercase form, every other name stays.
pub open spec fn updated_name(name: Seq<char>) -> Seq<char> {
    if name == "Alpha"@ {
        "ALPHA"@
    } else {
        name
    }
}

/// The names after one run of the update system.
pub open spec fn updated_names(names: Seq<Seq<char>>) -> Seq<Seq<char>> {
    names.map_values(|n: Seq<char>| updated_name(n))
}

/// The line printed to greet a person called `name`.
pub open spec fn greeting(name: Seq<char>) -> Seq<char> {
    "hello "@ + name + "!"@
}

/// The lines printed by one run of the greet system.
pub open spec fn greetings(timer_finished: bool, names: Seq<Seq<char>>) -> Seq<Seq<char>> {
    if timer_finished {
        names.map_values(|n: Seq<char>| greeting(n))
    } else {
        Seq::empty()
    }
}

/// The views of a list of strings.
pub open spec fn names_view(names: Seq<String>) -> Seq<Seq<char>> {
    names.map_values(|n: String| n@)
}

/// The names of the people spawned at start-up, in spawn order.
pub fn add_people() -> (names: Vec<String>)
    ensures
        names_view(names@) == seq!["Alpha"@, "Beta"@, "Gamma"@],
{
    let mut names: Vec<String> = Vec::new();
    names.push(String::from_str("Alpha"));
    names.push(String::from_str("Beta"));
    names.push(String::from_str("Gamma"));
    assert(names_view(names@) =~= seq!["Alpha"@, "Beta"@, "Gamma"@]);
    names
}

/// Runs the update system over the names of all people: every "Alpha" is
/// replaced by `"Alpha".to_uppercase()`, that is "ALPHA".
pub fn update_people(names: &mut Vec<String>)
    ensures
        names_view(final(names)@) == updated_names(names_view(old(names)@)),
{
    let ghost start = names_view(names@);
    let n = names.len();
    let mut i: usize = 0;
    while i < n
        invariant
            n == names.len(),
            i <= n,
            start.len() == n,
            forall|j: int| 0 <= j < i ==> #[trigger] names@[j]@ == updated_name(start[j]),
            forall|j: int| i <= j < n ==> #[trigger] names@[j]@ == start[j],
        decreases n - i,
    {
        let alpha = String::from_str("Alpha");
        if names[i] == alpha {
            let upper = to_uppercase(names[i].as_str());
            proof {
                reveal_strlit("Alpha");
                reveal_strlit("ALPHA");
                assert(all_ascii("Alpha"@));
                assert(ascii_upper("Alpha"@) =~= "ALPHA"@);
            }
            names.set(i, upper);
        }
        i = i + 1;
    }
    assert(names_view(names@) =~= updated_names(start));
}

/// The lines of the greet system: when the greet timer has just finished,
/// one "hello {name}!" line per person, in query order; otherwise none.
pub fn greeting_lines(timer_finished: bool, names: &Vec<String>) -> (lines: Vec<String>)
    ensures
        names_view(lines@) == greetings(timer_finished, names_view(names@)),
{
    let mut lines: Vec<String> = Vec::new();
    if !timer_finished {
        assert(names_view(lines@) =~= greetings(timer_finished, names_view(names@)));
        return lines;
    }
    let n = names.len();
    let mut i: usize = 0;
    while i < n
        invariant
            n == names.len(),
            i <= n,
            lines.len() == i,
            forall|j: int| 0 <= j < i ==> #[trigger] lines@[j]@ == greeting(names@[j]@),
        decreases n - i,
    {
        let mut line = String::from_str("hello ");
        line.append(names[i].as_str());
        line.append("!");
        lines.push(line);
        i = i + 1;
    }
    assert(names_view(lines@) =~= greetings(timer_finished, names_view(names@)));
    lines
}

/// Runs the greet system for one frame: the greet timer runs `delta_nanos`
/// more, and when that makes it finish every person is greeted, in order;
/// otherwise nobody is.
pub fn greet_people(timer: &mut GreetTimer, delta_nanos: u64, names: &Vec<String>) -> (lines: Vec<
    String,
>)
    ensures
        final(timer)@ == ticked(old(timer)@, delta_nanos as nat),
        timer_valid(final(timer)@),
        names_view(lines@) == greetings(
            tick_fires(old(timer)@, delta_nanos as nat),
            names_view(names@),
        ),
{
    proof {
        use_type_invariant(&*timer);
    }
    let (elapsed_nanos, finished) = tick_repeating(timer.elapsed_nanos, timer.duration_nanos, delta_nanos);
    *timer = GreetTimer { elapsed_nanos, duration_nanos: timer.duration_nanos };
    greeting_lines(finished, names)
}

/// Total of a run of frame times.
pub open spec fn total_nanos(deltas: Seq<u64>) -> nat
    decreases deltas.len(),
{
    if deltas.len() == 0 {
        0
    } else {
        total_nanos(deltas.drop_last()) + deltas.last() as nat
    }
}

/// The timer after running each frame time of `deltas` in turn.
pub open spec fn timer_after(s: TimerState, deltas: Seq<u64>) -> TimerState
    decreases deltas.len(),
{
    if deltas.len() == 0 {
        s
    } else {
        ticked(timer_after(s, deltas.drop_last()), deltas.last() as nat)
    }
}

/// The timer keeps the period, and its elapsed time is the total time run,
/// counted from the start of its current period, modulo the period.
pub proof fn lemma_timer_tracks_total(s: TimerState, deltas: Seq<u64>)
    requires
        timer_valid(s),
    ensures
        timer_after(s, deltas).duration_nanos == s.duration_nanos,
        timer_after(s, deltas).elapsed_nanos == (s.elapsed_nanos + total_nanos(deltas))
            % s.duration_nanos,
        timer_valid(timer_after(s, deltas)),
    decreases deltas.len(),
{
    let d = s.duration_nanos as int;
    if deltas.len() == 0 {
        let e = s.elapsed_nanos as int;
        assert(e % d == e) by (nonlinear_arith)
            requires
                0 <= e < d,
        ;
    } else {
        let rest = deltas.drop_last();
        lemma_timer_tracks_total(s, rest);
        let t = (s.elapsed_nanos + total_nanos(rest)) as int;
        let delta = deltas.last() as int;
        lemma_mod_step(t, d, delta);
        assert(((t + delta) % d) < d && (t + delta) % d >= 0) by (nonlinear_arith)
            requires
                d > 0,
        ;
    }
}

/// Adding `delta` to a total: the remainder of the sum is that of the old
/// remainder plus `delta`, and the quotient grows exactly when the old
/// remainder plus `delta` reaches the divisor.
pub proof fn lemma_mod_step(t: int, d: int, delta: int)
    requires
        0 <= t,
        0 < d,
        0 <= delta,
    ensures
        (t % d + delta) % d == (t + delta) % d,
        (t % d + delta >= d) == ((t + delta) / d > t / d),
        (t + delta) / d == t / d + (t % d + delta) / d,
{
    let q = t / d;
    let r = t % d;
    lemma_fundamental_div_mod(t, d);
    assert(0 <= r < d) by (nonlinear_arith)
        requires
            d > 0,
            r == t % d,
    ;
    lemma_hoist_over_denominator(r + delta, q, d as nat);
    assert(t + delta == (r + delta) + q * d) by (nonlinear_arith)
        requires
            t == d * q + r,
    ;
    let x = r + delta;
    lemma_fundamental_div_mod(x, d);
    lemma_fundamental_div_mod(t + delta, d);
    vstd::arithmetic::div_mod::lemma_mod_multiples_vanish(q, x, d);
    assert(d * q + x == x + q * d) by (nonlinear_arith);
    assert((x >= d) == (x / d >= 1)) by (nonlinear_arith)
        requires
            d > 0,
            x >= 0,
            x == d * (x / d) + x % d,
            0 <= x % d < d,
    ;
}

/// Over any run of frames, the greetings are printed in frame `k` exactly
/// when the total time run crosses a multiple of the period in that frame,
/// and the timer's elapsed time is the total time modulo the period.  The
/// one condition is that the time left over from earlier frames plus frame
/// `k` is under 2^32 periods: beyond that bevy's count of finished periods
/// wraps.
pub proof fn lemma_greets_when_period_crossed(s: TimerState, deltas: Seq<u64>, k: int)
    requires
        timer_valid(s),
        0 <= k < deltas.len(),
        (s.elapsed_nanos + total_nanos(deltas.take(k))) % s.duration_nanos + deltas[k]
            < 0x1_0000_0000 * s.duration_nanos,
    ensures
        timer_after(s, deltas.take(k)).elapsed_nanos == (s.elapsed_nanos + total_nanos(
            deltas.take(k),
        )) % s.duration_nanos,
        tick_fires(timer_after(s, deltas.take(k)), deltas[k] as nat) == ((s.elapsed_nanos
            + total_nanos(deltas.take(k + 1))) / s.duration_nanos > (s.elapsed_nanos
            + total_nanos(deltas.take(k))) / s.duration_nanos),
        timer_after(s, deltas.take(k + 1)) == ticked(
            timer_after(s, deltas.take(k)),
            deltas[k] as nat,
        ),
{
    let d = s.duration_nanos as int;
    let prefix = deltas.take(k);
    assert(deltas.take(k + 1).drop_last() =~= prefix);
    assert(deltas.take(k + 1).last() == deltas[k]);
    lemma_timer_tracks_total(s, prefix);
    let t = (s.elapsed_nanos + total_nanos(prefix)) as int;
    let delta = deltas[k] as int;
    lemma_mod_step(t, d, delta);
    let r = t % d;
    assert(0 <= r < d) by (nonlinear_arith)
        requires
            d > 0,
            r == t % d,
    ;
    let x = r + delta;
    assert(x / d < 0x1_0000_0000 && x / d >= 0) by (nonlinear_arith)
        requires
            d > 0,
            0 <= x < 0x1_0000_0000 * d,
    ;
    assert((x / d) % 0x1_0000_0000 == x / d) by (nonlinear_arith)
        requires
            0 <= x / d < 0x1_0000_0000,
    ;
    assert((x >= d) == (x / d >= 1)) by (nonlinear_arith)
        requires
            d > 0,
            x >= 0,
    ;
}

/// Updating names twice changes nothing beyond the first update: an
/// uppercased "ALPHA" is never uppercased again.
pub proof fn lemma_update_idempotent(names: Seq<Seq<char>>)
    ensures
        updated_names(updated_names(names)) == updated_names(names),
{
    reveal_strlit("Alpha");
    reveal_strlit("ALPHA");
    assert("ALPHA"@[1] != "Alpha"@[1]);
    assert(updated_names(updated_names(names)) =~= updated_names(names));
}

/// Length of a greeting period: two seconds, in nanoseconds.
pub const GREET_PERIOD_NANOS: u64 = 2_000_000_000;

/// The plugin that spawns the people, updates their names every frame and
/// greets them every two seconds.
#[derive(Clone, Copy, Debug)]
pub struct HelloPlugin;

impl HelloPlugin {
    /// The greet timer the plugin installs: a repeating two-second timer
    /// that has not run yet.
    pub fn greet_timer(&self) -> (timer: GreetTimer)
        ensures
            timer@ == (TimerState { elapsed_nanos: 0, duration_nanos: GREET_PERIOD_NANOS as nat }),
    {
        GreetTimer { elapsed_nanos: 0, duration_nanos: GREET_PERIOD_NANOS }
    }
}

/// The names after `k` runs of the update system.
pub open spec fn names_after_updates(names: Seq<Seq<char>>, k: nat) -> Seq<Seq<char>>
    decreases k,
{
    if k == 0 {
        names
    } else {
        updated_names(names_after_updates(names, (k - 1) as nat))
    }
}

/// After one or more runs of the update system the names no longer change.
pub proof fn lemma_updates_settle(names: Seq<Seq<char>>, k: nat)
    requires
        k >= 1,
    ensures
        names_after_updates(names, k) == updated_names(names),
    decreases k,
{
    assert(names_after_updates(names, 0) == names);
    if k > 1 {
        lemma_updates_settle(names, (k - 1) as nat);
        lemma_update_idempotent(names);
    }
}

/// The state of the greet timer the plugin installs.
pub open spec fn greet_timer_start() -> TimerState {
    TimerState { elapsed_nanos: 0, duration_nanos: GREET_PERIOD_NANOS as nat }
}

/// Over any run of frames of the plugin (the people spawned at start-up;
/// each frame updates the names, then greets), frame `k` prints
/// "hello ALPHA!", "hello Beta!", "hello Gamma!" when the total time run
/// crosses a multiple of two seconds in that frame, and nothing otherwise;
/// so "hello Alpha!" is never printed.  The one condition is that the time
/// left over from earlier frames plus frame `k` is under 2^32 periods.
pub proof fn lemma_hello_plugin_run(deltas: Seq<u64>, k: int)
    requires
        0 <= k < deltas.len(),
        total_nanos(deltas.take(k)) % (GREET_PERIOD_NANOS as nat) + deltas[k] < 0x1_0000_0000
            * GREET_PERIOD_NANOS,
    ensures
        greetings(
            tick_fires(timer_after(greet_timer_start(), deltas.take(k)), deltas[k] as nat),
            names_after_updates(seq!["Alpha"@, "Beta"@, "Gamma"@], (k + 1) as nat),
        ) == (if total_nanos(deltas.take(k + 1)) / (GREET_PERIOD_NANOS as nat) > total_nanos(
            deltas.take(k),
        ) / (GREET_PERIOD_NANOS as nat) {
            seq!["hello ALPHA!"@, "hello Beta!"@, "hello Gamma!"@]
        } else {
            Seq::<Seq<char>>::empty()
        }),
{
    let start = greet_timer_start();
    lemma_greets_when_period_crossed(start, deltas, k);
    let names = seq!["Alpha"@, "Beta"@, "Gamma"@];
    lemma_updates_settle(names, (k + 1) as nat);
    reveal_strlit("Alpha");
    reveal_strlit("ALPHA");
    reveal_strlit("Beta");
    reveal_strlit("Gamma");
    reveal_strlit("hello ");
    reveal_strlit("!");
    reveal_strlit("hello ALPHA!");
    reveal_strlit("hello Beta!");
    reveal_strlit("hello Gamma!");
    assert("Beta"@[0] != "Alpha"@[0]);
    assert("Gamma"@[0] != "Alpha"@[0]);
    assert(updated_names(names) =~= seq!["ALPHA"@, "Beta"@, "Gamma"@]);
    assert(greeting("ALPHA"@) =~= "hello ALPHA!"@);
    assert(greeting("Beta"@) =~= "hello Beta!"@);
    assert(greeting("Gamma"@) =~= "hello Gamma!"@);
    assert(greetings(true, updated_names(names)) =~= seq![
        "hello ALPHA!"@,
        "hello Beta!"@,
        "hello Gamma!"@,
    ]);
    assert(greetings(false, updated_names(names)) =~= Seq::<Seq<char>>::empty());
}

/// When the timer has finished there is one line per person, in order,
/// and line `i` reads "hello " then the `i`-th name then "!"; greeting one
/// more person adds that person's line at the end.  When it has not
/// finished there are no lines.
pub proof fn lemma_greetings_one_per_name(names: Seq<Seq<char>>, name: Seq<char>)
    ensures
        greetings(true, names).len() == names.len(),
        forall|i: int|
            0 <= i < names.len() ==> #[trigger] greetings(true, names)[i] == "hello "@ + names[i]
                + "!"@,
        greetings(true, names.push(name)) == greetings(true, names).push("hello "@ + name + "!"@),
        greetings(false, names).len() == 0,
{
    assert(greetings(true, names.push(name)) =~= greetings(true, names).push(
        "hello "@ + name + "!"@,
    ));
}

/// The update system treats every person alike, wherever they stand: the
/// same number of names comes out, each "Alpha" becomes "ALPHA", every
/// other name is kept, and updating two groups one after the other gives
/// the update of the whole.
pub proof fn lemma_update_each_name(names: Seq<Seq<char>>, more: Seq<Seq<char>>)
    ensures
        updated_names(names).len() == names.len(),
        forall|i: int|
            0 <= i < names.len() ==> #[trigger] updated_names(names)[i] == (if names[i]
                == "Alpha"@ {
                "ALPHA"@
            } else {
                names[i]
            }),
        updated_names(names + more) == updated_names(names) + updated_names(more),
        updated_names(seq!["Alpha"@]) == seq!["ALPHA"@],
{
    assert(updated_names(names + more) =~= updated_names(names) + updated_names(more));
    assert(updated_names(seq!["Alpha"@]) =~= seq!["ALPHA"@]);
}

} // verus!
