//! Supervision of long-running tasks.
//!
//! Whenever a task fails or panics the crash is reported and the task is
//! started again after a backoff: 100 ms doubled per consecutive failure,
//! capped at 30 s, and reset to 100 ms once a task has stayed alive for 30
//! seconds. Spawning a name twice supersedes the previous generation.
use super::bus;
use super::bus::Event;
use crate::ordered::TextMap;
use crate::text;
use vstd::arithmetic::power2::pow2;
use vstd::prelude::*;

verus! {

/// First retry delay after a crash, in milliseconds.
pub const BASE_BACKOFF: u64 = 100;

/// Upper bound for retry delays, in milliseconds.
pub const MAX_BACKOFF: u64 = 30000;

/// Continuous healthy runtime that resets the backoff sequence, in
/// milliseconds.
pub const HEALTHY_WINDOW: u64 = 30000;

/// The retry delay for the n-th consecutive failure, in milliseconds.
pub open spec fn backoff(failures: nat) -> int {
    let doublings = if failures == 0 {
        0nat
    } else {
        (failures - 1) as nat
    };
    let delay = BASE_BACKOFF * pow2(doublings);
    if delay > MAX_BACKOFF {
        MAX_BACKOFF as int
    } else {
        delay
    }
}

/// Computes the retry delay for the n-th consecutive failure, in
/// milliseconds.
pub fn backoff_delay(consecutive_failures: u32) -> (r: u64)
    ensures
        r == backoff(consecutive_failures as nat),
{
    let mut delay: u64 = BASE_BACKOFF;
    let mut n: u32 = 1;
    proof {
        vstd::arithmetic::power2::lemma2_to64();
    }
    while n < consecutive_failures
        invariant
            1 <= n,
            n <= consecutive_failures || n == 1,
            delay == BASE_BACKOFF * pow2((n - 1) as nat),
            delay <= MAX_BACKOFF,
        decreases consecutive_failures - n,
    {
        proof {
            vstd::arithmetic::power2::lemma_pow2_unfold(n as nat);
        }
        delay = delay * 2;
        if delay > MAX_BACKOFF {
            proof {
                if n < consecutive_failures - 1 {
                    vstd::arithmetic::power2::lemma_pow2_strictly_increases(
                        n as nat,
                        (consecutive_failures - 1) as nat,
                    );
                }
            }
            return MAX_BACKOFF;
        }
        n += 1;
    }
    delay
}

/// Later failures never wait shorter, and no failure waits longer than the
/// cap.
pub proof fn law_backoff_grows_to_the_cap(a: nat, b: nat)
    requires
        a <= b,
    ensures
        BASE_BACKOFF <= backoff(a) <= backoff(b) <= MAX_BACKOFF,
        backoff(1) == BASE_BACKOFF,
        backoff(b + 1) == MAX_BACKOFF || b == 0 || backoff(b + 1) == 2 * backoff(b),
{
    vstd::arithmetic::power2::lemma2_to64();
    let da = if a == 0 {
        0nat
    } else {
        (a - 1) as nat
    };
    let db = if b == 0 {
        0nat
    } else {
        (b - 1) as nat
    };
    vstd::arithmetic::power2::lemma_pow2_pos(da);
    if da < db {
        vstd::arithmetic::power2::lemma_pow2_strictly_increases(da, db);
    }
    vstd::arithmetic::power2::lemma_pow2_unfold(b + 1);
    if b > 0 {
        vstd::arithmetic::power2::lemma_pow2_unfold(b);
    }
}

/// The digits of a fraction of a second without trailing zeros; `width`
/// digits stand for `n`.
pub open spec fn fraction_text(n: nat, width: nat) -> Seq<char>
    decreases width,
{
    if width == 0 || n == 0 {
        Seq::empty()
    } else if n % 10 == 0 {
        fraction_text(n / 10, (width - 1) as nat)
    } else {
        padded(n, width)
    }
}

/// `n` in decimal with leading zeros, `width` digits in all.
pub open spec fn padded(n: nat, width: nat) -> Seq<char>
    decreases width,
{
    if width == 0 {
        Seq::empty()
    } else {
        padded(n / 10, (width - 1) as nat).push(text::digit(n as int % 10))
    }
}

/// A delay in the form `250ms`, `1.6s` or `30s`.
pub open spec fn delay_text_of(millis: u64) -> Seq<char> {
    if millis < 1000 {
        text::decimal(millis as nat) + "ms"@
    } else if millis % 1000 == 0 {
        text::decimal((millis / 1000) as nat) + "s"@
    } else {
        text::decimal((millis / 1000) as nat) + "."@ + fraction_text((millis % 1000) as nat, 3)
            + "s"@
    }
}

fn padded_text(n: u64, width: u8) -> (r: String)
    ensures
        r@ == padded(n as nat, width as nat),
    decreases width,
{
    if width == 0 {
        return String::new();
    }
    let mut out = padded_text(n / 10, width - 1);
    out.push(text::digit_char((n % 10) as u8));
    out
}

/// Renders a delay.
pub fn delay_text(millis: u64) -> (r: String)
    ensures
        r@ == delay_text_of(millis),
{
    if millis < 1000 {
        return text::decimal_text(millis as u128).concat("ms");
    }
    let whole = text::decimal_text((millis / 1000) as u128);
    let mut fraction: u64 = millis % 1000;
    if fraction == 0 {
        return whole.concat("s");
    }
    let mut width: u8 = 3;
    while fraction % 10 == 0
        invariant
            0 < fraction,
            width <= 3,
            fraction < 1000,
            width == 3 || (width == 2 && fraction < 100) || (width == 1 && fraction < 10),
            fraction_text((millis % 1000) as nat, 3) == fraction_text(
                fraction as nat,
                width as nat,
            ),
        decreases fraction,
    {
        fraction = fraction / 10;
        width -= 1;
    }
    whole.concat(".").concat(padded_text(fraction, width).as_str()).concat("s")
}

/// How a task ended.
#[derive(Debug, Clone, PartialEq, Eq)]
pub enum Ending {
    /// It finished its work.
    Finished,
    /// It was aborted from outside.
    Cancelled,
    /// It returned an error.
    Failed(String),
    /// It panicked.
    Panicked(String),
}

/// What is done about a task that ended.
#[derive(Debug)]
pub struct Verdict {
    /// Events to publish, in order.
    pub events: Vec<Event>,
    /// If the task is to be started again: after how many milliseconds, and
    /// how many consecutive failures it has behind it.
    pub retry: Option<(u64, u32)>,
}

/// What a crash is described as; a task that finished or was cancelled did
/// not crash.
pub open spec fn crash_detail(ending: Ending) -> Option<Seq<char>> {
    match ending {
        Ending::Finished | Ending::Cancelled => None,
        Ending::Failed(m) => Some("failed: "@ + m@),
        Ending::Panicked(m) => Some("panicked: "@ + m@),
    }
}

/// The record of a crash.
pub open spec fn crash_record(name: Seq<char>, detail: Seq<char>) -> Event<Seq<char>> {
    Event::LogRecord {
        level: "error"@,
        msg: "supervisor: task '"@ + name + "' "@ + detail,
    }
}

/// The record of a restart.
pub open spec fn restart_record(name: Seq<char>, count: u64, delay: u64) -> Event<Seq<char>> {
    Event::LogRecord {
        level: "warn"@,
        msg: "supervisor: restarting '"@ + name + "' (restart #"@ + text::decimal(count as nat)
            + ", retry in "@ + delay_text_of(delay) + ")"@,
    }
}

/// The consecutive failures after a crash of a task that ran for `ran`
/// milliseconds: a healthy run starts the count over, and its own crash is
/// then the first.
pub open spec fn failures_after(failures: u32, ran: u64) -> u32 {
    if ran >= HEALTHY_WINDOW {
        1
    } else if failures == u32::MAX {
        failures
    } else {
        (failures + 1) as u32
    }
}

/// A task that stayed alive for the healthy window waits as after its first
/// failure, and twice as long when it fails again at once.
pub proof fn law_healthy_runs_start_over(failures: u32, ran: u64, again: u64)
    requires
        ran >= HEALTHY_WINDOW,
        again < HEALTHY_WINDOW,
    ensures
        backoff(failures_after(failures, ran) as nat) == BASE_BACKOFF,
        backoff(failures_after(failures_after(failures, ran), again) as nat) == 2 * BASE_BACKOFF,
{
    vstd::arithmetic::power2::lemma2_to64();
}

/// What is done about a task that ended: the records to publish, and after how
/// many milliseconds it is started again, if it is, with how many consecutive
/// failures behind it.
pub open spec fn verdict_of(
    shut: bool,
    restarts: u64,
    name: Seq<char>,
    failures: u32,
    ending: Ending,
    ran: u64,
) -> (Seq<Event<Seq<char>>>, Option<(u64, u32)>) {
    match crash_detail(ending) {
        None => (Seq::empty(), None),
        Some(detail) => if shut {
            (seq![crash_record(name, detail)], None)
        } else {
            let next = failures_after(failures, ran);
            let delay = backoff(next as nat) as u64;
            (
                seq![
                    crash_record(name, detail),
                    restart_record(name, (restarts + 1) as u64, delay),
                ],
                Some((delay, next)),
            )
        },
    }
}

/// Only a crash is reported and leads to a restart, and after a shutdown
/// nothing is started again. A restart waits at least the shortest and at most
/// the longest time, longer after each failure in a row.
pub proof fn law_only_crashes_are_restarted(
    shut: bool,
    restarts: u64,
    name: Seq<char>,
    failures: u32,
    ending: Ending,
    ran: u64,
)
    ensures
        ({
            let (records, retry) = verdict_of(shut, restarts, name, failures, ending, ran);
            let crashed = ending is Failed || ending is Panicked;
            &&& retry is Some <==> crashed && !shut
            &&& records.len() == if !crashed {
                0nat
            } else if shut {
                1
            } else {
                2
            }
            &&& retry matches Some((delay, next)) ==> {
                &&& BASE_BACKOFF <= delay <= MAX_BACKOFF
                &&& next >= 1
                &&& ran >= HEALTHY_WINDOW ==> next == 1 && delay == BASE_BACKOFF
                &&& ran < HEALTHY_WINDOW && failures < u32::MAX ==> next == failures + 1
                &&& ran < HEALTHY_WINDOW ==> delay >= backoff(failures as nat)
            }
        }),
{
    let next = failures_after(failures, ran);
    law_backoff_grows_to_the_cap(1, next as nat);
    law_backoff_grows_to_the_cap(1, 1);
    if ran < HEALTHY_WINDOW {
        law_backoff_grows_to_the_cap(failures as nat, next as nat);
    }
}

/// A crash is recorded as an error that ends with what the task said; the
/// record of a restart is a warning.
pub proof fn law_crashes_are_recorded_with_their_reason(
    shut: bool,
    restarts: u64,
    name: Seq<char>,
    failures: u32,
    reason: String,
    ran: u64,
)
    ensures
        ({
            let failed = verdict_of(shut, restarts, name, failures, Ending::Failed(reason), ran).0;
            let panicked = verdict_of(
                shut,
                restarts,
                name,
                failures,
                Ending::Panicked(reason),
                ran,
            ).0;
            &&& failed[0] is LogRecord && failed[0]->level == "error"@
            &&& panicked[0] is LogRecord && panicked[0]->level == "error"@
            &&& failed[0]->msg == "supervisor: task '"@ + name + "' failed: "@ + reason@
            &&& panicked[0]->msg == "supervisor: task '"@ + name + "' panicked: "@ + reason@
            &&& !shut ==> failed[1] is LogRecord && failed[1]->level == "warn"@
            &&& !shut && restarts < u64::MAX ==> failed[1]->msg == "supervisor: restarting '"@
                + name + "' (restart #"@ + text::decimal((restarts + 1) as nat) + ", retry in "@
                + delay_text_of(backoff(failures_after(failures, ran) as nat) as u64) + ")"@
        }),
{
    reveal_strlit("' ");
    reveal_strlit("failed: ");
    reveal_strlit("panicked: ");
    reveal_strlit("' failed: ");
    reveal_strlit("' panicked: ");
    let front = "supervisor: task '"@ + name;
    assert("' "@ + "failed: "@ =~= "' failed: "@);
    assert("' "@ + "panicked: "@ =~= "' panicked: "@);
    assert(front + "' "@ + ("failed: "@ + reason@) =~= front + ("' "@ + "failed: "@) + reason@);
    assert(front + "' "@ + ("panicked: "@ + reason@) =~= front + ("' "@ + "panicked: "@) + reason@);
}

/// A delay is told in milliseconds below a second, in seconds from there on,
/// with the tenths, hundredths and thousandths that are needed.
pub proof fn law_delays_are_told_to_the_millisecond(millis: u64)
    ensures
        ({
            let whole = text::decimal((millis / 1000) as nat);
            let a = text::digit((millis / 100) as int % 10);
            let b = text::digit((millis / 10) as int % 10);
            let c = text::digit(millis as int % 10);
            &&& millis < 1000 ==> delay_text_of(millis) == text::decimal(millis as nat) + "ms"@
            &&& millis >= 1000 && millis % 1000 == 0 ==> delay_text_of(millis) == whole + "s"@
            &&& millis >= 1000 && millis % 1000 != 0 && millis % 100 == 0 ==> delay_text_of(millis)
                == whole + "."@ + seq![a] + "s"@
            &&& millis >= 1000 && millis % 100 != 0 && millis % 10 == 0 ==> delay_text_of(millis)
                == whole + "."@ + seq![a, b] + "s"@
            &&& millis >= 1000 && millis % 10 != 0 ==> delay_text_of(millis) == whole + "."@ + seq![
                a,
                b,
                c,
            ] + "s"@
        }),
{
    let a: int = (millis / 100) as int % 10;
    let b: int = (millis / 10) as int % 10;
    let c: int = millis as int % 10;
    let n = (millis % 1000) as nat;
    assert(n == 100 * a + 10 * b + c);
    lemma_fraction(a as nat, b as nat, c as nat);
}

proof fn lemma_padded(a: nat, b: nat, c: nat)
    requires
        a < 10,
        b < 10,
        c < 10,
    ensures
        padded(a, 1) == seq![text::digit(a as int)],
        padded(10 * a + b, 2) == seq![text::digit(a as int), text::digit(b as int)],
        padded(100 * a + 10 * b + c, 3) == seq![
            text::digit(a as int),
            text::digit(b as int),
            text::digit(c as int),
        ],
{
    let two = (10 * a + b) as nat;
    let three = (100 * a + 10 * b + c) as nat;
    assert(padded(a / 10, 0) =~= Seq::<char>::empty());
    assert(padded(a, 1) =~= seq![text::digit(a as int)]);
    assert(two / 10 == a);
    assert(padded(two, 2) =~= seq![text::digit(a as int), text::digit(b as int)]);
    assert(three / 10 == two);
    assert(padded(three, 3) =~= seq![
        text::digit(a as int),
        text::digit(b as int),
        text::digit(c as int),
    ]);
}

proof fn lemma_fraction(a: nat, b: nat, c: nat)
    requires
        a < 10,
        b < 10,
        c < 10,
    ensures
        c != 0 ==> fraction_text(100 * a + 10 * b + c, 3) == seq![
            text::digit(a as int),
            text::digit(b as int),
            text::digit(c as int),
        ],
        c == 0 && b != 0 ==> fraction_text(100 * a + 10 * b + c, 3) == seq![
            text::digit(a as int),
            text::digit(b as int),
        ],
        c == 0 && b == 0 && a != 0 ==> fraction_text(100 * a + 10 * b + c, 3) == seq![
            text::digit(a as int),
        ],
{
    lemma_padded(a, b, c);
    let two = (10 * a + b) as nat;
    let three = (100 * a + 10 * b + c) as nat;
    assert(three / 10 == two && three % 10 == c);
    assert(two / 10 == a && two % 10 == b);
    assert(fraction_text(a, 1) == if a == 0 {
        Seq::empty()
    } else {
        padded(a, 1)
    });
    assert(c == 0 ==> fraction_text(three, 3) == if three == 0 {
        Seq::empty()
    } else {
        fraction_text(two, 2)
    });
}

/// The live tasks after one was registered, its generation and the generation
/// that it supersedes.
pub open spec fn spawned(live: Map<Seq<char>, u64>, latest: u64, name: Seq<char>) -> (
    Map<Seq<char>, u64>,
    u64,
    Option<u64>,
) {
    let generation = latest.wrapping_add(1);
    (
        live.insert(name, generation),
        generation,
        if live.contains_key(name) {
            Some(live[name])
        } else {
            None
        },
    )
}

/// A task has one live incarnation: the new one takes the place of the one
/// before it, which is named so that it can be ended. Other tasks live on.
pub proof fn law_tasks_live_once(
    live: Map<Seq<char>, u64>,
    latest: u64,
    name: Seq<char>,
    other: Seq<char>,
)
    requires
        latest < u64::MAX,
        other != name,
    ensures
        ({
            let (after, generation, superseded) = spawned(live, latest, name);
            &&& generation == latest + 1
            &&& after.contains_key(name) && after[name] == generation
            &&& superseded is Some <==> live.contains_key(name)
            &&& superseded matches Some(before) ==> before == live[name]
            &&& after.contains_key(other) <==> live.contains_key(other)
            &&& live.contains_key(other) ==> after[other] == live[other]
            &&& spawned(after, generation, name).2 == Some(generation)
        }),
{
}

/// Bookkeeping of supervised tasks.
#[derive(Debug)]
pub struct Supervisor {
    stopped: bool,
    latest_generation: u64,
    restarts: TextMap<u64>,
    children: TextMap<u64>,
}

impl Supervisor {
    /// Whether everything has been shut down.
    pub closed spec fn shut(&self) -> bool {
        self.stopped
    }

    /// The generation given out last.
    pub closed spec fn generation(&self) -> u64 {
        self.latest_generation
    }

    /// How often each task has been restarted.
    pub closed spec fn counts(&self) -> Map<Seq<char>, u64> {
        self.restarts@
    }

    /// The live generation of each task.
    pub closed spec fn live(&self) -> Map<Seq<char>, u64> {
        self.children@
    }

    /// How often the named task has been restarted so far.
    pub open spec fn count(&self, name: Seq<char>) -> u64 {
        if self.counts().contains_key(name) {
            self.counts()[name]
        } else {
            0
        }
    }

    /// A supervisor with no tasks.
    pub fn new() -> (r: Self)
        ensures
            !r.shut(),
            r.generation() == 0,
            r.counts() == Map::<Seq<char>, u64>::empty(),
            r.live() == Map::<Seq<char>, u64>::empty(),
    {
        Supervisor {
            stopped: false,
            latest_generation: 0,
            restarts: TextMap::new(),
            children: TextMap::new(),
        }
    }

    /// Registers a task under `name`. Returns its generation and that of the
    /// incarnation it supersedes, which is to be aborted; after a shutdown no
    /// task is started.
    pub fn spawn(&mut self, name: &str) -> (r: Option<(u64, Option<u64>)>)
        ensures
            final(self).shut() == old(self).shut(),
            final(self).counts() == old(self).counts(),
            old(self).shut() ==> r is None && *final(self) == *old(self),
            !old(self).shut() ==> match r {
                Some((generation, superseded)) => {
                    &&& final(self).generation() == generation
                    &&& (final(self).live(), generation, superseded) == spawned(
                        old(self).live(),
                        old(self).generation(),
                        name@,
                    )
                },
                None => false,
            },
    {
        if self.stopped {
            return None;
        }
        self.latest_generation = self.latest_generation.wrapping_add(1);
        let superseded = self.children.insert(name.to_owned(), self.latest_generation);
        Some((self.latest_generation, superseded))
    }

    /// How often the named task has been restarted so far (0 if unknown).
    pub fn restart_count(&self, name: &str) -> (r: u64)
        ensures
            r == self.count(name@),
    {
        match self.restarts.get(name) {
            Some(n) => *n,
            None => 0,
        }
    }

    /// Decides about a task that ended after `ran` milliseconds with
    /// `failures` consecutive failures behind it.
    pub fn on_exit(&mut self, name: &str, failures: u32, ending: &Ending, ran: u64) -> (r: Verdict)
        requires
            old(self).count(name@) < u64::MAX,
        ensures
            final(self).shut() == old(self).shut(),
            final(self).generation() == old(self).generation(),
            final(self).live() == old(self).live(),
            (bus::events_view(r.events@), r.retry) == verdict_of(
                old(self).shut(),
                old(self).count(name@),
                name@,
                failures,
                *ending,
                ran,
            ),
            final(self).counts() == if r.retry is Some {
                old(self).counts().insert(name@, (old(self).count(name@) + 1) as u64)
            } else {
                old(self).counts()
            },
    {
        let detail = match ending {
            Ending::Finished | Ending::Cancelled => {
                let events: Vec<Event> = Vec::new();
                assert(bus::events_view(events@) =~= Seq::empty());
                return Verdict { events, retry: None };
            },
            Ending::Failed(m) => "failed: ".to_owned().concat(m.as_str()),
            Ending::Panicked(m) => "panicked: ".to_owned().concat(m.as_str()),
        };
        let mut events: Vec<Event> = Vec::new();
        let msg = "supervisor: task '".to_owned().concat(name).concat("' ").concat(
            detail.as_str(),
        );
        events.push(Event::LogRecord { level: "error".to_owned(), msg });
        if self.stopped {
            assert(bus::events_view(events@) =~= seq![crash_record(name@, detail@)]);
            return Verdict { events, retry: None };
        }
        let count: u64 = self.restart_count(name) + 1;
        let _ = self.restarts.insert(name.to_owned(), count);
        let next: u32 = if ran >= HEALTHY_WINDOW {
            1
        } else {
            failures.saturating_add(1)
        };
        let delay = backoff_delay(next);
        let msg = "supervisor: restarting '".to_owned().concat(name).concat(
            "' (restart #",
        ).concat(text::decimal_text(count as u128).as_str()).concat(", retry in ").concat(
            delay_text(delay).as_str(),
        ).concat(")");
        events.push(Event::LogRecord { level: "warn".to_owned(), msg });
        assert(bus::events_view(events@) =~= seq![
            crash_record(name@, detail@),
            restart_record(name@, count, delay),
        ]);
        Verdict { events, retry: Some((delay, next)) }
    }

    /// Shuts everything down: the supervision of every task ends, and later
    /// [`Supervisor::spawn`] calls start nothing.
    pub fn shutdown_all(&mut self)
        ensures
            final(self).shut(),
            final(self).live() == Map::<Seq<char>, u64>::empty(),
            final(self).counts() == old(self).counts(),
            final(self).generation() == old(self).generation(),
    {
        self.stopped = true;
        self.children = TextMap::new();
    }
}

} // verus!
