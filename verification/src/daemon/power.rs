//! Battery and notification feeds of the desktop.
//!
//! A feed publishes when what it watches changes. A feed whose source is
//! missing reports that once and waits for the end of the daemon.
use crate::base::bus::Event;
use crate::plugins::battery;
use crate::plugins::system_volume;
use crate::text;
use vstd::prelude::*;

verus! {

/// Seconds between two looks at the kernel's batteries.
pub const SYSFS_POLL_INTERVAL: u64 = 30;

/// Directory of the kernel's power supplies.
pub const POWER_SUPPLY_ROOT: &'static str = "/sys/class/power_supply";

/// Batteries are named `BAT0`, `BAT1`, ...
pub const BATTERY_NAME_PREFIX: &'static str = "BAT";

/// File holding the charge percentage.
pub const CAPACITY_FILE: &'static str = "capacity";

/// File holding the charging status.
pub const STATUS_FILE: &'static str = "status";

/// The lower-case form of a text, as [`str::to_lowercase`] gives it.
pub uninterp spec fn lowercase(s: Seq<char>) -> Seq<char>;

/// The trusted contract of [`str::to_lowercase`]: its result is named
/// [`lowercase`].
pub assume_specification[ str::to_lowercase ](s: &str) -> (r: String)
    ensures
        r@ == lowercase(s@),
;

/// Battery level snapshot used for change detection; `S` is the type of its
/// text.
#[derive(Debug, PartialEq, Eq)]
pub struct BatteryLevel<S = String> {
    /// Charge percentage.
    pub percent: i64,
    /// Charge-state label.
    pub state: S,
}

impl View for BatteryLevel<String> {
    type V = BatteryLevel<Seq<char>>;

    open spec fn view(&self) -> BatteryLevel<Seq<char>> {
        BatteryLevel { percent: self.percent, state: self.state@ }
    }
}

/// What a list of levels says.
pub open spec fn levels_view(v: Seq<BatteryLevel>) -> Seq<BatteryLevel<Seq<char>>> {
    v.map_values(|l: BatteryLevel| l@)
}

/// The label of a charge state of `org.freedesktop.UPower.Device.State`.
pub open spec fn state_label(state: u32) -> Seq<char> {
    if state == 1 {
        "charging"@
    } else if state == 2 {
        "discharging"@
    } else if state == 3 {
        "empty"@
    } else if state == 4 {
        "fully charged"@
    } else if state == 5 {
        "pending charge"@
    } else if state == 6 {
        "pending discharge"@
    } else {
        "unknown"@
    }
}

/// The label of a charge state of `org.freedesktop.UPower.Device.State`.
pub fn upower_state_label(state: u32) -> (r: &'static str)
    ensures
        r@ == state_label(state),
{
    match state {
        1 => "charging",
        2 => "discharging",
        3 => "empty",
        4 => "fully charged",
        5 => "pending charge",
        6 => "pending discharge",
        _ => "unknown",
    }
}

/// Whether a double-precision bit pattern is no number.
pub open spec fn not_a_number(bits: u64) -> bool {
    (bits as int / 0x10_0000_0000_0000) % 0x800 == 0x7ff && bits as int % 0x10_0000_0000_0000 != 0
}

/// The level that UPower reports: the percentage, given by the bit pattern of
/// its double-precision number, rounded and brought into `0..=100`.
pub open spec fn reported_level(percentage_bits: u64, state: u32) -> BatteryLevel<Seq<char>> {
    BatteryLevel {
        percent: if not_a_number(percentage_bits) {
            0
        } else {
            system_volume::rounded_percent(percentage_bits) as i64
        },
        state: state_label(state),
    }
}

/// The level that UPower reports: the percentage, given by the bit pattern of
/// its double-precision number, rounded and brought into `0..=100`.
pub fn upower_level(percentage_bits: u64, state: u32) -> (r: BatteryLevel)
    ensures
        r@ == reported_level(percentage_bits, state),
        0 <= r.percent <= 100,
{
    let exponent: u64 = (percentage_bits / 0x10_0000_0000_0000) % 0x800;
    let fraction: u64 = percentage_bits % 0x10_0000_0000_0000;
    let percent: i64 = if exponent == 0x7ff && fraction != 0 {
        0
    } else {
        system_volume::round_percent(percentage_bits) as i64
    };
    BatteryLevel { percent, state: upower_state_label(state).to_owned() }
}

/// The level that an entry of the power-supply directory gives: only
/// batteries with a readable capacity count, and a battery without a status
/// is in an unknown state.
pub open spec fn entry_level(
    name: Seq<char>,
    capacity: Option<Seq<char>>,
    status: Option<Seq<char>>,
) -> Option<BatteryLevel<Seq<char>>> {
    match capacity {
        Some(c) if text::has_prefix(name, BATTERY_NAME_PREFIX@) => match text::number(
            text::trimmed(c),
        ) {
            Some(n) if i64::MIN <= n <= i64::MAX => Some(
                BatteryLevel {
                    percent: n as i64,
                    state: match status {
                        Some(s) if lowercase(text::trimmed(s)).len() > 0 => lowercase(
                            text::trimmed(s),
                        ),
                        _ => "unknown"@,
                    },
                },
            ),
            _ => None,
        },
        _ => None,
    }
}

/// Reads an entry of the power-supply directory.
pub fn sysfs_level(name: &str, capacity: Option<String>, status: Option<String>) -> (r: Option<
    BatteryLevel,
>)
    ensures
        match r {
            Some(level) => entry_level(
                name@,
                battery::optional_text(capacity),
                battery::optional_text(status),
            ) == Some(level@),
            None => entry_level(
                name@,
                battery::optional_text(capacity),
                battery::optional_text(status),
            ) is None,
        },
{
    if !text::starts_with(name, BATTERY_NAME_PREFIX) {
        return None;
    }
    let percent = match capacity {
        Some(c) => match text::parse_signed(text::trim(c.as_str()).as_str()) {
            Some(n) => n,
            None => {
                return None;
            },
        },
        None => {
            return None;
        },
    };
    let state = match status {
        Some(s) => text::trim(s.as_str()).as_str().to_lowercase(),
        None => String::new(),
    };
    if state.as_str().is_empty() {
        return Some(BatteryLevel { percent, state: "unknown".to_owned() });
    }
    Some(BatteryLevel { percent, state })
}

/// The sum of the percentages.
pub open spec fn percent_sum(levels: Seq<BatteryLevel<Seq<char>>>) -> int
    decreases levels.len(),
{
    if levels.len() == 0 {
        0
    } else {
        percent_sum(levels.drop_last()) + levels.last().percent
    }
}

/// The states in the order of their first occurrence.
pub open spec fn distinct_states(levels: Seq<BatteryLevel<Seq<char>>>) -> Seq<Seq<char>>
    decreases levels.len(),
{
    if levels.len() == 0 {
        Seq::empty()
    } else {
        let before = distinct_states(levels.drop_last());
        if before.contains(levels.last().state) {
            before
        } else {
            before.push(levels.last().state)
        }
    }
}

/// The snapshot that the batteries of a machine make together: the mean of
/// their percentages, brought into `0..=100`, and their distinct states.
pub open spec fn summary(levels: Seq<BatteryLevel<Seq<char>>>) -> BatteryLevel<Seq<char>> {
    let sum = percent_sum(levels);
    BatteryLevel {
        percent: if levels.len() == 0 || sum <= 0 {
            0
        } else if sum / (levels.len() as int) > 100 {
            100
        } else {
            (sum / (levels.len() as int)) as i64
        },
        state: text::joined(distinct_states(levels), "+"@),
    }
}

/// Collapses the levels of several batteries into one snapshot.
pub fn summarize_levels(levels: &Vec<BatteryLevel>) -> (r: BatteryLevel)
    ensures
        r@ == summary(levels_view(levels@)),
{
    let ghost views = levels_view(levels@);
    let mut total: i128 = 0;
    let mut states: Vec<String> = Vec::new();
    let mut i: usize = 0;
    proof {
        assert(views.take(0) =~= Seq::empty());
        assert(text::texts(states@) =~= distinct_states(views.take(0)));
    }
    while i < levels.len()
        invariant
            i <= levels.len(),
            views == levels_view(levels@),
            total == percent_sum(views.take(i as int)),
            -0x8000_0000_0000_0000 * i <= total <= 0x7fff_ffff_ffff_ffff * i,
            text::texts(states@) == distinct_states(views.take(i as int)),
        decreases levels.len() - i,
    {
        proof {
            assert(views.take(i + 1).drop_last() =~= views.take(i as int));
            assert(views.take(i + 1).last() == levels@[i as int]@);
        }
        total = total + levels[i].percent as i128;
        if !text::list_contains(&states, levels[i].state.as_str()) {
            let ghost before = text::texts(states@);
            states.push(levels[i].state.clone());
            assert(text::texts(states@) =~= before.push(levels@[i as int].state@));
        }
        i += 1;
    }
    assert(views.take(i as int) =~= views);
    let percent: i64 = if levels.len() == 0 || total <= 0 {
        0
    } else {
        let mean: i128 = total / (levels.len() as i128);
        if mean > 100 {
            100
        } else {
            proof {
                vstd::arithmetic::div_mod::lemma_div_pos_is_pos(
                    total as int,
                    levels.len() as int,
                );
            }
            mean as i64
        }
    };
    BatteryLevel { percent, state: text::join(&states, "+") }
}

/// A battery snapshot as a log message.
pub open spec fn battery_text(level: BatteryLevel<Seq<char>>) -> Seq<char> {
    "battery: "@ + text::signed_decimal(level.percent as int) + "% ("@ + level.state + ")"@
}

/// Renders a battery snapshot as a log message.
pub fn battery_message(level: &BatteryLevel) -> (r: String)
    ensures
        r@ == battery_text(level@),
{
    "battery: ".to_owned().concat(text::signed_text(level.percent).as_str()).concat("% (").concat(
        level.state.as_str(),
    ).concat(")")
}

/// The record of a battery snapshot.
pub open spec fn battery_record(level: BatteryLevel<Seq<char>>) -> Event<Seq<char>> {
    Event::LogRecord { level: "info"@, msg: battery_text(level) }
}

/// The report of a feed whose source is missing.
pub open spec fn parked_record(service: Seq<char>, cause: Seq<char>) -> Event<Seq<char>> {
    Event::LogRecord {
        level: "warn"@,
        msg: "dbus: "@ + service + " unavailable ("@ + cause + "); listener parked"@,
    }
}

/// Reports that the source of a feed is missing.
pub fn parked(service: &str, cause: &str) -> (r: Event)
    ensures
        r@ == parked_record(service@, cause@),
{
    Event::LogRecord {
        level: "warn".to_owned(),
        msg: "dbus: ".to_owned().concat(service).concat(" unavailable (").concat(cause).concat(
            "); listener parked",
        ),
    }
}

/// What has been published after a snapshot, and what is published for it: a
/// snapshot counts where it differs from the last one.
pub open spec fn noted(
    published: Option<BatteryLevel<Seq<char>>>,
    level: BatteryLevel<Seq<char>>,
) -> (Option<BatteryLevel<Seq<char>>>, Option<Event<Seq<char>>>) {
    (
        Some(level),
        if published == Some(level) {
            None
        } else {
            Some(battery_record(level))
        },
    )
}

/// What has been published after a look at the kernel's batteries, and what is
/// published for it.
pub open spec fn noticed(
    published: Option<BatteryLevel<Seq<char>>>,
    levels: Option<Seq<BatteryLevel<Seq<char>>>>,
) -> (Option<BatteryLevel<Seq<char>>>, Option<Event<Seq<char>>>) {
    match levels {
        Some(list) if list.len() > 0 => noted(published, summary(list)),
        _ => (published, None),
    }
}

/// What an optional event says.
pub open spec fn event_view(event: Option<Event>) -> Option<Event<Seq<char>>> {
    match event {
        Some(e) => Some(e@),
        None => None,
    }
}

/// A change is reported, as a record that gives the percentage and the state,
/// and reported once only; a look that finds nothing changes nothing.
pub proof fn law_changes_are_reported_once(
    published: Option<BatteryLevel<Seq<char>>>,
    level: BatteryLevel<Seq<char>>,
)
    ensures
        ({
            let (after, event) = noted(published, level);
            &&& event is Some <==> published != Some(level)
            &&& event matches Some(e) ==> e is LogRecord && e->level == "info"@ && e->msg
                == "battery: "@ + text::signed_decimal(level.percent as int) + "% ("@ + level.state
                + ")"@
            &&& noted(after, level).1 is None
            &&& noticed(published, None) == (published, None::<Event<Seq<char>>>)
            &&& noticed(published, Some(Seq::empty())) == (published, None::<Event<Seq<char>>>)
        }),
{
}

/// A battery feed: what it published last.
#[derive(Debug)]
pub struct BatteryWatch {
    last: Option<BatteryLevel>,
}

impl BatteryWatch {
    /// What was published last.
    pub closed spec fn published(&self) -> Option<BatteryLevel<Seq<char>>> {
        match self.last {
            Some(level) => Some(level@),
            None => None,
        }
    }

    /// A feed that has published nothing.
    pub fn new() -> (r: Self)
        ensures
            r.published() is None,
    {
        BatteryWatch { last: None }
    }

    /// Takes a snapshot; publishes it where it differs from the last one.
    pub fn observe(&mut self, level: BatteryLevel) -> (r: Option<Event>)
        ensures
            (final(self).published(), event_view(r)) == noted(old(self).published(), level@),
    {
        if let Some(last) = &self.last {
            if last.percent == level.percent && text::same(
                last.state.as_str(),
                level.state.as_str(),
            ) {
                return None;
            }
        }
        let event = Event::LogRecord { level: "info".to_owned(), msg: battery_message(&level) };
        self.last = Some(level);
        Some(event)
    }

    /// Takes the levels that one look at the kernel's batteries gave. A look
    /// that failed or found no battery changes nothing.
    pub fn poll(&mut self, levels: Option<&Vec<BatteryLevel>>) -> (r: Option<Event>)
        ensures
            (final(self).published(), event_view(r)) == noticed(
                old(self).published(),
                match levels {
                    Some(list) => Some(levels_view(list@)),
                    None => None,
                },
            ),
    {
        match levels {
            Some(list) => {
                if list.len() == 0 {
                    return None;
                }
                self.observe(summarize_levels(list))
            },
            None => None,
        }
    }
}

/// The body of a notification signal.
#[derive(Debug, Clone, PartialEq, Eq)]
pub enum SignalBody<S = String> {
    /// An action was invoked: the notification's id and the action.
    Action(u32, S),
    /// A notification was closed: its id and the reason.
    Closed(u32, u32),
    /// Anything else.
    Other,
}

impl View for SignalBody<String> {
    type V = SignalBody<Seq<char>>;

    open spec fn view(&self) -> SignalBody<Seq<char>> {
        match self {
            SignalBody::Action(id, action) => SignalBody::Action(*id, action@),
            SignalBody::Closed(id, reason) => SignalBody::Closed(*id, *reason),
            SignalBody::Other => SignalBody::Other,
        }
    }
}

/// The event of a notification signal.
pub open spec fn signal_event(
    member: Option<Seq<char>>,
    sender: Option<Seq<char>>,
    body: SignalBody<Seq<char>>,
) -> Event<Seq<char>> {
    let title = match member {
        Some(m) => m,
        None => "Unknown"@,
    };
    Event::NotificationReceived {
        id: match body {
            SignalBody::Action(id, _) | SignalBody::Closed(id, _) => text::decimal(id as nat),
            SignalBody::Other => title,
        },
        app: match sender {
            Some(s) => s,
            None => "unknown"@,
        },
        title,
        body: match body {
            SignalBody::Action(_, action) => action,
            SignalBody::Closed(_, reason) => text::decimal(reason as nat),
            SignalBody::Other => Seq::empty(),
        },
    }
}

/// Maps a notification signal onto an event. A body of an unknown shape
/// leaves the signal's name as the id.
pub fn notification_event(
    member: Option<String>,
    sender: Option<String>,
    body: &SignalBody,
) -> (r: Event)
    ensures
        r@ == signal_event(
            battery::optional_text(member),
            battery::optional_text(sender),
            body@,
        ),
{
    let title = match member {
        Some(m) => m,
        None => "Unknown".to_owned(),
    };
    let app = match sender {
        Some(s) => s,
        None => "unknown".to_owned(),
    };
    let id = match body {
        SignalBody::Action(id, _) => text::decimal_text(*id as u128),
        SignalBody::Closed(id, _) => text::decimal_text(*id as u128),
        SignalBody::Other => title.clone(),
    };
    let detail = match body {
        SignalBody::Action(_, action) => action.clone(),
        SignalBody::Closed(_, reason) => text::decimal_text(*reason as u128),
        SignalBody::Other => {
            let none = String::new();
            assert(none@ =~= Seq::<char>::empty());
            none
        },
    };
    Event::NotificationReceived { id, app, title, body: detail }
}

/// Several batteries together are as full as they are on average: the mean
/// lies between the emptiest and the fullest, and where all are equally full
/// it is what each of them has.
pub proof fn law_the_mean_lies_between(
    levels: Seq<BatteryLevel<Seq<char>>>,
    low: int,
    high: int,
)
    requires
        levels.len() > 0,
        0 <= low <= high <= 100,
        forall|i: int| 0 <= i < levels.len() ==> low <= (#[trigger] levels[i]).percent <= high,
    ensures
        low <= summary(levels).percent <= high,
{
    lemma_sum_bounds(levels, low, high);
    let n = levels.len() as int;
    let sum = percent_sum(levels);
    assert(low <= sum / n <= high) by (nonlinear_arith)
        requires
            low * n <= sum <= high * n,
            n > 0,
    ;
    if sum <= 0 {
        assert(low == 0) by (nonlinear_arith)
            requires
                low * n <= sum <= 0,
                n > 0,
                low >= 0,
        ;
    }
}

proof fn lemma_sum_bounds(levels: Seq<BatteryLevel<Seq<char>>>, low: int, high: int)
    requires
        forall|i: int| 0 <= i < levels.len() ==> low <= (#[trigger] levels[i]).percent <= high,
    ensures
        low * levels.len() <= percent_sum(levels) <= high * levels.len(),
    decreases levels.len(),
{
    if levels.len() > 0 {
        let rest = levels.drop_last();
        assert forall|i: int| 0 <= i < rest.len() implies low <= (#[trigger] rest[i]).percent
            <= high by {
            assert(rest[i] == levels[i]);
        }
        lemma_sum_bounds(rest, low, high);
        let n = levels.len() as int;
        assert(levels.last() == levels[n - 1]);
        assert(low * n == low * (n - 1) + low && high * n == high * (n - 1) + high)
            by (nonlinear_arith);
    } else {
        assert(low * 0 == 0 && high * 0 == 0);
    }
}

/// The states of several batteries are named once each.
pub proof fn law_states_are_named_once(levels: Seq<BatteryLevel<Seq<char>>>, state: Seq<char>)
    ensures
        distinct_states(levels).contains(state) == exists|i: int|
            0 <= i < levels.len() && (#[trigger] levels[i]).state == state,
        distinct_states(levels).no_duplicates(),
        summary(seq![BatteryLevel { percent: 0, state }]).state == state,
    decreases levels.len(),
{
    let one = seq![BatteryLevel { percent: 0, state }];
    assert(one.drop_last() =~= Seq::empty());
    assert(distinct_states(Seq::<BatteryLevel<Seq<char>>>::empty()) =~= Seq::empty());
    assert(one.last().state == state);
    assert(distinct_states(one) == Seq::<Seq<char>>::empty().push(state));
    assert(Seq::<Seq<char>>::empty().push(state)[0] == state);
    if levels.len() > 0 {
        let rest = levels.drop_last();
        law_states_are_named_once(rest, state);
        law_states_are_named_once(rest, levels.last().state);
        let before = distinct_states(rest);
        assert(levels.last() == levels[levels.len() - 1]);
        assert(forall|i: int| 0 <= i < rest.len() ==> rest[i] == levels[i]);
        if exists|i: int| 0 <= i < levels.len() && (#[trigger] levels[i]).state == state {
            let i = choose|i: int| 0 <= i < levels.len() && (#[trigger] levels[i]).state == state;
            if i < rest.len() {
                assert(rest[i].state == state);
            }
        }
        if !before.contains(levels.last().state) {
            let after = before.push(levels.last().state);
            assert(after[after.len() - 1] == levels.last().state);
            if before.contains(state) {
                let k = choose|k: int| 0 <= k < before.len() && before[k] == state;
                assert(after[k] == state);
            }
            if after.contains(state) && state != levels.last().state {
                let k = choose|k: int| 0 <= k < after.len() && after[k] == state;
                assert(before[k] == state);
            }
        }
    }
}

/// A battery of the kernel is read as the percentage that is written there;
/// only entries that are named as batteries count.
pub proof fn law_kernel_batteries_are_read_as_written(
    name: Seq<char>,
    n: nat,
    status: Option<Seq<char>>,
)
    requires
        n <= 100,
    ensures
        ({
            let read = entry_level(name, Some(text::decimal(n)), status);
            &&& text::has_prefix(name, "BAT"@) ==> read is Some && read->0.percent == n
            &&& !text::has_prefix(name, "BAT"@) ==> read is None
            &&& text::has_prefix(name, "BAT"@) && status is None ==> read->0.state == "unknown"@
            &&& text::has_prefix(name, "BAT"@) ==> (status matches Some(s) ==> (lowercase(
                text::trimmed(s),
            ).len() > 0 ==> read->0.state == lowercase(text::trimmed(s))))
        }),
        entry_level(name, None, status) is None,
{
    let d = text::decimal(n);
    text::law_numbers_read_back(n);
    text::lemma_decimal_reads_back(n);
    text::lemma_first_digit(d);
    assert(text::digit_value(d.last()) is Some);
    assert(text::trim_start(d) == d);
    assert(text::trim_end(d) == d);
}

/// A notification signal is reported under the id that it gives, from the
/// sender that it names, with its own name as the title; the detail is the
/// action that was invoked or the number of the reason for which it closed.
pub proof fn law_signals_are_reported_as_received(
    member: Seq<char>,
    sender: Seq<char>,
    id: u32,
    action: Seq<char>,
    reason: u32,
)
    ensures
        signal_event(Some(member), Some(sender), SignalBody::Action(id, action)) == (
        Event::NotificationReceived {
            id: text::decimal(id as nat),
            app: sender,
            title: member,
            body: action,
        }),
        signal_event(Some(member), Some(sender), SignalBody::Closed(id, reason)) == (
        Event::NotificationReceived {
            id: text::decimal(id as nat),
            app: sender,
            title: member,
            body: text::decimal(reason as nat),
        }),
        signal_event(Some(member), Some(sender), SignalBody::Other) matches
            Event::NotificationReceived { id: shown, app, title, body } && shown == member && app
            == sender && title == member && body.len() == 0,
        signal_event(None, None, SignalBody::Action(id, action)) matches
            Event::NotificationReceived { id: shown, body, .. } && shown == text::decimal(
            id as nat,
        ) && body == action,
{
}

/// The mean is exact but for the fraction that is dropped, and it does not
/// depend on the order of the batteries.
pub proof fn law_the_mean_drops_the_fraction(
    a: BatteryLevel<Seq<char>>,
    b: BatteryLevel<Seq<char>>,
)
    requires
        0 <= a.percent <= 100,
        0 <= b.percent <= 100,
    ensures
        summary(seq![a]).percent == a.percent,
        2 * summary(seq![a, b]).percent <= a.percent + b.percent,
        a.percent + b.percent <= 2 * summary(seq![a, b]).percent + 1,
        summary(seq![a, b]).percent == summary(seq![b, a]).percent,
{
    assert(seq![a].drop_last() =~= Seq::<BatteryLevel<Seq<char>>>::empty());
    assert(seq![a, b].drop_last() =~= seq![a]);
    assert(seq![b].drop_last() =~= Seq::<BatteryLevel<Seq<char>>>::empty());
    assert(seq![b, a].drop_last() =~= seq![b]);
    assert(percent_sum(Seq::<BatteryLevel<Seq<char>>>::empty()) == 0);
    assert(percent_sum(seq![a]) == a.percent);
    assert(percent_sum(seq![b]) == b.percent);
    assert(percent_sum(seq![a, b]) == a.percent + b.percent);
    assert(percent_sum(seq![b, a]) == a.percent + b.percent);
}

/// The state of a battery is told by its number alone, and its percentage by
/// the reading alone, which is nothing where it is no number. Only one number
/// stands for each known state.
pub proof fn law_readings_tell_percentage_and_state(bits: u64, state: u32, other: u32)
    ensures
        reported_level(bits, state).percent == reported_level(bits, other).percent,
        not_a_number(bits) ==> reported_level(bits, state).percent == 0,
        !not_a_number(bits) ==> reported_level(bits, state).percent
            == system_volume::rounded_percent(bits),
        (reported_level(bits, state).state == "charging"@) == (state == 1),
        (reported_level(bits, state).state == "discharging"@) == (state == 2),
        (reported_level(bits, state).state == "empty"@) == (state == 3),
        (reported_level(bits, state).state == "fully charged"@) == (state == 4),
        (reported_level(bits, state).state == "pending charge"@) == (state == 5),
        (reported_level(bits, state).state == "pending discharge"@) == (state == 6),
        (reported_level(bits, state).state == "unknown"@) == (state == 0 || state > 6),
{
    if bits < 0x8000_0000_0000_0000 && system_volume::scale(bits) < 0
        && system_volume::significand(bits) <= 100 * vstd::arithmetic::power2::pow2(
        (-system_volume::scale(bits)) as nat,
    ) {
        system_volume::law_percentages_round_to_the_nearest(bits);
    }
    reveal_strlit("charging");
    reveal_strlit("discharging");
    reveal_strlit("empty");
    reveal_strlit("fully charged");
    reveal_strlit("pending charge");
    reveal_strlit("pending discharge");
    reveal_strlit("unknown");
    assert("charging"@.len() == 8);
    assert("discharging"@.len() == 11);
    assert("empty"@.len() == 5);
    assert("fully charged"@.len() == 13);
    assert("pending charge"@.len() == 14);
    assert("pending discharge"@.len() == 17);
    assert("unknown"@.len() == 7);
}

} // verus!
