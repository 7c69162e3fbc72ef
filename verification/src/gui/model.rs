//! The data that the front-end shows.
//!
//! A successful response of the daemon carries free-form JSON, so the parsers
//! are defensive: a field is looked for under several keys, and malformed
//! entries are skipped.
use crate::ipc::ServerEvent;
use crate::json;
use crate::json::{Json, JsonView, Record};
use crate::ordered::TextMap;
use crate::plugins;
use crate::text;
use vstd::prelude::*;

verus! {

/// Connection status of the bridge to the daemon.
#[derive(Debug, Clone, Copy, PartialEq, Eq, Structural)]
pub enum ConnState {
    /// No connection to the daemon.
    Disconnected,
    /// A connect attempt is currently in flight.
    Connecting,
    /// Connected to the daemon socket.
    Connected,
}

impl ConnState {
    /// Short label for status displays.
    pub open spec fn text(self) -> Seq<char> {
        match self {
            ConnState::Disconnected => "disconnected"@,
            ConnState::Connecting => "connecting"@,
            ConnState::Connected => "connected"@,
        }
    }

    /// Short label for status displays.
    pub fn label(self) -> (r: &'static str)
        ensures
            r@ == self.text(),
    {
        match self {
            ConnState::Disconnected => "disconnected",
            ConnState::Connecting => "connecting",
            ConnState::Connected => "connected",
        }
    }
}

/// Sidebar tabs.
#[derive(Debug, Clone, Copy, PartialEq, Eq, Structural)]
pub enum Tab {
    /// Known devices plus the selected device's plugins.
    Devices,
    /// File transfer progress rows.
    Transfers,
    /// Notifications mirrored from paired phones.
    Notifications,
    /// Log lines forwarded by the daemon.
    Logs,
}

impl Tab {
    /// All tabs in display order.
    pub fn all() -> (r: [Tab; 4])
        ensures
            r@ == seq![Tab::Devices, Tab::Transfers, Tab::Notifications, Tab::Logs],
    {
        let r = [Tab::Devices, Tab::Transfers, Tab::Notifications, Tab::Logs];
        assert(r@ =~= seq![Tab::Devices, Tab::Transfers, Tab::Notifications, Tab::Logs]);
        r
    }

    /// Human-readable tab label.
    pub fn label(self) -> (r: &'static str)
        ensures
            r@ == match self {
                Tab::Devices => "Devices"@,
                Tab::Transfers => "Transfers"@,
                Tab::Notifications => "Notifications"@,
                Tab::Logs => "Logs"@,
            },
    {
        match self {
            Tab::Devices => "Devices",
            Tab::Transfers => "Transfers",
            Tab::Notifications => "Notifications",
            Tab::Logs => "Logs",
        }
    }
}

/// One device row; `S` is the type of its texts.
#[derive(Debug, PartialEq, Eq)]
pub struct DeviceCard<S = String> {
    /// Stable device identifier.
    pub id: S,
    /// Human-readable device name.
    pub name: S,
    /// Coarse device kind if the daemon reported one.
    pub kind: S,
    /// Whether an active pairing exists.
    pub paired: bool,
    /// Latest connectivity state label.
    pub state: S,
}

impl View for DeviceCard<String> {
    type V = DeviceCard<Seq<char>>;

    open spec fn view(&self) -> DeviceCard<Seq<char>> {
        DeviceCard {
            id: self.id@,
            name: self.name@,
            kind: self.kind@,
            paired: self.paired,
            state: self.state@,
        }
    }
}

impl Clone for DeviceCard<String> {
    fn clone(&self) -> (r: Self)
        ensures
            r@ == self@,
    {
        DeviceCard {
            id: self.id.clone(),
            name: self.name.clone(),
            kind: self.kind.clone(),
            paired: self.paired,
            state: self.state.clone(),
        }
    }
}

/// One plugin toggle row of the selected device; `S` is the type of its
/// texts.
#[derive(Debug, PartialEq, Eq)]
pub struct PluginRow<S = String> {
    /// Plugin identifier used in requests.
    pub name: S,
    /// Human-readable title.
    pub title: S,
    /// Whether the plugin is currently enabled on the device.
    pub enabled: bool,
}

impl View for PluginRow<String> {
    type V = PluginRow<Seq<char>>;

    open spec fn view(&self) -> PluginRow<Seq<char>> {
        PluginRow {
            name: self.name@,
            title: self.title@,
            enabled: self.enabled,
        }
    }
}

impl Clone for PluginRow<String> {
    fn clone(&self) -> (r: Self)
        ensures
            r@ == self@,
    {
        PluginRow {
            name: self.name.clone(),
            title: self.title.clone(),
            enabled: self.enabled,
        }
    }
}

/// Progress row for one transfer; `S` is the type of its texts.
#[derive(Debug, PartialEq, Eq)]
pub struct TransferRow<S = String> {
    /// Transfer identifier.
    pub id: S,
    /// Name of the file.
    pub name: S,
    /// Bytes transferred so far.
    pub done: u64,
    /// Total transfer size in bytes.
    pub total: u64,
}

impl View for TransferRow<String> {
    type V = TransferRow<Seq<char>>;

    open spec fn view(&self) -> TransferRow<Seq<char>> {
        TransferRow {
            id: self.id@,
            name: self.name@,
            done: self.done,
            total: self.total,
        }
    }
}

impl Clone for TransferRow<String> {
    fn clone(&self) -> (r: Self)
        ensures
            r@ == self@,
    {
        TransferRow {
            id: self.id.clone(),
            name: self.name.clone(),
            done: self.done,
            total: self.total,
        }
    }
}

/// One mirrored notification row; `S` is the type of its texts.
#[derive(Debug, PartialEq, Eq)]
pub struct NotifRow<S = String> {
    /// Notification identifier used when dismissing.
    pub id: S,
    /// Originating application name.
    pub app: S,
    /// Notification title.
    pub title: S,
    /// Notification body text.
    pub body: S,
}

impl View for NotifRow<String> {
    type V = NotifRow<Seq<char>>;

    open spec fn view(&self) -> NotifRow<Seq<char>> {
        NotifRow {
            id: self.id@,
            app: self.app@,
            title: self.title@,
            body: self.body@,
        }
    }
}

impl Clone for NotifRow<String> {
    fn clone(&self) -> (r: Self)
        ensures
            r@ == self@,
    {
        NotifRow {
            id: self.id.clone(),
            app: self.app.clone(),
            title: self.title.clone(),
            body: self.body.clone(),
        }
    }
}

/// What a list of device rows says.
pub open spec fn cards_view(v: Seq<DeviceCard>) -> Seq<DeviceCard<Seq<char>>> {
    v.map_values(|r: DeviceCard| r@)
}

/// What a list of plugin rows says.
pub open spec fn plugins_view(v: Seq<PluginRow>) -> Seq<PluginRow<Seq<char>>> {
    v.map_values(|r: PluginRow| r@)
}

/// What a list of transfer rows says.
pub open spec fn transfers_view(v: Seq<TransferRow>) -> Seq<TransferRow<Seq<char>>> {
    v.map_values(|r: TransferRow| r@)
}

/// What a list of notification rows says.
pub open spec fn notifs_view(v: Seq<NotifRow>) -> Seq<NotifRow<Seq<char>>> {
    v.map_values(|r: NotifRow| r@)
}

/// The position of the first device row with the given id, from `from` on.
pub open spec fn card_at(rows: Seq<DeviceCard<Seq<char>>>, id: Seq<char>, from: int) -> Option<int>
    decreases rows.len() - from,
{
    if from < 0 || from >= rows.len() {
        None
    } else if rows[from].id == id {
        Some(from)
    } else {
        card_at(rows, id, from + 1)
    }
}

/// The rows with `row` in the place of the one with its id, or behind them
/// where there is none.
pub open spec fn card_upserted(rows: Seq<DeviceCard<Seq<char>>>, row: DeviceCard<Seq<char>>) -> Seq<
    DeviceCard<Seq<char>>,
> {
    match card_at(rows, row.id, 0) {
        Some(i) => rows.update(i, row),
        None => rows.push(row),
    }
}

/// Whether no two rows have one id.
pub open spec fn card_ids_unique(rows: Seq<DeviceCard<Seq<char>>>) -> bool {
    forall|i: int, j: int| 0 <= i < j < rows.len() ==> #[trigger] rows[i].id != #[trigger] rows[j].id
}

/// Finds the first device row with the given id.
pub fn find_card(rows: &Vec<DeviceCard>, id: &str) -> (r: Option<usize>)
    ensures
        match r {
            Some(i) => card_at(cards_view(rows@), id@, 0) == Some(i as int) && i
                < rows@.len(),
            None => card_at(cards_view(rows@), id@, 0) is None,
        },
{
    let ghost views = cards_view(rows@);
    let mut i: usize = 0;
    while i < rows.len()
        invariant
            i <= rows.len(),
            views == cards_view(rows@),
            card_at(views, id@, 0) == card_at(views, id@, i as int),
        decreases rows.len() - i,
    {
        assert(views[i as int].id == rows@[i as int].id@);
        if text::same(rows[i].id.as_str(), id) {
            return Some(i);
        }
        i += 1;
    }
    None
}

pub proof fn lemma_card_at(rows: Seq<DeviceCard<Seq<char>>>, id: Seq<char>, from: int)
    requires
        0 <= from,
    ensures
        match card_at(rows, id, from) {
            Some(i) => from <= i < rows.len() && rows[i].id == id && forall|k: int|
                from <= k < i ==> (#[trigger] rows[k]).id != id,
            None => forall|k: int| from <= k < rows.len() ==> (#[trigger] rows[k]).id != id,
        },
    decreases rows.len() - from,
{
    if from < rows.len() && rows[from].id != id {
        lemma_card_at(rows, id, from + 1);
    }
}

/// Putting a row in keeps the ids unique, and the row can be found.
pub proof fn law_card_upsert_keeps_ids_unique(rows: Seq<DeviceCard<Seq<char>>>, row: DeviceCard<Seq<char>>)
    requires
        card_ids_unique(rows),
    ensures
        card_ids_unique(card_upserted(rows, row)),
        card_at(card_upserted(rows, row), row.id, 0) is Some,
        card_upserted(rows, row)[card_at(card_upserted(rows, row), row.id, 0)->0] == row,
{
    lemma_card_at(rows, row.id, 0);
    let after = card_upserted(rows, row);
    lemma_card_at(after, row.id, 0);
    match card_at(rows, row.id, 0) {
        Some(i) => {
            assert(after[i] == row);
        },
        None => {
            assert(after[rows.len() as int] == row);
        },
    }
}

/// The position of the first transfer row with the given id, from `from` on.
pub open spec fn transfer_at(rows: Seq<TransferRow<Seq<char>>>, id: Seq<char>, from: int) -> Option<int>
    decreases rows.len() - from,
{
    if from < 0 || from >= rows.len() {
        None
    } else if rows[from].id == id {
        Some(from)
    } else {
        transfer_at(rows, id, from + 1)
    }
}

/// The rows with `row` in the place of the one with its id, or behind them
/// where there is none.
pub open spec fn transfer_upserted(rows: Seq<TransferRow<Seq<char>>>, row: TransferRow<Seq<char>>) -> Seq<
    TransferRow<Seq<char>>,
> {
    match transfer_at(rows, row.id, 0) {
        Some(i) => rows.update(i, row),
        None => rows.push(row),
    }
}

/// Whether no two rows have one id.
pub open spec fn transfer_ids_unique(rows: Seq<TransferRow<Seq<char>>>) -> bool {
    forall|i: int, j: int| 0 <= i < j < rows.len() ==> #[trigger] rows[i].id != #[trigger] rows[j].id
}

/// Finds the first transfer row with the given id.
pub fn find_transfer(rows: &Vec<TransferRow>, id: &str) -> (r: Option<usize>)
    ensures
        match r {
            Some(i) => transfer_at(transfers_view(rows@), id@, 0) == Some(i as int) && i
                < rows@.len(),
            None => transfer_at(transfers_view(rows@), id@, 0) is None,
        },
{
    let ghost views = transfers_view(rows@);
    let mut i: usize = 0;
    while i < rows.len()
        invariant
            i <= rows.len(),
            views == transfers_view(rows@),
            transfer_at(views, id@, 0) == transfer_at(views, id@, i as int),
        decreases rows.len() - i,
    {
        assert(views[i as int].id == rows@[i as int].id@);
        if text::same(rows[i].id.as_str(), id) {
            return Some(i);
        }
        i += 1;
    }
    None
}

pub proof fn lemma_transfer_at(rows: Seq<TransferRow<Seq<char>>>, id: Seq<char>, from: int)
    requires
        0 <= from,
    ensures
        match transfer_at(rows, id, from) {
            Some(i) => from <= i < rows.len() && rows[i].id == id && forall|k: int|
                from <= k < i ==> (#[trigger] rows[k]).id != id,
            None => forall|k: int| from <= k < rows.len() ==> (#[trigger] rows[k]).id != id,
        },
    decreases rows.len() - from,
{
    if from < rows.len() && rows[from].id != id {
        lemma_transfer_at(rows, id, from + 1);
    }
}

/// Putting a row in keeps the ids unique, and the row can be found.
pub proof fn law_transfer_upsert_keeps_ids_unique(rows: Seq<TransferRow<Seq<char>>>, row: TransferRow<Seq<char>>)
    requires
        transfer_ids_unique(rows),
    ensures
        transfer_ids_unique(transfer_upserted(rows, row)),
        transfer_at(transfer_upserted(rows, row), row.id, 0) is Some,
        transfer_upserted(rows, row)[transfer_at(transfer_upserted(rows, row), row.id, 0)->0] == row,
{
    lemma_transfer_at(rows, row.id, 0);
    let after = transfer_upserted(rows, row);
    lemma_transfer_at(after, row.id, 0);
    match transfer_at(rows, row.id, 0) {
        Some(i) => {
            assert(after[i] == row);
        },
        None => {
            assert(after[rows.len() as int] == row);
        },
    }
}

impl DeviceCard<String> {
    /// Card made from a bare announcement; kind and state are unknown.
    pub fn from_found(id: &str, name: &str) -> (r: DeviceCard)
        ensures
            r@ == found_card(id@, name@),
    {
        DeviceCard {
            id: id.to_owned(),
            name: name.to_owned(),
            kind: "unknown".to_owned(),
            paired: false,
            state: "found".to_owned(),
        }
    }

    /// Takes a new state; a card counts as paired exactly while the daemon
    /// reports the "paired" state.
    pub fn apply_state(&mut self, state: &str)
        ensures
            final(self)@ == in_state(old(self)@, state@),
    {
        self.state = state.to_owned();
        self.paired = text::same(state, "paired");
    }

    /// Insert-or-replace by id.
    pub fn upsert(devices: &mut Vec<DeviceCard>, card: DeviceCard)
        ensures
            cards_view(final(devices)@) == card_upserted(cards_view(old(devices)@), card@),
    {
        let ghost before = cards_view(devices@);
        let ghost row = card@;
        match find_card(devices, card.id.as_str()) {
            Some(i) => {
                devices.set(i, card);
                assert(cards_view(devices@) =~= before.update(i as int, row));
            },
            None => {
                devices.push(card);
                assert(cards_view(devices@) =~= before.push(row));
            },
        }
    }
}

/// The card of a bare announcement.
pub open spec fn found_card(id: Seq<char>, name: Seq<char>) -> DeviceCard<Seq<char>> {
    DeviceCard { id, name, kind: "unknown"@, paired: false, state: "found"@ }
}

/// The card in a new state.
pub open spec fn in_state(card: DeviceCard<Seq<char>>, state: Seq<char>) -> DeviceCard<Seq<char>> {
    DeviceCard { state, paired: state == "paired"@, ..card }
}

/// The row after an event about its transfer.
pub open spec fn progressed(row: TransferRow<Seq<char>>, event: ServerEvent<Seq<char>>) -> TransferRow<
    Seq<char>,
> {
    match event {
        ServerEvent::TransferProgress { bytes_done, bytes_total, .. } => TransferRow {
            done: bytes_done,
            total: bytes_total,
            ..row
        },
        ServerEvent::TransferFinished { .. } => TransferRow { done: row.total, ..row },
        _ => row,
    }
}

/// Whether a fraction is the share of a transfer that is done; it is at most
/// one, and a transfer without a size counts as not begun.
pub open spec fn is_share(r: (u64, u64), done: u64, total: u64) -> bool {
    &&& r.1 > 0
    &&& r.0 <= r.1
    &&& if total == 0 {
        r.0 == 0
    } else {
        r.1 == total && r.0 == if done < total {
            done
        } else {
            total
        }
    }
}

/// A transfer is shown as begun once a byte has moved, and as complete exactly
/// when all of them have; in between it is shown in proportion.
pub proof fn law_shares_are_in_proportion(r: (u64, u64), done: u64, total: u64)
    requires
        is_share(r, done, total),
    ensures
        total > 0 ==> (r.0 == r.1 <==> done >= total),
        total > 0 ==> (r.0 == 0 <==> done == 0),
        total == 0 ==> r.0 == 0,
        0 < done < total ==> r.0 * total == done * r.1,
{
}

impl TransferRow<String> {
    /// The share of the transfer that is done, as a fraction that is at most
    /// one; a transfer without a size counts as not begun.
    pub fn ratio(&self) -> (r: (u64, u64))
        ensures
            is_share(r, self.done, self.total),
    {
        if self.total == 0 {
            (0, 1)
        } else if self.done < self.total {
            (self.done, self.total)
        } else {
            (self.total, self.total)
        }
    }

    /// Takes an event about this transfer.
    pub fn update(&mut self, event: &ServerEvent)
        ensures
            final(self)@ == progressed(old(self)@, event@),
    {
        match event {
            ServerEvent::TransferProgress { bytes_done, bytes_total, .. } => {
                self.done = *bytes_done;
                self.total = *bytes_total;
            },
            ServerEvent::TransferFinished { .. } => {
                self.done = self.total;
            },
            _ => {},
        }
    }

    /// Insert-or-replace by id.
    pub fn upsert(transfers: &mut Vec<TransferRow>, row: TransferRow)
        ensures
            transfers_view(final(transfers)@) == transfer_upserted(
                transfers_view(old(transfers)@),
                row@,
            ),
    {
        let ghost before = transfers_view(transfers@);
        let ghost new = row@;
        match find_transfer(transfers, row.id.as_str()) {
            Some(i) => {
                transfers.set(i, row);
                assert(transfers_view(transfers@) =~= before.update(i as int, new));
            },
            None => {
                transfers.push(row);
                assert(transfers_view(transfers@) =~= before.push(new));
            },
        }
    }
}

/// The first text under one of `keys`.
pub open spec fn first_text(j: JsonView, keys: Seq<Seq<char>>) -> Option<Seq<char>>
    decreases keys.len(),
{
    if keys.len() == 0 {
        None
    } else {
        match json::text_at(j, keys[0]) {
            Some(s) => Some(s),
            None => first_text(j, keys.drop_first()),
        }
    }
}

/// The first flag under one of `keys`.
pub open spec fn first_flag(j: JsonView, keys: Seq<Seq<char>>) -> Option<bool>
    decreases keys.len(),
{
    if keys.len() == 0 {
        None
    } else {
        match json::flag_at(j, keys[0]) {
            Some(b) => Some(b),
            None => first_flag(j, keys.drop_first()),
        }
    }
}

fn field_str(j: &Json, keys: &Vec<&'static str>) -> (r: Option<String>)
    ensures
        match r {
            Some(s) => first_text(j@, plugins::literals(keys@)) == Some(s@),
            None => first_text(j@, plugins::literals(keys@)) is None,
        },
{
    let ghost names = plugins::literals(keys@);
    let mut i: usize = 0;
    assert(names.skip(0) =~= names);
    while i < keys.len()
        invariant
            i <= keys.len(),
            names == plugins::literals(keys@),
            first_text(j@, names) == first_text(j@, names.skip(i as int)),
        decreases keys.len() - i,
    {
        proof {
            assert(names.skip(i as int)[0] == keys@[i as int]@);
            assert(names.skip(i as int).drop_first() =~= names.skip(i + 1));
        }
        if let Some(s) = j.str_member(keys[i]) {
            return Some(s.to_owned());
        }
        i += 1;
    }
    None
}

fn field_bool(j: &Json, keys: &Vec<&'static str>) -> (r: Option<bool>)
    ensures
        r == first_flag(j@, plugins::literals(keys@)),
{
    let ghost names = plugins::literals(keys@);
    let mut i: usize = 0;
    assert(names.skip(0) =~= names);
    while i < keys.len()
        invariant
            i <= keys.len(),
            names == plugins::literals(keys@),
            first_flag(j@, names) == first_flag(j@, names.skip(i as int)),
        decreases keys.len() - i,
    {
        proof {
            assert(names.skip(i as int)[0] == keys@[i as int]@);
            assert(names.skip(i as int).drop_first() =~= names.skip(i + 1));
        }
        if let Some(b) = j.bool_member(keys[i]) {
            return Some(b);
        }
        i += 1;
    }
    None
}

/// The items of a list, bare or under `wrapper` in an object.
pub open spec fn items_of(j: JsonView, wrapper: Seq<char>) -> Seq<JsonView> {
    match (j, json::list_at(j, wrapper)) {
        (JsonView::Array(s), _) => s,
        (_, Some(s)) => s,
        (_, None) => Seq::empty(),
    }
}

fn list_items<'a>(j: &'a Json, wrapper: &str) -> (r: Option<&'a Vec<Json>>)
    ensures
        items_of(j@, wrapper@) == match r {
            Some(items) => json::list_view(items@),
            None => Seq::empty(),
        },
{
    match j {
        Json::Array(items) => Some(items),
        _ => j.array_member(wrapper),
    }
}

/// A text, or else `fallback`.
pub open spec fn or_text(s: Option<Seq<char>>, fallback: Seq<char>) -> Seq<char> {
    match s {
        Some(t) => t,
        None => fallback,
    }
}

fn or_else(s: Option<String>, fallback: &str) -> (r: String)
    ensures
        r@ == or_text(crate::plugins::battery::optional_text(s), fallback@),
{
    match s {
        Some(t) => t,
        None => fallback.to_owned(),
    }
}

/// The device that an entry of a device list gives; it needs an id.
pub open spec fn device_in(j: JsonView) -> Option<DeviceCard<Seq<char>>> {
    match first_text(j, seq!["id"@, "device_id"@]) {
        Some(id) => {
            let state = or_text(first_text(j, seq!["state"@, "status"@]), "found"@);
            Some(
                DeviceCard {
                    id,
                    name: or_text(first_text(j, seq!["name"@, "device_name"@]), id),
                    kind: or_text(
                        first_text(j, seq!["type"@, "kind"@, "device_type"@]),
                        "unknown"@,
                    ),
                    paired: match first_flag(j, seq!["paired"@]) {
                        Some(b) => b,
                        None => state == "paired"@,
                    },
                    state,
                },
            )
        },
        None => None,
    }
}

/// The devices that a device list gives.
pub open spec fn devices_in(items: Seq<JsonView>) -> Seq<DeviceCard<Seq<char>>>
    decreases items.len(),
{
    if items.len() == 0 {
        Seq::empty()
    } else {
        match device_in(items.last()) {
            Some(row) => devices_in(items.drop_last()).push(row),
            None => devices_in(items.drop_last()),
        }
    }
}

fn read_device(j: &Json) -> (r: Option<DeviceCard>)
    ensures
        match r {
            Some(row) => device_in(j@) == Some(row@),
            None => device_in(j@) is None,
        },
{
    let id_keys: Vec<&'static str> = vec!["id", "device_id"];
    let name_keys: Vec<&'static str> = vec!["name", "device_name"];
    let kind_keys: Vec<&'static str> = vec!["type", "kind", "device_type"];
    let state_keys: Vec<&'static str> = vec!["state", "status"];
    let paired_keys: Vec<&'static str> = vec!["paired"];
    proof {
        assert(plugins::literals(id_keys@) =~= seq!["id"@, "device_id"@]);
        assert(plugins::literals(name_keys@) =~= seq!["name"@, "device_name"@]);
        assert(plugins::literals(kind_keys@) =~= seq!["type"@, "kind"@, "device_type"@]);
        assert(plugins::literals(state_keys@) =~= seq!["state"@, "status"@]);
        assert(plugins::literals(paired_keys@) =~= seq!["paired"@]);
    }
    let id = match field_str(j, &id_keys) {
        Some(id) => id,
        None => {
            return None;
        },
    };
    let name = or_else(field_str(j, &name_keys), id.as_str());
    let kind = or_else(field_str(j, &kind_keys), "unknown");
    let state = or_else(field_str(j, &state_keys), "found");
    let paired = match field_bool(j, &paired_keys) {
        Some(b) => b,
        None => text::same(state.as_str(), "paired"),
    };
    Some(DeviceCard { id, name, kind, paired, state })
}

/// Parse a device-list result payload.
pub fn parse_devices(value: &Json) -> (r: Vec<DeviceCard>)
    ensures
        cards_view(r@) == devices_in(items_of(value@, "devices"@)),
{
    let mut out: Vec<DeviceCard> = Vec::new();
    assert(cards_view(out@) =~= Seq::empty());
    if let Some(items) = list_items(value, "devices") {
        let ghost views = json::list_view(items@);
        proof {
            json::lemma_list_view(items@);
            assert(views.take(0) =~= Seq::empty());
        }
        let mut i: usize = 0;
        while i < items.len()
            invariant
                i <= items.len(),
                views == json::list_view(items@),
                views.len() == items@.len(),
                forall|j: int| 0 <= j < items@.len() ==> #[trigger] views[j] == items@[j]@,
                cards_view(out@) == devices_in(views.take(i as int)),
            decreases items.len() - i,
        {
            proof {
                assert(views.take(i + 1).drop_last() =~= views.take(i as int));
                assert(views.take(i + 1).last() == views[i as int]);
            }
            if let Some(row) = read_device(&items[i]) {
                let ghost before = cards_view(out@);
                let ghost new = row@;
                out.push(row);
                assert(cards_view(out@) =~= before.push(new));
            }
            i += 1;
        }
        assert(views.take(i as int) =~= views);
    }
    out
}

/// The plugin that an entry of a plugin list gives; it needs a name.
pub open spec fn plugin_in(j: JsonView) -> Option<PluginRow<Seq<char>>> {
    match first_text(j, seq!["name"@, "plugin"@, "id"@]) {
        Some(name) => Some(
            PluginRow {
                name,
                title: or_text(first_text(j, seq!["title"@, "label"@]), name),
                enabled: first_flag(j, seq!["enabled"@, "active"@]) == Some(true),
            },
        ),
        None => None,
    }
}

/// The plugins that a plugin list gives.
pub open spec fn plugins_in(items: Seq<JsonView>) -> Seq<PluginRow<Seq<char>>>
    decreases items.len(),
{
    if items.len() == 0 {
        Seq::empty()
    } else {
        match plugin_in(items.last()) {
            Some(row) => plugins_in(items.drop_last()).push(row),
            None => plugins_in(items.drop_last()),
        }
    }
}

fn read_plugin(j: &Json) -> (r: Option<PluginRow>)
    ensures
        match r {
            Some(row) => plugin_in(j@) == Some(row@),
            None => plugin_in(j@) is None,
        },
{
    let name_keys: Vec<&'static str> = vec!["name", "plugin", "id"];
    let title_keys: Vec<&'static str> = vec!["title", "label"];
    let enabled_keys: Vec<&'static str> = vec!["enabled", "active"];
    proof {
        assert(plugins::literals(name_keys@) =~= seq!["name"@, "plugin"@, "id"@]);
        assert(plugins::literals(title_keys@) =~= seq!["title"@, "label"@]);
        assert(plugins::literals(enabled_keys@) =~= seq!["enabled"@, "active"@]);
    }
    let name = match field_str(j, &name_keys) {
        Some(name) => name,
        None => {
            return None;
        },
    };
    let title = or_else(field_str(j, &title_keys), name.as_str());
    let enabled = match field_bool(j, &enabled_keys) {
        Some(b) => b,
        None => false,
    };
    Some(PluginRow { name, title, enabled })
}

/// Parse a plugin-list result payload for one device.
pub fn parse_plugins(value: &Json) -> (r: Vec<PluginRow>)
    ensures
        plugins_view(r@) == plugins_in(items_of(value@, "plugins"@)),
{
    let mut out: Vec<PluginRow> = Vec::new();
    assert(plugins_view(out@) =~= Seq::empty());
    if let Some(items) = list_items(value, "plugins") {
        let ghost views = json::list_view(items@);
        proof {
            json::lemma_list_view(items@);
            assert(views.take(0) =~= Seq::empty());
        }
        let mut i: usize = 0;
        while i < items.len()
            invariant
                i <= items.len(),
                views == json::list_view(items@),
                views.len() == items@.len(),
                forall|j: int| 0 <= j < items@.len() ==> #[trigger] views[j] == items@[j]@,
                plugins_view(out@) == plugins_in(views.take(i as int)),
            decreases items.len() - i,
        {
            proof {
                assert(views.take(i + 1).drop_last() =~= views.take(i as int));
                assert(views.take(i + 1).last() == views[i as int]);
            }
            if let Some(row) = read_plugin(&items[i]) {
                let ghost before = plugins_view(out@);
                let ghost new = row@;
                out.push(row);
                assert(plugins_view(out@) =~= before.push(new));
            }
            i += 1;
        }
        assert(views.take(i as int) =~= views);
    }
    out
}

/// The notification that an entry of a notification list gives; it needs an
/// id.
pub open spec fn notification_in(j: JsonView) -> Option<NotifRow<Seq<char>>> {
    match first_text(j, seq!["id"@, "notification_id"@]) {
        Some(id) => Some(
            NotifRow {
                id,
                app: or_text(first_text(j, seq!["app"@, "application"@, "source"@]), ""@),
                title: or_text(first_text(j, seq!["title"@, "summary"@]), ""@),
                body: or_text(first_text(j, seq!["body"@, "text"@, "message"@]), ""@),
            },
        ),
        None => None,
    }
}

/// The notifications that a notification list gives.
pub open spec fn notifications_in(items: Seq<JsonView>) -> Seq<NotifRow<Seq<char>>>
    decreases items.len(),
{
    if items.len() == 0 {
        Seq::empty()
    } else {
        match notification_in(items.last()) {
            Some(row) => notifications_in(items.drop_last()).push(row),
            None => notifications_in(items.drop_last()),
        }
    }
}

fn read_notification(j: &Json) -> (r: Option<NotifRow>)
    ensures
        match r {
            Some(row) => notification_in(j@) == Some(row@),
            None => notification_in(j@) is None,
        },
{
    let id_keys: Vec<&'static str> = vec!["id", "notification_id"];
    let app_keys: Vec<&'static str> = vec!["app", "application", "source"];
    let title_keys: Vec<&'static str> = vec!["title", "summary"];
    let body_keys: Vec<&'static str> = vec!["body", "text", "message"];
    proof {
        assert(plugins::literals(id_keys@) =~= seq!["id"@, "notification_id"@]);
        assert(plugins::literals(app_keys@) =~= seq!["app"@, "application"@, "source"@]);
        assert(plugins::literals(title_keys@) =~= seq!["title"@, "summary"@]);
        assert(plugins::literals(body_keys@) =~= seq!["body"@, "text"@, "message"@]);
    }
    let id = match field_str(j, &id_keys) {
        Some(id) => id,
        None => {
            return None;
        },
    };
    let app = or_else(field_str(j, &app_keys), "");
    let title = or_else(field_str(j, &title_keys), "");
    let body = or_else(field_str(j, &body_keys), "");
    Some(NotifRow { id, app, title, body })
}

/// Parse a notification-list result payload.
pub fn parse_notifications(value: &Json) -> (r: Vec<NotifRow>)
    ensures
        notifs_view(r@) == notifications_in(items_of(value@, "notifications"@)),
{
    let mut out: Vec<NotifRow> = Vec::new();
    assert(notifs_view(out@) =~= Seq::empty());
    if let Some(items) = list_items(value, "notifications") {
        let ghost views = json::list_view(items@);
        proof {
            json::lemma_list_view(items@);
            assert(views.take(0) =~= Seq::empty());
        }
        let mut i: usize = 0;
        while i < items.len()
            invariant
                i <= items.len(),
                views == json::list_view(items@),
                views.len() == items@.len(),
                forall|j: int| 0 <= j < items@.len() ==> #[trigger] views[j] == items@[j]@,
                notifs_view(out@) == notifications_in(views.take(i as int)),
            decreases items.len() - i,
        {
            proof {
                assert(views.take(i + 1).drop_last() =~= views.take(i as int));
                assert(views.take(i + 1).last() == views[i as int]);
            }
            if let Some(row) = read_notification(&items[i]) {
                let ghost before = notifs_view(out@);
                let ghost new = row@;
                out.push(row);
                assert(notifs_view(out@) =~= before.push(new));
            }
            i += 1;
        }
        assert(views.take(i as int) =~= views);
    }
    out
}

/// Stored plugin toggles, by device and plugin.
pub type PluginToggles = TextMap<bool>;

/// The key of a plugin toggle.
pub open spec fn key_of(device_id: Seq<char>, plugin: Seq<char>) -> Seq<char> {
    device_id + ":"@ + plugin
}

/// The key of a plugin toggle.
pub fn toggle_key(device_id: &str, plugin: &str) -> (r: String)
    ensures
        r@ == key_of(device_id@, plugin@),
{
    device_id.to_owned().concat(":").concat(plugin)
}

/// The device and plugin of a toggle key: what stands before and behind its
/// last colon, if neither is empty.
pub open spec fn key_parts(key: Seq<char>) -> Option<(Seq<char>, Seq<char>)> {
    match text::last_position(key, ':') {
        Some(i) if 0 < i < key.len() - 1 => Some((key.take(i), key.skip(i + 1))),
        _ => None,
    }
}

/// Cuts a toggle key into device and plugin.
pub fn split_toggle_key(key: &str) -> (r: Option<(String, String)>)
    ensures
        match r {
            Some((device_id, plugin)) => key_parts(key@) == Some((device_id@, plugin@)),
            None => key_parts(key@) is None,
        },
{
    let chars = text::to_chars(key);
    match text::find_last(&chars, ':') {
        Some(i) => {
            if i > 0 && i < chars.len() - 1 {
                proof {
                    assert(chars@.subrange(0, i as int) =~= key@.take(i as int));
                    assert(chars@.subrange(i + 1, chars.len() as int) =~= key@.skip(i + 1));
                }
                Some(
                    (
                        text::range_string(&chars, 0, i),
                        text::range_string(&chars, i + 1, chars.len()),
                    ),
                )
            } else {
                None
            }
        },
        None => None,
    }
}

proof fn lemma_last_colon(s: Seq<char>, i: int)
    requires
        0 <= i < s.len(),
        s[i] == ':',
        forall|k: int| i < k < s.len() ==> s[k] != ':',
    ensures
        text::last_position(s, ':') == Some(i),
    decreases s.len(),
{
    if i < s.len() - 1 {
        assert(s.last() == s[s.len() - 1]);
        lemma_last_colon(s.drop_last(), i);
    }
}

/// Cutting the key of a toggle gives the device and plugin back; plugin names
/// hold no colon.
pub proof fn law_toggle_keys_read_back(device_id: Seq<char>, plugin: Seq<char>)
    requires
        device_id.len() > 0,
        plugin.len() > 0,
        forall|k: int| 0 <= k < plugin.len() ==> plugin[k] != ':',
    ensures
        key_parts(key_of(device_id, plugin)) == Some((device_id, plugin)),
{
    reveal_strlit(":");
    let key = key_of(device_id, plugin);
    let i = device_id.len() as int;
    assert(key[i] == ':');
    assert forall|k: int| i < k < key.len() implies key[k] != ':' by {
        assert(key[k] == plugin[k - i - 1]);
    }
    lemma_last_colon(key, i);
    assert(key.take(i) =~= device_id);
    assert(key.skip(i + 1) =~= plugin);
}

/// The rows with the stored toggles of the device laid over them.
pub open spec fn overlaid(
    rows: Seq<PluginRow<Seq<char>>>,
    device_id: Seq<char>,
    toggles: Map<Seq<char>, bool>,
) -> Seq<PluginRow<Seq<char>>> {
    rows.map_values(
        |row: PluginRow<Seq<char>>|
            if toggles.contains_key(key_of(device_id, row.name)) {
                PluginRow { enabled: toggles[key_of(device_id, row.name)], ..row }
            } else {
                row
            },
    )
}

/// Lays the stored toggles of a device over its plugin rows.
pub fn apply_persisted_toggles(rows: &mut Vec<PluginRow>, device_id: &str, toggles: &PluginToggles)
    ensures
        plugins_view(final(rows)@) == overlaid(plugins_view(old(rows)@), device_id@, toggles@),
{
    let ghost before = plugins_view(rows@);
    let ghost wanted = overlaid(before, device_id@, toggles@);
    let mut i: usize = 0;
    while i < rows.len()
        invariant
            i <= rows.len(),
            rows@.len() == before.len(),
            wanted == overlaid(before, device_id@, toggles@),
            forall|j: int| 0 <= j < i ==> (#[trigger] rows@[j])@ == wanted[j],
            forall|j: int| i <= j < rows@.len() ==> (#[trigger] rows@[j])@ == before[j],
        decreases rows.len() - i,
    {
        let ghost here = rows@;
        let key = toggle_key(device_id, rows[i].name.as_str());
        if let Some(enabled) = toggles.get(key.as_str()) {
            let row = PluginRow {
                name: rows[i].name.clone(),
                title: rows[i].title.clone(),
                enabled: *enabled,
            };
            rows.set(i, row);
        }
        assert(rows@[i as int]@ == wanted[i as int]);
        assert forall|j: int| 0 <= j < rows@.len() && j != i implies rows@[j] == here[j] by {}
        i += 1;
    }
    assert(plugins_view(rows@) =~= wanted);
}

/// The document in which toggles are kept.
pub open spec fn toggles_json(toggles: Map<Seq<char>, bool>) -> JsonView {
    JsonView::Object(toggles.map_values(|enabled: bool| JsonView::Bool(enabled)))
}

/// The toggles that a document keeps: the flags of an object. Whatever else it
/// holds is passed over.
pub open spec fn toggles_of(j: JsonView) -> Map<Seq<char>, bool> {
    match j {
        JsonView::Object(m) => Map::new(
            |key: Seq<char>| m.contains_key(key) && m[key] is Bool,
            |key: Seq<char>| m[key]->Bool_0,
        ),
        _ => Map::empty(),
    }
}

/// The toggles that a file keeps; one that is missing or unreadable keeps
/// none.
pub open spec fn toggles_in(stored: Option<Seq<u8>>) -> Map<Seq<char>, bool> {
    match stored {
        Some(bytes) => match json::parsed(bytes) {
            Ok(j) => toggles_of(j),
            Err(_) => Map::empty(),
        },
        None => Map::empty(),
    }
}

/// The contents of the file in which toggles are kept; reading it gives the
/// toggles back.
pub fn save_plugin_toggles(toggles: &PluginToggles) -> (r: Vec<u8>)
    ensures
        r@ == json::rendered(toggles_json(toggles@)),
        toggles_in(Some(r@)) == toggles@,
{
    let count = toggles.len();
    let ghost keys = toggles.keys();
    let mut record = Record::new();
    let mut i: usize = 0;
    assert(record@ =~= toggles_json(toggles@.restrict(keys.take(0).to_set()))->Object_0);
    while i < count
        invariant
            i <= count == toggles.items().len() == keys.len(),
            keys == toggles.keys(),
            record@ == toggles_json(toggles@.restrict(keys.take(i as int).to_set()))->Object_0,
        decreases count - i,
    {
        let (key, enabled) = toggles.item(i);
        let ghost before = keys.take(i as int);
        record = record.with(key.as_str(), Json::Bool(*enabled));
        proof {
            assert(keys[i as int] == key@);
            assert(keys.take(i + 1) =~= before.push(key@));
            before.lemma_push_to_set_commute(key@);
            assert(record@ =~= toggles_json(
                toggles@.restrict(keys.take(i + 1).to_set()),
            )->Object_0);
        }
        i += 1;
    }
    let document = record.done();
    proof {
        assert(keys.take(i as int) =~= keys);
        assert(toggles@.restrict(keys.to_set()) =~= toggles@);
        reveal_with_fuel(json::fits, 2);
        assert(toggles_of(toggles_json(toggles@)) =~= toggles@);
    }
    document.render()
}

/// Reads the file in which toggles are kept.
pub fn load_plugin_toggles(stored: Option<Vec<u8>>) -> (r: PluginToggles)
    ensures
        r@ == toggles_in(
            match stored {
                Some(bytes) => Some(bytes@),
                None => None,
            },
        ),
{
    let mut toggles = PluginToggles::new();
    let bytes = match stored {
        Some(bytes) => bytes,
        None => {
            return toggles;
        },
    };
    let document = match Json::parse(bytes.as_slice()) {
        Ok(document) => document,
        Err(_) => {
            return toggles;
        },
    };
    if let Json::Object(entries) = document {
        let mut i: usize = 0;
        assert(toggles@ =~= toggles_of(JsonView::Object(json::entries_view(entries@.take(0)))));
        while i < entries.len()
            invariant
                i <= entries.len(),
                toggles@ == toggles_of(
                    JsonView::Object(json::entries_view(entries@.take(i as int))),
                ),
            decreases entries.len() - i,
        {
            let ghost seen = entries@.take(i + 1);
            assert(seen.drop_last() =~= entries@.take(i as int));
            let ghost entry = entries@[i as int];
            assert(json::entries_view(seen) == json::entries_view(entries@.take(i as int)).insert(
                entry.0@,
                entry.1@,
            ));
            let key = entries[i].0.clone();
            match &entries[i].1 {
                Json::Bool(enabled) => {
                    let _ = toggles.insert(key, *enabled);
                },
                _ => {
                    let _ = toggles.remove(key.as_str());
                },
            }
            assert(toggles@ =~= toggles_of(JsonView::Object(json::entries_view(seen))));
            i += 1;
        }
        assert(entries@.take(i as int) =~= entries@);
    }
    toggles
}

proof fn lemma_first_text_of2(j: JsonView, a: Seq<char>, b: Seq<char>)
    ensures
        first_text(j, seq![a, b]) == match json::text_at(j, a) {
            Some(s) => Some(s),
            None => json::text_at(j, b),
        },
{
    let keys = seq![a, b];
    assert(keys.drop_first() =~= seq![b]);
    assert(seq![b].drop_first() =~= Seq::<Seq<char>>::empty());
    assert(first_text(j, Seq::<Seq<char>>::empty()) is None);
    assert(first_text(j, seq![b]) == json::text_at(j, b));
}

proof fn lemma_first_text_of3(j: JsonView, a: Seq<char>, b: Seq<char>, c: Seq<char>)
    ensures
        first_text(j, seq![a, b, c]) == match json::text_at(j, a) {
            Some(s) => Some(s),
            None => match json::text_at(j, b) {
                Some(s) => Some(s),
                None => json::text_at(j, c),
            },
        },
{
    assert(seq![a, b, c].drop_first() =~= seq![b, c]);
    lemma_first_text_of2(j, b, c);
}

/// A device row takes over what its entry says: the id, without which there
/// is no row, the name or else the id, the kind or else `unknown`, the state
/// or else `found`, and whether the device is paired, which the state tells
/// where the entry does not.
pub proof fn law_device_rows_say_what_is_listed(j: JsonView)
    requires
        device_in(j) is Some,
    ensures
        json::text_at(j, "id"@) matches Some(s) ==> device_in(j)->0.id == s,
        json::text_at(j, "id"@) is None ==> (json::text_at(j, "device_id"@) matches Some(s) ==> device_in(j)->0.id == s),
        json::text_at(j, "name"@) matches Some(s) ==> device_in(j)->0.name == s,
        json::text_at(j, "name"@) is None ==> (json::text_at(j, "device_name"@) matches Some(s) ==> device_in(j)->0.name == s),
        json::text_at(j, "name"@) is None && json::text_at(j, "device_name"@) is None ==> device_in(j)->0.name == device_in(j)->0.id,
        json::text_at(j, "type"@) matches Some(s) ==> device_in(j)->0.kind == s,
        json::text_at(j, "type"@) is None ==> (json::text_at(j, "kind"@) matches Some(s) ==> device_in(j)->0.kind == s),
        json::text_at(j, "type"@) is None && json::text_at(j, "kind"@) is None ==> (json::text_at(j, "device_type"@) matches Some(s) ==> device_in(j)->0.kind == s),
        json::text_at(j, "type"@) is None && json::text_at(j, "kind"@) is None && json::text_at(j, "device_type"@) is None ==> device_in(j)->0.kind == "unknown"@,
        json::text_at(j, "state"@) matches Some(s) ==> device_in(j)->0.state == s,
        json::text_at(j, "state"@) is None ==> (json::text_at(j, "status"@) matches Some(s) ==> device_in(j)->0.state == s),
        json::text_at(j, "state"@) is None && json::text_at(j, "status"@) is None ==> device_in(j)->0.state == "found"@,
        json::flag_at(j, "paired"@) matches Some(b) ==> device_in(j)->0.paired == b,
        json::flag_at(j, "paired"@) is None ==> device_in(j)->0.paired == (device_in(j)->0.state
            == "paired"@),
{
    lemma_first_text_of2(j, "id"@, "device_id"@);
    lemma_first_text_of2(j, "name"@, "device_name"@);
    lemma_first_text_of3(j, "type"@, "kind"@, "device_type"@);
    lemma_first_text_of2(j, "state"@, "status"@);
    assert(seq!["paired"@].drop_first() =~= Seq::<Seq<char>>::empty());
    assert(first_flag(j, Seq::<Seq<char>>::empty()) is None);
    assert(first_flag(j, seq!["paired"@]) == json::flag_at(j, "paired"@));
}

/// A plugin row takes over what its entry says: the name, without which there
/// is no row, the title or else the name, and whether the plugin is enabled,
/// which it is only where the entry says so.
pub proof fn law_plugin_rows_say_what_is_listed(j: JsonView)
    requires
        plugin_in(j) is Some,
    ensures
        json::text_at(j, "name"@) matches Some(s) ==> plugin_in(j)->0.name == s,
        json::text_at(j, "name"@) is None ==> (json::text_at(j, "plugin"@) matches Some(s) ==> plugin_in(j)->0.name == s),
        json::text_at(j, "name"@) is None && json::text_at(j, "plugin"@) is None ==> (json::text_at(j, "id"@) matches Some(s) ==> plugin_in(j)->0.name == s),
        json::text_at(j, "title"@) matches Some(s) ==> plugin_in(j)->0.title == s,
        json::text_at(j, "title"@) is None ==> (json::text_at(j, "label"@) matches Some(s) ==> plugin_in(j)->0.title == s),
        json::text_at(j, "title"@) is None && json::text_at(j, "label"@) is None ==> plugin_in(j)->0.title == plugin_in(j)->0.name,
        json::flag_at(j, "enabled"@) matches Some(b) ==> plugin_in(j)->0.enabled == b,
        json::flag_at(j, "enabled"@) is None ==> plugin_in(j)->0.enabled == (json::flag_at(
            j,
            "active"@,
        ) == Some(true)),
{
    lemma_first_text_of3(j, "name"@, "plugin"@, "id"@);
    lemma_first_text_of2(j, "title"@, "label"@);
    assert(seq!["enabled"@, "active"@].drop_first() =~= seq!["active"@]);
    assert(seq!["active"@].drop_first() =~= Seq::<Seq<char>>::empty());
    assert(first_flag(j, Seq::<Seq<char>>::empty()) is None);
    assert(first_flag(j, seq!["active"@]) == json::flag_at(j, "active"@));
}

/// A notification row takes over what its entry says: the id, without which
/// there is no row, the application, the title and the body, each empty where
/// the entry does not have it.
pub proof fn law_notification_rows_say_what_is_listed(j: JsonView)
    requires
        notification_in(j) is Some,
    ensures
        json::text_at(j, "id"@) matches Some(s) ==> notification_in(j)->0.id == s,
        json::text_at(j, "id"@) is None ==> (json::text_at(j, "notification_id"@) matches Some(s) ==> notification_in(j)->0.id == s),
        json::text_at(j, "app"@) matches Some(s) ==> notification_in(j)->0.app == s,
        json::text_at(j, "app"@) is None ==> (json::text_at(j, "application"@) matches Some(s) ==> notification_in(j)->0.app == s),
        json::text_at(j, "app"@) is None && json::text_at(j, "application"@) is None ==> (json::text_at(j, "source"@) matches Some(s) ==> notification_in(j)->0.app == s),
        json::text_at(j, "app"@) is None && json::text_at(j, "application"@) is None && json::text_at(j, "source"@) is None ==> notification_in(j)->0.app == ""@,
        json::text_at(j, "title"@) matches Some(s) ==> notification_in(j)->0.title == s,
        json::text_at(j, "title"@) is None ==> (json::text_at(j, "summary"@) matches Some(s) ==> notification_in(j)->0.title == s),
        json::text_at(j, "title"@) is None && json::text_at(j, "summary"@) is None ==> notification_in(j)->0.title == ""@,
        json::text_at(j, "body"@) matches Some(s) ==> notification_in(j)->0.body == s,
        json::text_at(j, "body"@) is None ==> (json::text_at(j, "text"@) matches Some(s) ==> notification_in(j)->0.body == s),
        json::text_at(j, "body"@) is None && json::text_at(j, "text"@) is None ==> (json::text_at(j, "message"@) matches Some(s) ==> notification_in(j)->0.body == s),
        json::text_at(j, "body"@) is None && json::text_at(j, "text"@) is None && json::text_at(j, "message"@) is None ==> notification_in(j)->0.body == ""@,
{
    lemma_first_text_of2(j, "id"@, "notification_id"@);
    lemma_first_text_of3(j, "app"@, "application"@, "source"@);
    lemma_first_text_of2(j, "title"@, "summary"@);
    lemma_first_text_of3(j, "body"@, "text"@, "message"@);
}

/// An entry gives a row exactly where it can be told which device, plugin or
/// notification it is about.
pub proof fn law_entries_need_an_identity(j: JsonView)
    ensures
        device_in(j) is None <==> json::text_at(j, "id"@) is None && json::text_at(j, "device_id"@) is None,
        plugin_in(j) is None <==> json::text_at(j, "name"@) is None && json::text_at(j, "plugin"@) is None && json::text_at(j, "id"@) is None,
        notification_in(j) is None <==> json::text_at(j, "id"@) is None && json::text_at(j, "notification_id"@) is None,
{
    lemma_first_text_of2(j, "id"@, "device_id"@);
    lemma_first_text_of3(j, "name"@, "plugin"@, "id"@);
    lemma_first_text_of2(j, "id"@, "notification_id"@);
}

/// A list is read entry by entry: what stands behind an entry neither changes
/// nor moves the rows of what stands before it.
pub proof fn law_lists_are_read_in_order(items: Seq<JsonView>, more: JsonView)
    ensures
        devices_in(items.push(more)).take(devices_in(items).len() as int) == devices_in(items),
        devices_in(items.push(more)).len() == devices_in(items).len() + (if device_in(more) is Some {
            1int
        } else {
            0
        }),
        device_in(more) is Some ==> devices_in(items.push(more)).last() == device_in(more)->0,
        plugins_in(items.push(more)).take(plugins_in(items).len() as int) == plugins_in(items),
        plugins_in(items.push(more)).len() == plugins_in(items).len() + (if plugin_in(more) is Some {
            1int
        } else {
            0
        }),
        plugin_in(more) is Some ==> plugins_in(items.push(more)).last() == plugin_in(more)->0,
        notifications_in(items.push(more)).take(notifications_in(items).len() as int)
            == notifications_in(items),
        notifications_in(items.push(more)).len() == notifications_in(items).len() + (
        if notification_in(more) is Some {
            1int
        } else {
            0
        }),
        notification_in(more) is Some ==> notifications_in(items.push(more)).last()
            == notification_in(more)->0,
{
    let all = items.push(more);
    assert(all.drop_last() =~= items);
    assert(all.last() == more);
    assert(devices_in(all).take(devices_in(items).len() as int) =~= devices_in(items));
    assert(plugins_in(all).take(plugins_in(items).len() as int) =~= plugins_in(items));
    assert(notifications_in(all).take(notifications_in(items).len() as int) =~= notifications_in(
        items,
    ));
}

/// A list is taken as it is, bare or wrapped in an object.
pub proof fn law_lists_may_be_wrapped(items: Seq<JsonView>, j: JsonView, wrapper: Seq<char>)
    ensures
        items_of(JsonView::Array(items), wrapper) == items,
        j !is Array ==> (json::list_at(j, wrapper) matches Some(s) ==> items_of(j, wrapper) == s),
        j !is Array ==> (json::list_at(j, wrapper) is None ==> items_of(j, wrapper).len() == 0),
{
}

/// A row shows the counts that were reported last; a finished transfer has
/// everything done, and nothing but the counts ever changes.
pub proof fn law_progress_is_shown_as_reported(
    row: TransferRow<Seq<char>>,
    event: ServerEvent<Seq<char>>,
)
    ensures
        progressed(row, event).id == row.id,
        progressed(row, event).name == row.name,
        event matches ServerEvent::TransferProgress { bytes_done, bytes_total, .. } ==> progressed(
            row,
            event,
        ).done == bytes_done && progressed(row, event).total == bytes_total,
        event is TransferFinished ==> progressed(row, event).done == row.total && progressed(
            row,
            event,
        ).total == row.total,
        event !is TransferProgress && event !is TransferFinished ==> progressed(row, event) == row,
{
}

/// A device that merely announced itself is not paired; one in another state
/// is paired exactly where the state says so, and stays the same device.
pub proof fn law_states_tell_who_is_paired(
    card: DeviceCard<Seq<char>>,
    state: Seq<char>,
    id: Seq<char>,
    name: Seq<char>,
)
    ensures
        found_card(id, name).id == id,
        found_card(id, name).name == name,
        !found_card(id, name).paired,
        in_state(card, state).state == state,
        in_state(card, state).paired <==> state == "paired"@,
        in_state(card, state).id == card.id,
        in_state(card, state).name == card.name,
        in_state(card, state).kind == card.kind,
{
}

/// A stored toggle decides about its plugin on its device; every other row
/// stays as it was reported.
pub proof fn law_toggles_overlay_their_plugin(
    rows: Seq<PluginRow<Seq<char>>>,
    device_id: Seq<char>,
    toggles: Map<Seq<char>, bool>,
    i: int,
)
    requires
        0 <= i < rows.len(),
    ensures
        overlaid(rows, device_id, toggles).len() == rows.len(),
        overlaid(rows, device_id, toggles)[i].name == rows[i].name,
        overlaid(rows, device_id, toggles)[i].title == rows[i].title,
        toggles.contains_key(device_id + ":"@ + rows[i].name) ==> overlaid(
            rows,
            device_id,
            toggles,
        )[i].enabled == toggles[device_id + ":"@ + rows[i].name],
        !toggles.contains_key(device_id + ":"@ + rows[i].name) ==> overlaid(
            rows,
            device_id,
            toggles,
        )[i].enabled == rows[i].enabled,
{
}

/// A stored toggle is read back as it was written, and nothing else is.
pub proof fn law_toggles_are_flags(toggles: Map<Seq<char>, bool>, key: Seq<char>)
    ensures
        toggles.contains_key(key) ==> json::flag_at(toggles_json(toggles), key) == Some(
            toggles[key],
        ),
        !toggles.contains_key(key) ==> json::flag_at(toggles_json(toggles), key) is None,
        toggles_of(toggles_json(toggles)) == toggles,
{
    let m = toggles_json(toggles)->Object_0;
    assert(m.contains_key(key) <==> toggles.contains_key(key));
    assert(toggles_of(toggles_json(toggles)) =~= toggles);
}

/// The label tells the status: each has its own.
pub proof fn law_labels_tell_the_status(conn: ConnState)
    ensures
        conn.text() == "connected"@ <==> conn == ConnState::Connected,
        conn.text() == "connecting"@ <==> conn == ConnState::Connecting,
        conn.text() == "disconnected"@ <==> conn == ConnState::Disconnected,
{
    reveal_strlit("connected");
    reveal_strlit("connecting");
    reveal_strlit("disconnected");
    assert("connected"@.len() == 9);
    assert("connecting"@.len() == 10);
    assert("disconnected"@.len() == 12);
}

} // verus!
