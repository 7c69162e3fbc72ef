//! What the front-end shows for a state: the texts, and which actions are
//! offered.
use super::app;
use super::app::HandfastApp;
use super::model;
use super::model::{ConnState, DeviceCard, NotifRow, TransferRow};
use crate::text;
use vstd::prelude::*;

verus! {

/// The action that a device card offers.
#[derive(Debug, PartialEq, Eq)]
pub enum CardAction {
    /// A request is in flight: an inert button with its label.
    InFlight(String),
    /// Revoke the pairing.
    Unpair,
    /// Start pairing.
    Pair,
}

/// Whether a card offers an action: the label of a request in flight, or else
/// what changes whether the device is paired.
pub open spec fn offers(card: DeviceCard<Seq<char>>, action: CardAction) -> bool {
    let in_flight = card.state == "pairing"@ || card.state == "unpairing"@;
    match action {
        CardAction::InFlight(label) => in_flight && label@ == card.state,
        CardAction::Unpair => !in_flight && card.paired,
        CardAction::Pair => !in_flight && !card.paired,
    }
}

/// The action that a device card offers.
pub fn card_action(device: &DeviceCard) -> (r: CardAction)
    ensures
        offers(device@, r),
{
    if text::same(device.state.as_str(), "pairing") || text::same(
        device.state.as_str(),
        "unpairing",
    ) {
        CardAction::InFlight(device.state.clone())
    } else if device.paired {
        CardAction::Unpair
    } else {
        CardAction::Pair
    }
}

/// The two lines of the device card at `index`; the selected one is marked.
pub open spec fn row_lines(
    selected: Option<usize>,
    index: usize,
    card: DeviceCard<Seq<char>>,
) -> (Seq<char>, Seq<char>) {
    (
        if selected == Some(index) {
            "> "@ + card.name
        } else {
            card.name
        },
        card.kind + "/"@ + card.state,
    )
}

/// The two lines of the device card at `index`; the selected one is marked.
pub fn device_row(selected: Option<usize>, index: usize, device: &DeviceCard) -> (r: (
    String,
    String,
))
    ensures
        (r.0@, r.1@) == row_lines(selected, index, device@),
{
    let marked = match selected {
        Some(i) => i == index,
        None => false,
    };
    let first = if marked {
        "> ".to_owned().concat(device.name.as_str())
    } else {
        device.name.clone()
    };
    (first, device.kind.clone().concat("/").concat(device.state.as_str()))
}

/// The text in place of an empty device list.
pub fn devices_hint(conn: ConnState) -> (r: &'static str)
    ensures
        r@ == if conn == ConnState::Connected {
            "discovering devices..."@
        } else {
            "waiting for the daemon..."@
        },
{
    match conn {
        ConnState::Connected => "discovering devices...",
        _ => "waiting for the daemon...",
    }
}

/// The text in place of an empty plugin list.
pub fn plugins_hint(conn: ConnState) -> (r: &'static str)
    ensures
        r@ == if conn == ConnState::Connected {
            "no plugins reported"@
        } else {
            "connect to list plugins"@
        },
{
    match conn {
        ConnState::Connected => "no plugins reported",
        _ => "connect to list plugins",
    }
}

/// The line of the connection status.
pub fn conn_label(conn: ConnState) -> (r: String)
    ensures
        r@ == "ipc: "@ + conn.text(),
{
    "ipc: ".to_owned().concat(conn.label())
}

/// Human-readable daemon identity line.
pub fn daemon_label(app: &HandfastApp) -> (r: String)
    ensures
        r@ == match app@.daemon_version {
            Some(version) => "daemon ipc v"@ + version,
            None => "daemon: unknown"@,
        },
{
    match &app.daemon_version {
        Some(version) => "daemon ipc v".to_owned().concat(version.as_str()),
        None => "daemon: unknown".to_owned(),
    }
}

/// Whether a refresh of the devices is offered.
pub open spec fn offers_refresh(v: app::AppView) -> bool {
    v.conn == ConnState::Connected
}

/// Whether sending the clipboard draft is offered.
pub open spec fn offers_send(v: app::AppView) -> bool {
    v.conn == ConnState::Connected && text::trimmed(v.clipboard_draft).len() > 0
}

/// Whether a refresh of the devices is offered.
pub fn can_refresh(app: &HandfastApp) -> (r: bool)
    ensures
        r == offers_refresh(app@),
{
    app.conn == ConnState::Connected
}

/// Whether sending the clipboard draft is offered.
pub fn can_send(app: &HandfastApp) -> (r: bool)
    ensures
        r == offers_send(app@),
{
    app.conn == ConnState::Connected && !text::trim(app.clipboard_draft.as_str()).as_str().is_empty()
}

/// The line of an error banner.
pub fn banner_line(banner: &str) -> (r: String)
    ensures
        r@ == "! "@ + banner@,
{
    "! ".to_owned().concat(banner)
}

/// The selected device.
pub fn selected_card(app: &HandfastApp) -> (r: Option<&DeviceCard>)
    ensures
        match r {
            Some(card) => app@.selected matches Some(i) && 0 <= i < app@.devices.len() && card@
                == app@.devices[i] && app::selection(app@) == Some(card@.id),
            None => app::selection(app@) is None,
        },
{
    match app.selected {
        Some(index) => if index < app.devices.len() {
            Some(&app.devices[index])
        } else {
            None
        },
        None => None,
    }
}

/// The heading of the detail panel.
pub open spec fn heading(card: DeviceCard<Seq<char>>) -> Seq<char> {
    "selected: "@ + card.name + " ("@ + card.id + ")"@
}

/// The heading of the detail panel.
pub fn selected_line(device: &DeviceCard) -> (r: String)
    ensures
        r@ == heading(device@),
{
    "selected: ".to_owned().concat(device.name.as_str()).concat(" (").concat(
        device.id.as_str(),
    ).concat(")")
}

/// The byte counts of a transfer row.
pub open spec fn counts_line(row: TransferRow<Seq<char>>) -> Seq<char> {
    text::decimal(row.done as nat) + "/"@ + text::decimal(row.total as nat) + " B"@
}

/// The byte counts of a transfer row.
pub fn transfer_line(row: &TransferRow) -> (r: String)
    ensures
        r@ == counts_line(row@),
{
    text::decimal_text(row.done as u128).concat("/").concat(
        text::decimal_text(row.total as u128).as_str(),
    ).concat(" B")
}

/// The heading of a notification row.
pub open spec fn notice_line(row: NotifRow<Seq<char>>) -> Seq<char> {
    row.app + ": "@ + row.title
}

/// The heading of a notification row.
pub fn notification_line(row: &NotifRow) -> (r: String)
    ensures
        r@ == notice_line(row@),
{
    row.app.clone().concat(": ").concat(row.title.as_str())
}

/// The clipboard draft can be sent exactly where the reducer would hand it to
/// the daemon.
pub proof fn law_offered_clipboard_is_sent(v: app::AppView)
    requires
        v.bridge,
        v.conn == ConnState::Connected,
        text::trimmed(v.clipboard_draft).len() > 0,
    ensures
        app::reduced(v, app::MessageView::SendPressed).1 == seq![
            app::Effect::Send(
                super::bridge::BridgeIn::ClipboardSet(text::trimmed(v.clipboard_draft)),
            ),
        ],
{
    reveal(app::clipboard_sent);
    reveal(app::dispatched);
}

/// An action is offered on a card exactly where no request is in flight for
/// it: pressing it makes the card inert.
pub proof fn law_pressed_cards_are_inert(v: app::AppView, id: Seq<char>)
    requires
        model::card_at(v.devices, id, 0) is Some,
    ensures
        ({
            let i = model::card_at(v.devices, id, 0)->0;
            let paired = app::reduced(v, app::MessageView::PairPressed(id)).0.devices;
            let unpaired = app::reduced(v, app::MessageView::UnpairPressed(id)).0.devices;
            paired[i].state == "pairing"@ && unpaired[i].state == "unpairing"@
        }),
{
    reveal(app::dispatched);
    reveal(app::bannered);
    reveal(app::logged);
    model::lemma_card_at(v.devices, id, 0);
}

/// Whatever a card offers changes whether the device is paired: a paired one
/// can be unpaired, another one paired, and neither while a request is in
/// flight.
pub proof fn law_cards_offer_what_changes_them(card: DeviceCard<Seq<char>>, action: CardAction)
    requires
        offers(card, action),
    ensures
        action is Unpair ==> card.paired,
        action is Pair ==> !card.paired,
        action is InFlight <==> card.state == "pairing"@ || card.state == "unpairing"@,
        action matches CardAction::InFlight(label) ==> label@ == card.state,
{
}

/// The first line of a card ends with the name, with a mark before it exactly
/// on the selected card; the second one gives the kind and then the state.
pub proof fn law_card_lines_name_the_device(
    selected: Option<usize>,
    index: usize,
    card: DeviceCard<Seq<char>>,
)
    ensures
        ({
            let (first, second) = row_lines(selected, index, card);
            &&& selected == Some(index) <==> first.len() == card.name.len() + 2
            &&& first.skip(first.len() - card.name.len()) == card.name
            &&& second.take(card.kind.len() as int) == card.kind
            &&& second.skip((card.kind.len() + 1) as int) == card.state
        }),
{
    reveal_strlit("> ");
    reveal_strlit("/");
    let (first, second) = row_lines(selected, index, card);
    assert(first.skip(first.len() - card.name.len()) =~= card.name);
    assert(second.take(card.kind.len() as int) =~= card.kind);
    assert(second.skip((card.kind.len() + 1) as int) =~= card.state);
}

/// The lines tell the name before the id, the bytes done before all bytes, and
/// the application before the title.
pub proof fn law_lines_tell_first_things_first(
    card: DeviceCard<Seq<char>>,
    row: TransferRow<Seq<char>>,
    notice: NotifRow<Seq<char>>,
)
    ensures
        ({
            let done = text::decimal(row.done as nat);
            let total = text::decimal(row.total as nat);
            &&& heading(card).skip("selected: "@.len() as int).take(card.name.len() as int)
                == card.name
            &&& heading(card).skip(("selected: "@.len() + card.name.len() + " ("@.len()) as int).take(
                card.id.len() as int,
            ) == card.id
            &&& counts_line(row).take(done.len() as int) == done
            &&& counts_line(row).skip((done.len() + 1) as int).take(total.len() as int) == total
            &&& notice_line(notice).take(notice.app.len() as int) == notice.app
            &&& notice_line(notice).skip((notice.app.len() + ": "@.len()) as int) == notice.title
        }),
{
    reveal_strlit("/");
    let done = text::decimal(row.done as nat);
    let total = text::decimal(row.total as nat);
    assert(heading(card).skip("selected: "@.len() as int).take(card.name.len() as int)
        =~= card.name);
    assert(heading(card).skip(("selected: "@.len() + card.name.len() + " ("@.len()) as int).take(
        card.id.len() as int,
    ) =~= card.id);
    assert(counts_line(row).take(done.len() as int) =~= done);
    assert(counts_line(row).skip((done.len() + 1) as int).take(total.len() as int) =~= total);
    assert(notice_line(notice).take(notice.app.len() as int) =~= notice.app);
    assert(notice_line(notice).skip((notice.app.len() + ": "@.len()) as int) =~= notice.title);
}

/// Nothing is offered that the daemon could not be asked for: without a
/// connection neither a refresh nor the clipboard, and no empty draft.
pub proof fn law_offers_need_a_connection(v: app::AppView)
    ensures
        v.conn == ConnState::Connected <==> offers_refresh(v),
        offers_send(v) ==> offers_refresh(v),
        offers_send(v) && v.bridge ==> app::reduced(v, app::MessageView::SendPressed).1.len() == 1,
        offers_refresh(v) && !offers_send(v) ==> app::reduced(
            v,
            app::MessageView::SendPressed,
        ).1.len() == 0,
{
    reveal(app::clipboard_sent);
    reveal(app::dispatched);
}

} // verus!
