//! Metadata of the full plugin roster.
use super::{MetaView, PluginMeta};
use crate::text;
use vstd::prelude::*;

verus! {

/// Battery status reporting.
pub open spec fn battery_view() -> MetaView {
    MetaView {
        name: "battery"@,
        title: "Battery report"@,
        incoming: seq!["kdeconnect.battery"@],
        outgoing: seq!["kdeconnect.battery.request"@],
        default_enabled: true,
        requires_wayland: false,
        requires_dbus: false,
    }
}

/// Battery status reporting.
pub fn battery() -> (r: PluginMeta)
    ensures
        r@ == battery_view(),
{
    let r = PluginMeta {
        name: "battery",
        title: "Battery report",
        incoming: vec!["kdeconnect.battery"],
        outgoing: vec!["kdeconnect.battery.request"],
        default_enabled: true,
        requires_wayland: false,
        requires_dbus: false,
    };
    assert(r@ =~= battery_view());
    r
}

/// Clipboard synchronization between devices.
pub open spec fn clipboard_view() -> MetaView {
    MetaView {
        name: "clipboard"@,
        title: "Clipboard sync"@,
        incoming: seq!["kdeconnect.clipboard"@],
        outgoing: seq!["kdeconnect.clipboard"@, "kdeconnect.clipboard.connect"@],
        default_enabled: true,
        requires_wayland: true,
        requires_dbus: false,
    }
}

/// Clipboard synchronization between devices.
pub fn clipboard() -> (r: PluginMeta)
    ensures
        r@ == clipboard_view(),
{
    let r = PluginMeta {
        name: "clipboard",
        title: "Clipboard sync",
        incoming: vec!["kdeconnect.clipboard"],
        outgoing: vec!["kdeconnect.clipboard", "kdeconnect.clipboard.connect"],
        default_enabled: true,
        requires_wayland: true,
        requires_dbus: false,
    };
    assert(r@ =~= clipboard_view());
    r
}

/// Cellular/Wi-Fi connectivity state of the remote device.
pub open spec fn connectivity_report_view() -> MetaView {
    MetaView {
        name: "connectivity_report"@,
        title: "Connectivity report"@,
        incoming: seq!["kdeconnect.connectivity_report"@],
        outgoing: seq!["kdeconnect.connectivity_report.request"@],
        default_enabled: true,
        requires_wayland: false,
        requires_dbus: false,
    }
}

/// Cellular/Wi-Fi connectivity state of the remote device.
pub fn connectivity_report() -> (r: PluginMeta)
    ensures
        r@ == connectivity_report_view(),
{
    let r = PluginMeta {
        name: "connectivity_report",
        title: "Connectivity report",
        incoming: vec!["kdeconnect.connectivity_report"],
        outgoing: vec!["kdeconnect.connectivity_report.request"],
        default_enabled: true,
        requires_wayland: false,
        requires_dbus: false,
    };
    assert(r@ =~= connectivity_report_view());
    r
}

/// Contact list exchange used by SMS and telephony surfaces.
pub open spec fn contacts_view() -> MetaView {
    MetaView {
        name: "contacts"@,
        title: "Contacts"@,
        incoming: seq!["kdeconnect.contacts.response_uids_timestamps"@, "kdeconnect.contacts.response_vcards"@],
        outgoing: seq!["kdeconnect.contacts.request_all_uids"@, "kdeconnect.contacts.request_uids_by_timestamp"@, "kdeconnect.contacts.request_vcards_by_uid"@],
        default_enabled: true,
        requires_wayland: false,
        requires_dbus: false,
    }
}

/// Contact list exchange used by SMS and telephony surfaces.
pub fn contacts() -> (r: PluginMeta)
    ensures
        r@ == contacts_view(),
{
    let r = PluginMeta {
        name: "contacts",
        title: "Contacts",
        incoming: vec!["kdeconnect.contacts.response_uids_timestamps", "kdeconnect.contacts.response_vcards"],
        outgoing: vec!["kdeconnect.contacts.request_all_uids", "kdeconnect.contacts.request_uids_by_timestamp", "kdeconnect.contacts.request_vcards_by_uid"],
        default_enabled: true,
        requires_wayland: false,
        requires_dbus: false,
    };
    assert(r@ =~= contacts_view());
    r
}

/// Ring the paired phone to locate it.
pub open spec fn findmyphone_view() -> MetaView {
    MetaView {
        name: "findmyphone"@,
        title: "Find my phone"@,
        incoming: seq!["kdeconnect.findmyphone.request"@],
        outgoing: seq!["kdeconnect.findmyphone.request"@],
        default_enabled: true,
        requires_wayland: false,
        requires_dbus: false,
    }
}

/// Ring the paired phone to locate it.
pub fn findmyphone() -> (r: PluginMeta)
    ensures
        r@ == findmyphone_view(),
{
    let r = PluginMeta {
        name: "findmyphone",
        title: "Find my phone",
        incoming: vec!["kdeconnect.findmyphone.request"],
        outgoing: vec!["kdeconnect.findmyphone.request"],
        default_enabled: true,
        requires_wayland: false,
        requires_dbus: false,
    };
    assert(r@ =~= findmyphone_view());
    r
}

/// Remote keyboard/pointer input from the phone.
pub open spec fn mousepad_view() -> MetaView {
    MetaView {
        name: "mousepad"@,
        title: "Remote input"@,
        incoming: seq!["kdeconnect.mousepad.request"@, "kdeconnect.mousepad.keyboardstate"@],
        outgoing: seq!["kdeconnect.mousepad.echo"@, "kdeconnect.mousepad.keyboardstate"@],
        default_enabled: true,
        requires_wayland: true,
        requires_dbus: false,
    }
}

/// Remote keyboard/pointer input from the phone.
pub fn mousepad() -> (r: PluginMeta)
    ensures
        r@ == mousepad_view(),
{
    let r = PluginMeta {
        name: "mousepad",
        title: "Remote input",
        incoming: vec!["kdeconnect.mousepad.request", "kdeconnect.mousepad.keyboardstate"],
        outgoing: vec!["kdeconnect.mousepad.echo", "kdeconnect.mousepad.keyboardstate"],
        default_enabled: true,
        requires_wayland: true,
        requires_dbus: false,
    };
    assert(r@ =~= mousepad_view());
    r
}

/// Media player enumeration and transport control.
pub open spec fn mpris_view() -> MetaView {
    MetaView {
        name: "mpris"@,
        title: "Media player control"@,
        incoming: seq!["kdeconnect.mpris"@, "kdeconnect.mpris.request"@],
        outgoing: seq!["kdeconnect.mpris"@, "kdeconnect.mpris.request"@],
        default_enabled: true,
        requires_wayland: false,
        requires_dbus: true,
    }
}

/// Media player enumeration and transport control.
pub fn mpris() -> (r: PluginMeta)
    ensures
        r@ == mpris_view(),
{
    let r = PluginMeta {
        name: "mpris",
        title: "Media player control",
        incoming: vec!["kdeconnect.mpris", "kdeconnect.mpris.request"],
        outgoing: vec!["kdeconnect.mpris", "kdeconnect.mpris.request"],
        default_enabled: true,
        requires_wayland: false,
        requires_dbus: true,
    };
    assert(r@ =~= mpris_view());
    r
}

/// Desktop notification forwarding.
pub open spec fn notifications_view() -> MetaView {
    MetaView {
        name: "notifications"@,
        title: "Notifications"@,
        incoming: seq!["kdeconnect.notification"@, "kdeconnect.notification.reply"@, "kdeconnect.notification.request"@],
        outgoing: seq!["kdeconnect.notification"@, "kdeconnect.notification.reply"@, "kdeconnect.notification.request"@],
        default_enabled: true,
        requires_wayland: false,
        requires_dbus: true,
    }
}

/// Desktop notification forwarding.
pub fn notifications() -> (r: PluginMeta)
    ensures
        r@ == notifications_view(),
{
    let r = PluginMeta {
        name: "notifications",
        title: "Notifications",
        incoming: vec!["kdeconnect.notification", "kdeconnect.notification.reply", "kdeconnect.notification.request"],
        outgoing: vec!["kdeconnect.notification", "kdeconnect.notification.reply", "kdeconnect.notification.request"],
        default_enabled: true,
        requires_wayland: false,
        requires_dbus: true,
    };
    assert(r@ =~= notifications_view());
    r
}

/// Pause local media players while a call is active.
pub open spec fn pause_music_view() -> MetaView {
    MetaView {
        name: "pause_music"@,
        title: "Pause music on call"@,
        incoming: seq!["kdeconnect.telephony"@],
        outgoing: seq!["kdeconnect.mpris.request"@],
        default_enabled: false,
        requires_wayland: false,
        requires_dbus: true,
    }
}

/// Pause local media players while a call is active.
pub fn pause_music() -> (r: PluginMeta)
    ensures
        r@ == pause_music_view(),
{
    let r = PluginMeta {
        name: "pause_music",
        title: "Pause music on call",
        incoming: vec!["kdeconnect.telephony"],
        outgoing: vec!["kdeconnect.mpris.request"],
        default_enabled: false,
        requires_wayland: false,
        requires_dbus: true,
    };
    assert(r@ =~= pause_music_view());
    r
}

/// Latency probe.
pub open spec fn ping_view() -> MetaView {
    MetaView {
        name: "ping"@,
        title: "Ping"@,
        incoming: seq!["kdeconnect.ping"@],
        outgoing: seq!["kdeconnect.ping"@],
        default_enabled: true,
        requires_wayland: false,
        requires_dbus: false,
    }
}

/// Latency probe.
pub fn ping() -> (r: PluginMeta)
    ensures
        r@ == ping_view(),
{
    let r = PluginMeta {
        name: "ping",
        title: "Ping",
        incoming: vec!["kdeconnect.ping"],
        outgoing: vec!["kdeconnect.ping"],
        default_enabled: true,
        requires_wayland: false,
        requires_dbus: false,
    };
    assert(r@ =~= ping_view());
    r
}

/// Remotely execute user-defined commands on this device.
pub open spec fn run_commands_view() -> MetaView {
    MetaView {
        name: "run_commands"@,
        title: "Run commands"@,
        incoming: seq!["kdeconnect.runcommand"@, "kdeconnect.runcommand.request"@],
        outgoing: seq!["kdeconnect.runcommand"@, "kdeconnect.runcommand.request"@],
        default_enabled: true,
        requires_wayland: false,
        requires_dbus: false,
    }
}

/// Remotely execute user-defined commands on this device.
pub fn run_commands() -> (r: PluginMeta)
    ensures
        r@ == run_commands_view(),
{
    let r = PluginMeta {
        name: "run_commands",
        title: "Run commands",
        incoming: vec!["kdeconnect.runcommand", "kdeconnect.runcommand.request"],
        outgoing: vec!["kdeconnect.runcommand", "kdeconnect.runcommand.request"],
        default_enabled: true,
        requires_wayland: false,
        requires_dbus: false,
    };
    assert(r@ =~= run_commands_view());
    r
}

/// SFTP mount exposure for the paired device.
pub open spec fn remote_filesystem_view() -> MetaView {
    MetaView {
        name: "remote_filesystem"@,
        title: "Remote filesystem"@,
        incoming: seq!["kdeconnect.sftp"@],
        outgoing: seq!["kdeconnect.sftp"@],
        default_enabled: false,
        requires_wayland: false,
        requires_dbus: false,
    }
}

/// SFTP mount exposure for the paired device.
pub fn remote_filesystem() -> (r: PluginMeta)
    ensures
        r@ == remote_filesystem_view(),
{
    let r = PluginMeta {
        name: "remote_filesystem",
        title: "Remote filesystem",
        incoming: vec!["kdeconnect.sftp"],
        outgoing: vec!["kdeconnect.sftp"],
        default_enabled: false,
        requires_wayland: false,
        requires_dbus: false,
    };
    assert(r@ =~= remote_filesystem_view());
    r
}

/// File/URL/transfer sharing between devices.
pub open spec fn share_view() -> MetaView {
    MetaView {
        name: "share"@,
        title: "Share"@,
        incoming: seq!["kdeconnect.share.request"@],
        outgoing: seq!["kdeconnect.share.request"@],
        default_enabled: true,
        requires_wayland: false,
        requires_dbus: false,
    }
}

/// File/URL/transfer sharing between devices.
pub fn share() -> (r: PluginMeta)
    ensures
        r@ == share_view(),
{
    let r = PluginMeta {
        name: "share",
        title: "Share",
        incoming: vec!["kdeconnect.share.request"],
        outgoing: vec!["kdeconnect.share.request"],
        default_enabled: true,
        requires_wayland: false,
        requires_dbus: false,
    };
    assert(r@ =~= share_view());
    r
}

/// SMS message listing and sending.
pub open spec fn sms_view() -> MetaView {
    MetaView {
        name: "sms"@,
        title: "SMS messages"@,
        incoming: seq!["kdeconnect.sms.messages"@, "kdeconnect.sms.request"@],
        outgoing: seq!["kdeconnect.sms.messages"@, "kdeconnect.sms.request"@],
        default_enabled: true,
        requires_wayland: false,
        requires_dbus: false,
    }
}

/// SMS message listing and sending.
pub fn sms() -> (r: PluginMeta)
    ensures
        r@ == sms_view(),
{
    let r = PluginMeta {
        name: "sms",
        title: "SMS messages",
        incoming: vec!["kdeconnect.sms.messages", "kdeconnect.sms.request"],
        outgoing: vec!["kdeconnect.sms.messages", "kdeconnect.sms.request"],
        default_enabled: true,
        requires_wayland: false,
        requires_dbus: false,
    };
    assert(r@ =~= sms_view());
    r
}

/// System-wide output volume control.
pub open spec fn system_volume_view() -> MetaView {
    MetaView {
        name: "system_volume"@,
        title: "System volume"@,
        incoming: seq!["kdeconnect.systemvolume"@, "kdeconnect.systemvolume.request"@],
        outgoing: seq!["kdeconnect.systemvolume"@, "kdeconnect.systemvolume.request"@],
        default_enabled: true,
        requires_wayland: false,
        requires_dbus: false,
    }
}

/// System-wide output volume control.
pub fn system_volume() -> (r: PluginMeta)
    ensures
        r@ == system_volume_view(),
{
    let r = PluginMeta {
        name: "system_volume",
        title: "System volume",
        incoming: vec!["kdeconnect.systemvolume", "kdeconnect.systemvolume.request"],
        outgoing: vec!["kdeconnect.systemvolume", "kdeconnect.systemvolume.request"],
        default_enabled: true,
        requires_wayland: false,
        requires_dbus: false,
    };
    assert(r@ =~= system_volume_view());
    r
}

/// Call/sms event surfacing from the phone.
pub open spec fn telephony_view() -> MetaView {
    MetaView {
        name: "telephony"@,
        title: "Telephony"@,
        incoming: seq!["kdeconnect.telephony"@],
        outgoing: Seq::empty(),
        default_enabled: true,
        requires_wayland: false,
        requires_dbus: true,
    }
}

/// Call/sms event surfacing from the phone.
pub fn telephony() -> (r: PluginMeta)
    ensures
        r@ == telephony_view(),
{
    let r = PluginMeta {
        name: "telephony",
        title: "Telephony",
        incoming: vec!["kdeconnect.telephony"],
        outgoing: Vec::new(),
        default_enabled: true,
        requires_wayland: false,
        requires_dbus: true,
    };
    assert(r@ =~= telephony_view());
    r
}

/// Synthetic input events injected into the desktop session.
pub open spec fn virtual_input_view() -> MetaView {
    MetaView {
        name: "virtual_input"@,
        title: "Virtual input"@,
        incoming: seq!["kdeconnect.virtualinput"@],
        outgoing: seq!["kdeconnect.virtualinput"@],
        default_enabled: true,
        requires_wayland: true,
        requires_dbus: false,
    }
}

/// Synthetic input events injected into the desktop session.
pub fn virtual_input() -> (r: PluginMeta)
    ensures
        r@ == virtual_input_view(),
{
    let r = PluginMeta {
        name: "virtual_input",
        title: "Virtual input",
        incoming: vec!["kdeconnect.virtualinput"],
        outgoing: vec!["kdeconnect.virtualinput"],
        default_enabled: true,
        requires_wayland: true,
        requires_dbus: false,
    };
    assert(r@ =~= virtual_input_view());
    r
}

/// Every roster entry, in its fixed order.
pub open spec fn roster() -> Seq<MetaView> {
    seq![
        battery_view(),
        clipboard_view(),
        connectivity_report_view(),
        contacts_view(),
        findmyphone_view(),
        mousepad_view(),
        mpris_view(),
        notifications_view(),
        pause_music_view(),
        ping_view(),
        run_commands_view(),
        remote_filesystem_view(),
        share_view(),
        sms_view(),
        system_volume_view(),
        telephony_view(),
        virtual_input_view(),
    ]
}

/// Every roster entry, in the same order as [`super::registry`].
pub fn all() -> (r: Vec<PluginMeta>)
    ensures
        r@.map_values(|m: PluginMeta| m@) == roster(),
{
    let r = vec![
        battery(),
        clipboard(),
        connectivity_report(),
        contacts(),
        findmyphone(),
        mousepad(),
        mpris(),
        notifications(),
        pause_music(),
        ping(),
        run_commands(),
        remote_filesystem(),
        share(),
        sms(),
        system_volume(),
        telephony(),
        virtual_input(),
    ];
    assert(r@.map_values(|m: PluginMeta| m@) =~= roster());
    r
}

/// Whether every packet type of an entry lives in the protocol's namespace.
pub open spec fn namespaced(m: MetaView) -> bool {
    &&& forall|i: int|
        0 <= i < m.incoming.len() ==> text::has_prefix(#[trigger] m.incoming[i], "kdeconnect."@)
    &&& forall|i: int|
        0 <= i < m.outgoing.len() ==> text::has_prefix(#[trigger] m.outgoing[i], "kdeconnect."@)
}

proof fn lemma_type_names()
    ensures
        text::has_prefix("kdeconnect.battery"@, "kdeconnect."@),
        text::has_prefix("kdeconnect.battery.request"@, "kdeconnect."@),
        text::has_prefix("kdeconnect.clipboard"@, "kdeconnect."@),
        text::has_prefix("kdeconnect.clipboard.connect"@, "kdeconnect."@),
        text::has_prefix("kdeconnect.connectivity_report"@, "kdeconnect."@),
        text::has_prefix("kdeconnect.connectivity_report.request"@, "kdeconnect."@),
        text::has_prefix("kdeconnect.contacts.request_all_uids"@, "kdeconnect."@),
        text::has_prefix("kdeconnect.contacts.request_uids_by_timestamp"@, "kdeconnect."@),
        text::has_prefix("kdeconnect.contacts.request_vcards_by_uid"@, "kdeconnect."@),
        text::has_prefix("kdeconnect.contacts.response_uids_timestamps"@, "kdeconnect."@),
        text::has_prefix("kdeconnect.contacts.response_vcards"@, "kdeconnect."@),
        text::has_prefix("kdeconnect.findmyphone.request"@, "kdeconnect."@),
        text::has_prefix("kdeconnect.mousepad.echo"@, "kdeconnect."@),
        text::has_prefix("kdeconnect.mousepad.keyboardstate"@, "kdeconnect."@),
        text::has_prefix("kdeconnect.mousepad.request"@, "kdeconnect."@),
        text::has_prefix("kdeconnect.mpris"@, "kdeconnect."@),
        text::has_prefix("kdeconnect.mpris.request"@, "kdeconnect."@),
        text::has_prefix("kdeconnect.notification"@, "kdeconnect."@),
        text::has_prefix("kdeconnect.notification.reply"@, "kdeconnect."@),
        text::has_prefix("kdeconnect.notification.request"@, "kdeconnect."@),
        text::has_prefix("kdeconnect.ping"@, "kdeconnect."@),
        text::has_prefix("kdeconnect.runcommand"@, "kdeconnect."@),
        text::has_prefix("kdeconnect.runcommand.request"@, "kdeconnect."@),
        text::has_prefix("kdeconnect.sftp"@, "kdeconnect."@),
        text::has_prefix("kdeconnect.share.request"@, "kdeconnect."@),
        text::has_prefix("kdeconnect.sms.messages"@, "kdeconnect."@),
        text::has_prefix("kdeconnect.sms.request"@, "kdeconnect."@),
        text::has_prefix("kdeconnect.systemvolume"@, "kdeconnect."@),
        text::has_prefix("kdeconnect.systemvolume.request"@, "kdeconnect."@),
        text::has_prefix("kdeconnect.telephony"@, "kdeconnect."@),
        text::has_prefix("kdeconnect.virtualinput"@, "kdeconnect."@),
{
    reveal_strlit("kdeconnect.");
    reveal_strlit("kdeconnect.battery");
    assert("kdeconnect.battery"@.take(11) =~= "kdeconnect."@);
    reveal_strlit("kdeconnect.battery.request");
    assert("kdeconnect.battery.request"@.take(11) =~= "kdeconnect."@);
    reveal_strlit("kdeconnect.clipboard");
    assert("kdeconnect.clipboard"@.take(11) =~= "kdeconnect."@);
    reveal_strlit("kdeconnect.clipboard.connect");
    assert("kdeconnect.clipboard.connect"@.take(11) =~= "kdeconnect."@);
    reveal_strlit("kdeconnect.connectivity_report");
    assert("kdeconnect.connectivity_report"@.take(11) =~= "kdeconnect."@);
    reveal_strlit("kdeconnect.connectivity_report.request");
    assert("kdeconnect.connectivity_report.request"@.take(11) =~= "kdeconnect."@);
    reveal_strlit("kdeconnect.contacts.request_all_uids");
    assert("kdeconnect.contacts.request_all_uids"@.take(11) =~= "kdeconnect."@);
    reveal_strlit("kdeconnect.contacts.request_uids_by_timestamp");
    assert("kdeconnect.contacts.request_uids_by_timestamp"@.take(11) =~= "kdeconnect."@);
    reveal_strlit("kdeconnect.contacts.request_vcards_by_uid");
    assert("kdeconnect.contacts.request_vcards_by_uid"@.take(11) =~= "kdeconnect."@);
    reveal_strlit("kdeconnect.contacts.response_uids_timestamps");
    assert("kdeconnect.contacts.response_uids_timestamps"@.take(11) =~= "kdeconnect."@);
    reveal_strlit("kdeconnect.contacts.response_vcards");
    assert("kdeconnect.contacts.response_vcards"@.take(11) =~= "kdeconnect."@);
    reveal_strlit("kdeconnect.findmyphone.request");
    assert("kdeconnect.findmyphone.request"@.take(11) =~= "kdeconnect."@);
    reveal_strlit("kdeconnect.mousepad.echo");
    assert("kdeconnect.mousepad.echo"@.take(11) =~= "kdeconnect."@);
    reveal_strlit("kdeconnect.mousepad.keyboardstate");
    assert("kdeconnect.mousepad.keyboardstate"@.take(11) =~= "kdeconnect."@);
    reveal_strlit("kdeconnect.mousepad.request");
    assert("kdeconnect.mousepad.request"@.take(11) =~= "kdeconnect."@);
    reveal_strlit("kdeconnect.mpris");
    assert("kdeconnect.mpris"@.take(11) =~= "kdeconnect."@);
    reveal_strlit("kdeconnect.mpris.request");
    assert("kdeconnect.mpris.request"@.take(11) =~= "kdeconnect."@);
    reveal_strlit("kdeconnect.notification");
    assert("kdeconnect.notification"@.take(11) =~= "kdeconnect."@);
    reveal_strlit("kdeconnect.notification.reply");
    assert("kdeconnect.notification.reply"@.take(11) =~= "kdeconnect."@);
    reveal_strlit("kdeconnect.notification.request");
    assert("kdeconnect.notification.request"@.take(11) =~= "kdeconnect."@);
    reveal_strlit("kdeconnect.ping");
    assert("kdeconnect.ping"@.take(11) =~= "kdeconnect."@);
    reveal_strlit("kdeconnect.runcommand");
    assert("kdeconnect.runcommand"@.take(11) =~= "kdeconnect."@);
    reveal_strlit("kdeconnect.runcommand.request");
    assert("kdeconnect.runcommand.request"@.take(11) =~= "kdeconnect."@);
    reveal_strlit("kdeconnect.sftp");
    assert("kdeconnect.sftp"@.take(11) =~= "kdeconnect."@);
    reveal_strlit("kdeconnect.share.request");
    assert("kdeconnect.share.request"@.take(11) =~= "kdeconnect."@);
    reveal_strlit("kdeconnect.sms.messages");
    assert("kdeconnect.sms.messages"@.take(11) =~= "kdeconnect."@);
    reveal_strlit("kdeconnect.sms.request");
    assert("kdeconnect.sms.request"@.take(11) =~= "kdeconnect."@);
    reveal_strlit("kdeconnect.systemvolume");
    assert("kdeconnect.systemvolume"@.take(11) =~= "kdeconnect."@);
    reveal_strlit("kdeconnect.systemvolume.request");
    assert("kdeconnect.systemvolume.request"@.take(11) =~= "kdeconnect."@);
    reveal_strlit("kdeconnect.telephony");
    assert("kdeconnect.telephony"@.take(11) =~= "kdeconnect."@);
    reveal_strlit("kdeconnect.virtualinput");
    assert("kdeconnect.virtualinput"@.take(11) =~= "kdeconnect."@);
}

/// Every packet type that a plugin handles or emits begins with
/// `kdeconnect.`.
pub proof fn law_types_are_namespaced(i: int)
    requires
        0 <= i < roster().len(),
    ensures
        namespaced(roster()[i]),
{
    lemma_type_names();
}

/// No two plugins share a name.
pub proof fn law_names_are_unique(i: int, j: int)
    requires
        0 <= i < j < roster().len(),
    ensures
        roster()[i].name != roster()[j].name,
{
    reveal_strlit("battery");
    reveal_strlit("clipboard");
    reveal_strlit("connectivity_report");
    reveal_strlit("contacts");
    reveal_strlit("findmyphone");
    reveal_strlit("mousepad");
    reveal_strlit("mpris");
    reveal_strlit("notifications");
    reveal_strlit("pause_music");
    reveal_strlit("ping");
    reveal_strlit("run_commands");
    reveal_strlit("remote_filesystem");
    reveal_strlit("share");
    reveal_strlit("sms");
    reveal_strlit("system_volume");
    reveal_strlit("telephony");
    reveal_strlit("virtual_input");
    assert("battery"@.len() == 7);
    assert("clipboard"@.len() == 9);
    assert("connectivity_report"@.len() == 19);
    assert("contacts"@.len() == 8);
    assert("findmyphone"@.len() == 11);
    assert("mousepad"@.len() == 8);
    assert("mpris"@.len() == 5);
    assert("notifications"@.len() == 13);
    assert("pause_music"@.len() == 11);
    assert("ping"@.len() == 4);
    assert("run_commands"@.len() == 12);
    assert("remote_filesystem"@.len() == 17);
    assert("share"@.len() == 5);
    assert("sms"@.len() == 3);
    assert("system_volume"@.len() == 13);
    assert("telephony"@.len() == 9);
    assert("virtual_input"@.len() == 13);
    assert("clipboard"@[0] != "telephony"@[0]);
    assert("contacts"@[0] != "mousepad"@[0]);
    assert("findmyphone"@[0] != "pause_music"@[0]);
    assert("mpris"@[0] != "share"@[0]);
    assert("notifications"@[0] != "system_volume"@[0]);
    assert("notifications"@[0] != "virtual_input"@[0]);
    assert("system_volume"@[0] != "virtual_input"@[0]);
}

} // verus!
