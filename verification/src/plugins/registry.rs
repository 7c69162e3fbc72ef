//! The plugin registry: factories, and the instances that they build.
use super::battery;
use super::battery::{BatteryPlugin, BatteryState};
use super::find_my_phone;
use super::find_my_phone::FindMyPhonePlugin;
use super::meta;
use super::mpris::MprisPlugin;
use super::notifications;
use super::notifications::NotificationsPlugin;
use super::pause_music;
use super::pause_music::PauseMusicPlugin;
use super::ping::{PingFactory, PingPlugin};
use super::run_commands;
use super::run_commands::RunCommandsPlugin;
use super::share;
use super::share::SharePlugin;
use super::stubs;
use super::stubs::StubPlugin;
use super::system_volume;
use super::system_volume::SystemVolumePlugin;
use super::telephony::TelephonyPlugin;
use super::{HostEnv, MetaView, Plugin, PluginHost, PluginMeta, PluginState, ReplyView};
use crate::protocol::packet::PacketView;
use crate::protocol::Packet;
use vstd::prelude::*;

verus! {

/// A plugin of any kind.
#[derive(Debug)]
pub enum PluginInstance {
    /// A placeholder.
    Stub(StubPlugin),
    /// Battery status reporting.
    Battery(BatteryPlugin),
    /// Ringing on request.
    FindMyPhone(FindMyPhonePlugin),
    /// Media player control.
    Mpris(MprisPlugin),
    /// Notification forwarding.
    Notifications(NotificationsPlugin),
    /// Pausing music during calls.
    PauseMusic(PauseMusicPlugin),
    /// Latency probe.
    Ping(PingPlugin),
    /// Command lookup.
    RunCommands(RunCommandsPlugin),
    /// Share requests.
    Share(SharePlugin),
    /// Volume reports.
    SystemVolume(SystemVolumePlugin),
    /// Call and SMS events.
    Telephony(TelephonyPlugin),
}

impl Plugin for PluginInstance {
    open spec fn described(&self) -> MetaView {
        match self {
            PluginInstance::Stub(p) => p.described(),
            PluginInstance::Battery(p) => p.described(),
            PluginInstance::FindMyPhone(p) => p.described(),
            PluginInstance::Mpris(p) => p.described(),
            PluginInstance::Notifications(p) => p.described(),
            PluginInstance::PauseMusic(p) => p.described(),
            PluginInstance::Ping(p) => p.described(),
            PluginInstance::RunCommands(p) => p.described(),
            PluginInstance::Share(p) => p.described(),
            PluginInstance::SystemVolume(p) => p.described(),
            PluginInstance::Telephony(p) => p.described(),
        }
    }

    open spec fn standing(&self) -> PluginState {
        match self {
            PluginInstance::Stub(p) => p.standing(),
            PluginInstance::Battery(p) => p.standing(),
            PluginInstance::FindMyPhone(p) => p.standing(),
            PluginInstance::Mpris(p) => p.standing(),
            PluginInstance::Notifications(p) => p.standing(),
            PluginInstance::PauseMusic(p) => p.standing(),
            PluginInstance::Ping(p) => p.standing(),
            PluginInstance::RunCommands(p) => p.standing(),
            PluginInstance::Share(p) => p.standing(),
            PluginInstance::SystemVolume(p) => p.standing(),
            PluginInstance::Telephony(p) => p.standing(),
        }
    }

    open spec fn next(&self, pkt: PacketView, env: HostEnv) -> PluginState {
        match self {
            PluginInstance::Stub(p) => p.next(pkt, env),
            PluginInstance::Battery(p) => p.next(pkt, env),
            PluginInstance::FindMyPhone(p) => p.next(pkt, env),
            PluginInstance::Mpris(p) => p.next(pkt, env),
            PluginInstance::Notifications(p) => p.next(pkt, env),
            PluginInstance::PauseMusic(p) => p.next(pkt, env),
            PluginInstance::Ping(p) => p.next(pkt, env),
            PluginInstance::RunCommands(p) => p.next(pkt, env),
            PluginInstance::Share(p) => p.next(pkt, env),
            PluginInstance::SystemVolume(p) => p.next(pkt, env),
            PluginInstance::Telephony(p) => p.next(pkt, env),
        }
    }

    open spec fn replies(&self, pkt: PacketView, env: HostEnv) -> Seq<ReplyView> {
        match self {
            PluginInstance::Stub(p) => p.replies(pkt, env),
            PluginInstance::Battery(p) => p.replies(pkt, env),
            PluginInstance::FindMyPhone(p) => p.replies(pkt, env),
            PluginInstance::Mpris(p) => p.replies(pkt, env),
            PluginInstance::Notifications(p) => p.replies(pkt, env),
            PluginInstance::PauseMusic(p) => p.replies(pkt, env),
            PluginInstance::Ping(p) => p.replies(pkt, env),
            PluginInstance::RunCommands(p) => p.replies(pkt, env),
            PluginInstance::Share(p) => p.replies(pkt, env),
            PluginInstance::SystemVolume(p) => p.replies(pkt, env),
            PluginInstance::Telephony(p) => p.replies(pkt, env),
        }
    }

    open spec fn mirrored(
        &self,
        pkt: PacketView,
        env: HostEnv,
        batteries: Map<Seq<char>, BatteryState>,
    ) -> Map<Seq<char>, BatteryState> {
        match self {
            PluginInstance::Stub(p) => p.mirrored(pkt, env, batteries),
            PluginInstance::Battery(p) => p.mirrored(pkt, env, batteries),
            PluginInstance::FindMyPhone(p) => p.mirrored(pkt, env, batteries),
            PluginInstance::Mpris(p) => p.mirrored(pkt, env, batteries),
            PluginInstance::Notifications(p) => p.mirrored(pkt, env, batteries),
            PluginInstance::PauseMusic(p) => p.mirrored(pkt, env, batteries),
            PluginInstance::Ping(p) => p.mirrored(pkt, env, batteries),
            PluginInstance::RunCommands(p) => p.mirrored(pkt, env, batteries),
            PluginInstance::Share(p) => p.mirrored(pkt, env, batteries),
            PluginInstance::SystemVolume(p) => p.mirrored(pkt, env, batteries),
            PluginInstance::Telephony(p) => p.mirrored(pkt, env, batteries),
        }
    }

    fn meta(&self) -> (r: PluginMeta) {
        match self {
            PluginInstance::Stub(p) => p.meta(),
            PluginInstance::Battery(p) => p.meta(),
            PluginInstance::FindMyPhone(p) => p.meta(),
            PluginInstance::Mpris(p) => p.meta(),
            PluginInstance::Notifications(p) => p.meta(),
            PluginInstance::PauseMusic(p) => p.meta(),
            PluginInstance::Ping(p) => p.meta(),
            PluginInstance::RunCommands(p) => p.meta(),
            PluginInstance::Share(p) => p.meta(),
            PluginInstance::SystemVolume(p) => p.meta(),
            PluginInstance::Telephony(p) => p.meta(),
        }
    }

    fn handle(&mut self, pkt: &Packet, host: &mut PluginHost) -> (r: Vec<Packet>) {
        match self {
            PluginInstance::Stub(p) => p.handle(pkt, host),
            PluginInstance::Battery(p) => p.handle(pkt, host),
            PluginInstance::FindMyPhone(p) => p.handle(pkt, host),
            PluginInstance::Mpris(p) => p.handle(pkt, host),
            PluginInstance::Notifications(p) => p.handle(pkt, host),
            PluginInstance::PauseMusic(p) => p.handle(pkt, host),
            PluginInstance::Ping(p) => p.handle(pkt, host),
            PluginInstance::RunCommands(p) => p.handle(pkt, host),
            PluginInstance::Share(p) => p.handle(pkt, host),
            PluginInstance::SystemVolume(p) => p.handle(pkt, host),
            PluginInstance::Telephony(p) => p.handle(pkt, host),
        }
    }
}

/// Creates fresh plugin instances on demand.
pub trait PluginFactory {
    /// What the metadata of the plugins that this factory builds says.
    spec fn describes(&self) -> MetaView;

    /// What a plugin holds that this factory has just built.
    spec fn initial(&self) -> PluginState;

    /// Metadata of the plugins this factory builds.
    fn meta(&self) -> (r: PluginMeta)
        ensures
            r@ == self.describes(),
    ;

    /// Build a brand-new, default-state plugin instance.
    fn create(&self) -> (r: PluginInstance)
        ensures
            r.described() == self.describes(),
            r.standing() == self.initial(),
    ;
}

/// A factory of the registry.
#[derive(Debug, Clone, Copy)]
pub enum RegisteredFactory {
    /// Entry `battery`.
    Battery(battery::BatteryFactory),
    /// Entry `clipboard`.
    Clipboard(stubs::ClipboardFactory),
    /// Entry `connectivity_report`.
    ConnectivityReport(stubs::ConnectivityReportFactory),
    /// Entry `contacts`.
    Contacts(stubs::ContactsFactory),
    /// Entry `findmyphone`.
    FindMyPhone(find_my_phone::FindMyPhoneFactory),
    /// Entry `mousepad`.
    Mousepad(stubs::MousepadFactory),
    /// Entry `mpris`.
    Mpris(stubs::MprisFactory),
    /// Entry `notifications`.
    Notifications(notifications::NotificationsFactory),
    /// Entry `pause_music`.
    PauseMusic(pause_music::PauseMusicFactory),
    /// Entry `ping`.
    Ping(PingFactory),
    /// Entry `run_commands`.
    RunCommands(run_commands::RunCommandsFactory),
    /// Entry `remote_filesystem`.
    RemoteFilesystem(stubs::RemoteFilesystemFactory),
    /// Entry `share`.
    Share(share::ShareFactory),
    /// Entry `sms`.
    Sms(stubs::SmsFactory),
    /// Entry `system_volume`.
    SystemVolume(system_volume::SystemVolumeFactory),
    /// Entry `telephony`.
    Telephony(stubs::TelephonyFactory),
    /// Entry `virtual_input`.
    VirtualInput(stubs::VirtualInputFactory),
}

impl PluginFactory for RegisteredFactory {
    open spec fn describes(&self) -> MetaView {
        match self {
            RegisteredFactory::Battery(f) => f.describes(),
            RegisteredFactory::Clipboard(f) => f.describes(),
            RegisteredFactory::ConnectivityReport(f) => f.describes(),
            RegisteredFactory::Contacts(f) => f.describes(),
            RegisteredFactory::FindMyPhone(f) => f.describes(),
            RegisteredFactory::Mousepad(f) => f.describes(),
            RegisteredFactory::Mpris(f) => f.describes(),
            RegisteredFactory::Notifications(f) => f.describes(),
            RegisteredFactory::PauseMusic(f) => f.describes(),
            RegisteredFactory::Ping(f) => f.describes(),
            RegisteredFactory::RunCommands(f) => f.describes(),
            RegisteredFactory::RemoteFilesystem(f) => f.describes(),
            RegisteredFactory::Share(f) => f.describes(),
            RegisteredFactory::Sms(f) => f.describes(),
            RegisteredFactory::SystemVolume(f) => f.describes(),
            RegisteredFactory::Telephony(f) => f.describes(),
            RegisteredFactory::VirtualInput(f) => f.describes(),
        }
    }

    open spec fn initial(&self) -> PluginState {
        match self {
            RegisteredFactory::Battery(f) => f.initial(),
            RegisteredFactory::Clipboard(f) => f.initial(),
            RegisteredFactory::ConnectivityReport(f) => f.initial(),
            RegisteredFactory::Contacts(f) => f.initial(),
            RegisteredFactory::FindMyPhone(f) => f.initial(),
            RegisteredFactory::Mousepad(f) => f.initial(),
            RegisteredFactory::Mpris(f) => f.initial(),
            RegisteredFactory::Notifications(f) => f.initial(),
            RegisteredFactory::PauseMusic(f) => f.initial(),
            RegisteredFactory::Ping(f) => f.initial(),
            RegisteredFactory::RunCommands(f) => f.initial(),
            RegisteredFactory::RemoteFilesystem(f) => f.initial(),
            RegisteredFactory::Share(f) => f.initial(),
            RegisteredFactory::Sms(f) => f.initial(),
            RegisteredFactory::SystemVolume(f) => f.initial(),
            RegisteredFactory::Telephony(f) => f.initial(),
            RegisteredFactory::VirtualInput(f) => f.initial(),
        }
    }

    fn meta(&self) -> (r: PluginMeta) {
        match self {
            RegisteredFactory::Battery(f) => f.meta(),
            RegisteredFactory::Clipboard(f) => f.meta(),
            RegisteredFactory::ConnectivityReport(f) => f.meta(),
            RegisteredFactory::Contacts(f) => f.meta(),
            RegisteredFactory::FindMyPhone(f) => f.meta(),
            RegisteredFactory::Mousepad(f) => f.meta(),
            RegisteredFactory::Mpris(f) => f.meta(),
            RegisteredFactory::Notifications(f) => f.meta(),
            RegisteredFactory::PauseMusic(f) => f.meta(),
            RegisteredFactory::Ping(f) => f.meta(),
            RegisteredFactory::RunCommands(f) => f.meta(),
            RegisteredFactory::RemoteFilesystem(f) => f.meta(),
            RegisteredFactory::Share(f) => f.meta(),
            RegisteredFactory::Sms(f) => f.meta(),
            RegisteredFactory::SystemVolume(f) => f.meta(),
            RegisteredFactory::Telephony(f) => f.meta(),
            RegisteredFactory::VirtualInput(f) => f.meta(),
        }
    }

    fn create(&self) -> (r: PluginInstance) {
        match self {
            RegisteredFactory::Battery(f) => f.create(),
            RegisteredFactory::Clipboard(f) => f.create(),
            RegisteredFactory::ConnectivityReport(f) => f.create(),
            RegisteredFactory::Contacts(f) => f.create(),
            RegisteredFactory::FindMyPhone(f) => f.create(),
            RegisteredFactory::Mousepad(f) => f.create(),
            RegisteredFactory::Mpris(f) => f.create(),
            RegisteredFactory::Notifications(f) => f.create(),
            RegisteredFactory::PauseMusic(f) => f.create(),
            RegisteredFactory::Ping(f) => f.create(),
            RegisteredFactory::RunCommands(f) => f.create(),
            RegisteredFactory::RemoteFilesystem(f) => f.create(),
            RegisteredFactory::Share(f) => f.create(),
            RegisteredFactory::Sms(f) => f.create(),
            RegisteredFactory::SystemVolume(f) => f.create(),
            RegisteredFactory::Telephony(f) => f.create(),
            RegisteredFactory::VirtualInput(f) => f.create(),
        }
    }
}

/// What the factories of a list describe.
pub open spec fn descriptions(v: Seq<RegisteredFactory>) -> Seq<MetaView> {
    v.map_values(|f: RegisteredFactory| f.describes())
}

/// What the plugins hold that the factories of a list have just built.
pub open spec fn initials(v: Seq<RegisteredFactory>) -> Seq<PluginState> {
    v.map_values(|f: RegisteredFactory| f.initial())
}

/// What the plugins hold that the registry's factories have just built.
pub open spec fn roster_states() -> Seq<PluginState> {
    seq![
        PluginState::Battery { latest: None, device: None, probe: None },
        PluginState::Stub(meta::clipboard_view()),
        PluginState::Stub(meta::connectivity_report_view()),
        PluginState::Stub(meta::contacts_view()),
        PluginState::FindMyPhone { rings: false },
        PluginState::Stub(meta::mousepad_view()),
        PluginState::Stub(meta::mpris_view()),
        PluginState::Notifications { routed: Set::empty() },
        PluginState::PauseMusic { known: Set::empty(), paused: Set::empty() },
        PluginState::Ping { last: None },
        PluginState::RunCommands { table: Map::empty() },
        PluginState::Stub(meta::remote_filesystem_view()),
        PluginState::Share { pending: Seq::empty() },
        PluginState::Stub(meta::sms_view()),
        PluginState::SystemVolume { latest: None },
        PluginState::Stub(meta::telephony_view()),
        PluginState::Stub(meta::virtual_input_view()),
    ]
}

/// All plugin factories in deterministic order, that of the roster;
/// placeholders stand for what is not there yet. The notifications relay
/// describes itself in its own words.
pub fn registry() -> (r: Vec<RegisteredFactory>)
    ensures
        descriptions(r@) == meta::roster().update(7, notifications::notifications_view()),
        initials(r@) == roster_states(),
{
    let r = vec![
        RegisteredFactory::Battery(battery::BatteryFactory),
        RegisteredFactory::Clipboard(stubs::ClipboardFactory),
        RegisteredFactory::ConnectivityReport(stubs::ConnectivityReportFactory),
        RegisteredFactory::Contacts(stubs::ContactsFactory),
        RegisteredFactory::FindMyPhone(find_my_phone::FindMyPhoneFactory),
        RegisteredFactory::Mousepad(stubs::MousepadFactory),
        RegisteredFactory::Mpris(stubs::MprisFactory),
        RegisteredFactory::Notifications(notifications::NotificationsFactory),
        RegisteredFactory::PauseMusic(pause_music::PauseMusicFactory),
        RegisteredFactory::Ping(PingFactory),
        RegisteredFactory::RunCommands(run_commands::RunCommandsFactory),
        RegisteredFactory::RemoteFilesystem(stubs::RemoteFilesystemFactory),
        RegisteredFactory::Share(share::ShareFactory),
        RegisteredFactory::Sms(stubs::SmsFactory),
        RegisteredFactory::SystemVolume(system_volume::SystemVolumeFactory),
        RegisteredFactory::Telephony(stubs::TelephonyFactory),
        RegisteredFactory::VirtualInput(stubs::VirtualInputFactory),
    ];
    proof {
        assert(descriptions(r@) =~= meta::roster().update(7, notifications::notifications_view()));
        assert(initials(r@) =~= roster_states());
    }
    r
}

} // verus!
