//! Placeholder plugins.
//!
//! Each placeholder accepts its inbound packet types and emits no replies.
//! They exist so the registry and the per-plugin enable/disable config cover
//! the whole roster.
use super::battery::BatteryState;
use super::meta;
use super::{
    HostEnv, MetaView, Plugin, PluginFactory, PluginHost, PluginInstance, PluginMeta, PluginState,
    ReplyView,
};
use crate::protocol::packet::PacketView;
use crate::protocol::Packet;
use vstd::prelude::*;

verus! {

/// Generic placeholder plugin; inert.
#[derive(Debug)]
pub struct StubPlugin {
    meta: PluginMeta,
}

/// Copies a list of literals.
fn copy_literals(v: &Vec<&'static str>) -> (r: Vec<&'static str>)
    ensures
        super::literals(r@) == super::literals(v@),
{
    let mut out: Vec<&'static str> = Vec::new();
    let mut i: usize = 0;
    while i < v.len()
        invariant
            i <= v@.len(),
            out@ == v@.take(i as int),
        decreases v@.len() - i,
    {
        out.push(v[i]);
        proof {
            assert(v@.take(i + 1) =~= v@.take(i as int).push(v@[i as int]));
        }
        i += 1;
    }
    assert(v@.take(i as int) =~= v@);
    out
}

impl StubPlugin {
    /// What the metadata that this placeholder is bound to says.
    pub closed spec fn bound(&self) -> MetaView {
        self.meta@
    }

    /// Create a placeholder bound to the given metadata.
    pub fn new(meta: PluginMeta) -> (r: Self)
        ensures
            r.bound() == meta@,
    {
        StubPlugin { meta }
    }
}

impl Plugin for StubPlugin {
    open spec fn described(&self) -> MetaView {
        self.bound()
    }

    open spec fn standing(&self) -> PluginState {
        PluginState::Stub(self.bound())
    }

    open spec fn next(&self, pkt: PacketView, env: HostEnv) -> PluginState {
        PluginState::Stub(self.bound())
    }

    open spec fn replies(&self, pkt: PacketView, env: HostEnv) -> Seq<ReplyView> {
        Seq::empty()
    }

    open spec fn mirrored(
        &self,
        pkt: PacketView,
        env: HostEnv,
        batteries: Map<Seq<char>, BatteryState>,
    ) -> Map<Seq<char>, BatteryState> {
        batteries
    }

    fn meta(&self) -> (r: PluginMeta) {
        PluginMeta {
            name: self.meta.name,
            title: self.meta.title,
            incoming: copy_literals(&self.meta.incoming),
            outgoing: copy_literals(&self.meta.outgoing),
            default_enabled: self.meta.default_enabled,
            requires_wayland: self.meta.requires_wayland,
            requires_dbus: self.meta.requires_dbus,
        }
    }

    fn handle(&mut self, pkt: &Packet, host: &mut PluginHost) -> (r: Vec<Packet>) {
        super::silence(host)
    }
}

/// Builds battery placeholder instances.
#[derive(Debug, Clone, Copy)]
pub struct BatteryFactory;

impl PluginFactory for BatteryFactory {
    open spec fn describes(&self) -> MetaView {
        meta::battery_view()
    }

    open spec fn initial(&self) -> PluginState {
        PluginState::Stub(meta::battery_view())
    }

    fn meta(&self) -> (r: PluginMeta) {
        meta::battery()
    }

    fn create(&self) -> (r: PluginInstance) {
        PluginInstance::Stub(StubPlugin::new(meta::battery()))
    }
}

/// Builds clipboard placeholder instances.
#[derive(Debug, Clone, Copy)]
pub struct ClipboardFactory;

impl PluginFactory for ClipboardFactory {
    open spec fn describes(&self) -> MetaView {
        meta::clipboard_view()
    }

    open spec fn initial(&self) -> PluginState {
        PluginState::Stub(meta::clipboard_view())
    }

    fn meta(&self) -> (r: PluginMeta) {
        meta::clipboard()
    }

    fn create(&self) -> (r: PluginInstance) {
        PluginInstance::Stub(StubPlugin::new(meta::clipboard()))
    }
}

/// Builds connectivity-report placeholder instances.
#[derive(Debug, Clone, Copy)]
pub struct ConnectivityReportFactory;

impl PluginFactory for ConnectivityReportFactory {
    open spec fn describes(&self) -> MetaView {
        meta::connectivity_report_view()
    }

    open spec fn initial(&self) -> PluginState {
        PluginState::Stub(meta::connectivity_report_view())
    }

    fn meta(&self) -> (r: PluginMeta) {
        meta::connectivity_report()
    }

    fn create(&self) -> (r: PluginInstance) {
        PluginInstance::Stub(StubPlugin::new(meta::connectivity_report()))
    }
}

/// Builds contacts placeholder instances.
#[derive(Debug, Clone, Copy)]
pub struct ContactsFactory;

impl PluginFactory for ContactsFactory {
    open spec fn describes(&self) -> MetaView {
        meta::contacts_view()
    }

    open spec fn initial(&self) -> PluginState {
        PluginState::Stub(meta::contacts_view())
    }

    fn meta(&self) -> (r: PluginMeta) {
        meta::contacts()
    }

    fn create(&self) -> (r: PluginInstance) {
        PluginInstance::Stub(StubPlugin::new(meta::contacts()))
    }
}

/// Builds find-my-phone placeholder instances.
#[derive(Debug, Clone, Copy)]
pub struct FindMyPhoneFactory;

impl PluginFactory for FindMyPhoneFactory {
    open spec fn describes(&self) -> MetaView {
        meta::findmyphone_view()
    }

    open spec fn initial(&self) -> PluginState {
        PluginState::Stub(meta::findmyphone_view())
    }

    fn meta(&self) -> (r: PluginMeta) {
        meta::findmyphone()
    }

    fn create(&self) -> (r: PluginInstance) {
        PluginInstance::Stub(StubPlugin::new(meta::findmyphone()))
    }
}

/// Builds mousepad placeholder instances.
#[derive(Debug, Clone, Copy)]
pub struct MousepadFactory;

impl PluginFactory for MousepadFactory {
    open spec fn describes(&self) -> MetaView {
        meta::mousepad_view()
    }

    open spec fn initial(&self) -> PluginState {
        PluginState::Stub(meta::mousepad_view())
    }

    fn meta(&self) -> (r: PluginMeta) {
        meta::mousepad()
    }

    fn create(&self) -> (r: PluginInstance) {
        PluginInstance::Stub(StubPlugin::new(meta::mousepad()))
    }
}

/// Builds MPRIS placeholder instances.
#[derive(Debug, Clone, Copy)]
pub struct MprisFactory;

impl PluginFactory for MprisFactory {
    open spec fn describes(&self) -> MetaView {
        meta::mpris_view()
    }

    open spec fn initial(&self) -> PluginState {
        PluginState::Stub(meta::mpris_view())
    }

    fn meta(&self) -> (r: PluginMeta) {
        meta::mpris()
    }

    fn create(&self) -> (r: PluginInstance) {
        PluginInstance::Stub(StubPlugin::new(meta::mpris()))
    }
}

/// Builds notifications placeholder instances.
#[derive(Debug, Clone, Copy)]
pub struct NotificationsFactory;

impl PluginFactory for NotificationsFactory {
    open spec fn describes(&self) -> MetaView {
        meta::notifications_view()
    }

    open spec fn initial(&self) -> PluginState {
        PluginState::Stub(meta::notifications_view())
    }

    fn meta(&self) -> (r: PluginMeta) {
        meta::notifications()
    }

    fn create(&self) -> (r: PluginInstance) {
        PluginInstance::Stub(StubPlugin::new(meta::notifications()))
    }
}

/// Builds pause-music placeholder instances.
#[derive(Debug, Clone, Copy)]
pub struct PauseMusicFactory;

impl PluginFactory for PauseMusicFactory {
    open spec fn describes(&self) -> MetaView {
        meta::pause_music_view()
    }

    open spec fn initial(&self) -> PluginState {
        PluginState::Stub(meta::pause_music_view())
    }

    fn meta(&self) -> (r: PluginMeta) {
        meta::pause_music()
    }

    fn create(&self) -> (r: PluginInstance) {
        PluginInstance::Stub(StubPlugin::new(meta::pause_music()))
    }
}

/// Builds run-commands placeholder instances.
#[derive(Debug, Clone, Copy)]
pub struct RunCommandsFactory;

impl PluginFactory for RunCommandsFactory {
    open spec fn describes(&self) -> MetaView {
        meta::run_commands_view()
    }

    open spec fn initial(&self) -> PluginState {
        PluginState::Stub(meta::run_commands_view())
    }

    fn meta(&self) -> (r: PluginMeta) {
        meta::run_commands()
    }

    fn create(&self) -> (r: PluginInstance) {
        PluginInstance::Stub(StubPlugin::new(meta::run_commands()))
    }
}

/// Builds remote-filesystem placeholder instances.
#[derive(Debug, Clone, Copy)]
pub struct RemoteFilesystemFactory;

impl PluginFactory for RemoteFilesystemFactory {
    open spec fn describes(&self) -> MetaView {
        meta::remote_filesystem_view()
    }

    open spec fn initial(&self) -> PluginState {
        PluginState::Stub(meta::remote_filesystem_view())
    }

    fn meta(&self) -> (r: PluginMeta) {
        meta::remote_filesystem()
    }

    fn create(&self) -> (r: PluginInstance) {
        PluginInstance::Stub(StubPlugin::new(meta::remote_filesystem()))
    }
}

/// Builds share placeholder instances.
#[derive(Debug, Clone, Copy)]
pub struct ShareFactory;

impl PluginFactory for ShareFactory {
    open spec fn describes(&self) -> MetaView {
        meta::share_view()
    }

    open spec fn initial(&self) -> PluginState {
        PluginState::Stub(meta::share_view())
    }

    fn meta(&self) -> (r: PluginMeta) {
        meta::share()
    }

    fn create(&self) -> (r: PluginInstance) {
        PluginInstance::Stub(StubPlugin::new(meta::share()))
    }
}

/// Builds SMS placeholder instances.
#[derive(Debug, Clone, Copy)]
pub struct SmsFactory;

impl PluginFactory for SmsFactory {
    open spec fn describes(&self) -> MetaView {
        meta::sms_view()
    }

    open spec fn initial(&self) -> PluginState {
        PluginState::Stub(meta::sms_view())
    }

    fn meta(&self) -> (r: PluginMeta) {
        meta::sms()
    }

    fn create(&self) -> (r: PluginInstance) {
        PluginInstance::Stub(StubPlugin::new(meta::sms()))
    }
}

/// Builds system-volume placeholder instances.
#[derive(Debug, Clone, Copy)]
pub struct SystemVolumeFactory;

impl PluginFactory for SystemVolumeFactory {
    open spec fn describes(&self) -> MetaView {
        meta::system_volume_view()
    }

    open spec fn initial(&self) -> PluginState {
        PluginState::Stub(meta::system_volume_view())
    }

    fn meta(&self) -> (r: PluginMeta) {
        meta::system_volume()
    }

    fn create(&self) -> (r: PluginInstance) {
        PluginInstance::Stub(StubPlugin::new(meta::system_volume()))
    }
}

/// Builds telephony placeholder instances.
#[derive(Debug, Clone, Copy)]
pub struct TelephonyFactory;

impl PluginFactory for TelephonyFactory {
    open spec fn describes(&self) -> MetaView {
        meta::telephony_view()
    }

    open spec fn initial(&self) -> PluginState {
        PluginState::Stub(meta::telephony_view())
    }

    fn meta(&self) -> (r: PluginMeta) {
        meta::telephony()
    }

    fn create(&self) -> (r: PluginInstance) {
        PluginInstance::Stub(StubPlugin::new(meta::telephony()))
    }
}

/// Builds virtual-input placeholder instances.
#[derive(Debug, Clone, Copy)]
pub struct VirtualInputFactory;

impl PluginFactory for VirtualInputFactory {
    open spec fn describes(&self) -> MetaView {
        meta::virtual_input_view()
    }

    open spec fn initial(&self) -> PluginState {
        PluginState::Stub(meta::virtual_input_view())
    }

    fn meta(&self) -> (r: PluginMeta) {
        meta::virtual_input()
    }

    fn create(&self) -> (r: PluginInstance) {
        PluginInstance::Stub(StubPlugin::new(meta::virtual_input()))
    }
}

} // verus!
