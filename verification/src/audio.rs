//! Audio devices as the sound server reports them, the volume and icon the
//! bar shows for the default devices, and the commands the audio menu sends.

use vstd::prelude::*;
use crate::icons::Icons;
use crate::services::ReadOnlyService;
use crate::text::str_eq;

verus! {

/// Most channels a device can have.
pub const CHANNELS_MAX: usize = 32;

/// The volume of a channel at 100 %.
pub const VOLUME_NORM: u32 = 0x10000;

/// The largest valid channel volume.
pub const VOLUME_MAX: u32 = 0x7fff_ffff;

/// Kind of port a device is reached through.
#[derive(Debug, Clone, Copy, PartialEq, Eq, Structural)]
pub enum DeviceType {
    Headphones,
    Speaker,
    Headset,
    Hdmi,
}

/// The icon shown for a kind of port.
pub open spec fn device_type_icon(t: DeviceType) -> Icons {
    match t {
        DeviceType::Speaker => Icons::Speaker3,
        DeviceType::Headphones => Icons::Headphones1,
        DeviceType::Headset => Icons::Headset,
        DeviceType::Hdmi => Icons::MonitorSpeaker,
    }
}

impl DeviceType {
    /// The icon shown for this kind of port.
    pub fn get_icon(&self) -> (icon: Icons)
        ensures
            icon == device_type_icon(*self),
    {
        match self {
            DeviceType::Speaker => Icons::Speaker3,
            DeviceType::Headphones => Icons::Headphones1,
            DeviceType::Headset => Icons::Headset,
            DeviceType::Hdmi => Icons::MonitorSpeaker,
        }
    }
}

/// A selectable port of a device.
#[derive(Debug, Clone)]
pub struct Port {
    pub name: String,
    pub description: String,
    pub device_type: DeviceType,
    pub active: bool,
}

/// Per-channel volumes of a device; `VOLUME_NORM` is 100 %.
#[derive(Debug)]
pub struct ChannelVolumes {
    pub values: Vec<u32>,
}

impl Clone for ChannelVolumes {
    fn clone(&self) -> (r: Self)
        ensures
            r.values@ == self.values@,
    {
        let mut values: Vec<u32> = Vec::new();
        let mut i: usize = 0;
        while i < self.values.len()
            invariant
                i <= self.values@.len(),
                values@ == self.values@.take(i as int),
            decreases self.values@.len() - i,
        {
            values.push(self.values[i]);
            i = i + 1;
        }
        ChannelVolumes { values }
    }
}

impl Default for ChannelVolumes {
    /// No channels: an invalid volume, which reads as silent.
    fn default() -> (r: Self)
        ensures
            r.values@ == Seq::<u32>::empty(),
    {
        ChannelVolumes { values: Vec::new() }
    }
}

/// A channel list the sound server accepts: one to `CHANNELS_MAX` channels,
/// none above `VOLUME_MAX`.
pub open spec fn volumes_valid(v: Seq<u32>) -> bool {
    &&& 0 < v.len() <= CHANNELS_MAX
    &&& forall|i: int| 0 <= i < v.len() ==> v[i] <= VOLUME_MAX
}

/// The sum of the channel volumes.
pub open spec fn volumes_sum(v: Seq<u32>) -> nat
    decreases v.len(),
{
    if v.len() == 0 {
        0
    } else {
        volumes_sum(v.drop_last()) + (v.last() as nat)
    }
}

/// The loudest channel (0 for no channels).
pub open spec fn volumes_max(v: Seq<u32>) -> nat
    decreases v.len(),
{
    if v.len() == 0 {
        0
    } else if v.last() > volumes_max(v.drop_last()) {
        v.last() as nat
    } else {
        volumes_max(v.drop_last())
    }
}

/// The average channel volume, rounded down; an invalid list is silent.
pub open spec fn volume_avg(v: Seq<u32>) -> nat {
    if volumes_valid(v) {
        volumes_sum(v) / v.len()
    } else {
        0
    }
}

/// The average volume as a whole percentage of `VOLUME_NORM`, rounded down.
pub open spec fn volume_percent(v: Seq<u32>) -> int {
    (volume_avg(v) * 100 / (VOLUME_NORM as nat)) as int
}

/// The channel volume a volume slider position in percent stands for: the
/// position is clamped to `0..=100` and `VOLUME_NORM` is 100 %.
pub open spec fn scale_target(percent: int) -> nat {
    if percent <= 0 {
        0
    } else if percent >= 100 {
        VOLUME_NORM as nat
    } else {
        (VOLUME_NORM * percent / 100) as nat
    }
}

/// The channels rescaled so that the loudest one is at `max`, keeping the
/// proportions between channels; all-silent channels are all set to `max`.
pub open spec fn scaled_volumes(v: Seq<u32>, max: nat) -> Seq<u32> {
    let t = volumes_max(v);
    if t == 0 {
        Seq::new(v.len(), |i: int| max as u32)
    } else {
        Seq::new(v.len(), |i: int| ((v[i] as nat) * max / t) as u32)
    }
}

proof fn lemma_sum_bound(v: Seq<u32>)
    requires
        forall|i: int| 0 <= i < v.len() ==> v[i] <= VOLUME_MAX,
    ensures
        volumes_sum(v) <= v.len() * (VOLUME_MAX as nat),
    decreases v.len(),
{
    if v.len() > 0 {
        lemma_sum_bound(v.drop_last());
    }
}

proof fn lemma_avg_bound(v: Seq<u32>)
    ensures
        volume_avg(v) <= VOLUME_MAX,
{
    if volumes_valid(v) {
        lemma_sum_bound(v);
        let s = volumes_sum(v);
        let n = v.len();
        assert(s / n <= VOLUME_MAX) by (nonlinear_arith)
            requires
                s <= n * (VOLUME_MAX as nat),
                n > 0,
        ;
    }
}

proof fn lemma_max_bound(v: Seq<u32>)
    ensures
        forall|i: int| 0 <= i < v.len() ==> v[i] <= volumes_max(v),
        v.len() > 0 ==> exists|i: int| 0 <= i < v.len() && v[i] == volumes_max(v),
    decreases v.len(),
{
    if v.len() > 0 {
        let w = v.drop_last();
        lemma_max_bound(w);
        assert forall|i: int| 0 <= i < v.len() implies v[i] <= volumes_max(v) by {
            if i < w.len() {
                assert(v[i] == w[i]);
            }
        }
        if w.len() > 0 && v.last() <= volumes_max(w) {
            let k = choose|k: int| 0 <= k < w.len() && w[k] == volumes_max(w);
            assert(v[k] == w[k]);
        } else {
            assert(v[v.len() - 1] == volumes_max(v));
        }
    }
}

impl ChannelVolumes {
    /// Whether the sound server accepts the channel list.
    pub fn is_valid(&self) -> (b: bool)
        ensures
            b == volumes_valid(self.values@),
    {
        let n = self.values.len();
        if n == 0 || n > CHANNELS_MAX {
            return false;
        }
        let mut k: usize = 0;
        while k < n
            invariant
                n == self.values@.len(),
                k <= n,
                forall|j: int| 0 <= j < k ==> self.values@[j] <= VOLUME_MAX,
            decreases n - k,
        {
            if self.values[k] > VOLUME_MAX {
                return false;
            }
            k = k + 1;
        }
        true
    }

    /// The average channel volume, rounded down; an invalid channel list
    /// gives 0.
    pub fn avg(&self) -> (a: u32)
        ensures
            a == volume_avg(self.values@),
    {
        let n = self.values.len();
        if n == 0 || n > CHANNELS_MAX {
            return 0;
        }
        let mut sum: u64 = 0;
        let mut i: usize = 0;
        while i < n
            invariant
                n == self.values@.len(),
                0 < n <= CHANNELS_MAX,
                i <= n,
                sum == volumes_sum(self.values@.take(i as int)),
                sum <= i * (VOLUME_MAX as nat),
                forall|j: int| 0 <= j < i ==> self.values@[j] <= VOLUME_MAX,
            decreases n - i,
        {
            let v = self.values[i];
            if v > VOLUME_MAX {
                return 0;
            }
            proof {
                assert(self.values@.take(i + 1).drop_last() =~= self.values@.take(i as int));
            }
            sum = sum + v as u64;
            i = i + 1;
        }
        proof {
            assert(self.values@.take(n as int) =~= self.values@);
        }
        let n64 = n as u64;
        assert(sum / n64 <= VOLUME_MAX) by (nonlinear_arith)
            requires
                sum <= n64 * (VOLUME_MAX as nat),
                n64 > 0,
        ;
        (sum / n64) as u32
    }

    /// The loudest channel (0 for no channels).
    fn max_volume(&self) -> (m: u32)
        ensures
            m == volumes_max(self.values@),
    {
        let mut m: u32 = 0;
        let mut i: usize = 0;
        while i < self.values.len()
            invariant
                i <= self.values@.len(),
                m == volumes_max(self.values@.take(i as int)),
            decreases self.values@.len() - i,
        {
            proof {
                assert(self.values@.take(i + 1).drop_last() =~= self.values@.take(i as int));
            }
            if self.values[i] > m {
                m = self.values[i];
            }
            i = i + 1;
        }
        proof {
            assert(self.values@.take(self.values@.len() as int) =~= self.values@);
        }
        m
    }

    /// The volume scaled to a slider position in percent (see
    /// [`scale_target`] and [`scaled_volumes`]); `None`, and the channels
    /// unchanged, when the channel list is invalid.
    pub fn scale_volume(&mut self, percent: i32) -> (r: Option<ChannelVolumes>)
        ensures
            volumes_valid(old(self).values@) ==> {
                &&& final(self).values@ == scaled_volumes(
                    old(self).values@,
                    scale_target(percent as int),
                )
                &&& r matches Some(c) && c.values@ == final(self).values@
            },
            !volumes_valid(old(self).values@) ==> r is None && final(self).values@ == old(
                self,
            ).values@,
    {
        if !self.is_valid() {
            return None;
        }
        let n = self.values.len();
        let max: u64 = if percent <= 0 {
            0
        } else if percent >= 100 {
            0x10000
        } else {
            let p: u64 = percent as u64;
            assert(0x10000 * p / 100 <= 0x10000) by (nonlinear_arith)
                requires
                    p < 100,
            ;
            0x10000 * p / 100
        };
        let t = self.max_volume();
        proof {
            lemma_max_bound(self.values@);
        }
        let ghost old_values = self.values@;
        let mut values: Vec<u32> = Vec::new();
        let mut i: usize = 0;
        while i < n
            invariant
                self.values@ == old_values,
                n == old_values.len(),
                i <= n,
                t == volumes_max(old_values),
                max <= VOLUME_NORM,
                forall|j: int| 0 <= j < n ==> old_values[j] <= t,
                values@.len() == i,
                forall|j: int|
                    0 <= j < i ==> values@[j] == scaled_volumes(old_values, max as nat)[j],
            decreases n - i,
        {
            let v = self.values[i];
            let scaled: u32 = if t == 0 {
                max as u32
            } else {
                assert((v as int) * (max as int) / (t as int) <= max as int) by (nonlinear_arith)
                    requires
                        v <= t,
                        t > 0,
                ;
                assert((v as int) * (max as int) <= 0xffff_ffff * 0x10000) by (nonlinear_arith)
                    requires
                        v <= 0xffff_ffff,
                        max <= 0x10000,
                ;
                ((v as u64) * max / (t as u64)) as u32
            };
            values.push(scaled);
            i = i + 1;
        }
        proof {
            assert(values@ =~= scaled_volumes(old_values, max as nat));
        }
        self.values = values;
        let copy = self.clone();
        Some(copy)
    }
}

/// A sink or source as the sound server describes it.
#[derive(Debug, Clone)]
pub struct Device {
    pub name: String,
    pub description: String,
    pub volume: ChannelVolumes,
    pub is_mute: bool,
    pub in_use: bool,
    pub ports: Vec<Port>,
}

/// Whether one of the device's ports is active.
pub open spec fn has_active_port(d: Device) -> bool {
    exists|j: int| 0 <= j < d.ports@.len() && #[trigger] d.ports@[j].active
}

/// Whether the device is the default one (by name) and has an active port.
pub open spec fn is_active_default(d: Device, default: Seq<char>) -> bool {
    d.name@ == default && has_active_port(d)
}

/// Whether `i` is the first device that [`is_active_default`].
pub open spec fn is_first_active_default(devices: Seq<Device>, default: Seq<char>, i: int) -> bool {
    &&& 0 <= i < devices.len()
    &&& is_active_default(devices[i], default)
    &&& forall|j: int| 0 <= j < i ==> !is_active_default(#[trigger] devices[j], default)
}

/// The first device that is the default one and has an active port.
pub open spec fn active_default_device(devices: Seq<Device>, default: Seq<char>) -> Option<Device> {
    if exists|i: int| is_first_active_default(devices, default, i) {
        Some(devices[choose|i: int| is_first_active_default(devices, default, i)])
    } else {
        None
    }
}

/// Whether `i` is the first device named `name`.
pub open spec fn is_first_named(devices: Seq<Device>, name: Seq<char>, i: int) -> bool {
    &&& 0 <= i < devices.len()
    &&& devices[i].name@ == name
    &&& forall|j: int| 0 <= j < i ==> (#[trigger] devices[j]).name@ != name
}

/// The position of the first device named `name`.
pub open spec fn named_index(devices: Seq<Device>, name: Seq<char>) -> Option<int> {
    if exists|i: int| is_first_named(devices, name, i) {
        Some(choose|i: int| is_first_named(devices, name, i))
    } else {
        None
    }
}

proof fn lemma_first_active_default(devices: Seq<Device>, default: Seq<char>, i: int)
    requires
        is_first_active_default(devices, default, i),
    ensures
        active_default_device(devices, default) == Some(devices[i]),
{
    let k = choose|k: int| is_first_active_default(devices, default, k);
    assert(is_first_active_default(devices, default, k));
    if k < i {
        assert(!is_active_default(devices[k], default));
    } else if i < k {
        assert(!is_active_default(devices[i], default));
    }
}

proof fn lemma_first_named(devices: Seq<Device>, name: Seq<char>, i: int)
    requires
        is_first_named(devices, name, i),
    ensures
        named_index(devices, name) == Some(i),
{
    let k = choose|k: int| is_first_named(devices, name, k);
    assert(is_first_named(devices, name, k));
    if k < i {
        assert(devices[k].name@ != name);
    } else if i < k {
        assert(devices[i].name@ != name);
    }
}

/// Whether one of the device's ports is active.
fn any_port_active(device: &Device) -> (b: bool)
    ensures
        b == has_active_port(*device),
{
    let mut j: usize = 0;
    while j < device.ports.len()
        invariant
            j <= device.ports@.len(),
            forall|k: int| 0 <= k < j ==> !(#[trigger] device.ports@[k]).active,
        decreases device.ports@.len() - j,
    {
        if device.ports[j].active {
            return true;
        }
        j = j + 1;
    }
    false
}

/// The position of the first device that is `default` and has an active
/// port.
fn find_active_default(devices: &Vec<Device>, default: &str) -> (r: Option<usize>)
    ensures
        r matches Some(i) ==> is_first_active_default(devices@, default@, i as int),
        r is None ==> active_default_device(devices@, default@) is None,
{
    let mut i: usize = 0;
    while i < devices.len()
        invariant
            i <= devices@.len(),
            forall|j: int| 0 <= j < i ==> !is_active_default(#[trigger] devices@[j], default@),
        decreases devices@.len() - i,
    {
        let device = &devices[i];
        if str_eq(device.name.as_str(), default) && any_port_active(device) {
            return Some(i);
        }
        i = i + 1;
    }
    proof {
        if exists|k: int| is_first_active_default(devices@, default@, k) {
            let k = choose|k: int| is_first_active_default(devices@, default@, k);
            assert(!is_active_default(devices@[k], default@));
        }
    }
    None
}

/// The position of the first device named `name`.
fn find_named(devices: &Vec<Device>, name: &str) -> (r: Option<usize>)
    ensures
        r matches Some(i) ==> i < devices@.len() && named_index(devices@, name@) == Some(
            i as int,
        ),
        r is None ==> named_index(devices@, name@) is None,
{
    let mut i: usize = 0;
    while i < devices.len()
        invariant
            i <= devices@.len(),
            forall|j: int| 0 <= j < i ==> (#[trigger] devices@[j]).name@ != name@,
        decreases devices@.len() - i,
    {
        if str_eq(devices[i].name.as_str(), name) {
            proof {
                lemma_first_named(devices@, name@, i as int);
            }
            return Some(i);
        }
        i = i + 1;
    }
    proof {
        if exists|k: int| is_first_named(devices@, name@, k) {
            let k = choose|k: int| is_first_named(devices@, name@, k);
            assert(devices@[k].name@ != name@);
        }
    }
    None
}

/// The speaker icon for a device's mute state and average volume: muted or
/// silent is `Speaker0`, then thresholds at 0.33 and 0.66 of `VOLUME_NORM`.
pub open spec fn volume_icon(is_mute: bool, avg: nat) -> Icons {
    if is_mute {
        Icons::Speaker0
    } else if avg * 100 > 66 * (VOLUME_NORM as nat) {
        Icons::Speaker3
    } else if avg * 100 > 33 * (VOLUME_NORM as nat) {
        Icons::Speaker2
    } else if avg > 0 {
        Icons::Speaker1
    } else {
        Icons::Speaker0
    }
}

/// The icon of the default sink among `sinks`; `Speaker0` when it is absent
/// or has no active port.
pub open spec fn sinks_icon(sinks: Seq<Device>, default: Seq<char>) -> Icons {
    match active_default_device(sinks, default) {
        Some(d) => volume_icon(d.is_mute, volume_avg(d.volume.values@)),
        None => Icons::Speaker0,
    }
}

/// Icon of a collection of sinks.
pub trait Sinks {
    /// The icon for the default sink.
    fn get_icon(&self, default_sink: &str) -> Icons;
}

impl Sinks for Vec<Device> {
    fn get_icon(&self, default_sink: &str) -> (icon: Icons)
        ensures
            icon == sinks_icon(self@, default_sink@),
    {
        match find_active_default(self, default_sink) {
            Some(i) => {
                proof {
                    lemma_first_active_default(self@, default_sink@, i as int);
                }
                let sink = &self[i];
                if sink.is_mute {
                    Icons::Speaker0
                } else {
                    let avg = sink.volume.avg() as u64;
                    if avg * 100 > 66 * (VOLUME_NORM as u64) {
                        Icons::Speaker3
                    } else if avg * 100 > 33 * (VOLUME_NORM as u64) {
                        Icons::Speaker2
                    } else if avg > 0 {
                        Icons::Speaker1
                    } else {
                        Icons::Speaker0
                    }
                }
            },
            None => Icons::Speaker0,
        }
    }
}

/// The default sink and source of the sound server.
#[derive(Debug)]
pub struct ServerInfo {
    pub default_sink: String,
    pub default_source: String,
}

impl Clone for ServerInfo {
    fn clone(&self) -> (r: Self)
        ensures
            r == *self,
    {
        ServerInfo { default_sink: self.default_sink.clone(), default_source: self.default_source.clone() }
    }
}

impl Default for ServerInfo {
    fn default() -> (r: Self)
        ensures
            r.default_sink@ == Seq::<char>::empty(),
            r.default_source@ == Seq::<char>::empty(),
    {
        ServerInfo { default_sink: String::new(), default_source: String::new() }
    }
}

impl PartialEq for ServerInfo {
    fn eq(&self, other: &Self) -> (r: bool) {
        self.default_sink == other.default_sink && self.default_source == other.default_source
    }
}

impl vstd::std_specs::cmp::PartialEqSpecImpl for ServerInfo {
    open spec fn obeys_eq_spec() -> bool {
        true
    }

    open spec fn eq_spec(&self, other: &Self) -> bool {
        self.default_sink@ == other.default_sink@ && self.default_source@ == other.default_source@
    }
}

impl Eq for ServerInfo {

}

/// The volume shown for a device in percent: 0 when muted.
pub open spec fn device_volume_percent(d: Device) -> int {
    if d.is_mute {
        0
    } else {
        volume_percent(d.volume.values@)
    }
}

/// The volume shown for the default device among `devices`: 0 when it is
/// absent or has no active port.
pub open spec fn active_volume(devices: Seq<Device>, default: Seq<char>) -> int {
    match active_default_device(devices, default) {
        Some(d) => device_volume_percent(d),
        None => 0,
    }
}

/// What the audio service knows: devices, defaults and the volumes shown.
#[derive(Debug, Clone)]
pub struct AudioData {
    pub server_info: ServerInfo,
    pub sinks: Vec<Device>,
    pub sources: Vec<Device>,
    pub cur_sink_volume: i32,
    pub cur_source_volume: i32,
}

/// Whether the shown volumes are those of the default sink and source.
pub open spec fn volumes_shown(data: AudioData) -> bool {
    &&& data.cur_sink_volume == active_volume(data.sinks@, data.server_info.default_sink@)
    &&& data.cur_source_volume == active_volume(
        data.sources@,
        data.server_info.default_source@,
    )
}

impl Default for AudioData {
    fn default() -> (r: Self)
        ensures
            r.server_info.default_sink@ == Seq::<char>::empty(),
            r.server_info.default_source@ == Seq::<char>::empty(),
            r.sinks@ == Seq::<Device>::empty(),
            r.sources@ == Seq::<Device>::empty(),
            r.cur_sink_volume == 0,
            r.cur_source_volume == 0,
            volumes_shown(r),
    {
        AudioData {
            server_info: ServerInfo::default(),
            sinks: Vec::new(),
            sources: Vec::new(),
            cur_sink_volume: 0,
            cur_source_volume: 0,
        }
    }
}

/// An update from the sound server.
#[derive(Debug, Clone)]
pub enum AudioEvent {
    Sinks(Vec<Device>),
    Sources(Vec<Device>),
    ServerInfo(ServerInfo),
}

/// A request of the audio menu.
#[derive(Debug, Clone)]
pub enum AudioCommand {
    ToggleSinkMute,
    ToggleSourceMute,
    SinkVolume(i32),
    SourceVolume(i32),
    DefaultSink(String, String),
    DefaultSource(String, String),
}

/// A request to the sound server.
#[derive(Debug, Clone)]
pub enum BackendCommand {
    SinkMute(String, bool),
    SourceMute(String, bool),
    SinkVolume(String, ChannelVolumes),
    SourceVolume(String, ChannelVolumes),
    DefaultSink(String, String),
    DefaultSource(String, String),
}

/// The audio state of the bar.
#[derive(Debug, Clone)]
pub struct AudioService {
    pub data: AudioData,
}

/// The mute request that toggles the device named `name`: none when no
/// device has that name.
pub open spec fn mute_toggle(devices: Seq<Device>, name: Seq<char>) -> Option<(String, bool)> {
    match named_index(devices, name) {
        Some(i) => Some((devices[i].name, !devices[i].is_mute)),
        None => None,
    }
}

/// `new` is `old` with its channel volumes replaced by `values`.
pub open spec fn device_with_volumes(old: Device, new: Device, values: Seq<u32>) -> bool {
    &&& new.name == old.name
    &&& new.description == old.description
    &&& new.is_mute == old.is_mute
    &&& new.in_use == old.in_use
    &&& new.ports == old.ports
    &&& new.volume.values@ == values
}

/// The devices after the first one named `name` is rescaled to `percent`,
/// and the channel volumes sent: unchanged and nothing sent when no device
/// has that name or its channel list is invalid.
pub open spec fn volume_change(
    old: Seq<Device>,
    new: Seq<Device>,
    name: Seq<char>,
    percent: int,
    sent: Option<(String, Seq<u32>)>,
) -> bool {
    match named_index(old, name) {
        Some(i) => if volumes_valid(old[i].volume.values@) {
            let values = scaled_volumes(old[i].volume.values@, scale_target(percent));
            &&& new.len() == old.len()
            &&& forall|j: int| 0 <= j < old.len() && j != i ==> new[j] == old[j]
            &&& device_with_volumes(old[i], new[i], values)
            &&& sent == Some((old[i].name, values))
        } else {
            new == old && sent is None
        },
        None => new == old && sent is None,
    }
}

impl AudioService {
    /// A service with no devices yet.
    pub fn new() -> (s: Self)
        ensures
            s.data.sinks@.len() == 0,
            s.data.sources@.len() == 0,
            s.data.server_info.default_sink@ == Seq::<char>::empty(),
            s.data.server_info.default_source@ == Seq::<char>::empty(),
            s.data.cur_sink_volume == 0,
            s.data.cur_source_volume == 0,
    {
        AudioService { data: AudioData::default() }
    }

    /// The volume shown for the default device among `devices`, in percent.
    pub fn active_device_volume(devices: &Vec<Device>, default: &str) -> (v: i32)
        ensures
            v == active_volume(devices@, default@),
    {
        match find_active_default(devices, default) {
            Some(i) => {
                proof {
                    lemma_first_active_default(devices@, default@, i as int);
                }
                let device = &devices[i];
                if device.is_mute {
                    0
                } else {
                    let avg = device.volume.avg() as u64;
                    proof {
                        lemma_avg_bound(device.volume.values@);
                    }
                    assert(avg * 100 / 0x10000 <= 0x7fff_ffff) by (nonlinear_arith)
                        requires
                            avg <= VOLUME_MAX,
                    ;
                    (avg * 100 / (VOLUME_NORM as u64)) as i32
                }
            },
            None => 0,
        }
    }

    /// Applies an update from the sound server and recomputes the volumes
    /// shown for the devices it touches.
    pub fn update(&mut self, event: AudioEvent)
        ensures
            match event {
                AudioEvent::Sinks(sinks) => {
                    &&& final(self).data.sinks == sinks
                    &&& final(self).data.sources == old(self).data.sources
                    &&& final(self).data.server_info == old(self).data.server_info
                    &&& final(self).data.cur_source_volume == old(self).data.cur_source_volume
                },
                AudioEvent::Sources(sources) => {
                    &&& final(self).data.sources == sources
                    &&& final(self).data.sinks == old(self).data.sinks
                    &&& final(self).data.server_info == old(self).data.server_info
                    &&& final(self).data.cur_sink_volume == old(self).data.cur_sink_volume
                },
                AudioEvent::ServerInfo(info) => {
                    &&& final(self).data.server_info == info
                    &&& final(self).data.sinks == old(self).data.sinks
                    &&& final(self).data.sources == old(self).data.sources
                },
            },
            event is Sinks || event is ServerInfo ==> final(self).data.cur_sink_volume
                == active_volume(final(self).data.sinks@, final(self).data.server_info.default_sink@),
            event is Sources || event is ServerInfo ==> final(self).data.cur_source_volume
                == active_volume(
                final(self).data.sources@,
                final(self).data.server_info.default_source@,
            ),
            volumes_shown(old(self).data) ==> volumes_shown(final(self).data),
    {
        match event {
            AudioEvent::Sinks(sinks) => {
                self.data.sinks = sinks;
                self.data.cur_sink_volume = Self::active_device_volume(
                    &self.data.sinks,
                    self.data.server_info.default_sink.as_str(),
                );
            },
            AudioEvent::Sources(sources) => {
                self.data.sources = sources;
                self.data.cur_source_volume = Self::active_device_volume(
                    &self.data.sources,
                    self.data.server_info.default_source.as_str(),
                );
            },
            AudioEvent::ServerInfo(info) => {
                self.data.server_info = info;
                self.data.cur_sink_volume = Self::active_device_volume(
                    &self.data.sinks,
                    self.data.server_info.default_sink.as_str(),
                );
                self.data.cur_source_volume = Self::active_device_volume(
                    &self.data.sources,
                    self.data.server_info.default_source.as_str(),
                );
            },
        }
    }

    /// Rescales the first device named `name` to `percent`, returning its
    /// name and new channel volumes.
    fn rescale(devices: &mut Vec<Device>, name: &str, percent: i32) -> (sent: Option<(String, ChannelVolumes)>)
        ensures
            volume_change(
                old(devices)@,
                final(devices)@,
                name@,
                percent as int,
                match sent {
                    Some(p) => Some((p.0, p.1.values@)),
                    None => None,
                },
            ),
    {
        match find_named(devices, name) {
            Some(i) => {
                if !devices[i].volume.is_valid() {
                    return None;
                }
                let mut device = devices.remove(i);
                match device.volume.scale_volume(percent) {
                    Some(volume) => {
                        let device_name = device.name.clone();
                        devices.insert(i, device);
                        assert(final(devices)@ == old(devices)@.remove(i as int).insert(i as int, devices@[i as int]));
                        proof {
                            assert forall|j: int| 0 <= j < old(devices)@.len() && j != i implies devices@[j] == old(devices)@[j] by {
                                if j < i {
                                    assert(old(devices)@.remove(i as int)[j] == old(devices)@[j]);
                                } else {
                                    assert(old(devices)@.remove(i as int)[j - 1] == old(devices)@[j]);
                                }
                            }
                        }
                        Some((device_name, volume))
                    },
                    None => {
                        devices.insert(i, device);
                        None
                    },
                }
            },
            None => None,
        }
    }

    /// Handles a request of the audio menu and returns the request to send to
    /// the sound server, if any. Mute toggles and volume changes go to the
    /// first device named as the default one; a volume change also updates
    /// that device's channels here.
    pub fn command(&mut self, command: AudioCommand) -> (sent: Option<BackendCommand>)
        ensures
            match command {
                AudioCommand::ToggleSinkMute => final(self).data == old(self).data && match mute_toggle(
                    old(self).data.sinks@,
                    old(self).data.server_info.default_sink@,
                ) {
                    Some((n, m)) => sent == Some(BackendCommand::SinkMute(n, m)),
                    None => sent is None,
                },
                AudioCommand::ToggleSourceMute => final(self).data == old(self).data
                    && match mute_toggle(
                    old(self).data.sources@,
                    old(self).data.server_info.default_source@,
                ) {
                    Some((n, m)) => sent == Some(BackendCommand::SourceMute(n, m)),
                    None => sent is None,
                },
                AudioCommand::SinkVolume(percent) => {
                    &&& final(self).data.server_info == old(self).data.server_info
                    &&& final(self).data.sources == old(self).data.sources
                    &&& final(self).data.cur_sink_volume == old(self).data.cur_sink_volume
                    &&& final(self).data.cur_source_volume == old(self).data.cur_source_volume
                    &&& volume_change(
                        old(self).data.sinks@,
                        final(self).data.sinks@,
                        old(self).data.server_info.default_sink@,
                        percent as int,
                        match sent {
                            Some(BackendCommand::SinkVolume(n, v)) => Some((n, v.values@)),
                            _ => None,
                        },
                    )
                    &&& (sent is None || sent matches Some(BackendCommand::SinkVolume(_, _)))
                },
                AudioCommand::SourceVolume(percent) => {
                    &&& final(self).data.server_info == old(self).data.server_info
                    &&& final(self).data.sinks == old(self).data.sinks
                    &&& final(self).data.cur_sink_volume == old(self).data.cur_sink_volume
                    &&& final(self).data.cur_source_volume == old(self).data.cur_source_volume
                    &&& volume_change(
                        old(self).data.sources@,
                        final(self).data.sources@,
                        old(self).data.server_info.default_source@,
                        percent as int,
                        match sent {
                            Some(BackendCommand::SourceVolume(n, v)) => Some((n, v.values@)),
                            _ => None,
                        },
                    )
                    &&& (sent is None || sent matches Some(BackendCommand::SourceVolume(_, _)))
                },
                AudioCommand::DefaultSink(name, port) => final(self).data == old(self).data
                    && sent == Some(BackendCommand::DefaultSink(name, port)),
                AudioCommand::DefaultSource(name, port) => final(self).data == old(self).data
                    && sent == Some(BackendCommand::DefaultSource(name, port)),
            },
    {
        match command {
            AudioCommand::ToggleSinkMute => {
                match find_named(&self.data.sinks, self.data.server_info.default_sink.as_str()) {
                    Some(i) => {
                        let sink = &self.data.sinks[i];
                        Some(BackendCommand::SinkMute(sink.name.clone(), !sink.is_mute))
                    },
                    None => None,
                }
            },
            AudioCommand::ToggleSourceMute => {
                match find_named(&self.data.sources, self.data.server_info.default_source.as_str()) {
                    Some(i) => {
                        let source = &self.data.sources[i];
                        Some(BackendCommand::SourceMute(source.name.clone(), !source.is_mute))
                    },
                    None => None,
                }
            },
            AudioCommand::SinkVolume(percent) => {
                let default = self.data.server_info.default_sink.clone();
                match Self::rescale(&mut self.data.sinks, default.as_str(), percent) {
                    Some((name, volume)) => Some(BackendCommand::SinkVolume(name, volume)),
                    None => None,
                }
            },
            AudioCommand::SourceVolume(percent) => {
                let default = self.data.server_info.default_source.clone();
                match Self::rescale(&mut self.data.sources, default.as_str(), percent) {
                    Some((name, volume)) => Some(BackendCommand::SourceVolume(name, volume)),
                    None => None,
                }
            },
            AudioCommand::DefaultSink(name, port) => Some(BackendCommand::DefaultSink(name, port)),
            AudioCommand::DefaultSource(name, port) => Some(BackendCommand::DefaultSource(name, port)),
        }
    }
}

impl ReadOnlyService for AudioService {
    type UpdateEvent = AudioEvent;
    type Error = ();
}

} // verus!
