//! Network state: the codes reported by NetworkManager, the data that the
//! network service maintains, and how events update it.

use vstd::prelude::*;
use vstd::std_specs::convert::FromSpecImpl;
use crate::text::str_eq;

verus! {

/// Category of a network device.
#[derive(Debug, Clone, Copy, PartialEq, Eq, Structural)]
pub enum DeviceType {
    Ethernet,
    Wifi,
    Bluetooth,
    TunTap,
    WireGuard,
    Generic,
    Other,
    Unknown,
}

impl Default for DeviceType {
    fn default() -> (d: Self)
        ensures
            d == DeviceType::Unknown,
    {
        DeviceType::Unknown
    }
}

/// The device type of NetworkManager device-type code `code`.
pub open spec fn device_type_of(code: u32) -> DeviceType {
    if code == 1 {
        DeviceType::Ethernet
    } else if code == 2 {
        DeviceType::Wifi
    } else if code == 5 {
        DeviceType::Bluetooth
    } else if code == 14 {
        DeviceType::Generic
    } else if code == 16 {
        DeviceType::TunTap
    } else if code == 29 {
        DeviceType::WireGuard
    } else if 3 <= code <= 32 {
        DeviceType::Other
    } else {
        DeviceType::Unknown
    }
}

impl From<u32> for DeviceType {
    fn from(device_type: u32) -> (d: DeviceType) {
        if device_type == 1 {
            DeviceType::Ethernet
        } else if device_type == 2 {
            DeviceType::Wifi
        } else if device_type == 5 {
            DeviceType::Bluetooth
        } else if device_type == 14 {
            DeviceType::Generic
        } else if device_type == 16 {
            DeviceType::TunTap
        } else if device_type == 29 {
            DeviceType::WireGuard
        } else if 3 <= device_type && device_type <= 32 {
            DeviceType::Other
        } else {
            DeviceType::Unknown
        }
    }
}

impl FromSpecImpl<u32> for DeviceType {
    open spec fn obeys_from_spec() -> bool {
        true
    }

    open spec fn from_spec(v: u32) -> DeviceType {
        device_type_of(v)
    }
}

/// System connectivity status.
#[derive(Debug, Clone, Copy, PartialEq, Eq, Structural)]
pub enum ConnectivityState {
    /// No connectivity at all.
    Offline,
    Portal,
    Loss,
    Full,
    Unknown,
}

impl Default for ConnectivityState {
    fn default() -> (c: Self)
        ensures
            c == ConnectivityState::Unknown,
    {
        ConnectivityState::Unknown
    }
}

/// The connectivity of NetworkManager connectivity code `code`.
pub open spec fn connectivity_of(code: u32) -> ConnectivityState {
    if code == 1 {
        ConnectivityState::Offline
    } else if code == 2 {
        ConnectivityState::Portal
    } else if code == 3 {
        ConnectivityState::Loss
    } else if code == 4 {
        ConnectivityState::Full
    } else {
        ConnectivityState::Unknown
    }
}

/// The code of a connectivity state; the inverse of [`connectivity_of`] on
/// codes 0 to 4.
pub open spec fn connectivity_code(c: ConnectivityState) -> u32 {
    match c {
        ConnectivityState::Offline => 1,
        ConnectivityState::Portal => 2,
        ConnectivityState::Loss => 3,
        ConnectivityState::Full => 4,
        ConnectivityState::Unknown => 0,
    }
}

/// The connectivity named by an iwd state string.
pub open spec fn connectivity_of_name(name: Seq<char>) -> ConnectivityState {
    if name == "inactive"@ || name == "disconnected"@ {
        ConnectivityState::Offline
    } else if name == "portal"@ {
        ConnectivityState::Portal
    } else if name == "failed"@ {
        ConnectivityState::Loss
    } else if name == "connected"@ {
        ConnectivityState::Full
    } else {
        ConnectivityState::Unknown
    }
}

/// The combined connectivity of several devices: the last one of highest
/// code; unknown when there is none.
pub open spec fn combined_connectivity(states: Seq<ConnectivityState>) -> ConnectivityState
    decreases states.len(),
{
    if states.len() == 0 {
        ConnectivityState::Unknown
    } else if states.len() == 1 {
        states[0]
    } else {
        let rest = combined_connectivity(states.drop_last());
        if connectivity_code(states.last()) >= connectivity_code(rest) {
            states.last()
        } else {
            rest
        }
    }
}

impl From<u32> for ConnectivityState {
    fn from(state: u32) -> (c: ConnectivityState) {
        if state == 1 {
            ConnectivityState::Offline
        } else if state == 2 {
            ConnectivityState::Portal
        } else if state == 3 {
            ConnectivityState::Loss
        } else if state == 4 {
            ConnectivityState::Full
        } else {
            ConnectivityState::Unknown
        }
    }
}

impl FromSpecImpl<u32> for ConnectivityState {
    open spec fn obeys_from_spec() -> bool {
        true
    }

    open spec fn from_spec(v: u32) -> ConnectivityState {
        connectivity_of(v)
    }
}

impl From<ConnectivityState> for u32 {
    fn from(val: ConnectivityState) -> (c: u32) {
        match val {
            ConnectivityState::Offline => 1,
            ConnectivityState::Portal => 2,
            ConnectivityState::Loss => 3,
            ConnectivityState::Full => 4,
            ConnectivityState::Unknown => 0,
        }
    }
}

impl FromSpecImpl<ConnectivityState> for u32 {
    open spec fn obeys_from_spec() -> bool {
        true
    }

    open spec fn from_spec(v: ConnectivityState) -> u32 {
        connectivity_code(v)
    }
}

impl From<String> for ConnectivityState {
    fn from(state: String) -> (c: ConnectivityState) {
        let s = state.as_str();
        if str_eq(s, "inactive") || str_eq(s, "disconnected") {
            ConnectivityState::Offline
        } else if str_eq(s, "portal") {
            ConnectivityState::Portal
        } else if str_eq(s, "failed") {
            ConnectivityState::Loss
        } else if str_eq(s, "connected") {
            ConnectivityState::Full
        } else {
            ConnectivityState::Unknown
        }
    }
}

impl FromSpecImpl<String> for ConnectivityState {
    open spec fn obeys_from_spec() -> bool {
        true
    }

    open spec fn from_spec(v: String) -> ConnectivityState {
        connectivity_of_name(v@)
    }
}

impl From<Vec<ConnectivityState>> for ConnectivityState {
    fn from(states: Vec<ConnectivityState>) -> (c: ConnectivityState) {
        if states.len() == 0 {
            return ConnectivityState::Unknown;
        }
        let mut state = states[0];
        let mut i: usize = 1;
        while i < states.len()
            invariant
                1 <= i <= states.len(),
                state == combined_connectivity(states@.take(i as int)),
            decreases states.len() - i,
        {
            let s = states[i];
            proof {
                assert(states@.take(i + 1).drop_last() =~= states@.take(i as int));
            }
            if u32::from(s) >= u32::from(state) {
                state = s;
            }
            i = i + 1;
        }
        assert(states@.take(states.len() as int) =~= states@);
        state
    }
}

impl FromSpecImpl<Vec<ConnectivityState>> for ConnectivityState {
    open spec fn obeys_from_spec() -> bool {
        true
    }

    open spec fn from_spec(v: Vec<ConnectivityState>) -> ConnectivityState {
        combined_connectivity(v@)
    }
}

/// The combined connectivity of several devices is one of them and has the
/// highest code among them.
pub proof fn lemma_combined_connectivity_is_highest(states: Seq<ConnectivityState>)
    requires
        states.len() > 0,
    ensures
        states.contains(combined_connectivity(states)),
        forall|i: int|
            0 <= i < states.len() ==> connectivity_code(states[i]) <= connectivity_code(
                combined_connectivity(states),
            ),
    decreases states.len(),
{
    if states.len() == 1 {
        assert(states[0] == combined_connectivity(states));
    } else {
        let init = states.drop_last();
        lemma_combined_connectivity_is_highest(init);
        let rest = combined_connectivity(init);
        let k = choose|k: int| 0 <= k < init.len() && init[k] == rest;
        if connectivity_code(states.last()) >= connectivity_code(rest) {
            assert(states[states.len() - 1] == states.last());
        } else {
            assert(states[k] == init[k]);
        }
        assert forall|i: int| 0 <= i < states.len() implies connectivity_code(states[i])
            <= connectivity_code(combined_connectivity(states)) by {
            if i < states.len() - 1 {
                assert(states[i] == init[i]);
            }
        }
    }
}

/// Connectivity follows NetworkManager's `NMConnectivityState` codes: unknown
/// is 0, none (offline) 1, portal 2, limited (loss) 3 and full 4. The code
/// and the state convert back and forth, every other code is unknown, and
/// the codes rank the states unknown < offline < portal < loss < full.
pub proof fn lemma_connectivity_codes(c: ConnectivityState, code: u32)
    ensures
        connectivity_code(ConnectivityState::Unknown) == 0,
        connectivity_code(ConnectivityState::Offline) == 1,
        connectivity_code(ConnectivityState::Portal) == 2,
        connectivity_code(ConnectivityState::Loss) == 3,
        connectivity_code(ConnectivityState::Full) == 4,
        connectivity_of(connectivity_code(c)) == c,
        code <= 4 ==> connectivity_code(connectivity_of(code)) == code,
        code > 4 ==> connectivity_of(code) == ConnectivityState::Unknown,
        c != ConnectivityState::Full ==> connectivity_code(c) < connectivity_code(
            ConnectivityState::Full,
        ),
{
}

/// A device with full connectivity makes the combined connectivity full,
/// whatever the other devices report; the combination is unknown only when
/// every device is unknown (or there is none).
pub proof fn lemma_full_connectivity_wins(states: Seq<ConnectivityState>)
    ensures
        states.contains(ConnectivityState::Full) ==> combined_connectivity(states)
            == ConnectivityState::Full,
        combined_connectivity(states) == ConnectivityState::Unknown ==> forall|i: int|
            0 <= i < states.len() ==> states[i] == ConnectivityState::Unknown,
{
    if states.len() > 0 {
        lemma_combined_connectivity_is_highest(states);
        let c = combined_connectivity(states);
        if states.contains(ConnectivityState::Full) {
            let i = choose|i: int| 0 <= i < states.len() && states[i] == ConnectivityState::Full;
            assert(connectivity_code(states[i]) <= connectivity_code(c));
        }
        if c == ConnectivityState::Unknown {
            assert forall|i: int| 0 <= i < states.len() implies states[i]
                == ConnectivityState::Unknown by {
                assert(connectivity_code(states[i]) <= connectivity_code(c));
            }
        }
    }
}

/// The iwd state names: `inactive` and `disconnected` are offline, `portal`
/// is a portal, `failed` is a loss, `connected` is full, and any other name
/// is unknown.
pub proof fn lemma_connectivity_names(name: Seq<char>)
    ensures
        connectivity_of_name("inactive"@) == ConnectivityState::Offline,
        connectivity_of_name("disconnected"@) == ConnectivityState::Offline,
        connectivity_of_name("portal"@) == ConnectivityState::Portal,
        connectivity_of_name("failed"@) == ConnectivityState::Loss,
        connectivity_of_name("connected"@) == ConnectivityState::Full,
        name != "inactive"@ && name != "disconnected"@ && name != "portal"@ && name != "failed"@
            && name != "connected"@ ==> connectivity_of_name(name) == ConnectivityState::Unknown,
{
    reveal_strlit("inactive");
    reveal_strlit("disconnected");
    reveal_strlit("portal");
    reveal_strlit("failed");
    reveal_strlit("connected");
    assert("inactive"@.len() == 8 && "disconnected"@.len() == 12 && "portal"@.len() == 6
        && "failed"@.len() == 6 && "connected"@.len() == 9);
    assert("failed"@[0] != "portal"@[0]);
}

/// Device types follow NetworkManager's `NMDeviceType` codes: ethernet is 1,
/// Wi-Fi 2, Bluetooth 5, generic 14, tun/tap 16 and WireGuard 29; every other
/// code from 3 to 32 is another known type, and 0 or a code above 32 is
/// unknown. Each named type has exactly one code.
pub proof fn lemma_device_type_codes(code: u32)
    ensures
        device_type_of(code) == DeviceType::Ethernet <==> code == 1,
        device_type_of(code) == DeviceType::Wifi <==> code == 2,
        device_type_of(code) == DeviceType::Bluetooth <==> code == 5,
        device_type_of(code) == DeviceType::Generic <==> code == 14,
        device_type_of(code) == DeviceType::TunTap <==> code == 16,
        device_type_of(code) == DeviceType::WireGuard <==> code == 29,
        device_type_of(code) == DeviceType::Other <==> (3 <= code <= 32 && code != 5 && code != 14
            && code != 16 && code != 29),
        device_type_of(code) == DeviceType::Unknown <==> (code == 0 || code > 32),
{
}

/// State of a network device.
#[derive(Debug, Clone, Copy, PartialEq, Eq, Structural)]
pub enum DeviceState {
    Unmanaged,
    Unavailable,
    Disconnected,
    Prepare,
    Config,
    NeedAuth,
    IpConfig,
    IpCheck,
    Secondaries,
    Activated,
    Deactivating,
    Failed,
    Unknown,
}

impl Default for DeviceState {
    fn default() -> (d: Self)
        ensures
            d == DeviceState::Unknown,
    {
        DeviceState::Unknown
    }
}

/// The device state of NetworkManager state code `code`.
pub open spec fn device_state_of(code: u32) -> DeviceState {
    if code == 10 {
        DeviceState::Unmanaged
    } else if code == 20 {
        DeviceState::Unavailable
    } else if code == 30 {
        DeviceState::Disconnected
    } else if code == 40 {
        DeviceState::Prepare
    } else if code == 50 {
        DeviceState::Config
    } else if code == 60 {
        DeviceState::NeedAuth
    } else if code == 70 {
        DeviceState::IpConfig
    } else if code == 80 {
        DeviceState::IpCheck
    } else if code == 90 {
        DeviceState::Secondaries
    } else if code == 100 {
        DeviceState::Activated
    } else if code == 110 {
        DeviceState::Deactivating
    } else if code == 120 {
        DeviceState::Failed
    } else {
        DeviceState::Unknown
    }
}

impl From<u32> for DeviceState {
    fn from(device_state: u32) -> (d: Self) {
        if device_state == 10 {
            DeviceState::Unmanaged
        } else if device_state == 20 {
            DeviceState::Unavailable
        } else if device_state == 30 {
            DeviceState::Disconnected
        } else if device_state == 40 {
            DeviceState::Prepare
        } else if device_state == 50 {
            DeviceState::Config
        } else if device_state == 60 {
            DeviceState::NeedAuth
        } else if device_state == 70 {
            DeviceState::IpConfig
        } else if device_state == 80 {
            DeviceState::IpCheck
        } else if device_state == 90 {
            DeviceState::Secondaries
        } else if device_state == 100 {
            DeviceState::Activated
        } else if device_state == 110 {
            DeviceState::Deactivating
        } else if device_state == 120 {
            DeviceState::Failed
        } else {
            DeviceState::Unknown
        }
    }
}

impl FromSpecImpl<u32> for DeviceState {
    open spec fn obeys_from_spec() -> bool {
        true
    }

    open spec fn from_spec(v: u32) -> DeviceState {
        device_state_of(v)
    }
}

/// Device states follow NetworkManager's `NMDeviceState` codes, ten apart:
/// unmanaged 10, unavailable 20, disconnected 30, prepare 40, config 50,
/// need-auth 60, ip-config 70, ip-check 80, secondaries 90, activated 100,
/// deactivating 110 and failed 120. Any other code is unknown, and distinct
/// known codes give distinct states.
pub proof fn lemma_device_state_codes(a: u32, b: u32)
    ensures
        device_state_of(10) == DeviceState::Unmanaged,
        device_state_of(20) == DeviceState::Unavailable,
        device_state_of(30) == DeviceState::Disconnected,
        device_state_of(40) == DeviceState::Prepare,
        device_state_of(50) == DeviceState::Config,
        device_state_of(60) == DeviceState::NeedAuth,
        device_state_of(70) == DeviceState::IpConfig,
        device_state_of(80) == DeviceState::IpCheck,
        device_state_of(90) == DeviceState::Secondaries,
        device_state_of(100) == DeviceState::Activated,
        device_state_of(110) == DeviceState::Deactivating,
        device_state_of(120) == DeviceState::Failed,
        device_state_of(a) != DeviceState::Unknown <==> (10 <= a <= 120 && a % 10 == 0),
        device_state_of(a) == device_state_of(b) && device_state_of(a) != DeviceState::Unknown
            ==> a == b,
{
}

/// A Wi-Fi access point.
#[derive(Debug, PartialEq, Eq)]
pub struct AccessPoint {
    pub ssid: String,
    pub strength: u8,
    pub state: DeviceState,
    pub public: bool,
    pub working: bool,
    /// D-Bus object path of the access point.
    pub path: String,
    /// D-Bus object path of the device that sees it.
    pub device_path: String,
}

impl Clone for AccessPoint {
    fn clone(&self) -> (r: Self)
        ensures
            r == *self,
    {
        AccessPoint {
            ssid: self.ssid.clone(),
            strength: self.strength,
            state: self.state,
            public: self.public,
            working: self.working,
            path: self.path.clone(),
            device_path: self.device_path.clone(),
        }
    }
}

/// A VPN connection.
#[derive(Debug, PartialEq, Eq)]
pub struct Vpn {
    pub name: String,
    /// D-Bus object path of the connection.
    pub path: String,
}

/// A connection remembered by the backend.
#[derive(Debug)]
pub enum KnownConnection {
    AccessPoint(AccessPoint),
    Vpn(Vpn),
}

/// An active connection.
#[derive(Debug)]
pub enum ActiveConnectionInfo {
    Wired { name: String, speed: u32 },
    WiFi { id: String, name: String, strength: u8 },
    Vpn { name: String, object_path: String },
}

impl Clone for Vpn {
    fn clone(&self) -> (r: Self)
        ensures
            r == *self,
    {
        Vpn { name: self.name.clone(), path: self.path.clone() }
    }
}

impl Clone for KnownConnection {
    fn clone(&self) -> (r: Self)
        ensures
            r == *self,
    {
        match self {
            KnownConnection::AccessPoint(a) => KnownConnection::AccessPoint(a.clone()),
            KnownConnection::Vpn(v) => KnownConnection::Vpn(v.clone()),
        }
    }
}

impl Clone for ActiveConnectionInfo {
    fn clone(&self) -> (r: Self)
        ensures
            r == *self,
    {
        match self {
            ActiveConnectionInfo::Wired { name, speed } => ActiveConnectionInfo::Wired {
                name: name.clone(),
                speed: *speed,
            },
            ActiveConnectionInfo::WiFi { id, name, strength } => ActiveConnectionInfo::WiFi {
                id: id.clone(),
                name: name.clone(),
                strength: *strength,
            },
            ActiveConnectionInfo::Vpn { name, object_path } => ActiveConnectionInfo::Vpn {
                name: name.clone(),
                object_path: object_path.clone(),
            },
        }
    }
}

/// The name of an active connection.
pub open spec fn connection_name(c: ActiveConnectionInfo) -> String {
    match c {
        ActiveConnectionInfo::Wired { name, .. } => name,
        ActiveConnectionInfo::WiFi { name, .. } => name,
        ActiveConnectionInfo::Vpn { name, .. } => name,
    }
}

impl ActiveConnectionInfo {
    /// The human-friendly name of the connection.
    pub fn name(&self) -> (s: String)
        ensures
            s == connection_name(*self),
    {
        match self {
            ActiveConnectionInfo::Wired { name, .. } => name.clone(),
            ActiveConnectionInfo::WiFi { name, .. } => name.clone(),
            ActiveConnectionInfo::Vpn { name, .. } => name.clone(),
        }
    }
}

/// An error of the network service.
#[derive(Debug, Clone, PartialEq, Eq)]
pub struct NetworkServiceError {
    message: String,
}

impl NetworkServiceError {
    /// The error's message.
    pub closed spec fn text(&self) -> Seq<char> {
        self.message@
    }

    /// An error carrying `message`.
    pub fn new(message: String) -> (e: Self)
        ensures
            e.text() == message@,
    {
        NetworkServiceError { message }
    }

    /// The error's message.
    pub fn message(&self) -> (s: &str)
        ensures
            s@ == self.text(),
    {
        self.message.as_str()
    }
}

/// Events produced by the network backend.
#[derive(Debug)]
pub enum NetworkEvent {
    /// Wi-Fi has been enabled or disabled.
    WiFiEnabled(bool),
    /// Airplane mode has been enabled or disabled.
    AirplaneMode(bool),
    /// The current connectivity.
    Connectivity(ConnectivityState),
    /// Wireless adapter presence and visible access points.
    WirelessDevice { wifi_present: bool, wireless_access_points: Vec<AccessPoint> },
    /// The currently active connections.
    ActiveConnections(Vec<ActiveConnectionInfo>),
    /// The connections remembered by the backend.
    KnownConnections(Vec<KnownConnection>),
    /// A new snapshot of visible access points.
    WirelessAccessPoint(Vec<AccessPoint>),
    /// A signal strength update for an SSID.
    Strength((String, u8)),
    /// A password is requested for the given SSID.
    RequestPasswordForSSID(String),
    /// The backend is scanning for Wi-Fi networks.
    ScanningNearbyWifi,
}

/// Commands accepted by the network service.
#[derive(Debug)]
pub enum NetworkCommand {
    ScanNearByWiFi,
    ToggleWiFi,
    ToggleAirplaneMode,
    SelectAccessPoint((AccessPoint, Option<String>)),
    ToggleVpn(Vpn),
}

/// The data the network service maintains.
#[derive(Debug, Clone)]
pub struct NetworkData {
    /// Whether a Wi-Fi adapter is present.
    pub wifi_present: bool,
    /// Discovered wireless access points.
    pub wireless_access_points: Vec<AccessPoint>,
    /// Active connections.
    pub active_connections: Vec<ActiveConnectionInfo>,
    /// Connections remembered by the backend.
    pub known_connections: Vec<KnownConnection>,
    /// Whether Wi-Fi is enabled.
    pub wifi_enabled: bool,
    /// Whether airplane mode is on.
    pub airplane_mode: bool,
    /// Connectivity reported by the backend.
    pub connectivity: ConnectivityState,
    /// Whether a Wi-Fi scan is running.
    pub scanning_nearby_wifi: bool,
    /// The last error met by the service, if any.
    pub last_error: Option<NetworkServiceError>,
}

impl Default for NetworkData {
    fn default() -> (d: Self)
        ensures
            !d.wifi_present,
            d.wireless_access_points@.len() == 0,
            d.active_connections@.len() == 0,
            d.known_connections@.len() == 0,
            !d.wifi_enabled,
            !d.airplane_mode,
            d.connectivity == ConnectivityState::Unknown,
            !d.scanning_nearby_wifi,
            d.last_error is None,
    {
        NetworkData {
            wifi_present: false,
            wireless_access_points: Vec::new(),
            active_connections: Vec::new(),
            known_connections: Vec::new(),
            wifi_enabled: false,
            airplane_mode: false,
            connectivity: ConnectivityState::Unknown,
            scanning_nearby_wifi: false,
            last_error: None,
        }
    }
}

/// Whether `k` is the first access point with SSID `ssid` in `aps`.
pub open spec fn first_ap_with_ssid(aps: Seq<AccessPoint>, ssid: Seq<char>, k: int) -> bool {
    &&& 0 <= k < aps.len()
    &&& aps[k].ssid@ == ssid
    &&& forall|j: int| 0 <= j < k ==> aps[j].ssid@ != ssid
}

/// Whether `k` is the first active connection named `name` in `acs`.
pub open spec fn first_connection_named(
    acs: Seq<ActiveConnectionInfo>,
    name: Seq<char>,
    k: int,
) -> bool {
    &&& 0 <= k < acs.len()
    &&& connection_name(acs[k])@ == name
    &&& forall|j: int| 0 <= j < k ==> connection_name(acs[j])@ != name
}

/// `c` with signal strength `s` when it is a Wi-Fi connection; `c` itself
/// otherwise.
pub open spec fn with_strength(c: ActiveConnectionInfo, s: u8) -> ActiveConnectionInfo {
    match c {
        ActiveConnectionInfo::WiFi { id, name, .. } => ActiveConnectionInfo::WiFi {
            id,
            name,
            strength: s,
        },
        _ => c,
    }
}

/// Whether `new_acs` is `acs` with the first connection named `ssid` taking
/// strength `s` (when it is a Wi-Fi connection), or `acs` itself when no
/// connection has that name.
pub open spec fn connections_strength_updated(
    acs: Seq<ActiveConnectionInfo>,
    ssid: Seq<char>,
    s: u8,
    new_acs: Seq<ActiveConnectionInfo>,
) -> bool {
    ||| exists|j: int|
        first_connection_named(acs, ssid, j) && new_acs == acs.update(j, with_strength(acs[j], s))
    ||| (forall|j: int| 0 <= j < acs.len() ==> connection_name(acs[j])@ != ssid) && new_acs == acs
}

/// What a strength update for `ssid` makes of the access points and active
/// connections: the first access point with that SSID takes the strength,
/// and so does the first active connection of the same name when it is a
/// Wi-Fi connection. Nothing changes when no access point has that SSID.
pub open spec fn strength_updated(
    aps: Seq<AccessPoint>,
    acs: Seq<ActiveConnectionInfo>,
    ssid: Seq<char>,
    s: u8,
    new_aps: Seq<AccessPoint>,
    new_acs: Seq<ActiveConnectionInfo>,
) -> bool {
    ||| exists|k: int|
        first_ap_with_ssid(aps, ssid, k) && new_aps == aps.update(
            k,
            AccessPoint { strength: s, ..aps[k] },
        ) && connections_strength_updated(acs, ssid, s, new_acs)
    ||| (forall|k: int| 0 <= k < aps.len() ==> aps[k].ssid@ != ssid) && new_aps == aps
        && new_acs == acs
}

/// The network service state.
#[derive(Debug, Clone)]
pub struct NetworkService {
    data: NetworkData,
}

impl NetworkService {
    /// The service's data.
    pub closed spec fn state(&self) -> NetworkData {
        self.data
    }

    /// A service holding `data`.
    pub fn new(data: NetworkData) -> (s: Self)
        ensures
            s.state() == data,
    {
        NetworkService { data }
    }

    /// The data the service maintains.
    pub fn data(&self) -> (d: &NetworkData)
        ensures
            *d == self.state(),
    {
        &self.data
    }

    /// Records `error` as the service's last error.
    pub fn apply_error(&mut self, error: NetworkServiceError)
        ensures
            final(self).state() == (NetworkData { last_error: Some(error), ..old(self).state() }),
    {
        self.data.last_error = Some(error);
    }

    /// Applies a backend event to the data and clears the last error.
    pub fn update(&mut self, event: NetworkEvent)
        ensures
            final(self).state().last_error is None,
            ({
                let o = old(self).state();
                let n = final(self).state();
                match event {
                    NetworkEvent::AirplaneMode(b) => n == NetworkData {
                        airplane_mode: b,
                        last_error: None,
                        ..o
                    },
                    NetworkEvent::WiFiEnabled(b) => n == NetworkData {
                        wifi_enabled: b,
                        last_error: None,
                        ..o
                    },
                    NetworkEvent::ScanningNearbyWifi => n == NetworkData {
                        scanning_nearby_wifi: true,
                        last_error: None,
                        ..o
                    },
                    NetworkEvent::WirelessDevice { wifi_present, wireless_access_points } => n
                        == NetworkData {
                        wifi_present,
                        scanning_nearby_wifi: false,
                        wireless_access_points,
                        last_error: None,
                        ..o
                    },
                    NetworkEvent::ActiveConnections(a) => n == NetworkData {
                        active_connections: a,
                        last_error: None,
                        ..o
                    },
                    NetworkEvent::KnownConnections(k) => n == NetworkData {
                        known_connections: k,
                        last_error: None,
                        ..o
                    },
                    NetworkEvent::Connectivity(c) => n == NetworkData {
                        connectivity: c,
                        last_error: None,
                        ..o
                    },
                    NetworkEvent::WirelessAccessPoint(a) => n == NetworkData {
                        wireless_access_points: a,
                        last_error: None,
                        ..o
                    },
                    NetworkEvent::RequestPasswordForSSID(_) => n == NetworkData {
                        last_error: None,
                        ..o
                    },
                    NetworkEvent::Strength((ssid, s)) => {
                        &&& strength_updated(
                            o.wireless_access_points@,
                            o.active_connections@,
                            ssid@,
                            s,
                            n.wireless_access_points@,
                            n.active_connections@,
                        )
                        &&& n.wifi_present == o.wifi_present
                        &&& n.known_connections == o.known_connections
                        &&& n.wifi_enabled == o.wifi_enabled
                        &&& n.airplane_mode == o.airplane_mode
                        &&& n.connectivity == o.connectivity
                        &&& n.scanning_nearby_wifi == o.scanning_nearby_wifi
                    },
                }
            }),
    {
        self.data.last_error = None;
        match event {
            NetworkEvent::AirplaneMode(airplane_mode) => {
                self.data.airplane_mode = airplane_mode;
            },
            NetworkEvent::WiFiEnabled(wifi_enabled) => {
                self.data.wifi_enabled = wifi_enabled;
            },
            NetworkEvent::ScanningNearbyWifi => {
                self.data.scanning_nearby_wifi = true;
            },
            NetworkEvent::WirelessDevice { wifi_present, wireless_access_points } => {
                self.data.wifi_present = wifi_present;
                self.data.scanning_nearby_wifi = false;
                self.data.wireless_access_points = wireless_access_points;
            },
            NetworkEvent::ActiveConnections(active_connections) => {
                self.data.active_connections = active_connections;
            },
            NetworkEvent::KnownConnections(known_connections) => {
                self.data.known_connections = known_connections;
            },
            NetworkEvent::Strength((ssid, new_strength)) => {
                self.update_strength(&ssid, new_strength);
            },
            NetworkEvent::Connectivity(connectivity) => {
                self.data.connectivity = connectivity;
            },
            NetworkEvent::WirelessAccessPoint(wireless_access_points) => {
                self.data.wireless_access_points = wireless_access_points;
            },
            NetworkEvent::RequestPasswordForSSID(_) => {},
        }
    }

    fn update_strength(&mut self, ssid: &String, new_strength: u8)
        ensures
            strength_updated(
                old(self).state().wireless_access_points@,
                old(self).state().active_connections@,
                ssid@,
                new_strength,
                final(self).state().wireless_access_points@,
                final(self).state().active_connections@,
            ),
            final(self).state().wifi_present == old(self).state().wifi_present,
            final(self).state().known_connections == old(self).state().known_connections,
            final(self).state().wifi_enabled == old(self).state().wifi_enabled,
            final(self).state().airplane_mode == old(self).state().airplane_mode,
            final(self).state().connectivity == old(self).state().connectivity,
            final(self).state().scanning_nearby_wifi == old(self).state().scanning_nearby_wifi,
            final(self).state().last_error == old(self).state().last_error,
    {
        let ghost aps = self.data.wireless_access_points@;
        let ghost acs = self.data.active_connections@;
        let mut i: usize = 0;
        while i < self.data.wireless_access_points.len()
            invariant
                i <= self.data.wireless_access_points@.len(),
                self.data == old(self).data,
                aps == self.data.wireless_access_points@,
                acs == self.data.active_connections@,
                forall|j: int| 0 <= j < i ==> aps[j].ssid@ != ssid@,
            decreases self.data.wireless_access_points.len() - i,
        {
            if self.data.wireless_access_points[i] .ssid == *ssid {
                let mut ap = self.data.wireless_access_points[i].clone();
                ap.strength = new_strength;
                let ap_ssid = ap.ssid.clone();
                self.data.wireless_access_points.set(i, ap);
                assert(first_ap_with_ssid(aps, ssid@, i as int));
                let ghost mid = self.data;
                assert(mid.wireless_access_points@ == aps.update(
                    i as int,
                    AccessPoint { strength: new_strength, ..aps[i as int] },
                ));
                let mut j: usize = 0;
                while j < self.data.active_connections.len()
                    invariant
                        j <= self.data.active_connections@.len(),
                        self.data == mid,
                        acs == self.data.active_connections@,
                        aps == old(self).data.wireless_access_points@,
                        acs == old(self).data.active_connections@,
                        first_ap_with_ssid(aps, ssid@, i as int),
                        mid.wireless_access_points@ == aps.update(
                            i as int,
                            AccessPoint { strength: new_strength, ..aps[i as int] },
                        ),
                        mid.wifi_present == old(self).data.wifi_present,
                        mid.known_connections == old(self).data.known_connections,
                        mid.wifi_enabled == old(self).data.wifi_enabled,
                        mid.airplane_mode == old(self).data.airplane_mode,
                        mid.connectivity == old(self).data.connectivity,
                        mid.scanning_nearby_wifi == old(self).data.scanning_nearby_wifi,
                        mid.last_error == old(self).data.last_error,
                        ap_ssid@ == ssid@,
                        forall|l: int| 0 <= l < j ==> connection_name(acs[l])@ != ssid@,
                    decreases self.data.active_connections.len() - j,
                {
                    if self.data.active_connections[j].name() == ap_ssid {
                        let updated = match &self.data.active_connections[j] {
                            ActiveConnectionInfo::WiFi { id, name, .. } => Some(
                                ActiveConnectionInfo::WiFi {
                                    id: id.clone(),
                                    name: name.clone(),
                                    strength: new_strength,
                                },
                            ),
                            _ => None,
                        };
                        match updated {
                            Some(c) => {
                                self.data.active_connections.set(j, c);
                            },
                            None => {
                                assert(acs.update(j as int, with_strength(acs[j as int], new_strength)) =~= acs);
                            },
                        }
                        assert(first_connection_named(acs, ssid@, j as int));
                        return;
                    }
                    j = j + 1;
                }
                return;
            }
            i = i + 1;
        }
    }
}

} // verus!
