//! Bar configuration: module layout, per-module settings and their defaults.

pub mod appearance;
pub mod keybindings;
pub mod modules;
pub mod regex_cfg;
pub mod validation;

use vstd::prelude::*;
use std::collections::HashMap;
use crate::config::modules::{ModuleDef, ModuleName, Modules, Outputs, Position, is_default_layout};
use crate::config::validation::{layout_refs, lemma_default_layout_refs};
use crate::config::regex_cfg::RegexCfg;
use crate::text::concat3;

verus! {

/// Which workspaces the workspaces module shows on an output.
#[derive(Clone, Copy, Debug, PartialEq, Eq, Structural)]
pub enum WorkspaceVisibilityMode {
    /// Show the workspaces of every monitor.
    All,
    /// Show only the workspaces of the monitor the bar is on.
    MonitorSpecific,
}

impl Default for WorkspaceVisibilityMode {
    fn default() -> (m: Self)
        ensures
            m == WorkspaceVisibilityMode::All,
    {
        WorkspaceVisibilityMode::All
    }
}

/// Configuration of the workspaces module.
#[derive(Clone, Copy, Debug, PartialEq, Eq, Structural)]
pub struct WorkspacesModuleConfig {
    /// Which workspaces are shown.
    pub visibility_mode: WorkspaceVisibilityMode,
    /// Whether the gaps between existing workspaces are filled with empty ones.
    pub enable_workspace_filling: bool,
    /// The least number of workspaces shown when filling is enabled.
    pub max_workspaces: Option<u32>,
}

impl Default for WorkspacesModuleConfig {
    fn default() -> (c: Self)
        ensures
            c.visibility_mode == WorkspaceVisibilityMode::All,
            !c.enable_workspace_filling,
            c.max_workspaces is None,
    {
        WorkspacesModuleConfig {
            visibility_mode: WorkspaceVisibilityMode::All,
            enable_workspace_filling: false,
            max_workspaces: None,
        }
    }
}

/// The default configuration file.
pub const DEFAULT_CONFIG_FILE_PATH: &'static str = "~/.config/hydebar/config.toml";

/// Configuration of the updates module.
#[derive(Clone, Debug, PartialEq, Eq)]
pub struct UpdatesModuleConfig {
    pub check_cmd: String,
    pub update_cmd: String,
}

/// What the window title module shows.
#[derive(Clone, Copy, Debug, PartialEq, Eq, Structural)]
pub enum WindowTitleMode {
    Title,
    Class,
}

impl Default for WindowTitleMode {
    fn default() -> (m: Self)
        ensures
            m == WindowTitleMode::Title,
    {
        WindowTitleMode::Title
    }
}

/// Configuration of the window title module.
#[derive(Clone, Copy, Debug, PartialEq, Eq, Structural)]
pub struct WindowTitleConfig {
    pub mode: WindowTitleMode,
    pub truncate_title_after_length: u32,
}

/// The title length after which the window title is truncated when the
/// configuration does not say.
pub fn default_truncate_title_after_length() -> (n: u32)
    ensures
        n == 150,
{
    150
}

impl Default for WindowTitleConfig {
    /// The zero value of every field: the title, with no truncation length.
    fn default() -> (c: Self)
        ensures
            c.mode == WindowTitleMode::Title,
            c.truncate_title_after_length == 0,
    {
        WindowTitleConfig { mode: WindowTitleMode::Title, truncate_title_after_length: 0 }
    }
}

/// Configuration of the keyboard layout module: display labels per layout.
#[derive(Clone, Debug)]
pub struct KeyboardLayoutModuleConfig {
    pub labels: HashMap<String, String>,
}

impl Default for KeyboardLayoutModuleConfig {
    fn default() -> (c: Self)
        ensures
            c.labels@ == Map::<String, String>::empty(),
    {
        KeyboardLayoutModuleConfig { labels: HashMap::new() }
    }
}

/// CPU usage thresholds, in percent.
#[derive(Clone, Copy, Debug, PartialEq, Eq, Structural)]
pub struct SystemInfoCpu {
    pub warn_threshold: u32,
    pub alert_threshold: u32,
}

/// CPU usage above which the indicator warns.
pub fn default_cpu_warn_threshold() -> (n: u32)
    ensures
        n == 60,
{
    60
}

/// CPU usage above which the indicator alerts.
pub fn default_cpu_alert_threshold() -> (n: u32)
    ensures
        n == 80,
{
    80
}

impl Default for SystemInfoCpu {
    fn default() -> (c: Self)
        ensures
            c.warn_threshold == 60,
            c.alert_threshold == 80,
    {
        SystemInfoCpu {
            warn_threshold: default_cpu_warn_threshold(),
            alert_threshold: default_cpu_alert_threshold(),
        }
    }
}

/// Memory usage thresholds, in percent.
#[derive(Clone, Copy, Debug, PartialEq, Eq, Structural)]
pub struct SystemInfoMemory {
    pub warn_threshold: u32,
    pub alert_threshold: u32,
}

/// Memory usage above which the indicator warns.
pub fn default_mem_warn_threshold() -> (n: u32)
    ensures
        n == 70,
{
    70
}

/// Memory usage above which the indicator alerts.
pub fn default_mem_alert_threshold() -> (n: u32)
    ensures
        n == 85,
{
    85
}

impl Default for SystemInfoMemory {
    fn default() -> (c: Self)
        ensures
            c.warn_threshold == 70,
            c.alert_threshold == 85,
    {
        SystemInfoMemory {
            warn_threshold: default_mem_warn_threshold(),
            alert_threshold: default_mem_alert_threshold(),
        }
    }
}

/// Temperature thresholds, in degrees Celsius.
#[derive(Clone, Copy, Debug, PartialEq, Eq, Structural)]
pub struct SystemInfoTemperature {
    pub warn_threshold: i32,
    pub alert_threshold: i32,
}

/// Temperature above which the indicator warns.
pub fn default_temp_warn_threshold() -> (n: i32)
    ensures
        n == 60,
{
    60
}

/// Temperature above which the indicator alerts.
pub fn default_temp_alert_threshold() -> (n: i32)
    ensures
        n == 80,
{
    80
}

impl Default for SystemInfoTemperature {
    fn default() -> (c: Self)
        ensures
            c.warn_threshold == 60,
            c.alert_threshold == 80,
    {
        SystemInfoTemperature {
            warn_threshold: default_temp_warn_threshold(),
            alert_threshold: default_temp_alert_threshold(),
        }
    }
}

/// Disk usage thresholds, in percent.
#[derive(Clone, Copy, Debug, PartialEq, Eq, Structural)]
pub struct SystemInfoDisk {
    pub warn_threshold: u32,
    pub alert_threshold: u32,
}

/// Disk usage above which the indicator warns.
pub fn default_disk_warn_threshold() -> (n: u32)
    ensures
        n == 80,
{
    80
}

/// Disk usage above which the indicator alerts.
pub fn default_disk_alert_threshold() -> (n: u32)
    ensures
        n == 90,
{
    90
}

impl Default for SystemInfoDisk {
    fn default() -> (c: Self)
        ensures
            c.warn_threshold == 80,
            c.alert_threshold == 90,
    {
        SystemInfoDisk {
            warn_threshold: default_disk_warn_threshold(),
            alert_threshold: default_disk_alert_threshold(),
        }
    }
}

/// An indicator of the system information module.
#[derive(Clone, Debug, PartialEq, Eq)]
pub enum SystemIndicator {
    Cpu,
    Memory,
    MemorySwap,
    Temperature,
    /// Usage of the disk mounted at the given path.
    Disk(String),
    IpAddress,
    DownloadSpeed,
    UploadSpeed,
}

/// Configuration of the system information module.
#[derive(Clone, Debug, PartialEq, Eq)]
pub struct SystemModuleConfig {
    pub indicators: Vec<SystemIndicator>,
    pub cpu: SystemInfoCpu,
    pub memory: SystemInfoMemory,
    pub temperature: SystemInfoTemperature,
    pub disk: SystemInfoDisk,
}

/// The indicators shown by default: CPU, memory and temperature.
pub fn default_system_indicators() -> (v: Vec<SystemIndicator>)
    ensures
        v@ == seq![SystemIndicator::Cpu, SystemIndicator::Memory, SystemIndicator::Temperature],
{
    let mut v: Vec<SystemIndicator> = Vec::new();
    v.push(SystemIndicator::Cpu);
    v.push(SystemIndicator::Memory);
    v.push(SystemIndicator::Temperature);
    assert(v@ =~= seq![SystemIndicator::Cpu, SystemIndicator::Memory, SystemIndicator::Temperature]);
    v
}

impl Default for SystemModuleConfig {
    fn default() -> (c: Self)
        ensures
            c.indicators@ == seq![
                SystemIndicator::Cpu,
                SystemIndicator::Memory,
                SystemIndicator::Temperature,
            ],
            c.cpu.warn_threshold == 60 && c.cpu.alert_threshold == 80,
            c.memory.warn_threshold == 70 && c.memory.alert_threshold == 85,
            c.temperature.warn_threshold == 60 && c.temperature.alert_threshold == 80,
            c.disk.warn_threshold == 80 && c.disk.alert_threshold == 90,
    {
        SystemModuleConfig {
            indicators: default_system_indicators(),
            cpu: SystemInfoCpu::default(),
            memory: SystemInfoMemory::default(),
            temperature: SystemInfoTemperature::default(),
            disk: SystemInfoDisk::default(),
        }
    }
}

/// Configuration of the battery module.
#[derive(Clone, Copy, Debug, PartialEq, Eq, Structural)]
pub struct BatteryModuleConfig {
    pub show_percentage: bool,
    pub show_power_profile: bool,
    pub open_settings_on_click: bool,
    pub show_when_unavailable: bool,
}

/// The percentage is shown by default.
pub fn default_show_percentage() -> (b: bool)
    ensures
        b,
{
    true
}

/// The power profile is shown by default.
pub fn default_show_power_profile() -> (b: bool)
    ensures
        b,
{
    true
}

/// A click opens the settings by default.
pub fn default_open_settings_on_click() -> (b: bool)
    ensures
        b,
{
    true
}

impl Default for BatteryModuleConfig {
    fn default() -> (c: Self)
        ensures
            c.show_percentage,
            c.show_power_profile,
            c.open_settings_on_click,
            !c.show_when_unavailable,
    {
        BatteryModuleConfig {
            show_percentage: default_show_percentage(),
            show_power_profile: default_show_power_profile(),
            open_settings_on_click: default_open_settings_on_click(),
            show_when_unavailable: false,
        }
    }
}

/// Configuration of the clock module.
#[derive(Clone, Debug, PartialEq, Eq)]
pub struct ClockModuleConfig {
    /// `strftime`-style format of the clock.
    pub format: String,
}

impl Default for ClockModuleConfig {
    fn default() -> (c: Self)
        ensures
            c.format@ == "%a %d %b %R"@,
    {
        ClockModuleConfig { format: "%a %d %b %R".to_owned() }
    }
}

/// The command that shuts the machine down when none is configured.
pub fn default_shutdown_cmd() -> (s: String)
    ensures
        s@ == "shutdown now"@,
{
    "shutdown now".to_owned()
}

/// The command that suspends the machine when none is configured.
pub fn default_suspend_cmd() -> (s: String)
    ensures
        s@ == "systemctl suspend"@,
{
    "systemctl suspend".to_owned()
}

/// The command that reboots the machine when none is configured.
pub fn default_reboot_cmd() -> (s: String)
    ensures
        s@ == "systemctl reboot"@,
{
    "systemctl reboot".to_owned()
}

/// The command that logs the user out when none is configured.
pub fn default_logout_cmd() -> (s: String)
    ensures
        s@ == "loginctl kill-user $(whoami)"@,
{
    "loginctl kill-user $(whoami)".to_owned()
}

/// Configuration of the settings module.
#[derive(Clone, Debug, PartialEq, Eq)]
pub struct SettingsModuleConfig {
    pub lock_cmd: Option<String>,
    pub shutdown_cmd: String,
    pub suspend_cmd: String,
    pub reboot_cmd: String,
    pub logout_cmd: String,
    pub audio_sinks_more_cmd: Option<String>,
    pub audio_sources_more_cmd: Option<String>,
    pub wifi_more_cmd: Option<String>,
    pub vpn_more_cmd: Option<String>,
    pub bluetooth_more_cmd: Option<String>,
    pub remove_airplane_btn: bool,
    pub remove_idle_btn: bool,
}

impl Default for SettingsModuleConfig {
    /// The zero value of every field: no commands at all. (A configuration
    /// file that leaves a power command out gets the `default_*_cmd` value.)
    fn default() -> (c: Self)
        ensures
            c.lock_cmd is None,
            c.shutdown_cmd@.len() == 0,
            c.suspend_cmd@.len() == 0,
            c.reboot_cmd@.len() == 0,
            c.logout_cmd@.len() == 0,
            c.audio_sinks_more_cmd is None,
            c.audio_sources_more_cmd is None,
            c.wifi_more_cmd is None,
            c.vpn_more_cmd is None,
            c.bluetooth_more_cmd is None,
            !c.remove_airplane_btn,
            !c.remove_idle_btn,
    {
        SettingsModuleConfig {
            lock_cmd: None,
            shutdown_cmd: String::new(),
            suspend_cmd: String::new(),
            reboot_cmd: String::new(),
            logout_cmd: String::new(),
            audio_sinks_more_cmd: None,
            audio_sources_more_cmd: None,
            wifi_more_cmd: None,
            vpn_more_cmd: None,
            bluetooth_more_cmd: None,
            remove_airplane_btn: false,
            remove_idle_btn: false,
        }
    }
}

/// Configuration of the media player module.
#[derive(Clone, Copy, Debug, PartialEq, Eq, Structural)]
pub struct MediaPlayerModuleConfig {
    pub max_title_length: u32,
}

/// The longest media title shown when none is configured.
pub fn default_media_player_max_title_length() -> (n: u32)
    ensures
        n == 100,
{
    100
}

impl Default for MediaPlayerModuleConfig {
    fn default() -> (c: Self)
        ensures
            c.max_title_length == 100,
    {
        MediaPlayerModuleConfig { max_title_length: default_media_player_max_title_length() }
    }
}

/// A user-defined module.
#[derive(Clone, Debug)]
pub struct CustomModuleDef {
    /// Name used to place the module in the layout.
    pub name: String,
    /// Command run when the module is clicked.
    pub command: String,
    /// Icon shown by default.
    pub icon: Option<String>,
    /// Command whose output lines (JSON with `text` and `alt`) feed the module.
    pub listen_cmd: Option<String>,
    /// Icons chosen by the first pattern that matches `alt`.
    pub icons: Option<Vec<(RegexCfg, String)>>,
    /// Pattern of `alt` values that raise an alert.
    pub alert: Option<RegexCfg>,
}

/// The default log level.
pub fn default_log_level() -> (s: String)
    ensures
        s@ == "warn"@,
{
    "warn".to_owned()
}

/// Menus take keyboard focus by default.
pub fn default_menu_keyboard_focus() -> (b: bool)
    ensures
        b,
{
    true
}

/// Animations are enabled by default.
pub fn default_animations_enabled() -> (b: bool)
    ensures
        b,
{
    true
}

/// The default duration of the menu fade, in milliseconds.
pub fn default_menu_fade_duration_ms() -> (n: u64)
    ensures
        n == 200,
{
    200
}

/// The default duration of hover effects, in milliseconds.
pub fn default_hover_duration_ms() -> (n: u64)
    ensures
        n == 100,
{
    100
}

/// Animation configuration.
#[derive(Clone, Copy, Debug, PartialEq, Eq, Structural)]
pub struct AnimationConfig {
    pub enabled: bool,
    pub menu_fade_duration_ms: u64,
    pub hover_duration_ms: u64,
}

impl Default for AnimationConfig {
    fn default() -> (c: Self)
        ensures
            c.enabled,
            c.menu_fade_duration_ms == 200,
            c.hover_duration_ms == 100,
    {
        AnimationConfig {
            enabled: default_animations_enabled(),
            menu_fade_duration_ms: default_menu_fade_duration_ms(),
            hover_duration_ms: default_hover_duration_ms(),
        }
    }
}

/// Style in which modules are drawn.
#[derive(Clone, Copy, Debug, PartialEq, Eq, Structural)]
pub enum AppearanceStyle {
    /// Island-style backgrounds behind modules.
    Islands,
    /// A flat solid background.
    Solid,
    /// Gradients.
    Gradient,
}

impl Default for AppearanceStyle {
    fn default() -> (s: Self)
        ensures
            s == AppearanceStyle::Islands,
    {
        AppearanceStyle::Islands
    }
}

/// The bar configuration, apart from its appearance section, which mixes the
/// colours of [`appearance`] with floating-point opacity and scale values and
/// is kept by the program that loads the configuration.
#[derive(Clone, Debug)]
pub struct Config {
    pub log_level: String,
    pub position: Position,
    pub outputs: Outputs,
    pub modules: Modules,
    pub app_launcher_cmd: Option<String>,
    pub custom_modules: Vec<CustomModuleDef>,
    pub clipboard_cmd: Option<String>,
    pub updates: Option<UpdatesModuleConfig>,
    pub workspaces: WorkspacesModuleConfig,
    pub window_title: WindowTitleConfig,
    pub system: SystemModuleConfig,
    pub battery: BatteryModuleConfig,
    pub clock: ClockModuleConfig,
    pub settings: SettingsModuleConfig,
    pub media_player: MediaPlayerModuleConfig,
    pub keyboard_layout: KeyboardLayoutModuleConfig,
    pub menu_keyboard_focus: bool,
}

impl Default for Config {
    fn default() -> (c: Self)
        ensures
            c.log_level@ == "warn"@,
            c.position == Position::Top,
            c.outputs == Outputs::All,
            is_default_layout(c.modules),
            layout_refs(c.modules).len() == 0,
            c.app_launcher_cmd is None,
            c.custom_modules@.len() == 0,
            c.clipboard_cmd is None,
            c.updates is None,
            c.workspaces.visibility_mode == WorkspaceVisibilityMode::All,
            !c.workspaces.enable_workspace_filling && c.workspaces.max_workspaces is None,
            c.window_title.mode == WindowTitleMode::Title,
            c.battery.show_percentage,
            c.clock.format@ == "%a %d %b %R"@,
            c.media_player.max_title_length == 100,
            c.menu_keyboard_focus,
    {
        let modules = Modules::default();
        proof {
            lemma_default_layout_refs(modules);
        }
        Config {
            log_level: default_log_level(),
            position: Position::Top,
            outputs: Outputs::default(),
            modules,
            app_launcher_cmd: None,
            clipboard_cmd: None,
            updates: None,
            workspaces: WorkspacesModuleConfig::default(),
            window_title: WindowTitleConfig::default(),
            system: SystemModuleConfig::default(),
            battery: BatteryModuleConfig::default(),
            clock: ClockModuleConfig::default(),
            settings: SettingsModuleConfig::default(),
            media_player: MediaPlayerModuleConfig::default(),
            keyboard_layout: KeyboardLayoutModuleConfig::default(),
            custom_modules: Vec::new(),
            menu_keyboard_focus: default_menu_keyboard_focus(),
        }
    }
}

} // verus!
