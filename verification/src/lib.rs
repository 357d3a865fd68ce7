//! Verified core logic of the hydebar status bar: configuration defaults and
//! validation, notification storage, audio devices and volumes, privacy
//! tracking, network state and the NetworkManager backend's arrangement of
//! what it reads, media players, the system tray, custom modules, batteries,
//! workspace layout and the small state machines that drive the bar.

pub mod audio;
pub mod brightness;
pub mod config;
pub mod custom_module;
pub mod hyprland;
pub mod icons;
pub mod idle_inhibitor;
pub mod launcher;
pub mod mpris;
pub mod network;
pub mod network_manager;
pub mod notifications;
pub mod privacy;
pub mod services;
pub mod test_utils;
pub mod text;
pub mod ticker;
pub mod tray;
pub mod upower;
pub mod workspaces;
