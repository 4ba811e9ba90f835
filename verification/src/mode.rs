//! The three modes of the tray and what each of them looks like.
use vstd::prelude::*;

verus! {

/// How traffic reaches the core. The icon shows it by its colour: white, yellow or blue.
#[derive(Clone, Copy, PartialEq, Eq, Structural, Debug)]
pub enum IconMode {
    Normal,
    Tun,
    SystemProxy,
}

/// The mode of a desktop on which TUN is on or off and the system proxy is on or off: TUN counts
/// before the system proxy.
pub open spec fn mode_of(tun: bool, proxy: bool) -> IconMode {
    if tun {
        IconMode::Tun
    } else if proxy {
        IconMode::SystemProxy
    } else {
        IconMode::Normal
    }
}

/// The mode to show, from what the core says of TUN and the registry of the system proxy.
pub fn detect_mode(tun_enabled: bool, system_proxy_enabled: bool) -> (mode: IconMode)
    ensures
        mode == mode_of(tun_enabled, system_proxy_enabled),
{
    if tun_enabled {
        IconMode::Tun
    } else if system_proxy_enabled {
        IconMode::SystemProxy
    } else {
        IconMode::Normal
    }
}

/// The mode that follows when the entry of `chosen` is clicked while `current` is in force: the entry
/// of a mode that is on turns it off again.
pub open spec fn mode_after_click(current: IconMode, chosen: IconMode) -> IconMode {
    if current == chosen {
        IconMode::Normal
    } else {
        chosen
    }
}

/// The mode to apply when the entry of `chosen` is clicked while `current` is in force.
pub fn clicked_mode(current: IconMode, chosen: IconMode) -> (mode: IconMode)
    ensures
        mode == mode_after_click(current, chosen),
{
    if current == chosen {
        IconMode::Normal
    } else {
        chosen
    }
}

/// The check marks of the three mode entries.
#[derive(Clone, Copy, PartialEq, Eq, Structural, Debug)]
pub struct ModeChecks {
    pub tun: bool,
    pub sysproxy: bool,
    pub normal: bool,
}

/// The check marks that show `mode`: its own entry is checked, the two others are not.
pub open spec fn checks_of(mode: IconMode) -> ModeChecks {
    ModeChecks {
        tun: mode == IconMode::Tun,
        sysproxy: mode == IconMode::SystemProxy,
        normal: mode == IconMode::Normal,
    }
}

/// The check marks that show `mode`.
pub fn mode_checks(mode: IconMode) -> (checks: ModeChecks)
    ensures
        checks == checks_of(mode),
{
    ModeChecks {
        tun: mode == IconMode::Tun,
        sysproxy: mode == IconMode::SystemProxy,
        normal: mode == IconMode::Normal,
    }
}

/// The name of `mode` in the tooltip.
pub open spec fn mode_name_of(mode: IconMode) -> Seq<char> {
    match mode {
        IconMode::Normal => "常规"@,
        IconMode::Tun => "TUN"@,
        IconMode::SystemProxy => "系统代理"@,
    }
}

/// The name of `mode` in the tooltip.
pub fn mode_name(mode: IconMode) -> (name: &'static str)
    ensures
        name@ == mode_name_of(mode),
{
    match mode {
        IconMode::Normal => "常规",
        IconMode::Tun => "TUN",
        IconMode::SystemProxy => "系统代理",
    }
}

/// The tooltip of a freshly built tray icon that shows `mode`, until the core has named the mode.
pub open spec fn mode_tooltip_of(mode: IconMode) -> Seq<char> {
    "Clashtui 托盘 - 点击启动 ("@ + mode_name_of(mode) + ")"@
}

/// The tooltip of a freshly built tray icon that shows `mode`.
pub fn mode_tooltip(mode: IconMode) -> (text: String)
    ensures
        text@ == mode_tooltip_of(mode),
{
    String::from_str("Clashtui 托盘 - 点击启动 (").concat(mode_name(mode)).concat(")")
}

} // verus!
