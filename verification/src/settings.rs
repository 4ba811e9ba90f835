//! What the tray reads from the registry and writes to it.
use vstd::prelude::*;
use vstd::string::*;

verus! {

/// The key of the proxy settings, below the current user.
pub const PROXY_KEY: &'static str =
    "Software\\Microsoft\\Windows\\CurrentVersion\\Internet Settings";

/// The switch of the system proxy.
pub const PROXY_ENABLE: &'static str = "ProxyEnable";

/// The address of the system proxy.
pub const PROXY_SERVER: &'static str = "ProxyServer";

/// The address at which the core takes proxy traffic.
pub const CORE_PROXY: &'static str = "127.0.0.1:7890";

/// The key of the programs that start with the desktop, below the current user.
pub const AUTOSTART_KEY: &'static str = "Software\\Microsoft\\Windows\\CurrentVersion\\Run";

/// The entry of the tray under that key.
pub const AUTOSTART_NAME: &'static str = "ClashtuiTray";

/// Whether the system proxy is on and leads to the core, from the number under `ProxyEnable` and the
/// text under `ProxyServer`; none, where the key or the value cannot be read.
pub fn system_proxy_enabled(enable: Option<u32>, server: &Option<String>) -> (on: bool)
    ensures
        on == ((enable matches Some(number) && number != 0) && (server matches Some(address)
            && address@ == CORE_PROXY@)),
{
    let switched_on: bool = match enable {
        Some(number) => number != 0,
        None => false,
    };
    let to_core: bool = match server {
        Some(address) => *address == String::from_str(CORE_PROXY),
        None => false,
    };
    switched_on && to_core
}

/// Whether the tray starts with the desktop, from the text of its entry; none, where the key or
/// the text cannot be read.
pub fn autostart_enabled(value: &Option<String>) -> (on: bool)
    ensures
        on == (value is Some),
{
    match value {
        Some(_) => true,
        None => false,
    }
}

/// The text of the entry that starts the program at `path`: the path in quotes.
pub fn autostart_command(path: &str) -> (command: String)
    ensures
        command@ == "\""@ + path@ + "\""@,
{
    String::from_str("\"").concat(path).concat("\"")
}

} // verus!
