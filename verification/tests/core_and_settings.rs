use clashtui_tray::core_api::{
    configs_url, delay_tooltip, flag_or_off, group_now, mode_title, proxies_url, set_tun, tun_enabled,
    tun_flag, CoreReply, CORE_TIMEOUT_SECS, PROBE_PROXY, PROBE_TIMEOUT_MS, PROBE_URL,
    TOOLTIP_PERIOD_SECS,
};
use clashtui_tray::settings::{
    autostart_command, autostart_enabled, system_proxy_enabled, AUTOSTART_KEY, AUTOSTART_NAME,
    CORE_PROXY, PROXY_ENABLE, PROXY_KEY, PROXY_SERVER,
};

fn answer(status: u16, body: &str) -> CoreReply {
    CoreReply::Answer { status, body: Some(body.as_bytes().to_vec()) }
}

#[test]
fn addresses_of_the_core() {
    assert_eq!(configs_url(), "http://127.0.0.1:9090/configs");
    assert_eq!(proxies_url(), "http://127.0.0.1:9090/proxies");
    assert_eq!(CORE_TIMEOUT_SECS, 3);
    assert_eq!(PROBE_PROXY, "http://127.0.0.1:7890");
    assert_eq!(PROBE_URL, "https://cp.cloudflare.com/generate_204");
    assert_eq!(PROBE_TIMEOUT_MS, 5000);
    assert_eq!(TOOLTIP_PERIOD_SECS, 30);
}

#[test]
fn tun_is_read_from_the_configuration() {
    assert!(tun_enabled(&answer(200, "{\"port\":7890,\"tun\":{\"enable\":true,\"stack\":\"mixed\"}}")));
    assert!(!tun_enabled(&answer(200, "{\"tun\":{\"enable\":false}}")));
    assert!(tun_enabled(&answer(299, "{\"tun\":{\"enable\":true}}")));
}

#[test]
fn anything_else_counts_as_off() {
    let on = "{\"tun\":{\"enable\":true}}";
    assert!(!tun_enabled(&CoreReply::Unreachable));
    assert!(!tun_enabled(&CoreReply::Answer { status: 200, body: None }));
    assert!(!tun_enabled(&answer(199, on)));
    assert!(!tun_enabled(&answer(300, on)));
    assert!(!tun_enabled(&answer(404, on)));
    assert!(!tun_enabled(&answer(200, "{\"tun\":{\"enable\":true}")));
    assert!(!tun_enabled(&answer(200, "")));
    assert!(!tun_enabled(&answer(200, "{\"tun\":{\"enable\":\"true\"}}")));
    assert!(!tun_enabled(&answer(200, "{\"tun\":{\"enable\":1}}")));
    assert!(!tun_enabled(&answer(200, "{\"tun\":{}}")));
    assert!(!tun_enabled(&answer(200, "{\"tun\":true}")));
    assert!(!tun_enabled(&answer(200, "{\"enable\":true}")));
    assert!(!tun_enabled(&answer(200, "[true]")));
    assert!(!tun_enabled(&answer(200, "null")));
}

#[test]
fn flags() {
    assert!(flag_or_off(Some(true)));
    assert!(!flag_or_off(Some(false)));
    assert!(!flag_or_off(None));
    let doc: serde_json::Value = serde_json::from_str("{\"tun\":{\"enable\":true}}").unwrap();
    assert!(tun_flag(&doc));
    assert!(!tun_flag(&serde_json::Value::Null));
}

#[test]
fn tun_request_is_exact() {
    assert_eq!(set_tun(true), b"{\"tun\":{\"enable\":true}}".to_vec());
    assert_eq!(set_tun(false), b"{\"tun\":{\"enable\":false}}".to_vec());
}

#[test]
fn tun_request_reads_back() {
    for enabled in [true, false] {
        let reply = CoreReply::Answer { status: 200, body: Some(set_tun(enabled)) };
        assert_eq!(tun_enabled(&reply), enabled);
    }
}

#[test]
fn mode_title_comes_from_the_group() {
    let groups = "{\"proxies\":{\"GLOBAL\":{\"now\":\"x\"},\"总体模式\":{\"type\":\"Selector\",\"now\":\"智能选择\"}}}";
    assert_eq!(mode_title(&answer(200, groups)), Some("智能选择".to_string()));
    assert_eq!(mode_title(&answer(500, groups)), None);
    assert_eq!(mode_title(&CoreReply::Unreachable), None);
    assert_eq!(mode_title(&answer(200, "{\"proxies\":{\"总体模式\":{\"now\":3}}}")), None);
    assert_eq!(mode_title(&answer(200, "{\"proxies\":{\"总体模式\":{}}}")), None);
    assert_eq!(mode_title(&answer(200, "{\"proxies\":{}}")), None);
    assert_eq!(mode_title(&answer(200, "{}")), None);
    assert_eq!(mode_title(&answer(200, "not json")), None);
    let doc: serde_json::Value = serde_json::from_str(groups).unwrap();
    assert_eq!(group_now(&doc), Some("智能选择".to_string()));
}

#[test]
fn tooltip_names_mode_and_delay() {
    assert_eq!(delay_tooltip("智能选择", Some(123)), "智能选择 123ms");
    assert_eq!(delay_tooltip("a", Some(0)), "a 0ms");
    assert_eq!(delay_tooltip("a", Some(10)), "a 10ms");
    assert_eq!(delay_tooltip("a", Some(5000)), "a 5000ms");
    assert_eq!(delay_tooltip("a", Some(4987)), "a 4987ms");
    assert_eq!(delay_tooltip("a", Some(5001)), "a FALSE");
    assert_eq!(delay_tooltip("智能选择", None), "智能选择 FALSE");
}

#[test]
fn system_proxy_switch() {
    let core = Some("127.0.0.1:7890".to_string());
    assert!(system_proxy_enabled(Some(1), &core));
    assert!(system_proxy_enabled(Some(7), &core));
    assert!(!system_proxy_enabled(Some(0), &core));
    assert!(!system_proxy_enabled(None, &core));
    assert!(!system_proxy_enabled(Some(1), &Some("10.0.0.1:8080".to_string())));
    assert!(!system_proxy_enabled(Some(1), &Some("127.0.0.1:78900".to_string())));
    assert!(!system_proxy_enabled(Some(1), &Some(String::new())));
    assert!(!system_proxy_enabled(Some(1), &None));
}

#[test]
fn autostart_entry() {
    assert!(autostart_enabled(&Some(String::new())));
    assert!(!autostart_enabled(&None));
    assert_eq!(autostart_command("C:\\a b\\clashtui_tray.exe"), "\"C:\\a b\\clashtui_tray.exe\"");
}

#[test]
fn registry_names() {
    assert_eq!(PROXY_KEY, r"Software\Microsoft\Windows\CurrentVersion\Internet Settings");
    assert_eq!(AUTOSTART_KEY, r"Software\Microsoft\Windows\CurrentVersion\Run");
    assert_eq!(AUTOSTART_NAME, "ClashtuiTray");
    assert_eq!(PROXY_ENABLE, "ProxyEnable");
    assert_eq!(PROXY_SERVER, "ProxyServer");
    assert_eq!(CORE_PROXY, "127.0.0.1:7890");
}
