use clashtui_tray::application::{
    Application, MouseButton, MouseButtonState, Reply, TrayEvent, UserEvent,
};
use clashtui_tray::command::ServiceVerb;
use clashtui_tray::core_api::{set_tun, CoreReply};
use clashtui_tray::menu::{entries, entry_label, entry_with_id, has_check, menu_rows, MenuEntry, MenuRow};
use clashtui_tray::mode::{mode_tooltip, IconMode};
use clashtui_tray::paths::{Candidate, IconDir, TrayExe};
use clashtui_tray::settings::CORE_PROXY;
use clashtui_tray::steps::{
    answered, apply_mode, set_autostart, set_system_proxy, switch_mode, toggle_clashtui, Action,
    AutostartUse, Errand, Failure, Purpose, Query, Step,
};
use std::io::Cursor;

/// A desktop in memory, which does as it is told.
struct Desk {
    beside: bool,
    above: bool,
    running: bool,
    core_up: bool,
    tun: bool,
    proxy_key: bool,
    proxy: u32,
    server: Option<String>,
    run_key: bool,
    run_entry: Option<String>,
    exe_known: bool,
    pictures: Vec<(IconMode, IconDir, Vec<u8>)>,
    icons_work: bool,
    tray_works: bool,
    delay: Option<u64>,
    icon: Option<(IconMode, u32, u32)>,
    made: (u32, u32),
    tooltip: String,
}

fn desk() -> Desk {
    Desk {
        beside: true,
        above: false,
        running: false,
        core_up: true,
        tun: false,
        proxy_key: true,
        proxy: 0,
        server: Some(CORE_PROXY.to_string()),
        run_key: true,
        run_entry: None,
        exe_known: true,
        pictures: Vec::new(),
        icons_work: true,
        tray_works: true,
        delay: Some(42),
        icon: None,
        made: (0, 0),
        tooltip: String::new(),
    }
}

fn ids() -> Vec<String> {
    (0..entries().len()).map(|i| format!("item-{}", i)).collect()
}

fn id_of(entry: MenuEntry) -> String {
    let at = entries().iter().position(|e| *e == entry).unwrap();
    ids()[at].clone()
}

fn picture(width: u32, height: u32) -> Vec<u8> {
    let picture = image::RgbaImage::from_pixel(width, height, image::Rgba([1, 2, 3, 255]));
    let mut out = Cursor::new(Vec::new());
    picture.write_to(&mut out, image::ImageFormat::Png).unwrap();
    out.into_inner()
}

impl Desk {
    fn configs(&self) -> CoreReply {
        if self.core_up {
            CoreReply::Answer { status: 200, body: Some(set_tun(self.tun)) }
        } else {
            CoreReply::Unreachable
        }
    }

    fn reply(&mut self, app: &Application, query: Query) -> Reply {
        match query {
            Query::IsBeside(_) => Reply::Flag(self.beside),
            Query::IsAbove(_) => Reply::Flag(self.above),
            Query::IsPresent(Candidate::Beside) => Reply::Flag(self.beside),
            Query::IsPresent(Candidate::Above) => Reply::Flag(self.above),
            Query::IsRunning => Reply::Output(Some(if self.running {
                b"Clashtui.exe 1 Console".to_vec()
            } else {
                b"INFO: No tasks".to_vec()
            })),
            Query::OpenProxyKey(_) => Reply::Flag(self.proxy_key),
            Query::TunOn(_) => Reply::Core(self.configs()),
            Query::ProxyOn(_) => {
                Reply::Proxy { enable: Some(self.proxy), server: self.server.clone() }
            }
            Query::AutostartOn(_) => Reply::Text(self.run_entry.clone()),
            Query::OpenRunKey(_) => Reply::Flag(self.run_key),
            Query::ExeKnown => Reply::Flag(self.exe_known),
            Query::IconExists(mode, dir) => {
                Reply::Flag(self.pictures.iter().any(|p| p.0 == mode && p.1 == dir))
            }
            Query::IconReads(mode, dir) => Reply::File(
                self.pictures.iter().find(|p| p.0 == mode && p.1 == dir).map(|p| p.2.clone()),
            ),
            Query::IconMakes(_, _) => {
                let pixels = app.load_icon().unwrap();
                assert_eq!(pixels.rgba.len() as u32, 4 * pixels.width * pixels.height);
                if self.icons_work {
                    self.made = (pixels.width, pixels.height);
                }
                Reply::Flag(self.icons_work)
            }
            Query::TrayBuilds(mode) => {
                if self.tray_works {
                    self.icon = Some((mode, self.made.0, self.made.1));
                    self.tooltip = mode_tooltip(mode);
                }
                Reply::Flag(self.tray_works)
            }
            Query::TitleKnown => Reply::Core(if self.core_up {
                CoreReply::Answer {
                    status: 200,
                    body: Some("{\"proxies\":{\"总体模式\":{\"now\":\"智能选择\"}}}".as_bytes().to_vec()),
                }
            } else {
                CoreReply::Unreachable
            }),
            Query::DelayMeasured => Reply::Millis(self.delay),
        }
    }

    fn perform(&mut self, app: &Application, action: Action) {
        match action {
            Action::StartClashtui(_) => self.running = true,
            Action::StopClashtui => self.running = false,
            Action::PatchTun(on) => {
                if self.core_up {
                    self.tun = on;
                }
            }
            Action::WriteProxyEnable(number) => self.proxy = number,
            Action::WriteProxyServer => self.server = Some(CORE_PROXY.to_string()),
            Action::WriteRunEntry(_) => self.run_entry = Some("\"tray\"".to_string()),
            Action::DeleteRunEntry => self.run_entry = None,
            Action::ShowTooltip => self.tooltip = app.tooltip(),
            _ => {}
        }
    }

    fn drive(&mut self, app: &mut Application) -> Vec<Action> {
        let mut done = Vec::new();
        while let Some(step) = app.next() {
            match step {
                Step::Act(action) => {
                    self.perform(app, action);
                    done.push(action);
                }
                Step::Ask(query) => {
                    let reply = self.reply(app, query);
                    app.answer(reply);
                }
            }
        }
        done
    }
}

fn started(desk: &mut Desk) -> Application {
    let mut app = Application::new(ids());
    desk.drive(&mut app);
    app.new_events(true);
    desk.drive(&mut app);
    app
}

fn pick(desk: &mut Desk, app: &mut Application, entry: MenuEntry) -> Vec<Action> {
    app.user_event(UserEvent::Menu(id_of(entry)));
    desk.drive(app)
}

fn mouse(desk: &mut Desk, app: &mut Application, event: TrayEvent) -> Vec<Action> {
    app.user_event(UserEvent::TrayIcon(event));
    desk.drive(app)
}

const LEFT_UP: TrayEvent =
    TrayEvent::Click { button: MouseButton::Left, button_state: MouseButtonState::Up };

#[test]
fn a_new_tray_looks_at_the_desktop() {
    let mut d = desk();
    d.proxy = 1;
    d.run_entry = Some("x".to_string());
    let mut app = Application::new(ids());
    let done = d.drive(&mut app);
    assert_eq!(
        done,
        vec![
            Action::ShowMode(IconMode::SystemProxy),
            Action::ShowAutostart(true),
            Action::BuildMenu
        ]
    );
    assert_eq!(app.mode(), IconMode::SystemProxy);
    assert!(app.autostart());
    assert!(app.refresh_mode_checks().sysproxy);
    assert!(!app.refresh_mode_checks().tun);
    assert!(!app.refresh_mode_checks().normal);
}

#[test]
fn only_the_start_builds_the_icon() {
    let mut d = desk();
    let mut app = Application::new(ids());
    d.drive(&mut app);
    app.new_events(false);
    assert!(app.next().is_none());
    app.new_events(true);
    assert_eq!(
        d.drive(&mut app),
        vec![Action::ShowMode(IconMode::Normal), Action::ShowTooltip]
    );
    assert_eq!(d.icon, Some((IconMode::Normal, 32, 32)));
}

#[test]
fn left_click_toggles_clashtui() {
    let mut d = desk();
    let mut app = started(&mut d);
    assert_eq!(mouse(&mut d, &mut app, LEFT_UP), vec![Action::StartClashtui(Candidate::Beside)]);
    assert!(d.running);
    assert_eq!(mouse(&mut d, &mut app, LEFT_UP), vec![Action::StopClashtui]);
    assert!(!d.running);
    let twice = TrayEvent::DoubleClick { button: MouseButton::Left };
    assert_eq!(mouse(&mut d, &mut app, twice), vec![Action::StartClashtui(Candidate::Beside)]);
}

#[test]
fn other_mouse_events_do_nothing() {
    let mut d = desk();
    let mut app = started(&mut d);
    for event in [
        TrayEvent::Click { button: MouseButton::Left, button_state: MouseButtonState::Down },
        TrayEvent::Click { button: MouseButton::Right, button_state: MouseButtonState::Up },
        TrayEvent::Click { button: MouseButton::Middle, button_state: MouseButtonState::Up },
        TrayEvent::DoubleClick { button: MouseButton::Right },
        TrayEvent::Move,
        TrayEvent::Leave,
    ] {
        assert_eq!(mouse(&mut d, &mut app, event), vec![]);
    }
}

#[test]
fn launching_takes_what_is_installed() {
    let mut d = desk();
    let mut app = started(&mut d);
    d.running = true;
    assert_eq!(
        pick(&mut d, &mut app, MenuEntry::Launch),
        vec![Action::StartClashtui(Candidate::Beside)]
    );
    d.beside = false;
    d.above = true;
    assert_eq!(
        pick(&mut d, &mut app, MenuEntry::Launch),
        vec![Action::StartClashtui(Candidate::Above)]
    );
    d.above = false;
    assert_eq!(pick(&mut d, &mut app, MenuEntry::Launch), vec![]);
}

#[test]
fn a_list_that_cannot_be_had_means_launching() {
    let mut app = Application::new(ids());
    desk().drive(&mut app);
    app.user_event(UserEvent::TrayIcon(LEFT_UP));
    assert_eq!(app.next(), Some(Step::Ask(Query::IsRunning)));
    app.answer(Reply::Output(None));
    assert_eq!(app.next(), Some(Step::Ask(Query::IsBeside(Errand::Launch))));
}

#[test]
fn choosing_tun_takes_hold() {
    let mut d = desk();
    d.proxy = 1;
    let mut app = started(&mut d);
    assert_eq!(app.mode(), IconMode::SystemProxy);
    let done = pick(&mut d, &mut app, MenuEntry::Tun);
    assert_eq!(
        done,
        vec![
            Action::WriteProxyEnable(0),
            Action::NotifyWinInet(39),
            Action::NotifyWinInet(37),
            Action::PatchTun(true),
            Action::ShowMode(IconMode::Tun),
            Action::ShowMode(IconMode::Tun),
            Action::ShowTooltip,
        ]
    );
    assert!(d.tun);
    assert_eq!(d.proxy, 0);
    assert_eq!(app.mode(), IconMode::Tun);
    assert_eq!(d.icon, Some((IconMode::Tun, 32, 32)));
}

#[test]
fn choosing_the_system_proxy_takes_hold() {
    let mut d = desk();
    d.tun = true;
    d.server = Some("10.1.1.1:8080".to_string());
    let mut app = started(&mut d);
    let done = pick(&mut d, &mut app, MenuEntry::SystemProxy);
    assert_eq!(
        done,
        vec![
            Action::PatchTun(false),
            Action::WriteProxyEnable(1),
            Action::WriteProxyServer,
            Action::NotifyWinInet(39),
            Action::NotifyWinInet(37),
            Action::ShowMode(IconMode::SystemProxy),
            Action::ShowMode(IconMode::SystemProxy),
            Action::ShowTooltip,
        ]
    );
    assert!(!d.tun);
    assert_eq!(d.proxy, 1);
    assert_eq!(d.server.as_deref(), Some("127.0.0.1:7890"));
    assert_eq!(app.mode(), IconMode::SystemProxy);
    assert_eq!(d.icon, Some((IconMode::SystemProxy, 32, 32)));
}

#[test]
fn a_lit_entry_switches_off() {
    let mut d = desk();
    let mut app = started(&mut d);
    pick(&mut d, &mut app, MenuEntry::Tun);
    assert_eq!(app.mode(), IconMode::Tun);
    pick(&mut d, &mut app, MenuEntry::Tun);
    assert_eq!(app.mode(), IconMode::Normal);
    assert!(!d.tun);
    pick(&mut d, &mut app, MenuEntry::SystemProxy);
    assert_eq!(app.mode(), IconMode::SystemProxy);
    pick(&mut d, &mut app, MenuEntry::SystemProxy);
    assert_eq!(app.mode(), IconMode::Normal);
    assert_eq!(d.proxy, 0);
}

#[test]
fn a_choice_goes_by_the_mode_in_force() {
    // TUN is shown, but was switched off elsewhere: choosing it switches it on
    let mut d = desk();
    let mut app = started(&mut d);
    pick(&mut d, &mut app, MenuEntry::Tun);
    assert_eq!(app.mode(), IconMode::Tun);
    d.tun = false;
    let done = pick(&mut d, &mut app, MenuEntry::Tun);
    assert!(done.contains(&Action::PatchTun(true)));
    assert!(d.tun);
    assert_eq!(app.mode(), IconMode::Tun);
    // the normal mode is shown, but TUN was switched on elsewhere: choosing it switches it off
    pick(&mut d, &mut app, MenuEntry::Normal);
    assert_eq!(app.mode(), IconMode::Normal);
    d.tun = true;
    let done = pick(&mut d, &mut app, MenuEntry::Tun);
    assert!(!done.contains(&Action::PatchTun(true)));
    assert!(!d.tun);
    assert_eq!(d.proxy, 0);
    assert_eq!(app.mode(), IconMode::Normal);
    assert_eq!(d.icon, Some((IconMode::Normal, 32, 32)));
    // the same for the system proxy
    d.proxy = 1;
    pick(&mut d, &mut app, MenuEntry::SystemProxy);
    assert_eq!((d.proxy, app.mode()), (0, IconMode::Normal));
    pick(&mut d, &mut app, MenuEntry::SystemProxy);
    d.proxy = 0;
    pick(&mut d, &mut app, MenuEntry::SystemProxy);
    assert_eq!((d.proxy, app.mode()), (1, IconMode::SystemProxy));
}

#[test]
fn a_proxy_that_leads_elsewhere_is_not_the_mode() {
    let mut d = desk();
    d.proxy = 1;
    d.server = Some("10.0.0.1:8080".to_string());
    let mut app = started(&mut d);
    assert_eq!(app.mode(), IconMode::Normal);
    pick(&mut d, &mut app, MenuEntry::SystemProxy);
    assert_eq!(app.mode(), IconMode::SystemProxy);
    assert_eq!(d.server.as_deref(), Some("127.0.0.1:7890"));
}

#[test]
fn normal_turns_both_off() {
    let mut d = desk();
    d.tun = true;
    d.proxy = 1;
    let mut app = started(&mut d);
    let done = pick(&mut d, &mut app, MenuEntry::Normal);
    assert_eq!(done[0], Action::PatchTun(false));
    assert_eq!(done[1], Action::WriteProxyEnable(0));
    assert!(!d.tun && d.proxy == 0);
    assert_eq!(app.mode(), IconMode::Normal);
}

#[test]
fn without_the_core_the_mode_that_is_found_is_shown() {
    let mut d = desk();
    d.core_up = false;
    let mut app = started(&mut d);
    let done = pick(&mut d, &mut app, MenuEntry::Tun);
    assert_eq!(done[done.len() - 2], Action::ShowMode(IconMode::Tun));
    assert_eq!(done[done.len() - 1], Action::ShowMode(IconMode::Normal));
    assert_eq!(app.mode(), IconMode::Normal);
}

#[test]
fn a_closed_proxy_key_is_left_alone() {
    let mut d = desk();
    d.proxy_key = false;
    d.proxy = 1;
    let mut app = started(&mut d);
    pick(&mut d, &mut app, MenuEntry::Tun);
    assert_eq!(d.proxy, 1);
    assert!(d.tun);
}

#[test]
fn the_first_usable_picture_is_shown() {
    let mut d = desk();
    d.pictures.push((IconMode::Normal, IconDir::Assets, b"broken".to_vec()));
    d.pictures.push((IconMode::Normal, IconDir::Source, picture(128, 64)));
    d.pictures.push((IconMode::Normal, IconDir::Embedded, picture(9, 9)));
    d.pictures.push((IconMode::Tun, IconDir::Beside, picture(10, 10)));
    let mut app = started(&mut d);
    assert_eq!(d.icon, Some((IconMode::Normal, 256, 128)));
    pick(&mut d, &mut app, MenuEntry::Tun);
    assert_eq!(d.icon, Some((IconMode::Tun, 256, 256)));
    pick(&mut d, &mut app, MenuEntry::SystemProxy);
    assert_eq!(d.icon, Some((IconMode::SystemProxy, 32, 32)));
}

#[test]
fn the_embedded_picture_needs_no_files() {
    let mut d = desk();
    d.pictures.push((IconMode::Normal, IconDir::Embedded, picture(512, 128)));
    d.pictures.push((IconMode::Tun, IconDir::Embedded, b"broken".to_vec()));
    let mut app = Application::new(ids());
    d.drive(&mut app);
    app.new_events(true);
    let mut asked = Vec::new();
    while let Some(step) = app.next() {
        match step {
            Step::Act(action) => d.perform(&app, action),
            Step::Ask(query) => {
                asked.push(query);
                let reply = d.reply(&app, query);
                app.answer(reply);
            }
        }
    }
    assert_eq!(d.icon, Some((IconMode::Normal, 256, 64)));
    assert!(asked.contains(&Query::IconExists(IconMode::Normal, IconDir::Source)));
    assert!(asked.contains(&Query::IconReads(IconMode::Normal, IconDir::Embedded)));
    assert!(!asked.contains(&Query::IconExists(IconMode::Normal, IconDir::Embedded)));
    pick(&mut d, &mut app, MenuEntry::Tun);
    assert_eq!(d.icon, Some((IconMode::Tun, 32, 32)));
}

#[test]
fn a_new_icon_has_a_new_tooltip() {
    let mut d = desk();
    d.delay = Some(123);
    let mut app = started(&mut d);
    assert_eq!(d.tooltip, "智能选择 123ms");
    d.delay = Some(5001);
    pick(&mut d, &mut app, MenuEntry::Tun);
    assert_eq!(d.tooltip, "智能选择 FALSE");
    d.core_up = false;
    pick(&mut d, &mut app, MenuEntry::Normal);
    assert_eq!(d.tooltip, "Clashtui 托盘 - 点击启动 (常规)");
}

#[test]
fn autostart_is_set_to_a_value() {
    for start in [None, Some("old".to_string())] {
        for enabled in [true, false] {
            let mut d = desk();
            d.run_entry = start.clone();
            let mut app = started(&mut d);
            for step in set_autostart(enabled, true) {
                match step {
                    Step::Act(action) => d.perform(&app, action),
                    Step::Ask(query) => {
                        for after in answered(query, true) {
                            assert_eq!(
                                after,
                                Step::Act(Action::WriteRunEntry(TrayExe::Running))
                            );
                            d.perform(&app, Action::WriteRunEntry(TrayExe::Running));
                        }
                    }
                }
            }
            assert_eq!(d.run_entry.is_some(), enabled);
            assert!(app.next().is_none());
        }
    }
}

#[test]
fn without_an_icon_the_tray_gives_up() {
    let mut d = desk();
    d.icons_work = false;
    d.pictures.push((IconMode::Normal, IconDir::Assets, picture(4, 4)));
    let mut app = Application::new(ids());
    d.drive(&mut app);
    app.new_events(true);
    assert_eq!(
        d.drive(&mut app),
        vec![Action::ShowMode(IconMode::Normal), Action::Fail(Failure::Icon)]
    );
    let mut d = desk();
    d.tray_works = false;
    let mut app = Application::new(ids());
    d.drive(&mut app);
    app.new_events(true);
    assert_eq!(
        d.drive(&mut app),
        vec![Action::ShowMode(IconMode::Normal), Action::Fail(Failure::TrayIcon)]
    );
}

#[test]
fn autostart_switches_over() {
    let mut d = desk();
    let mut app = started(&mut d);
    assert_eq!(
        pick(&mut d, &mut app, MenuEntry::Autostart),
        vec![Action::WriteRunEntry(TrayExe::Running), Action::ShowAutostart(true)]
    );
    assert!(app.autostart());
    assert_eq!(
        pick(&mut d, &mut app, MenuEntry::Autostart),
        vec![Action::DeleteRunEntry, Action::ShowAutostart(false)]
    );
    assert!(!app.autostart());
    d.exe_known = false;
    assert_eq!(
        pick(&mut d, &mut app, MenuEntry::Autostart),
        vec![Action::WriteRunEntry(TrayExe::Named), Action::ShowAutostart(true)]
    );
    d.run_key = false;
    assert_eq!(
        pick(&mut d, &mut app, MenuEntry::Autostart),
        vec![Action::ShowAutostart(false)]
    );
    assert!(d.run_entry.is_some());
}

#[test]
fn the_core_is_restarted_and_stopped() {
    let mut d = desk();
    let mut app = started(&mut d);
    assert_eq!(
        pick(&mut d, &mut app, MenuEntry::RestartCore),
        vec![Action::RunService(Candidate::Beside, ServiceVerb::Restart)]
    );
    d.beside = false;
    d.above = true;
    assert_eq!(
        pick(&mut d, &mut app, MenuEntry::StopCore),
        vec![Action::RunService(Candidate::Above, ServiceVerb::Stop)]
    );
    d.above = false;
    assert_eq!(
        pick(&mut d, &mut app, MenuEntry::StopCore),
        vec![Action::RunService(Candidate::Beside, ServiceVerb::Stop)]
    );
}

#[test]
fn the_two_ways_out() {
    let mut d = desk();
    let mut app = started(&mut d);
    assert_eq!(
        pick(&mut d, &mut app, MenuEntry::CloseProxy),
        vec![Action::RunService(Candidate::Beside, ServiceVerb::Stop), Action::Exit]
    );
    assert_eq!(pick(&mut d, &mut app, MenuEntry::Exit), vec![Action::Exit]);
    assert_eq!(pick(&mut d, &mut app, MenuEntry::Web), vec![Action::OpenWeb]);
}

#[test]
fn the_tooltip_is_refreshed() {
    let mut d = desk();
    let mut app = started(&mut d);
    assert_eq!(mouse(&mut d, &mut app, TrayEvent::Enter), vec![Action::ShowTooltip]);
    assert_eq!(d.tooltip, "智能选择 42ms");
    d.delay = None;
    app.user_event(UserEvent::Tick);
    assert_eq!(d.drive(&mut app), vec![Action::ShowTooltip]);
    assert_eq!(d.tooltip, "智能选择 FALSE");
    d.core_up = false;
    assert_eq!(mouse(&mut d, &mut app, TrayEvent::Enter), vec![]);
}

#[test]
fn a_question_stays_until_it_is_answered() {
    let mut app = Application::new(ids());
    let first = app.next();
    assert_eq!(first, app.next());
    app.answer(Reply::Flag(true));
    assert_ne!(first, app.next());
}

#[test]
fn a_reply_of_another_kind_means_no() {
    let mut app = Application::new(ids());
    app.answer(Reply::Flag(true));
    app.answer(Reply::Text(Some("1".to_string())));
    // an action is next now, so a reply changes nothing
    app.answer(Reply::Flag(true));
    assert_eq!(app.next(), Some(Step::Act(Action::ShowMode(IconMode::Normal))));
    assert_eq!(
        app.next(),
        Some(Step::Ask(Query::AutostartOn(AutostartUse::FirstCheck)))
    );
    assert!(app.load_icon().is_none());
}

#[test]
fn unknown_identifiers_are_ignored() {
    let mut d = desk();
    let mut app = started(&mut d);
    app.user_event(UserEvent::Menu("item-99".to_string()));
    assert!(app.next().is_none());
    for (i, entry) in entries().iter().enumerate() {
        assert_eq!(entry_with_id(&ids(), &ids()[i]), Some(*entry));
    }
    assert_eq!(entry_with_id(&ids(), &"x".to_string()), None);
    assert_eq!(entry_with_id(&Vec::new(), &"item-0".to_string()), None);
    let same = vec!["a".to_string(), "a".to_string()];
    assert_eq!(entry_with_id(&same, &"a".to_string()), Some(MenuEntry::Launch));
}

#[test]
fn the_menu_lists_every_entry_once() {
    let rows = menu_rows();
    let mut listed = Vec::new();
    for row in &rows {
        match row {
            MenuRow::Item(entry) => listed.push(*entry),
            MenuRow::Separator => {}
        }
    }
    assert_eq!(listed, entries());
    assert_eq!(rows.len(), 14);
    assert_eq!(entry_label(MenuEntry::Launch), "仪表盘");
    assert_eq!(entry_label(MenuEntry::CloseProxy), "关闭代理");
    let checked: Vec<MenuEntry> = entries().into_iter().filter(|e| has_check(*e)).collect();
    assert_eq!(
        checked,
        vec![MenuEntry::Tun, MenuEntry::SystemProxy, MenuEntry::Normal, MenuEntry::Autostart]
    );
}

#[test]
fn steps_on_their_own() {
    assert_eq!(toggle_clashtui(true), vec![Step::Act(Action::StopClashtui)]);
    assert_eq!(toggle_clashtui(false), vec![Step::Ask(Query::IsBeside(Errand::Launch))]);
    assert_eq!(
        apply_mode(IconMode::Tun),
        vec![Step::Ask(Query::OpenProxyKey(false)), Step::Act(Action::PatchTun(true))]
    );
    assert_eq!(
        apply_mode(IconMode::SystemProxy),
        vec![Step::Act(Action::PatchTun(false)), Step::Ask(Query::OpenProxyKey(true))]
    );
    assert_eq!(
        apply_mode(IconMode::Normal),
        vec![Step::Act(Action::PatchTun(false)), Step::Ask(Query::OpenProxyKey(false))]
    );
    assert_eq!(set_system_proxy(true, false), vec![]);
    assert_eq!(set_system_proxy(true, true).len(), 4);
    assert_eq!(
        answered(Query::TunOn(Purpose::Click(IconMode::Tun)), true),
        switch_mode(IconMode::Normal)
    );
    assert_eq!(
        answered(Query::ProxyOn(Purpose::Click(IconMode::Tun)), true),
        switch_mode(IconMode::Tun)
    );
    assert_eq!(switch_mode(IconMode::Tun).len(), 4);
    assert_eq!(set_autostart(true, true), vec![Step::Ask(Query::ExeKnown)]);
    assert_eq!(set_autostart(false, true), vec![Step::Act(Action::DeleteRunEntry)]);
    assert_eq!(set_autostart(false, false), vec![]);
    assert_eq!(
        answered(Query::ExeKnown, false),
        vec![Step::Act(Action::WriteRunEntry(TrayExe::Named))]
    );
}

#[test]
fn tun_and_proxy_never_meet() {
    let modes = [MenuEntry::Tun, MenuEntry::SystemProxy, MenuEntry::Tun, MenuEntry::Normal];
    let mut desk = desk();
    let mut app = started(&mut desk);
    for entry in modes {
        app.user_event(UserEvent::Menu(id_of(entry)));
        while let Some(step) = app.next() {
            match step {
                Step::Act(action) => desk.perform(&app, action),
                Step::Ask(query) => {
                    let reply = desk.reply(&app, query);
                    app.answer(reply);
                }
            }
            assert!(!(desk.tun && desk.proxy != 0));
        }
    }
    assert!(!desk.tun && desk.proxy == 0);
}

#[test]
fn the_tray_knows_its_check_marks() {
    let mut desk = desk();
    let mut app = started(&mut desk);
    let mut shown = app.mode();
    let mut autostart = app.autostart();
    for entry in [MenuEntry::Tun, MenuEntry::Autostart, MenuEntry::Tun, MenuEntry::Autostart] {
        for action in pick(&mut desk, &mut app, entry) {
            match action {
                Action::ShowMode(mode) => shown = mode,
                Action::ShowAutostart(on) => autostart = on,
                _ => {}
            }
        }
        assert_eq!(app.mode(), shown);
        assert_eq!(app.autostart(), autostart);
        assert_eq!(autostart, desk.run_entry.is_some());
    }
    assert_eq!(shown, IconMode::Normal);
}
