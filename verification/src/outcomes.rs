//! What each event comes to on a desktop, action by action.
use crate::application;
use crate::application::{ApplicationView, MouseButton, MouseButtonState, TrayEvent, UserEvent};
use crate::command::ServiceVerb;
use crate::core_api;
use crate::desktop;
use crate::desktop::{Desktop, Outcome};
use crate::laws;
use crate::menu;
use crate::menu::MenuEntry;
use crate::mode;
use crate::mode::IconMode;
use crate::paths::{Candidate, IconDir, TrayExe};
use crate::steps;
use crate::steps::{Action, AutostartUse, Errand, Failure, Purpose, Query, Step};
use vstd::prelude::*;

verus! {

/// What launching comes to: the clashtui beside the tray is started, else the one above it, and
/// nothing where neither is installed.
pub open spec fn launch_outcome(desk: Desktop) -> Outcome {
    if desk.beside {
        Outcome {
            done: seq![Action::StartClashtui(Candidate::Beside)],
            desktop: Desktop { running: true, ..desk },
        }
    } else if desk.above {
        Outcome {
            done: seq![Action::StartClashtui(Candidate::Above)],
            desktop: Desktop { running: true, ..desk },
        }
    } else {
        Outcome { done: seq![], desktop: desk }
    }
}

/// What one action comes to that changes nothing on the desktop.
pub open spec fn only(action: Action, desk: Desktop) -> Outcome {
    Outcome { done: seq![action], desktop: desk }
}

/// Where a command for the service of the core goes: beside the tray, unless clashtui is installed
/// above it alone.
pub open spec fn service_place(desk: Desktop) -> Candidate {
    if desk.above && !desk.beside {
        Candidate::Above
    } else {
        Candidate::Beside
    }
}

/// The entry of the dashboard launches clashtui.
pub proof fn law_launch_entry(app: ApplicationView, id: String, desk: Desktop)
    requires
        menu::entry_from(app.ids, id@, 0) == Some(MenuEntry::Launch),
    ensures
        desktop::carry_out(app.event_steps(UserEvent::Menu(id)), desk) == launch_outcome(desk),
{
    laws::law_launch_starts_the_first_installed(desk);
}

/// The entry of the web page opens it, and does nothing else.
pub proof fn law_web_entry(app: ApplicationView, id: String, desk: Desktop)
    requires
        menu::entry_from(app.ids, id@, 0) == Some(MenuEntry::Web),
    ensures
        desktop::carry_out(app.event_steps(UserEvent::Menu(id)), desk) == only(Action::OpenWeb, desk),
{
    desktop::lemma_act(Action::OpenWeb, desk);
}

/// The entries of the core have clashtui restart or stop it, and do nothing else.
pub proof fn law_core_entries(app: ApplicationView, id: String, desk: Desktop)
    ensures
        menu::entry_from(app.ids, id@, 0) == Some(MenuEntry::RestartCore) ==> desktop::carry_out(
            app.event_steps(UserEvent::Menu(id)),
            desk,
        ) == only(Action::RunService(service_place(desk), ServiceVerb::Restart), desk),
        menu::entry_from(app.ids, id@, 0) == Some(MenuEntry::StopCore) ==> desktop::carry_out(
            app.event_steps(UserEvent::Menu(id)),
            desk,
        ) == only(Action::RunService(service_place(desk), ServiceVerb::Stop), desk),
{
    laws::law_service_runs_once(desk, ServiceVerb::Restart);
    laws::law_service_runs_once(desk, ServiceVerb::Stop);
}

/// Closing the proxy has clashtui stop the core, and then leaves; leaving does nothing else.
pub proof fn law_entries_that_leave(app: ApplicationView, id: String, desk: Desktop)
    ensures
        menu::entry_from(app.ids, id@, 0) == Some(MenuEntry::CloseProxy) ==> desktop::carry_out(
            app.event_steps(UserEvent::Menu(id)),
            desk,
        ) == (Outcome {
            done: seq![
                Action::RunService(service_place(desk), ServiceVerb::Stop),
                Action::Exit,
            ],
            desktop: desk,
        }),
        menu::entry_from(app.ids, id@, 0) == Some(MenuEntry::Exit) ==> desktop::carry_out(
            app.event_steps(UserEvent::Menu(id)),
            desk,
        ) == only(Action::Exit, desk),
{
    laws::law_ways_out(desk);
}

/// The entry of autostart deletes the autostart entry where there is one, and else writes it, with
/// the path of the running executable where that is known. The check mark follows.
pub proof fn law_autostart_entry(app: ApplicationView, id: String, desk: Desktop)
    requires
        menu::entry_from(app.ids, id@, 0) == Some(MenuEntry::Autostart),
    ensures
        ({
            let run = desktop::carry_out(app.event_steps(UserEvent::Menu(id)), desk);
            let shown = Desktop { autostart_shown: !desk.run_entry, ..desk };
            &&& desk.run_key && desk.run_entry ==> run == (Outcome {
                done: seq![Action::DeleteRunEntry, Action::ShowAutostart(false)],
                desktop: Desktop { run_entry: false, ..shown },
            })
            &&& desk.run_key && !desk.run_entry && desk.exe_known ==> run == (Outcome {
                done: seq![Action::WriteRunEntry(TrayExe::Running), Action::ShowAutostart(true)],
                desktop: Desktop { run_entry: true, ..shown },
            })
            &&& desk.run_key && !desk.run_entry && !desk.exe_known ==> run == (Outcome {
                done: seq![Action::WriteRunEntry(TrayExe::Named), Action::ShowAutostart(true)],
                desktop: Desktop { run_entry: true, ..shown },
            })
            &&& !desk.run_key ==> run == (Outcome {
                done: seq![Action::ShowAutostart(!desk.run_entry)],
                desktop: shown,
            })
        }),
{
    if desk.run_key {
        laws::law_autostart_switches_over(desk);
    } else {
        lemma_autostart_without_key(desk);
    }
}

proof fn lemma_autostart_without_key(desk: Desktop)
    requires
        !desk.run_key,
    ensures
        desktop::carry_out(seq![Step::Ask(Query::AutostartOn(AutostartUse::Toggle))], desk) == (
        Outcome {
            done: seq![Action::ShowAutostart(!desk.run_entry)],
            desktop: Desktop { autostart_shown: !desk.run_entry, ..desk },
        }),
{
    let on: bool = !desk.run_entry;
    let open: Seq<Step> = seq![Step::Ask(Query::OpenRunKey(on))];
    let mark: Seq<Step> = seq![Step::Act(Action::ShowAutostart(on))];
    desktop::lemma_ask(Query::AutostartOn(AutostartUse::Toggle), desk);
    assert(steps::follow_up(Query::AutostartOn(AutostartUse::Toggle), desk.run_entry) =~= open
        + mark);
    desktop::lemma_chain(open, mark, desk);
    laws::law_autostart_is_set(on, desk);
    desktop::lemma_act(Action::ShowAutostart(on), desk);
    assert(seq![] + seq![Action::ShowAutostart(on)] =~= seq![Action::ShowAutostart(on)]);
}

// ---- the modes

/// What is done to switch the system proxy off, from whether its settings can be written.
pub open spec fn switching_off(key: bool) -> Seq<Action> {
    if key {
        seq![
            Action::WriteProxyEnable(0),
            Action::NotifyWinInet(39),
            Action::NotifyWinInet(37),
        ]
    } else {
        seq![]
    }
}

/// What is done to switch the system proxy on, from whether its settings can be written.
pub open spec fn switching_on(key: bool) -> Seq<Action> {
    if key {
        seq![
            Action::WriteProxyEnable(1),
            Action::WriteProxyServer,
            Action::NotifyWinInet(39),
            Action::NotifyWinInet(37),
        ]
    } else {
        seq![]
    }
}

/// What applying the normal mode comes to: TUN is switched off, then the system proxy.
pub open spec fn normal_applied(desk: Desktop) -> Outcome {
    Outcome {
        done: seq![Action::PatchTun(false)] + switching_off(desk.proxy_key),
        desktop: Desktop {
            tun: desk.tun && !desk.core_up,
            proxy_enabled: desk.proxy_enabled && !desk.proxy_key,
            ..desk
        },
    }
}

/// What applying TUN comes to: the system proxy is switched off, then TUN is switched on.
pub open spec fn tun_applied(desk: Desktop) -> Outcome {
    Outcome {
        done: switching_off(desk.proxy_key) + seq![Action::PatchTun(true)],
        desktop: Desktop {
            tun: desk.tun || desk.core_up,
            proxy_enabled: desk.proxy_enabled && !desk.proxy_key,
            ..desk
        },
    }
}

/// What applying the system proxy comes to: TUN is switched off, then the system proxy is switched
/// on and led to the core.
pub open spec fn proxy_applied(desk: Desktop) -> Outcome {
    Outcome {
        done: seq![Action::PatchTun(false)] + switching_on(desk.proxy_key),
        desktop: Desktop {
            tun: desk.tun && !desk.core_up,
            proxy_enabled: desk.proxy_enabled || desk.proxy_key,
            proxy_server: if desk.proxy_key {
                Some("127.0.0.1:7890"@)
            } else {
                desk.proxy_server
            },
            ..desk
        },
    }
}

/// Applying a mode switches off what it does not stand for, and then on what it stands for.
pub proof fn law_modes_are_applied(desk: Desktop)
    ensures
        desktop::carry_out(steps::apply_steps(IconMode::Normal), desk) == normal_applied(desk),
        desktop::carry_out(steps::apply_steps(IconMode::Tun), desk) == tun_applied(desk),
        desktop::carry_out(steps::apply_steps(IconMode::SystemProxy), desk) == proxy_applied(desk),
{
    lemma_normal_applied(desk);
    lemma_tun_applied(desk);
    lemma_proxy_applied(desk);
}

proof fn lemma_normal_applied(desk: Desktop)
    ensures
        desktop::carry_out(steps::apply_steps(IconMode::Normal), desk) == normal_applied(desk),
{
    laws::law_applied_mode_is_detected(IconMode::Normal, desk);
    assert(laws::with_mode(desk, IconMode::Normal) == normal_applied(desk).desktop);
}

proof fn lemma_tun_applied(desk: Desktop)
    ensures
        desktop::carry_out(steps::apply_steps(IconMode::Tun), desk) == tun_applied(desk),
{
    laws::law_applied_mode_is_detected(IconMode::Tun, desk);
    assert(laws::with_mode(desk, IconMode::Tun) == tun_applied(desk).desktop);
}

proof fn lemma_proxy_applied(desk: Desktop)
    ensures
        desktop::carry_out(steps::apply_steps(IconMode::SystemProxy), desk) == proxy_applied(desk),
{
    laws::law_applied_mode_is_detected(IconMode::SystemProxy, desk);
    assert(laws::with_mode(desk, IconMode::SystemProxy) == proxy_applied(desk).desktop);
}

/// What a mode that was applied, with this outcome, goes on with: its check mark is shown, and the
/// tray icon is built for what is then in force.
pub open spec fn shown_and_rebuilt(applied: Outcome, mode: IconMode) -> Outcome {
    let shown = Desktop { shown: mode, ..applied.desktop };
    let icon = desktop::carry_out(seq![Step::Ask(Query::TunOn(Purpose::Rebuild))], shown);
    Outcome {
        done: applied.done + seq![Action::ShowMode(mode)] + icon.done,
        desktop: icon.desktop,
    }
}

/// Going over to a mode applies it and shows it.
pub proof fn law_modes_are_gone_over_to(desk: Desktop)
    ensures
        desktop::carry_out(steps::switch_steps(IconMode::Normal), desk) == shown_and_rebuilt(
            normal_applied(desk),
            IconMode::Normal,
        ),
        desktop::carry_out(steps::switch_steps(IconMode::Tun), desk) == shown_and_rebuilt(
            tun_applied(desk),
            IconMode::Tun,
        ),
        desktop::carry_out(steps::switch_steps(IconMode::SystemProxy), desk) == shown_and_rebuilt(
            proxy_applied(desk),
            IconMode::SystemProxy,
        ),
{
    lemma_normal_applied(desk);
    lemma_gone_over(IconMode::Normal, normal_applied(desk), desk);
    lemma_tun_applied(desk);
    lemma_gone_over(IconMode::Tun, tun_applied(desk), desk);
    lemma_proxy_applied(desk);
    lemma_gone_over(IconMode::SystemProxy, proxy_applied(desk), desk);
}

proof fn lemma_gone_over(mode: IconMode, applied: Outcome, desk: Desktop)
    requires
        desktop::carry_out(steps::apply_steps(mode), desk) == applied,
    ensures
        desktop::carry_out(steps::switch_steps(mode), desk) == shown_and_rebuilt(applied, mode),
{
    let apply: Seq<Step> = steps::apply_steps(mode);
    let show: Seq<Step> = seq![Step::Act(Action::ShowMode(mode))];
    desktop::lemma_act(Action::ShowMode(mode), applied.desktop);
    desktop::lemma_chain(apply, show, desk);
    desktop::lemma_chain(apply + show, steps::rebuild_steps(), desk);
}

/// The entry of TUN switches TUN on, unless it is in force when the entry is chosen: then the normal
/// mode is applied.
pub proof fn law_tun_entry(app: ApplicationView, id: String, desk: Desktop)
    requires
        menu::entry_from(app.ids, id@, 0) == Some(MenuEntry::Tun),
    ensures
        ({
            let run = desktop::carry_out(app.event_steps(UserEvent::Menu(id)), desk);
            &&& desk.core_up && desk.tun ==> run == shown_and_rebuilt(
                normal_applied(desk),
                IconMode::Normal,
            )
            &&& !(desk.core_up && desk.tun) ==> run == shown_and_rebuilt(
                tun_applied(desk),
                IconMode::Tun,
            )
        }),
{
    laws::law_choice_goes_by_the_mode_in_force(app, id, IconMode::Tun, desk);
    law_modes_are_gone_over_to(desk);
}

/// The entry of the system proxy switches it on, unless it is in force when the entry is chosen, which
/// it is where it leads to the core and TUN is not on: then the normal mode is applied.
pub proof fn law_proxy_entry(app: ApplicationView, id: String, desk: Desktop)
    requires
        menu::entry_from(app.ids, id@, 0) == Some(MenuEntry::SystemProxy),
    ensures
        ({
            let run = desktop::carry_out(app.event_steps(UserEvent::Menu(id)), desk);
            let in_force = desk.proxy_enabled && desk.proxy_server == Some("127.0.0.1:7890"@) && !(
            desk.core_up && desk.tun);
            &&& in_force ==> run == shown_and_rebuilt(normal_applied(desk), IconMode::Normal)
            &&& !in_force ==> run == shown_and_rebuilt(proxy_applied(desk), IconMode::SystemProxy)
        }),
{
    laws::law_choice_goes_by_the_mode_in_force(app, id, IconMode::SystemProxy, desk);
    law_modes_are_gone_over_to(desk);
}

/// The entry of the normal mode applies it, whatever is in force.
pub proof fn law_normal_entry(app: ApplicationView, id: String, desk: Desktop)
    requires
        menu::entry_from(app.ids, id@, 0) == Some(MenuEntry::Normal),
    ensures
        desktop::carry_out(app.event_steps(UserEvent::Menu(id)), desk) == shown_and_rebuilt(
            normal_applied(desk),
            IconMode::Normal,
        ),
{
    law_modes_are_gone_over_to(desk);
}

// ---- the icon and the start

/// The mode that is in force.
pub open spec fn in_force(desk: Desktop) -> IconMode {
    if desk.core_up && desk.tun {
        IconMode::Tun
    } else if desk.proxy_enabled && desk.proxy_server == Some("127.0.0.1:7890"@) {
        IconMode::SystemProxy
    } else {
        IconMode::Normal
    }
}

/// Whether a file with the picture of `mode` at `dir` exists, can be read and makes an icon.
pub open spec fn file_serves(desk: Desktop, mode: IconMode, dir: IconDir) -> bool {
    desk.pictures.contains((mode, dir)) && desk.readable.contains((mode, dir))
        && desk.usable.contains((mode, dir))
}

/// The picture that serves for `mode`: a file, looked for in three places, else the one in the
/// executable.
pub open spec fn picture_that_serves(desk: Desktop, mode: IconMode) -> Option<IconDir> {
    if file_serves(desk, mode, IconDir::Assets) {
        Some(IconDir::Assets)
    } else if file_serves(desk, mode, IconDir::Beside) {
        Some(IconDir::Beside)
    } else if file_serves(desk, mode, IconDir::Source) {
        Some(IconDir::Source)
    } else if desk.readable.contains((mode, IconDir::Embedded)) && desk.usable.contains(
        (mode, IconDir::Embedded),
    ) {
        Some(IconDir::Embedded)
    } else {
        None
    }
}

/// What making an icon for `mode` comes to, of this picture, or of the plain square where there is
/// none: a tray icon with it, whose tooltip is then brought up to date. Where no icon or no tray icon
/// can be made, the tray gives up.
pub open spec fn icon_made(mode: IconMode, picture: Option<IconDir>, desk: Desktop) -> Outcome {
    if picture is None && !desk.square {
        only(Action::Fail(Failure::Icon), desk)
    } else if !desk.tray {
        only(Action::Fail(Failure::TrayIcon), Desktop { made_of: picture, ..desk })
    } else {
        match desk.title {
            Some(name) => Outcome {
                done: seq![Action::ShowTooltip],
                desktop: Desktop {
                    made_of: picture,
                    icon: Some(mode),
                    tooltip: name + " "@ + core_api::delay_text_of(desk.delay),
                    ..desk
                },
            },
            None => Outcome {
                done: seq![],
                desktop: Desktop {
                    made_of: picture,
                    icon: Some(mode),
                    tooltip: mode::mode_tooltip_of(mode),
                    ..desk
                },
            },
        }
    }
}

/// Building the tray icon shows the mode in force, in its check mark and in an icon of the first
/// picture that serves.
pub proof fn law_icon_is_built(desk: Desktop)
    ensures
        ({
            let run = desktop::carry_out(seq![Step::Ask(Query::TunOn(Purpose::Rebuild))], desk);
            let mode = in_force(desk);
            let icon = icon_made(
                mode,
                picture_that_serves(desk, mode),
                Desktop { shown: mode, ..desk },
            );
            run == (Outcome {
                done: seq![Action::ShowMode(mode)] + icon.done,
                desktop: icon.desktop,
            })
        }),
{
    let mode: IconMode = in_force(desk);
    laws::law_tray_shows_the_mode_of_the_desktop(desk);
    lemma_serving_picture(mode, desk);
    lemma_icon_made(mode, Desktop { shown: mode, ..desk });
}

proof fn lemma_serving_picture(mode: IconMode, desk: Desktop)
    ensures
        laws::mode_on(desk) == in_force(desk),
        (Desktop { shown: mode, ..desk }).first_picture(mode) == picture_that_serves(desk, mode),
{
    let shown: Desktop = Desktop { shown: mode, ..desk };
    assert(forall|dir: IconDir|
        dir != IconDir::Embedded ==> #[trigger] shown.can_use(mode, dir) == file_serves(
            desk,
            mode,
            dir,
        ));
}

proof fn lemma_icon_made(mode: IconMode, desk: Desktop)
    ensures
        laws::icon_outcome(mode, desk) == icon_made(mode, desk.first_picture(mode), desk),
{
    let made: Desktop = Desktop { made_of: desk.first_picture(mode), ..desk };
    lemma_tray_made(mode, made);
}

proof fn lemma_tray_made(mode: IconMode, desk: Desktop)
    ensures
        desk.tray ==> laws::tray_outcome(mode, desk) == (match desk.title {
            Some(name) => Outcome {
                done: seq![Action::ShowTooltip],
                desktop: Desktop {
                    icon: Some(mode),
                    tooltip: name + " "@ + core_api::delay_text_of(desk.delay),
                    ..desk
                },
            },
            None => Outcome {
                done: seq![],
                desktop: Desktop {
                    icon: Some(mode),
                    tooltip: mode::mode_tooltip_of(mode),
                    ..desk
                },
            },
        }),
{
}

/// At the start the check marks show the mode in force and the autostart entry, and the menu is put
/// together.
pub proof fn law_start_shows_the_desktop(desk: Desktop)
    ensures
        desktop::carry_out(seq![Step::Ask(Query::TunOn(Purpose::FirstChecks))], desk) == (Outcome {
            done: seq![
                Action::ShowMode(in_force(desk)),
                Action::ShowAutostart(desk.run_entry),
                Action::BuildMenu,
            ],
            desktop: Desktop {
                shown: in_force(desk),
                autostart_shown: desk.run_entry,
                ..desk
            },
        }),
{
    laws::law_first_checks_show_the_desktop(desk);
    assert(laws::mode_on(desk) == in_force(desk));
}

// ---- the mouse and the clock

/// A left click that ends and a left double click stop a running clashtui, and else launch it. Coming
/// over the icon brings the tooltip up to date. Nothing else that the mouse does leads to anything.
pub proof fn law_mouse(app: ApplicationView, event: TrayEvent, desk: Desktop)
    ensures
        ({
            let run = desktop::carry_out(app.event_steps(UserEvent::TrayIcon(event)), desk);
            let left = event == (TrayEvent::Click {
                button: MouseButton::Left,
                button_state: MouseButtonState::Up,
            }) || event == (TrayEvent::DoubleClick { button: MouseButton::Left });
            &&& left && desk.running ==> run == (Outcome {
                done: seq![Action::StopClashtui],
                desktop: Desktop { running: false, ..desk },
            })
            &&& left && !desk.running ==> run == launch_outcome(desk)
            &&& event == TrayEvent::Enter ==> run == tooltip_outcome(desk)
            &&& !left && event != TrayEvent::Enter ==> run == (Outcome { done: seq![], desktop: desk })
        }),
{
    laws::law_click_toggles_clashtui(desk);
    laws::law_launch_starts_the_first_installed(desk);
    laws::law_tooltip_is_refreshed(app, desk);
    desktop::lemma_nothing(desk);
}

/// What bringing the tooltip up to date comes to: it shows the name that the core gives the mode, and
/// the delay; where the core gives no name, nothing is done.
pub open spec fn tooltip_outcome(desk: Desktop) -> Outcome {
    match desk.title {
        Some(name) => Outcome {
            done: seq![Action::ShowTooltip],
            desktop: Desktop {
                tooltip: name + " "@ + core_api::delay_text_of(desk.delay),
                ..desk
            },
        },
        None => Outcome { done: seq![], desktop: desk },
    }
}

/// When the tooltip is due, it is brought up to date.
pub proof fn law_tick(app: ApplicationView, desk: Desktop)
    ensures
        desktop::carry_out(app.event_steps(UserEvent::Tick), desk) == tooltip_outcome(desk),
{
    laws::law_tooltip_is_refreshed(app, desk);
}

// ---- single answers

/// What may cause an action: no answer leads to one but for the reason that it is there for.
pub open spec fn is_cause(query: Query, yes: bool, action: Action) -> bool {
    match action {
        Action::StartClashtui(place) => query == Query::IsPresent(place) && yes,
        Action::StopClashtui => query == Query::IsRunning && yes,
        Action::RunService(place, verb) => {
            ||| query == Query::IsBeside(Errand::Service(verb)) && yes && place == Candidate::Beside
            ||| query == Query::IsAbove(Errand::Service(verb)) && (yes <==> place
                == Candidate::Above)
        },
        Action::PatchTun(_) => {
            ||| query matches Query::TunOn(Purpose::Click(_)) && yes
            ||| query matches Query::ProxyOn(Purpose::Click(_))
        },
        Action::WriteProxyEnable(number) => {
            ||| query == Query::OpenProxyKey(true) && yes && number == 1
            ||| query == Query::OpenProxyKey(false) && yes && number == 0
        },
        Action::WriteProxyServer => query == Query::OpenProxyKey(true) && yes,
        Action::NotifyWinInet(option) => query is OpenProxyKey && yes && (option == 39 || option
            == 37),
        Action::ShowMode(_) => (query is TunOn && yes) || query is ProxyOn,
        Action::ShowAutostart(on) => {
            ||| query == Query::AutostartOn(AutostartUse::FirstCheck) && on == yes
            ||| query == Query::AutostartOn(AutostartUse::Toggle) && on != yes
        },
        Action::BuildMenu => query == Query::AutostartOn(AutostartUse::FirstCheck),
        Action::WriteRunEntry(exe) => query == Query::ExeKnown && (yes <==> exe == TrayExe::Running),
        Action::DeleteRunEntry => query == Query::OpenRunKey(false) && yes,
        Action::ShowTooltip => query == Query::DelayMeasured,
        Action::Fail(Failure::Icon) => query matches Query::IconMakes(_, None) && !yes,
        Action::Fail(Failure::TrayIcon) => query is TrayBuilds && !yes,
        Action::OpenWeb => false,
        Action::Exit => false,
    }
}

/// Every action that an answer leads to has its cause in it: nothing is started that was not found,
/// nothing is written under a key that was not opened, and no answer opens a page or leaves the tray.
pub proof fn law_actions_have_causes(query: Query, yes: bool, at: int, action: Action)
    requires
        0 <= at < steps::follow_up(query, yes).len(),
        steps::follow_up(query, yes)[at] == Step::Act(action),
    ensures
        is_cause(query, yes, action),
{
}

/// Looking for clashtui asks beside the tray first, then above it; what is settled on is started if it
/// is there, or gets its service command.
pub proof fn law_finding(verb: ServiceVerb, place: Candidate)
    ensures
        steps::follow_up(Query::IsBeside(Errand::Launch), true) == seq![
            Step::Ask(Query::IsPresent(Candidate::Beside)),
        ],
        steps::follow_up(Query::IsBeside(Errand::Launch), false) == seq![
            Step::Ask(Query::IsAbove(Errand::Launch)),
        ],
        steps::follow_up(Query::IsAbove(Errand::Launch), true) == seq![
            Step::Ask(Query::IsPresent(Candidate::Above)),
        ],
        steps::follow_up(Query::IsAbove(Errand::Launch), false) == seq![
            Step::Ask(Query::IsPresent(Candidate::Beside)),
        ],
        steps::follow_up(Query::IsPresent(place), true) == seq![
            Step::Act(Action::StartClashtui(place)),
        ],
        steps::follow_up(Query::IsPresent(place), false).len() == 0,
        steps::follow_up(Query::IsBeside(Errand::Service(verb)), true) == seq![
            Step::Act(Action::RunService(Candidate::Beside, verb)),
        ],
        steps::follow_up(Query::IsBeside(Errand::Service(verb)), false) == seq![
            Step::Ask(Query::IsAbove(Errand::Service(verb))),
        ],
        steps::follow_up(Query::IsAbove(Errand::Service(verb)), true) == seq![
            Step::Act(Action::RunService(Candidate::Above, verb)),
        ],
        steps::follow_up(Query::IsAbove(Errand::Service(verb)), false) == seq![
            Step::Act(Action::RunService(Candidate::Beside, verb)),
        ],
        steps::toggle_steps(true) == seq![Step::Act(Action::StopClashtui)],
        steps::toggle_steps(false) == seq![Step::Ask(Query::IsBeside(Errand::Launch))],
{
}

/// The question whether TUN is on comes first, and that for the system proxy only where it is not; the
/// mode that they give is what is gone on with.
pub proof fn law_looking_up_the_mode(purpose: Purpose)
    ensures
        steps::follow_up(Query::TunOn(purpose), false) == seq![Step::Ask(Query::ProxyOn(purpose))],
        steps::follow_up(Query::TunOn(purpose), true) == steps::detected_steps(
            purpose,
            IconMode::Tun,
        ),
        steps::follow_up(Query::ProxyOn(purpose), true) == steps::detected_steps(
            purpose,
            IconMode::SystemProxy,
        ),
        steps::follow_up(Query::ProxyOn(purpose), false) == steps::detected_steps(
            purpose,
            IconMode::Normal,
        ),
{
}

/// A chosen entry leads from the mode in force to its own mode, or back to normal from that; for the
/// check marks and the icon, the mode is shown as it is.
pub proof fn law_going_on_from_the_mode(current: IconMode, chosen: IconMode)
    ensures
        current == chosen ==> steps::detected_steps(Purpose::Click(chosen), current)
            == steps::switch_steps(IconMode::Normal),
        current != chosen ==> steps::detected_steps(Purpose::Click(chosen), current)
            == steps::switch_steps(chosen),
        steps::detected_steps(Purpose::FirstChecks, current) == seq![
            Step::Act(Action::ShowMode(current)),
            Step::Ask(Query::AutostartOn(AutostartUse::FirstCheck)),
        ],
        steps::detected_steps(Purpose::Rebuild, current) == seq![
            Step::Act(Action::ShowMode(current)),
            Step::Ask(Query::IconExists(current, IconDir::Assets)),
        ],
{
}

/// A picture that is there is read, one that was read is made an icon of, and one that fails in any of
/// this gives way to the next; the picture in the executable is the last, and then the plain square.
pub proof fn law_searching_for_a_picture(mode: IconMode, dir: IconDir)
    ensures
        steps::follow_up(Query::IconExists(mode, dir), true) == seq![
            Step::Ask(Query::IconReads(mode, dir)),
        ],
        steps::follow_up(Query::IconReads(mode, dir), true) == seq![
            Step::Ask(Query::IconMakes(mode, Some(dir))),
        ],
        steps::follow_up(Query::IconMakes(mode, Some(dir)), true) == seq![
            Step::Ask(Query::TrayBuilds(mode)),
        ],
        steps::follow_up(Query::IconMakes(mode, None), true) == seq![
            Step::Ask(Query::TrayBuilds(mode)),
        ],
        steps::follow_up(Query::IconExists(mode, dir), false) == steps::icon_steps_after(mode, dir),
        steps::follow_up(Query::IconReads(mode, dir), false) == steps::icon_steps_after(mode, dir),
        steps::follow_up(Query::IconMakes(mode, Some(dir)), false) == steps::icon_steps_after(
            mode,
            dir,
        ),
        steps::icon_steps_after(mode, IconDir::Assets) == seq![
            Step::Ask(Query::IconExists(mode, IconDir::Beside)),
        ],
        steps::icon_steps_after(mode, IconDir::Beside) == seq![
            Step::Ask(Query::IconExists(mode, IconDir::Source)),
        ],
        steps::icon_steps_after(mode, IconDir::Source) == seq![
            Step::Ask(Query::IconReads(mode, IconDir::Embedded)),
        ],
        steps::icon_steps_after(mode, IconDir::Embedded) == seq![
            Step::Ask(Query::IconMakes(mode, None)),
        ],
        steps::follow_up(Query::IconMakes(mode, None), false) == seq![
            Step::Act(Action::Fail(Failure::Icon)),
        ],
        steps::follow_up(Query::TrayBuilds(mode), true) == seq![Step::Ask(Query::TitleKnown)],
        steps::follow_up(Query::TrayBuilds(mode), false) == seq![
            Step::Act(Action::Fail(Failure::TrayIcon)),
        ],
{
}

/// A named mode has the delay measured, and then the tooltip shown, whether or not the probe came
/// back; without a name nothing is done.
pub proof fn law_refreshing_the_tooltip(came_back: bool)
    ensures
        steps::follow_up(Query::TitleKnown, true) == seq![Step::Ask(Query::DelayMeasured)],
        steps::follow_up(Query::TitleKnown, false).len() == 0,
        steps::follow_up(Query::DelayMeasured, came_back) == seq![Step::Act(Action::ShowTooltip)],
{
}

/// Switching autostart needs its key, and without the key does nothing; the check mark is shown either
/// way.
pub proof fn law_switching_autostart(was_on: bool, enabled: bool)
    ensures
        steps::follow_up(Query::AutostartOn(AutostartUse::Toggle), was_on) == seq![
            Step::Ask(Query::OpenRunKey(!was_on)),
            Step::Act(Action::ShowAutostart(!was_on)),
        ],
        steps::follow_up(Query::OpenRunKey(enabled), false).len() == 0,
        steps::follow_up(Query::OpenRunKey(enabled), true) == steps::run_key_steps(enabled),
        steps::run_key_steps(true) == seq![Step::Ask(Query::ExeKnown)],
        steps::run_key_steps(false) == seq![Step::Act(Action::DeleteRunEntry)],
        steps::follow_up(Query::ExeKnown, true) == seq![
            Step::Act(Action::WriteRunEntry(TrayExe::Running)),
        ],
        steps::follow_up(Query::ExeKnown, false) == seq![
            Step::Act(Action::WriteRunEntry(TrayExe::Named)),
        ],
{
}

/// Switching the system proxy writes the switch, then the address where it is switched on, and then
/// tells WinInet twice; where the key is not open, nothing is done.
pub proof fn law_switching_the_proxy(enabled: bool)
    ensures
        steps::follow_up(Query::OpenProxyKey(enabled), false).len() == 0,
        steps::follow_up(Query::OpenProxyKey(enabled), true) == steps::proxy_writes(enabled),
        steps::proxy_writes(true) == seq![
            Step::Act(Action::WriteProxyEnable(1)),
            Step::Act(Action::WriteProxyServer),
            Step::Act(Action::NotifyWinInet(39)),
            Step::Act(Action::NotifyWinInet(37)),
        ],
        steps::proxy_writes(false) == seq![
            Step::Act(Action::WriteProxyEnable(0)),
            Step::Act(Action::NotifyWinInet(39)),
            Step::Act(Action::NotifyWinInet(37)),
        ],
{
}

} // verus!
