//! What holds of the tray as a whole.
use crate::application;
use crate::application::{ApplicationView, MouseButton, MouseButtonState, Reply, TrayEvent, UserEvent};
use crate::command::ServiceVerb;
use crate::core_api;
use crate::desktop;
use crate::desktop::{Desktop, Outcome};
use crate::icon;
use crate::menu;
use crate::menu::MenuEntry;
use crate::mode;
use crate::mode::IconMode;
use crate::paths;
use crate::paths::{Candidate, IconDir, TrayExe};
use crate::settings;
use crate::steps;
use crate::steps::{Action, AutostartUse, Errand, Failure, Purpose, Query, Step};
use vstd::prelude::*;

verus! {

// ---- launching and closing

/// Launching starts the first clashtui that is installed, and nothing where none is.
pub proof fn law_launch_starts_the_first_installed(desk: Desktop)
    ensures
        desktop::carry_out(steps::find_steps(Errand::Launch), desk) == (if desk.beside || desk.above {
            Outcome {
                done: seq![Action::StartClashtui(paths::first_present(desk.beside, desk.above))],
                desktop: Desktop { running: true, ..desk },
            }
        } else {
            Outcome { done: seq![], desktop: desk }
        }),
{
    let place: Candidate = paths::first_present(desk.beside, desk.above);
    desktop::lemma_ask(Query::IsBeside(Errand::Launch), desk);
    desktop::lemma_ask(Query::IsAbove(Errand::Launch), desk);
    desktop::lemma_ask(Query::IsPresent(place), desk);
    desktop::lemma_act(Action::StartClashtui(place), desk);
    desktop::lemma_nothing(desk);
}

/// A left click closes clashtui if it is running, else it launches it; a left double click does
/// the same.
pub proof fn law_click_toggles_clashtui(desk: Desktop)
    ensures
        application::tray_steps(TrayEvent::DoubleClick { button: MouseButton::Left })
            == application::tray_steps(
            TrayEvent::Click { button: MouseButton::Left, button_state: MouseButtonState::Up },
        ),
        desktop::carry_out(
            application::tray_steps(
                TrayEvent::Click { button: MouseButton::Left, button_state: MouseButtonState::Up },
            ),
            desk,
        ) == (if desk.running {
            Outcome {
                done: seq![Action::StopClashtui],
                desktop: Desktop { running: false, ..desk },
            }
        } else {
            desktop::carry_out(steps::find_steps(Errand::Launch), desk)
        }),
{
    desktop::lemma_ask(Query::IsRunning, desk);
    desktop::lemma_act(Action::StopClashtui, desk);
}

/// Where clashtui is installed, or is not running, two clicks leave the desktop as it was.
pub proof fn law_two_clicks_restore(desk: Desktop)
    requires
        desk.beside || desk.above || !desk.running,
    ensures
        ({
            let click = application::tray_steps(
                TrayEvent::Click { button: MouseButton::Left, button_state: MouseButtonState::Up },
            );
            desktop::carry_out(click + click, desk).desktop == desk
        }),
{
    let click = application::tray_steps(
        TrayEvent::Click { button: MouseButton::Left, button_state: MouseButtonState::Up },
    );
    let once: Desktop = desktop::carry_out(click, desk).desktop;
    desktop::lemma_chain(click, click, desk);
    law_click_toggles_clashtui(desk);
    law_launch_starts_the_first_installed(desk);
    law_click_toggles_clashtui(once);
    law_launch_starts_the_first_installed(once);
}

/// Only a left click that ends, a left double click, and coming over the icon lead to anything.
pub proof fn law_other_mouse_events_do_nothing(event: TrayEvent)
    ensures
        application::tray_steps(event).len() > 0 <==> (event == (TrayEvent::Click {
            button: MouseButton::Left,
            button_state: MouseButtonState::Up,
        }) || event == (TrayEvent::DoubleClick { button: MouseButton::Left }) || event
            == TrayEvent::Enter),
{
}

// ---- the service of the core

/// Stopping the core and leaving has the clashtui that is found stop the core, and then leaves;
/// leaving alone does nothing else.
pub proof fn law_ways_out(desk: Desktop)
    ensures
        desktop::carry_out(application::menu_steps(MenuEntry::CloseProxy), desk) == (Outcome {
            done: seq![
                Action::RunService(
                    paths::first_present(desk.beside, desk.above),
                    ServiceVerb::Stop,
                ),
                Action::Exit,
            ],
            desktop: desk,
        }),
        desktop::carry_out(application::menu_steps(MenuEntry::Exit), desk) == (Outcome {
            done: seq![Action::Exit],
            desktop: desk,
        }),
{
    let find: Seq<Step> = steps::find_steps(Errand::Service(ServiceVerb::Stop));
    let leave: Seq<Step> = seq![Step::Act(Action::Exit)];
    law_service_runs_once(desk, ServiceVerb::Stop);
    desktop::lemma_act(Action::Exit, desk);
    desktop::lemma_chain(find, leave, desk);
    assert(desktop::carry_out(find + leave, desk).done =~= seq![
        Action::RunService(paths::first_present(desk.beside, desk.above), ServiceVerb::Stop),
        Action::Exit,
    ]);
}

/// A service command goes to the first clashtui that is installed, or to the place beside the tray.
pub proof fn law_service_runs_once(desk: Desktop, verb: ServiceVerb)
    ensures
        desktop::carry_out(steps::find_steps(Errand::Service(verb)), desk) == (Outcome {
            done: seq![
                Action::RunService(paths::first_present(desk.beside, desk.above), verb),
            ],
            desktop: desk,
        }),
{
    let errand: Errand = Errand::Service(verb);
    desktop::lemma_ask(Query::IsBeside(errand), desk);
    desktop::lemma_ask(Query::IsAbove(errand), desk);
    desktop::lemma_act(
        Action::RunService(paths::first_present(desk.beside, desk.above), verb),
        desk,
    );
}

// ---- the modes

/// Exactly one of the three mode entries is checked, and which one tells the mode.
pub proof fn law_one_mode_is_checked(mode: IconMode)
    ensures
        ({
            let checks = mode::checks_of(mode);
            &&& checks.tun || checks.sysproxy || checks.normal
            &&& !(checks.tun && checks.sysproxy)
            &&& !(checks.tun && checks.normal)
            &&& !(checks.sysproxy && checks.normal)
            &&& forall|other: IconMode| #[trigger] mode::checks_of(other) == checks ==> other == mode
        }),
{
}

/// The mode that is in force on a desktop.
pub open spec fn mode_on(desk: Desktop) -> IconMode {
    mode::mode_of(desk.core_up && desk.tun, desk.proxy_on())
}

/// What switching the system proxy leaves on a desktop: where its settings can be written, it is on
/// and leads to the core, or it is off and its address stays.
pub open spec fn proxy_switched(enabled: bool, desk: Desktop) -> Desktop {
    if desk.proxy_key {
        Desktop {
            proxy_enabled: enabled,
            proxy_server: if enabled {
                Some(settings::CORE_PROXY@)
            } else {
                desk.proxy_server
            },
            ..desk
        }
    } else {
        desk
    }
}

/// What is done to switch the system proxy.
pub open spec fn proxy_actions(enabled: bool, desk: Desktop) -> Seq<Action> {
    if !desk.proxy_key {
        seq![]
    } else if enabled {
        seq![
            Action::WriteProxyEnable(1),
            Action::WriteProxyServer,
            Action::NotifyWinInet(steps::INTERNET_OPTION_SETTINGS_CHANGED),
            Action::NotifyWinInet(steps::INTERNET_OPTION_REFRESH),
        ]
    } else {
        seq![
            Action::WriteProxyEnable(0),
            Action::NotifyWinInet(steps::INTERNET_OPTION_SETTINGS_CHANGED),
            Action::NotifyWinInet(steps::INTERNET_OPTION_REFRESH),
        ]
    }
}

/// Switching the system proxy on has it on and leading to the core, switching it off has it off,
/// and WinInet is told; where its settings cannot be written, nothing is done.
pub proof fn law_proxy_is_switched(enabled: bool, desk: Desktop)
    ensures
        desktop::carry_out(seq![Step::Ask(Query::OpenProxyKey(enabled))], desk) == (Outcome {
            done: proxy_actions(enabled, desk),
            desktop: proxy_switched(enabled, desk),
        }),
{
    desktop::lemma_ask(Query::OpenProxyKey(enabled), desk);
    if !desk.proxy_key {
        desktop::lemma_nothing(desk);
    } else if enabled {
        lemma_proxy_writes_on(desk);
    } else {
        lemma_proxy_writes_off(desk);
    }
}

proof fn lemma_proxy_notices(desk: Desktop)
    ensures
        desktop::carry_out(
            seq![
                Step::Act(Action::NotifyWinInet(steps::INTERNET_OPTION_SETTINGS_CHANGED)),
                Step::Act(Action::NotifyWinInet(steps::INTERNET_OPTION_REFRESH)),
            ],
            desk,
        ) == (Outcome {
            done: seq![
                Action::NotifyWinInet(steps::INTERNET_OPTION_SETTINGS_CHANGED),
                Action::NotifyWinInet(steps::INTERNET_OPTION_REFRESH),
            ],
            desktop: desk,
        }),
{
    let changed: Action = Action::NotifyWinInet(steps::INTERNET_OPTION_SETTINGS_CHANGED);
    let refresh: Action = Action::NotifyWinInet(steps::INTERNET_OPTION_REFRESH);
    let last: Seq<Step> = seq![Step::Act(refresh)];
    assert(seq![Step::Act(changed), Step::Act(refresh)] =~= seq![Step::Act(changed)] + last);
    desktop::lemma_act_first(changed, last, desk);
    desktop::lemma_act(refresh, desk);
    assert(seq![changed] + seq![refresh] =~= seq![changed, refresh]);
}

proof fn lemma_proxy_writes_on(desk: Desktop)
    requires
        desk.proxy_key,
    ensures
        desktop::carry_out(steps::proxy_writes(true), desk) == (Outcome {
            done: proxy_actions(true, desk),
            desktop: proxy_switched(true, desk),
        }),
{
    let writes: Seq<Step> = steps::proxy_writes(true);
    let notices: Seq<Step> = seq![writes[2], writes[3]];
    let server: Seq<Step> = seq![Step::Act(Action::WriteProxyServer)] + notices;
    let enabled: Desktop = desk.after_action(Action::WriteProxyEnable(1));
    assert(enabled.after_action(Action::WriteProxyServer) == proxy_switched(true, desk));
    assert(writes =~= seq![Step::Act(Action::WriteProxyEnable(1))] + server);
    desktop::lemma_act_first(Action::WriteProxyEnable(1), server, desk);
    desktop::lemma_act_first(Action::WriteProxyServer, notices, enabled);
    lemma_proxy_notices(proxy_switched(true, desk));
    assert(desktop::carry_out(writes, desk).done =~= proxy_actions(true, desk));
}

proof fn lemma_proxy_writes_off(desk: Desktop)
    requires
        desk.proxy_key,
    ensures
        desktop::carry_out(steps::proxy_writes(false), desk) == (Outcome {
            done: proxy_actions(false, desk),
            desktop: proxy_switched(false, desk),
        }),
{
    let writes: Seq<Step> = steps::proxy_writes(false);
    let notices: Seq<Step> = seq![writes[1], writes[2]];
    assert(desk.after_action(Action::WriteProxyEnable(0)) == proxy_switched(false, desk));
    assert(writes =~= seq![Step::Act(Action::WriteProxyEnable(0))] + notices);
    desktop::lemma_act_first(Action::WriteProxyEnable(0), notices, desk);
    lemma_proxy_notices(proxy_switched(false, desk));
    assert(desktop::carry_out(writes, desk).done =~= proxy_actions(false, desk));
}

/// What applying a mode leaves on a desktop.
pub open spec fn with_mode(desk: Desktop, mode: IconMode) -> Desktop {
    Desktop {
        tun: if desk.core_up {
            mode == IconMode::Tun
        } else {
            desk.tun
        },
        ..proxy_switched(mode == IconMode::SystemProxy, desk)
    }
}

/// What is done to apply a mode: what is switched off goes first.
pub open spec fn applied_actions(mode: IconMode, desk: Desktop) -> Seq<Action> {
    match mode {
        IconMode::Tun => proxy_actions(false, desk) + seq![Action::PatchTun(true)],
        IconMode::SystemProxy => seq![Action::PatchTun(false)] + proxy_actions(true, desk),
        IconMode::Normal => seq![Action::PatchTun(false)] + proxy_actions(false, desk),
    }
}

/// Whether a desktop can go over to `mode`: TUN needs the core, and the two others need the system
/// proxy to be as it should or its settings to be writable.
pub open spec fn can_take(desk: Desktop, mode: IconMode) -> bool {
    match mode {
        IconMode::Tun => desk.core_up,
        IconMode::SystemProxy => desk.proxy_key || desk.proxy_on(),
        IconMode::Normal => desk.proxy_key || !desk.proxy_on(),
    }
}

/// Applying a mode turns on what the mode stands for and turns off the rest, as far as the core
/// answers and the proxy settings can be written; besides, it changes nothing but the address of
/// the system proxy, when that is switched on. The desktop is then in that mode just where it can
/// take it.
pub proof fn law_applied_mode_is_detected(mode: IconMode, desk: Desktop)
    ensures
        desktop::carry_out(steps::apply_steps(mode), desk) == (Outcome {
            done: applied_actions(mode, desk),
            desktop: with_mode(desk, mode),
        }),
        mode_on(with_mode(desk, mode)) == mode <==> can_take(desk, mode),
{
    match mode {
        IconMode::Tun => {
            lemma_tun_after_proxy_off(desk);
        },
        IconMode::SystemProxy => {
            lemma_proxy_after_tun_off(true, desk);
        },
        IconMode::Normal => {
            lemma_proxy_after_tun_off(false, desk);
        },
    }
    lemma_taken(mode, desk);
}

proof fn lemma_taken(mode: IconMode, desk: Desktop)
    ensures
        mode_on(with_mode(desk, mode)) == mode <==> can_take(desk, mode),
{
}

proof fn lemma_tun_after_proxy_off(desk: Desktop)
    ensures
        desktop::carry_out(steps::apply_steps(IconMode::Tun), desk) == (Outcome {
            done: applied_actions(IconMode::Tun, desk),
            desktop: with_mode(desk, IconMode::Tun),
        }),
{
    let off: Seq<Step> = seq![Step::Ask(Query::OpenProxyKey(false))];
    let on: Seq<Step> = seq![Step::Act(Action::PatchTun(true))];
    let between: Desktop = proxy_switched(false, desk);
    assert(steps::apply_steps(IconMode::Tun) =~= off + on);
    desktop::lemma_chain(off, on, desk);
    law_proxy_is_switched(false, desk);
    desktop::lemma_act(Action::PatchTun(true), between);
    assert(between.after_action(Action::PatchTun(true)) == with_mode(desk, IconMode::Tun));
}

proof fn lemma_proxy_after_tun_off(proxy: bool, desk: Desktop)
    ensures
        ({
            let mode = mode::mode_of(false, proxy);
            desktop::carry_out(steps::apply_steps(mode), desk) == (Outcome {
                done: applied_actions(mode, desk),
                desktop: with_mode(desk, mode),
            })
        }),
{
    let off: Seq<Step> = seq![Step::Act(Action::PatchTun(false))];
    let switch: Seq<Step> = seq![Step::Ask(Query::OpenProxyKey(proxy))];
    let mode: IconMode = mode::mode_of(false, proxy);
    let between: Desktop = desk.after_action(Action::PatchTun(false));
    lemma_tun_off_first(proxy);
    lemma_mode_without_tun(proxy, desk);
    desktop::lemma_act_first(Action::PatchTun(false), switch, desk);
    law_proxy_is_switched(proxy, between);
}

proof fn lemma_tun_off_first(proxy: bool)
    ensures
        steps::apply_steps(mode::mode_of(false, proxy)) == seq![
            Step::Act(Action::PatchTun(false)),
        ] + seq![Step::Ask(Query::OpenProxyKey(proxy))],
{
    let off: Seq<Step> = seq![Step::Act(Action::PatchTun(false))];
    let switch: Seq<Step> = seq![Step::Ask(Query::OpenProxyKey(proxy))];
    if proxy {
        assert(steps::apply_steps(IconMode::SystemProxy) =~= off + switch);
    } else {
        assert(steps::apply_steps(IconMode::Normal) =~= off + switch);
    }
}

proof fn lemma_mode_without_tun(proxy: bool, desk: Desktop)
    ensures
        ({
            let between = desk.after_action(Action::PatchTun(false));
            let mode = mode::mode_of(false, proxy);
            &&& with_mode(desk, mode) == proxy_switched(proxy, between)
            &&& applied_actions(mode, desk) == seq![Action::PatchTun(false)] + proxy_actions(
                proxy,
                between,
            )
        }),
{
}

/// Whether applying `mode` can switch off what must be off before the mode is switched on.
pub open spec fn can_give_up(desk: Desktop, mode: IconMode) -> bool {
    match mode {
        IconMode::Tun => desk.proxy_key || !desk.proxy_on() || !desk.core_up,
        IconMode::SystemProxy => desk.core_up || !desk.tun || !desk.proxy_key,
        IconMode::Normal => true,
    }
}

/// Applying a mode never has TUN on while the system proxy leads to the core, unless that was so to
/// begin with, or the one that is on cannot be switched off while the other can be switched on.
pub proof fn law_tun_and_proxy_never_meet(mode: IconMode, desk: Desktop)
    requires
        can_give_up(desk, mode),
        !(desk.tun && desk.proxy_on()),
    ensures
        desktop::holds_throughout(
            steps::apply_steps(mode),
            desk,
            |d: Desktop| !(d.tun && d.proxy_on()),
        ),
{
    let good = |d: Desktop| !(d.tun && d.proxy_on());
    match mode {
        IconMode::Tun => {
            lemma_throughout_tun(desk, good);
        },
        IconMode::SystemProxy => {
            lemma_throughout_tun_off(true, desk, good);
        },
        IconMode::Normal => {
            lemma_throughout_tun_off(false, desk, good);
        },
    }
}

/// Whether applying `mode` can switch off TUN, or the system proxy wherever it leads, before the
/// other is switched on.
pub open spec fn can_clear(desk: Desktop, mode: IconMode) -> bool {
    match mode {
        IconMode::Tun => desk.proxy_key || !desk.proxy_enabled || !desk.core_up,
        IconMode::SystemProxy => desk.core_up || !desk.tun || !desk.proxy_key,
        IconMode::Normal => true,
    }
}

/// Applying a mode never has TUN on while the system proxy is on, wherever it leads, unless that was
/// so to begin with, or the one that is on cannot be switched off while the other can be switched
/// on. Where the core answers and the proxy settings can be written, that is never the case.
pub proof fn law_tun_and_any_proxy_never_meet(mode: IconMode, desk: Desktop)
    requires
        can_clear(desk, mode),
        !(desk.tun && desk.proxy_enabled),
    ensures
        desktop::holds_throughout(
            steps::apply_steps(mode),
            desk,
            |d: Desktop| !(d.tun && d.proxy_enabled),
        ),
{
    let good = |d: Desktop| !(d.tun && d.proxy_enabled);
    match mode {
        IconMode::Tun => {
            lemma_throughout_tun(desk, good);
        },
        IconMode::SystemProxy => {
            lemma_throughout_tun_off(true, desk, good);
        },
        IconMode::Normal => {
            lemma_throughout_tun_off(false, desk, good);
        },
    }
}

proof fn lemma_throughout_tun(desk: Desktop, good: spec_fn(Desktop) -> bool)
    requires
        good(desk),
        desk.proxy_key ==> good(Desktop { proxy_enabled: false, ..desk }),
        good(proxy_switched(false, desk)),
        good(proxy_switched(false, desk).after_action(Action::PatchTun(true))),
    ensures
        desktop::holds_throughout(steps::apply_steps(IconMode::Tun), desk, good),
{
    let on: Seq<Step> = seq![Step::Act(Action::PatchTun(true))];
    let off: Desktop = proxy_switched(false, desk);
    assert(steps::apply_steps(IconMode::Tun) =~= seq![Step::Ask(Query::OpenProxyKey(false))] + on);
    desktop::lemma_throughout_nothing(off.after_action(Action::PatchTun(true)), good);
    assert(on =~= on + seq![]);
    desktop::lemma_throughout_act(Action::PatchTun(true), seq![], off, good);
    lemma_proxy_switched_throughout(false, on, desk, good);
}

proof fn lemma_throughout_tun_off(proxy: bool, desk: Desktop, good: spec_fn(Desktop) -> bool)
    requires
        good(desk),
        ({
            let between = desk.after_action(Action::PatchTun(false));
            &&& good(between)
            &&& between.proxy_key ==> good(Desktop { proxy_enabled: proxy, ..between })
            &&& good(proxy_switched(proxy, between))
        }),
    ensures
        desktop::holds_throughout(steps::apply_steps(mode::mode_of(false, proxy)), desk, good),
{
    let switch: Seq<Step> = seq![Step::Ask(Query::OpenProxyKey(proxy))];
    let between: Desktop = desk.after_action(Action::PatchTun(false));
    lemma_tun_off_first(proxy);
    desktop::lemma_throughout_nothing(proxy_switched(proxy, between), good);
    lemma_proxy_switched_throughout(proxy, seq![], between, good);
    assert(switch =~= switch + seq![]);
    desktop::lemma_throughout_act(Action::PatchTun(false), switch, desk, good);
}

proof fn lemma_proxy_switched_throughout(
    enabled: bool,
    rest: Seq<Step>,
    desk: Desktop,
    good: spec_fn(Desktop) -> bool,
)
    requires
        good(desk),
        desk.proxy_key ==> good(Desktop { proxy_enabled: enabled, ..desk }),
        good(proxy_switched(enabled, desk)),
        desktop::holds_throughout(rest, proxy_switched(enabled, desk), good),
    ensures
        desktop::holds_throughout(
            seq![Step::Ask(Query::OpenProxyKey(enabled))] + rest,
            desk,
            good,
        ),
{
    desktop::lemma_throughout_ask(Query::OpenProxyKey(enabled), rest, desk, good);
    if desk.proxy_key {
        lemma_proxy_writes_throughout(enabled, rest, desk, good);
    } else {
        assert(steps::follow_up(Query::OpenProxyKey(enabled), false) + rest =~= rest);
    }
}

proof fn lemma_proxy_writes_throughout(
    enabled: bool,
    rest: Seq<Step>,
    desk: Desktop,
    good: spec_fn(Desktop) -> bool,
)
    requires
        desk.proxy_key,
        good(desk),
        good(Desktop { proxy_enabled: enabled, ..desk }),
        good(proxy_switched(enabled, desk)),
        desktop::holds_throughout(rest, proxy_switched(enabled, desk), good),
    ensures
        desktop::holds_throughout(steps::proxy_writes(enabled) + rest, desk, good),
{
    let changed: Action = Action::NotifyWinInet(steps::INTERNET_OPTION_SETTINGS_CHANGED);
    let refresh: Action = Action::NotifyWinInet(steps::INTERNET_OPTION_REFRESH);
    let notices: Seq<Step> = seq![Step::Act(changed)] + (seq![Step::Act(refresh)] + rest);
    lemma_proxy_notices_throughout(rest, proxy_switched(enabled, desk), good);
    if enabled {
        let server: Seq<Step> = seq![Step::Act(Action::WriteProxyServer)] + notices;
        lemma_proxy_led_to_core(desk);
        desktop::lemma_throughout_act(
            Action::WriteProxyServer,
            notices,
            desk.after_action(Action::WriteProxyEnable(1)),
            good,
        );
        desktop::lemma_throughout_act(Action::WriteProxyEnable(1), server, desk, good);
        assert(steps::proxy_writes(enabled) + rest =~= seq![
            Step::Act(Action::WriteProxyEnable(1)),
        ] + server);
    } else {
        lemma_proxy_put_off(desk);
        desktop::lemma_throughout_act(Action::WriteProxyEnable(0), notices, desk, good);
        assert(steps::proxy_writes(enabled) + rest =~= seq![
            Step::Act(Action::WriteProxyEnable(0)),
        ] + notices);
    }
}

proof fn lemma_proxy_led_to_core(desk: Desktop)
    requires
        desk.proxy_key,
    ensures
        desk.after_action(Action::WriteProxyEnable(1)) == (Desktop { proxy_enabled: true, ..desk }),
        desk.after_action(Action::WriteProxyEnable(1)).after_action(Action::WriteProxyServer)
            == proxy_switched(true, desk),
{
}

proof fn lemma_proxy_put_off(desk: Desktop)
    requires
        desk.proxy_key,
    ensures
        desk.after_action(Action::WriteProxyEnable(0)) == proxy_switched(false, desk),
{
}

proof fn lemma_proxy_notices_throughout(
    rest: Seq<Step>,
    desk: Desktop,
    good: spec_fn(Desktop) -> bool,
)
    requires
        good(desk),
        desktop::holds_throughout(rest, desk, good),
    ensures
        desktop::holds_throughout(
            seq![Step::Act(Action::NotifyWinInet(steps::INTERNET_OPTION_SETTINGS_CHANGED))] + (seq![
                Step::Act(Action::NotifyWinInet(steps::INTERNET_OPTION_REFRESH)),
            ] + rest),
            desk,
            good,
        ),
{
    let changed: Action = Action::NotifyWinInet(steps::INTERNET_OPTION_SETTINGS_CHANGED);
    let refresh: Action = Action::NotifyWinInet(steps::INTERNET_OPTION_REFRESH);
    desktop::lemma_throughout_act(refresh, rest, desk, good);
    desktop::lemma_throughout_act(changed, seq![Step::Act(refresh)] + rest, desk, good);
}

// ---- the icon

/// What looking for the picture of `mode` comes to: an icon of the first picture that can be used,
/// else of the plain square, and with it a tray icon; where one of these cannot be made, the tray
/// gives up.
pub open spec fn icon_outcome(mode: IconMode, desk: Desktop) -> Outcome {
    let found = desk.first_picture(mode);
    if found is None && !desk.square {
        Outcome { done: seq![Action::Fail(Failure::Icon)], desktop: desk }
    } else {
        tray_outcome(mode, Desktop { made_of: found, ..desk })
    }
}

/// The tooltip of a new icon for `mode`: the name that the core gives the mode and the delay, or the
/// tooltip of the mode, where the core gives no name.
pub open spec fn new_tooltip(mode: IconMode, desk: Desktop) -> Seq<char> {
    match desk.title {
        Some(name) => name + " "@ + core_api::delay_text_of(desk.delay),
        None => mode::mode_tooltip_of(mode),
    }
}

/// What is done to bring the tooltip up to date.
pub open spec fn tooltip_actions(desk: Desktop) -> Seq<Action> {
    if desk.title is Some {
        seq![Action::ShowTooltip]
    } else {
        seq![]
    }
}

/// What building a tray icon for `mode` comes to.
pub open spec fn tray_outcome(mode: IconMode, desk: Desktop) -> Outcome {
    if desk.tray {
        Outcome {
            done: tooltip_actions(desk),
            desktop: Desktop { icon: Some(mode), tooltip: new_tooltip(mode, desk), ..desk },
        }
    } else {
        Outcome { done: seq![Action::Fail(Failure::TrayIcon)], desktop: desk }
    }
}

proof fn lemma_tray_built(mode: IconMode, desk: Desktop)
    ensures
        desktop::carry_out(seq![Step::Ask(Query::TrayBuilds(mode))], desk) == tray_outcome(
            mode,
            desk,
        ),
{
    desktop::lemma_ask(Query::TrayBuilds(mode), desk);
    if desk.tray {
        lemma_tooltip_refreshed(desk.after_question(Query::TrayBuilds(mode)));
    } else {
        desktop::lemma_act(Action::Fail(Failure::TrayIcon), desk);
    }
}

/// A desktop whose tooltip is up to date.
pub open spec fn tooltip_refreshed(desk: Desktop) -> Desktop {
    desk.after_action(Action::ShowTooltip)
}

proof fn lemma_tooltip_refreshed(desk: Desktop)
    ensures
        desktop::carry_out(seq![Step::Ask(Query::TitleKnown)], desk) == (Outcome {
            done: tooltip_actions(desk),
            desktop: tooltip_refreshed(desk),
        }),
{
    desktop::lemma_ask(Query::TitleKnown, desk);
    if desk.title is Some {
        desktop::lemma_ask(Query::DelayMeasured, desk);
        desktop::lemma_act(Action::ShowTooltip, desk);
    } else {
        desktop::lemma_nothing(desk);
    }
}

proof fn lemma_icon_read(mode: IconMode, dir: IconDir, desk: Desktop)
    ensures
        desktop::carry_out(seq![Step::Ask(Query::IconReads(mode, dir))], desk) == (
        if desk.readable.contains((mode, dir)) && desk.usable.contains((mode, dir)) {
            tray_outcome(mode, Desktop { made_of: Some(dir), ..desk })
        } else {
            desktop::carry_out(steps::icon_steps_after(mode, dir), desk)
        }),
{
    desktop::lemma_ask(Query::IconReads(mode, dir), desk);
    desktop::lemma_ask(Query::IconMakes(mode, Some(dir)), desk);
    lemma_tray_built(mode, Desktop { made_of: Some(dir), ..desk });
}

proof fn lemma_icon_tried(mode: IconMode, dir: IconDir, desk: Desktop)
    requires
        dir != IconDir::Embedded,
    ensures
        desktop::carry_out(seq![Step::Ask(Query::IconExists(mode, dir))], desk) == (
        if desk.can_use(mode, dir) {
            tray_outcome(mode, Desktop { made_of: Some(dir), ..desk })
        } else {
            desktop::carry_out(steps::icon_steps_after(mode, dir), desk)
        }),
{
    desktop::lemma_ask(Query::IconExists(mode, dir), desk);
    lemma_icon_read(mode, dir, desk);
}

/// The picture of a mode is looked for place by place, in the executable at last, and the plain
/// square stands in for one that cannot be used.
pub proof fn law_first_usable_picture_is_shown(mode: IconMode, desk: Desktop)
    ensures
        desktop::carry_out(seq![Step::Ask(Query::IconExists(mode, IconDir::Assets))], desk)
            == icon_outcome(mode, desk),
{
    lemma_icon_tried(mode, IconDir::Assets, desk);
    lemma_icon_after_assets(mode, desk);
    if desk.can_use(mode, IconDir::Assets) {
        assert(desk.first_picture(mode) == Some(IconDir::Assets));
    }
}

/// No files are needed: where none lies on the disk, the picture in the executable is shown.
pub proof fn law_embedded_picture_needs_no_files(mode: IconMode, desk: Desktop)
    requires
        desk.pictures == Set::<(IconMode, IconDir)>::empty(),
        desk.readable.contains((mode, IconDir::Embedded)),
        desk.usable.contains((mode, IconDir::Embedded)),
        desk.tray,
    ensures
        desk.first_picture(mode) == Some(IconDir::Embedded),
        ({
            let after = desktop::carry_out(
                seq![Step::Ask(Query::IconExists(mode, IconDir::Assets))],
                desk,
            ).desktop;
            after.made_of == Some(IconDir::Embedded) && after.icon == Some(mode)
        }),
{
    law_first_usable_picture_is_shown(mode, desk);
}

proof fn lemma_icon_after_assets(mode: IconMode, desk: Desktop)
    ensures
        !desk.can_use(mode, IconDir::Assets) ==> desktop::carry_out(
            steps::icon_steps_after(mode, IconDir::Assets),
            desk,
        ) == icon_outcome(mode, desk),
{
    lemma_icon_tried(mode, IconDir::Beside, desk);
    lemma_icon_after_beside(mode, desk);
    assert(steps::icon_steps_after(mode, IconDir::Assets) == seq![
        Step::Ask(Query::IconExists(mode, IconDir::Beside)),
    ]);
    if !desk.can_use(mode, IconDir::Assets) && desk.can_use(mode, IconDir::Beside) {
        assert(desk.first_picture(mode) == Some(IconDir::Beside));
    }
}

proof fn lemma_icon_after_beside(mode: IconMode, desk: Desktop)
    ensures
        !desk.can_use(mode, IconDir::Assets) && !desk.can_use(mode, IconDir::Beside)
            ==> desktop::carry_out(steps::icon_steps_after(mode, IconDir::Beside), desk)
            == icon_outcome(mode, desk),
{
    lemma_icon_tried(mode, IconDir::Source, desk);
    lemma_icon_after_source(mode, desk);
    assert(steps::icon_steps_after(mode, IconDir::Beside) == seq![
        Step::Ask(Query::IconExists(mode, IconDir::Source)),
    ]);
    if !desk.can_use(mode, IconDir::Assets) && !desk.can_use(mode, IconDir::Beside)
        && desk.can_use(mode, IconDir::Source) {
        assert(desk.first_picture(mode) == Some(IconDir::Source));
    }
}

proof fn lemma_icon_after_source(mode: IconMode, desk: Desktop)
    ensures
        !desk.can_use(mode, IconDir::Assets) && !desk.can_use(mode, IconDir::Beside)
            && !desk.can_use(mode, IconDir::Source) ==> desktop::carry_out(
            steps::icon_steps_after(mode, IconDir::Source),
            desk,
        ) == icon_outcome(mode, desk),
{
    lemma_icon_read(mode, IconDir::Embedded, desk);
    lemma_square_tried(mode, desk);
    assert(steps::icon_steps_after(mode, IconDir::Source) == seq![
        Step::Ask(Query::IconReads(mode, IconDir::Embedded)),
    ]);
    assert(steps::icon_steps_after(mode, IconDir::Embedded) == seq![
        Step::Ask(Query::IconMakes(mode, None)),
    ]);
}

proof fn lemma_square_tried(mode: IconMode, desk: Desktop)
    ensures
        desktop::carry_out(seq![Step::Ask(Query::IconMakes(mode, None))], desk) == (
        if desk.square {
            tray_outcome(mode, Desktop { made_of: None, ..desk })
        } else {
            Outcome { done: seq![Action::Fail(Failure::Icon)], desktop: desk }
        }),
{
    desktop::lemma_ask(Query::IconMakes(mode, None), desk);
    if desk.square {
        lemma_tray_built(mode, Desktop { made_of: None, ..desk });
    } else {
        desktop::lemma_act(Action::Fail(Failure::Icon), desk);
    }
}

/// What building the tray icon comes to: the mode in force is shown in the check marks and in the
/// icon.
pub open spec fn rebuild_outcome(desk: Desktop) -> Outcome {
    let mode = mode_on(desk);
    let shown = Desktop { shown: mode, ..desk };
    (Outcome { done: seq![Action::ShowMode(mode)], desktop: shown }).and_so(
        icon_outcome(mode, shown),
    )
}

/// Building the tray icon shows the mode in force, in the check marks and in the icon.
pub proof fn law_tray_shows_the_mode_of_the_desktop(desk: Desktop)
    ensures
        desktop::carry_out(steps::rebuild_steps(), desk) == rebuild_outcome(desk),
{
    let mode: IconMode = mode_on(desk);
    lemma_mode_looked_up(Purpose::Rebuild, desk);
    let search: Seq<Step> = seq![Step::Ask(Query::IconExists(mode, IconDir::Assets))];
    let show: Seq<Step> = seq![Step::Act(Action::ShowMode(mode))];
    assert(steps::detected_steps(Purpose::Rebuild, mode) =~= show + search);
    desktop::lemma_chain(show, search, desk);
    desktop::lemma_act(Action::ShowMode(mode), desk);
    law_first_usable_picture_is_shown(mode, Desktop { shown: mode, ..desk });
}

proof fn lemma_mode_looked_up(purpose: Purpose, desk: Desktop)
    ensures
        desktop::carry_out(seq![Step::Ask(Query::TunOn(purpose))], desk) == desktop::carry_out(
            steps::detected_steps(purpose, mode_on(desk)),
            desk,
        ),
{
    desktop::lemma_ask(Query::TunOn(purpose), desk);
    desktop::lemma_ask(Query::ProxyOn(purpose), desk);
}

/// Whether a tray icon can be built for `mode`.
pub open spec fn can_show(desk: Desktop, mode: IconMode) -> bool {
    desk.tray && (desk.square || desk.first_picture(mode) is Some)
}

/// Going over to a mode applies it, shows its check mark, and builds the tray icon for the mode that
/// is then in force.
pub proof fn law_switching_ends_with_a_new_icon(mode: IconMode, desk: Desktop)
    ensures
        desktop::carry_out(steps::switch_steps(mode), desk) == (Outcome {
            done: applied_actions(mode, desk) + seq![Action::ShowMode(mode)],
            desktop: Desktop { shown: mode, ..with_mode(desk, mode) },
        }).and_so(rebuild_outcome(Desktop { shown: mode, ..with_mode(desk, mode) })),
{
    let apply: Seq<Step> = steps::apply_steps(mode);
    let show: Seq<Step> = seq![Step::Act(Action::ShowMode(mode))];
    law_applied_mode_is_detected(mode, desk);
    desktop::lemma_act(Action::ShowMode(mode), with_mode(desk, mode));
    desktop::lemma_chain(apply, show, desk);
    desktop::lemma_chain(apply + show, steps::rebuild_steps(), desk);
    law_tray_shows_the_mode_of_the_desktop(Desktop { shown: mode, ..with_mode(desk, mode) });
}

/// What is done to go over to `mode`, where that can be done: it is applied and shown, and the
/// tooltip is brought up to date.
pub open spec fn switch_actions(mode: IconMode, desk: Desktop) -> Seq<Action> {
    applied_actions(mode, desk) + seq![Action::ShowMode(mode), Action::ShowMode(mode)]
        + tooltip_actions(desk)
}

/// What a desktop is like once it has gone over to `mode`.
pub open spec fn gone_over(desk: Desktop, mode: IconMode) -> Desktop {
    Desktop {
        shown: mode,
        made_of: desk.first_picture(mode),
        icon: Some(mode),
        tooltip: new_tooltip(mode, desk),
        ..with_mode(desk, mode)
    }
}

/// Going over to a mode that the desktop can take, and for which a tray icon can be built, ends in
/// that mode, with its own check mark, icon and tooltip shown; nothing is done but to apply and to
/// show it.
pub proof fn law_chosen_mode_takes_hold(mode: IconMode, desk: Desktop)
    requires
        can_take(desk, mode),
        can_show(desk, mode),
    ensures
        desktop::carry_out(steps::switch_steps(mode), desk) == (Outcome {
            done: switch_actions(mode, desk),
            desktop: gone_over(desk, mode),
        }),
        mode_on(gone_over(desk, mode)) == mode,
{
    let shown: Desktop = Desktop { shown: mode, ..with_mode(desk, mode) };
    law_switching_ends_with_a_new_icon(mode, desk);
    lemma_can_show_still(mode, desk);
    lemma_icon_rebuilt(shown);
    lemma_gone_over(mode, desk);
    assert((applied_actions(mode, desk) + seq![Action::ShowMode(mode)]) + (seq![
        Action::ShowMode(mode),
    ] + tooltip_actions(desk)) =~= switch_actions(mode, desk));
}

proof fn lemma_can_show_still(mode: IconMode, desk: Desktop)
    ensures
        ({
            let shown = Desktop { shown: mode, ..with_mode(desk, mode) };
            &&& can_show(shown, mode) == can_show(desk, mode)
            &&& shown.first_picture(mode) == desk.first_picture(mode)
            &&& mode_on(shown) == mode_on(with_mode(desk, mode))
            &&& new_tooltip(mode, shown) == new_tooltip(mode, desk)
            &&& tooltip_actions(shown) == tooltip_actions(desk)
        }),
        can_take(desk, mode) ==> mode_on(with_mode(desk, mode)) == mode,
{
    let applied: Desktop = with_mode(desk, mode);
    let shown: Desktop = Desktop { shown: mode, ..applied };
    lemma_taken(mode, desk);
    lemma_same_pictures(mode, desk, applied);
    lemma_same_pictures(mode, applied, shown);
}

proof fn lemma_same_pictures(mode: IconMode, a: Desktop, b: Desktop)
    requires
        a.pictures == b.pictures,
        a.readable == b.readable,
        a.usable == b.usable,
        a.square == b.square,
        a.tray == b.tray,
    ensures
        a.first_picture(mode) == b.first_picture(mode),
        can_show(a, mode) == can_show(b, mode),
{
    assert(forall|dir: IconDir| #[trigger] a.can_use(mode, dir) == b.can_use(mode, dir));
}

proof fn lemma_gone_over(mode: IconMode, desk: Desktop)
    ensures
        gone_over(desk, mode) == (Desktop {
            made_of: desk.first_picture(mode),
            icon: Some(mode),
            tooltip: new_tooltip(mode, desk),
            ..(Desktop { shown: mode, ..with_mode(desk, mode) })
        }),
        mode_on(gone_over(desk, mode)) == mode_on(with_mode(desk, mode)),
{
}

proof fn lemma_icon_rebuilt(desk: Desktop)
    requires
        can_show(desk, mode_on(desk)),
        desk.shown == mode_on(desk),
    ensures
        rebuild_outcome(desk) == (Outcome {
            done: seq![Action::ShowMode(mode_on(desk))] + tooltip_actions(desk),
            desktop: Desktop {
                made_of: desk.first_picture(mode_on(desk)),
                icon: Some(mode_on(desk)),
                tooltip: new_tooltip(mode_on(desk), desk),
                ..desk
            },
        }),
{
    assert((Desktop { shown: mode_on(desk), ..desk }) == desk);
}

/// The entry of a mode.
pub open spec fn mode_entry(mode: IconMode) -> MenuEntry {
    match mode {
        IconMode::Tun => MenuEntry::Tun,
        IconMode::SystemProxy => MenuEntry::SystemProxy,
        IconMode::Normal => MenuEntry::Normal,
    }
}

/// Choosing the entry of a mode goes by the mode in force when it is chosen, whatever the check
/// marks show: the desktop goes over to the chosen mode, or back to normal where it is in it.
pub proof fn law_choice_goes_by_the_mode_in_force(
    app: ApplicationView,
    id: String,
    chosen: IconMode,
    desk: Desktop,
)
    requires
        menu::entry_from(app.ids, id@, 0) == Some(mode_entry(chosen)),
    ensures
        desktop::carry_out(app.event_steps(UserEvent::Menu(id)), desk) == desktop::carry_out(
            steps::switch_steps(mode::mode_after_click(mode_on(desk), chosen)),
            desk,
        ),
{
    lemma_mode_looked_up(Purpose::Click(chosen), desk);
}

/// Choosing the entry of the mode in force goes back to the normal mode, whatever the check marks
/// show, where the desktop can take that: neither TUN nor the system proxy is found on, and the
/// normal mode is shown.
pub proof fn law_lit_entry_switches_off(
    app: ApplicationView,
    id: String,
    chosen: IconMode,
    desk: Desktop,
)
    requires
        menu::entry_from(app.ids, id@, 0) == Some(mode_entry(chosen)),
        mode_on(desk) == chosen,
        can_take(desk, IconMode::Normal),
        can_show(desk, IconMode::Normal),
    ensures
        desktop::carry_out(app.event_steps(UserEvent::Menu(id)), desk) == (Outcome {
            done: switch_actions(IconMode::Normal, desk),
            desktop: gone_over(desk, IconMode::Normal),
        }),
        mode_on(gone_over(desk, IconMode::Normal)) == IconMode::Normal,
        desk.core_up ==> !gone_over(desk, IconMode::Normal).tun,
        desk.proxy_key ==> !gone_over(desk, IconMode::Normal).proxy_enabled,
{
    law_choice_goes_by_the_mode_in_force(app, id, chosen, desk);
    law_chosen_mode_takes_hold(IconMode::Normal, desk);
}

/// Choosing the entry of a mode that is not in force goes over to it, whatever the check marks show,
/// where the desktop can take it.
pub proof fn law_unlit_entry_switches_on(
    app: ApplicationView,
    id: String,
    chosen: IconMode,
    desk: Desktop,
)
    requires
        menu::entry_from(app.ids, id@, 0) == Some(mode_entry(chosen)),
        mode_on(desk) != chosen,
        can_take(desk, chosen),
        can_show(desk, chosen),
    ensures
        desktop::carry_out(app.event_steps(UserEvent::Menu(id)), desk) == (Outcome {
            done: switch_actions(chosen, desk),
            desktop: gone_over(desk, chosen),
        }),
        mode_on(gone_over(desk, chosen)) == chosen,
{
    law_choice_goes_by_the_mode_in_force(app, id, chosen, desk);
    law_chosen_mode_takes_hold(chosen, desk);
}

/// Choosing the same entry twice ends in the normal mode, unless it is the entry of a mode that was
/// on to begin with.
pub proof fn law_two_choices_end_in_normal(current: IconMode, chosen: IconMode)
    requires
        current != chosen || chosen == IconMode::Normal,
    ensures
        mode::mode_after_click(mode::mode_after_click(current, chosen), chosen) == IconMode::Normal,
{
}

/// The modes can be told apart by the colour of the square and by the name of the picture.
pub proof fn law_modes_look_different(a: IconMode, b: IconMode)
    requires
        a != b,
    ensures
        icon::icon_color_of(a) != icon::icon_color_of(b),
        paths::icon_file_of(a) != paths::icon_file_of(b),
        mode::mode_name_of(a) != mode::mode_name_of(b),
{
    assert(icon::icon_color_of(a)[0] != icon::icon_color_of(b)[0]);
    reveal_strlit("tray_tun.png");
    reveal_strlit("tray_sysproxy.png");
    reveal_strlit("tray_white.png");
    assert(paths::icon_file_of(a).len() != paths::icon_file_of(b).len());
    reveal_strlit("常规");
    reveal_strlit("TUN");
    reveal_strlit("系统代理");
    assert(mode::mode_name_of(a).len() != mode::mode_name_of(b).len());
}

/// No number of pixels that keeps the ratio of the sides is smaller than the least one, so that no
/// pixel of a picture stands for more of the file than was counted.
pub proof fn law_least_scaled_is_least(n: int, short: int, long: int, side: int)
    requires
        0 < short <= long,
        0 < side,
    ensures
        icon::is_scaled(icon::least_scaled(short, long, side), short, long, side),
        icon::is_scaled(n, short, long, side) ==> icon::least_scaled(short, long, side) <= n,
{
    let whole: int = 2 * short * side + long - 1;
    let q: int = whole / (2 * long);
    assert(whole >= 0) by (nonlinear_arith)
        requires
            whole == 2 * short * side + long - 1,
            short > 0,
            side > 0,
            long > 0,
    ;
    assert(2 * q * long <= whole < 2 * q * long + 2 * long && 0 <= q) by (nonlinear_arith)
        requires
            q == whole / (2 * long),
            long > 0,
            whole >= 0,
    ;
    if q == 0 {
        assert(2 * q * long == 0) by (nonlinear_arith)
            requires
                q == 0,
        ;
    }
    if n < q {
        assert(2 * n * long + 2 * long <= 2 * q * long) by (nonlinear_arith)
            requires
                n < q,
                long > 0,
        ;
    }
}

// ---- the start

/// A new tray shows the mode and the autostart entry of the desktop, and then has a menu.
pub proof fn law_first_checks_show_the_desktop(desk: Desktop)
    ensures
        ({
            let mode = mode_on(desk);
            desktop::carry_out(seq![Step::Ask(Query::TunOn(Purpose::FirstChecks))], desk) == (
            Outcome {
                done: seq![
                    Action::ShowMode(mode),
                    Action::ShowAutostart(desk.run_entry),
                    Action::BuildMenu,
                ],
                desktop: Desktop { shown: mode, autostart_shown: desk.run_entry, ..desk },
            })
        }),
{
    let mode: IconMode = mode_on(desk);
    let show: Seq<Step> = seq![Step::Act(Action::ShowMode(mode))];
    let ask: Seq<Step> = seq![Step::Ask(Query::AutostartOn(AutostartUse::FirstCheck))];
    let shown: Desktop = Desktop { shown: mode, ..desk };
    lemma_mode_looked_up(Purpose::FirstChecks, desk);
    assert(steps::detected_steps(Purpose::FirstChecks, mode) =~= show + ask);
    desktop::lemma_chain(show, ask, desk);
    desktop::lemma_act(Action::ShowMode(mode), desk);
    lemma_first_autostart_check(shown);
    assert(seq![Action::ShowMode(mode)] + seq![
        Action::ShowAutostart(desk.run_entry),
        Action::BuildMenu,
    ] =~= seq![
        Action::ShowMode(mode),
        Action::ShowAutostart(desk.run_entry),
        Action::BuildMenu,
    ]);
}

proof fn lemma_first_autostart_check(desk: Desktop)
    ensures
        desktop::carry_out(
            seq![Step::Ask(Query::AutostartOn(AutostartUse::FirstCheck))],
            desk,
        ) == (Outcome {
            done: seq![Action::ShowAutostart(desk.run_entry), Action::BuildMenu],
            desktop: Desktop { autostart_shown: desk.run_entry, ..desk },
        }),
{
    let mark: Seq<Step> = seq![Step::Act(Action::ShowAutostart(desk.run_entry))];
    let build: Seq<Step> = seq![Step::Act(Action::BuildMenu)];
    let marked: Desktop = Desktop { autostart_shown: desk.run_entry, ..desk };
    desktop::lemma_ask(Query::AutostartOn(AutostartUse::FirstCheck), desk);
    assert(steps::follow_up(Query::AutostartOn(AutostartUse::FirstCheck), desk.run_entry) =~= mark
        + build);
    desktop::lemma_chain(mark, build, desk);
    desktop::lemma_act(Action::ShowAutostart(desk.run_entry), desk);
    desktop::lemma_act(Action::BuildMenu, marked);
    assert(seq![Action::ShowAutostart(desk.run_entry)] + seq![Action::BuildMenu] =~= seq![
        Action::ShowAutostart(desk.run_entry),
        Action::BuildMenu,
    ]);
}

// ---- autostart

/// What is done to switch autostart, once its key is open.
pub open spec fn autostart_action(enabled: bool, desk: Desktop) -> Action {
    if !enabled {
        Action::DeleteRunEntry
    } else if desk.exe_known {
        Action::WriteRunEntry(TrayExe::Running)
    } else {
        Action::WriteRunEntry(TrayExe::Named)
    }
}

/// Switching autostart on or off, where its key can be made and opened, leaves it so, whatever it
/// was; where the key cannot be had, nothing is done.
pub proof fn law_autostart_is_set(enabled: bool, desk: Desktop)
    ensures
        desktop::carry_out(steps::run_key_steps(enabled), desk) == (Outcome {
            done: seq![autostart_action(enabled, desk)],
            desktop: Desktop { run_entry: enabled, ..desk },
        }),
        desktop::carry_out(seq![Step::Ask(Query::OpenRunKey(enabled))], desk) == (if desk.run_key {
            Outcome {
                done: seq![autostart_action(enabled, desk)],
                desktop: Desktop { run_entry: enabled, ..desk },
            }
        } else {
            Outcome { done: seq![], desktop: desk }
        }),
{
    if enabled {
        desktop::lemma_ask(Query::ExeKnown, desk);
    }
    desktop::lemma_act(autostart_action(enabled, desk), desk);
    desktop::lemma_ask(Query::OpenRunKey(enabled), desk);
    desktop::lemma_nothing(desk);
}

/// Choosing autostart, where its key can be made and opened, switches the entry over, and the
/// check mark shows what is then the case.
pub proof fn law_autostart_switches_over(desk: Desktop)
    requires
        desk.run_key,
    ensures
        desktop::carry_out(application::menu_steps(MenuEntry::Autostart), desk) == (Outcome {
            done: seq![
                autostart_action(!desk.run_entry, desk),
                Action::ShowAutostart(!desk.run_entry),
            ],
            desktop: Desktop {
                run_entry: !desk.run_entry,
                autostart_shown: !desk.run_entry,
                ..desk
            },
        }),
{
    let on: bool = !desk.run_entry;
    let open: Seq<Step> = seq![Step::Ask(Query::OpenRunKey(on))];
    let mark: Seq<Step> = seq![Step::Act(Action::ShowAutostart(on))];
    desktop::lemma_ask(Query::AutostartOn(AutostartUse::Toggle), desk);
    assert(steps::follow_up(Query::AutostartOn(AutostartUse::Toggle), desk.run_entry) =~= open
        + mark);
    desktop::lemma_chain(open, mark, desk);
    law_autostart_is_set(on, desk);
    desktop::lemma_act(Action::ShowAutostart(on), Desktop { run_entry: on, ..desk });
    assert(desktop::carry_out(open + mark, desk).done =~= seq![
        autostart_action(on, desk),
        Action::ShowAutostart(on),
    ]);
}

// ---- the tooltip

/// Coming over the icon shows a new tooltip, if the core names the mode: the name and the delay.
/// Nothing else is done. When the tooltip is due, the same is done.
pub proof fn law_tooltip_is_refreshed(app: ApplicationView, desk: Desktop)
    ensures
        app.event_steps(UserEvent::Tick) == application::tray_steps(TrayEvent::Enter),
        desktop::carry_out(application::tray_steps(TrayEvent::Enter), desk) == (Outcome {
            done: tooltip_actions(desk),
            desktop: tooltip_refreshed(desk),
        }),
        tooltip_refreshed(desk) == (Desktop {
            tooltip: match desk.title {
                Some(name) => name + " "@ + core_api::delay_text_of(desk.delay),
                None => desk.tooltip,
            },
            ..desk
        }),
{
    lemma_tooltip_refreshed(desk);
}

/// A new icon, where the core names the mode, carries the name and the delay as its tooltip.
pub proof fn law_new_icon_has_a_new_tooltip(desk: Desktop)
    requires
        can_show(desk, mode_on(desk)),
        desk.title is Some,
    ensures
        desktop::carry_out(steps::rebuild_steps(), desk).desktop.tooltip == desk.title->0 + " "@
            + core_api::delay_text_of(desk.delay),
{
    law_tray_shows_the_mode_of_the_desktop(desk);
    let shown: Desktop = Desktop { shown: mode_on(desk), ..desk };
    lemma_same_pictures(mode_on(desk), desk, shown);
}

/// The tooltip that is shown names the mode as the core last did, and then the delay that was
/// measured, or that there was none. It is the one that the desktop is to show.
pub proof fn law_tooltip_names_mode_and_delay(
    app: ApplicationView,
    named: Reply,
    probed: Reply,
    desk: Desktop,
)
    requires
        app.todo.len() > 0,
        app.todo[0] == Step::Ask(Query::TitleKnown),
        application::title_in(named) is Some,
        application::title_in(named) == desk.title,
        application::delay_in(probed) == desk.delay,
    ensures
        ({
            let asked = app.after_answer(Query::TitleKnown, named);
            let shown = asked.after_answer(Query::DelayMeasured, probed);
            &&& asked.todo[0] == Step::Ask(Query::DelayMeasured)
            &&& shown.todo == seq![Step::Act(Action::ShowTooltip)] + app.todo.skip(1)
            &&& shown.tooltip == application::title_in(named)->0 + " "@ + core_api::delay_text_of(
                application::delay_in(probed),
            )
            &&& shown.tooltip == tooltip_refreshed(desk).tooltip
        }),
{
    let asked = app.after_answer(Query::TitleKnown, named);
    assert(asked.todo.skip(1) =~= app.todo.skip(1));
}

// ---- the core

/// The request that switches TUN reads as a configuration in which TUN is in that state.
pub proof fn law_tun_request_reads_back(enabled: bool)
    ensures
        core_api::tun_is_on(core_api::tun_request(enabled)) == enabled,
{
}

// ---- the menu

/// An entry is found by its identifier, where no entry before it has the same one.
pub proof fn law_entries_are_found(ids: Seq<Seq<char>>, at: int)
    requires
        forall|j: int| 0 <= j < at ==> #[trigger] ids[j] != ids[at],
        0 <= at < ids.len(),
        at < menu::all_entries().len(),
    ensures
        menu::entry_from(ids, ids[at], 0) == Some(menu::all_entries()[at]),
{
    lemma_entry_found(ids, at, 0);
}

proof fn lemma_entry_found(ids: Seq<Seq<char>>, at: int, from: int)
    requires
        forall|j: int| 0 <= j < at ==> #[trigger] ids[j] != ids[at],
        0 <= from <= at < ids.len(),
        at < menu::all_entries().len(),
    ensures
        menu::entry_from(ids, ids[at], from) == Some(menu::all_entries()[at]),
    decreases at - from,
{
    if from < at {
        assert(ids[from] != ids[at]);
        lemma_entry_found(ids, at, from + 1);
    }
}

// ---- the machine

/// A tray that knows what its check marks show still knows it when an action is handed out and
/// carried out.
pub proof fn law_check_marks_are_known(app: ApplicationView, desk: Desktop, action: Action)
    requires
        app.mode == desk.shown,
        app.autostart == desk.autostart_shown,
    ensures
        app.after_action(action).mode == desk.after_action(action).shown,
        app.after_action(action).autostart == desk.after_action(action).autostart_shown,
{
    lemma_marks_shown(desk, action);
}

proof fn lemma_marks_shown(desk: Desktop, action: Action)
    ensures
        desk.after_action(action).shown == (match action {
            Action::ShowMode(mode) => mode,
            _ => desk.shown,
        }),
        desk.after_action(action).autostart_shown == (match action {
            Action::ShowAutostart(on) => on,
            _ => desk.autostart_shown,
        }),
{
}

/// Handing out an action, and carrying it out, leaves as much of the work as there was besides.
pub proof fn law_handing_out_keeps_the_outcome(app: ApplicationView, desk: Desktop)
    requires
        app.todo.len() > 0,
        app.todo[0] is Act,
    ensures
        ({
            let action = app.todo[0]->Act_0;
            desktop::carry_out(app.todo, desk) == (Outcome {
                done: seq![action],
                desktop: desk.after_action(action),
            }).and_so(
                desktop::carry_out(app.after_action(action).todo, desk.after_action(action)),
            )
        }),
{
    let action: Action = app.todo[0]->Act_0;
    let first: Seq<Step> = seq![Step::Act(action)];
    assert(app.todo =~= first + app.todo.skip(1));
    desktop::lemma_chain(first, app.todo.skip(1), desk);
    desktop::lemma_act(action, desk);
}

/// Taking a reply that says what the desktop says leaves the rest of the work that the desktop
/// has for the question.
pub proof fn law_answering_keeps_the_outcome(app: ApplicationView, desk: Desktop, reply: Reply)
    requires
        app.todo.len() > 0,
        app.todo[0] is Ask,
        application::means_yes(app.todo[0]->Ask_0, reply) == desk.says_yes(app.todo[0]->Ask_0),
    ensures
        ({
            let query = app.todo[0]->Ask_0;
            desktop::carry_out(app.todo, desk) == desktop::carry_out(
                app.after_answer(query, reply).todo,
                desk.after_question(query),
            )
        }),
{
    let query: Query = app.todo[0]->Ask_0;
    let first: Seq<Step> = seq![Step::Ask(query)];
    let head: Seq<Step> = steps::follow_up(query, desk.says_yes(query));
    assert(app.todo =~= first + app.todo.skip(1));
    desktop::lemma_chain(first, app.todo.skip(1), desk);
    desktop::lemma_ask(query, desk);
    desktop::lemma_chain(head, app.todo.skip(1), desk.after_question(query));
}

/// No event leads to more than twenty-eight steps, whatever the answers.
pub proof fn law_events_are_finite_work(app: ApplicationView, event: UserEvent)
    ensures
        steps::total_cost(app.event_steps(event)) <= 28,
{
    let todo: Seq<Step> = app.event_steps(event);
    if todo.len() == 4 {
        let first: Seq<Step> = seq![todo[0], todo[1]];
        let second: Seq<Step> = seq![todo[2], todo[3]];
        assert(todo =~= first + second);
        steps::lemma_cost_of_chain(first, second);
        steps::lemma_cost_of_two(todo[0], todo[1]);
        steps::lemma_cost_of_two(todo[2], todo[3]);
    } else if todo.len() == 2 {
        assert(todo =~= seq![todo[0], todo[1]]);
        steps::lemma_cost_of_two(todo[0], todo[1]);
    } else if todo.len() == 1 {
        assert(todo =~= seq![todo[0]]);
        steps::lemma_cost_of_one(todo[0]);
    } else {
        assert(todo.len() == 0);
    }
}

} // verus!
