//! What the tray does, as steps: things to do, and questions whose answer decides how to go on.
use crate::command::ServiceVerb;
use crate::mode;
use crate::mode::IconMode;
use crate::paths;
use crate::paths::{Candidate, IconDir, TrayExe};
use vstd::prelude::*;

verus! {

/// The option of `InternetSetOptionW` that announces changed proxy settings.
pub const INTERNET_OPTION_SETTINGS_CHANGED: u32 = 39;

/// The option of `InternetSetOptionW` that has them read again.
pub const INTERNET_OPTION_REFRESH: u32 = 37;

/// Something to do. Whether it succeeds makes no difference to what follows.
#[derive(Clone, Copy, PartialEq, Eq, Structural, Debug)]
pub enum Action {
    /// Start the clashtui that was found, in a window of its own.
    StartClashtui(Candidate),
    /// Stop every clashtui process.
    StopClashtui,
    /// Open the web dashboard.
    OpenWeb,
    /// Have the clashtui that was found restart or stop the core, and wait for it.
    RunService(Candidate, ServiceVerb),
    /// Ask the core to switch TUN on or off.
    PatchTun(bool),
    /// Write `ProxyEnable` under the open proxy settings.
    WriteProxyEnable(u32),
    /// Write the address of the core as `ProxyServer` under the open proxy settings.
    WriteProxyServer,
    /// Call `InternetSetOptionW` with this option.
    NotifyWinInet(u32),
    /// Show the check marks of this mode.
    ShowMode(IconMode),
    /// Show whether the tray starts with the desktop.
    ShowAutostart(bool),
    /// Put the menu together.
    BuildMenu,
    /// Write the entry that starts this executable with the desktop, under the open key.
    WriteRunEntry(TrayExe),
    /// Delete that entry, under the open key.
    DeleteRunEntry,
    /// Show the tooltip that was last worked out.
    ShowTooltip,
    /// Leave the tray.
    Exit,
    /// Give up: something without which there is no tray could not be made.
    Fail(Failure),
}

/// What could not be made.
#[derive(Clone, Copy, PartialEq, Eq, Structural, Debug)]
pub enum Failure {
    /// The icon, not even of the plain square.
    Icon,
    /// The tray icon itself.
    TrayIcon,
}

/// Why clashtui is looked for.
#[derive(Clone, Copy, PartialEq, Eq, Structural, Debug)]
pub enum Errand {
    Launch,
    Service(ServiceVerb),
}

/// What the mode is looked up for.
#[derive(Clone, Copy, PartialEq, Eq, Structural, Debug)]
pub enum Purpose {
    /// The first check marks of the menu.
    FirstChecks,
    /// A new tray icon.
    Rebuild,
    /// The entry of this mode was chosen in the menu.
    Click(IconMode),
}

/// What the autostart entry is looked up for.
#[derive(Clone, Copy, PartialEq, Eq, Structural, Debug)]
pub enum AutostartUse {
    /// The first check mark of the menu.
    FirstCheck,
    /// Switching it over.
    Toggle,
}

/// A question. Each is answered by yes or no.
#[derive(Clone, Copy, PartialEq, Eq, Structural, Debug)]
pub enum Query {
    /// Is there a clashtui beside the tray?
    IsBeside(Errand),
    /// Is there one in the directory above?
    IsAbove(Errand),
    /// Is the one that was settled on there?
    IsPresent(Candidate),
    /// Is clashtui running?
    IsRunning,
    /// Can the proxy settings be opened for writing? The proxy is to be switched on or off.
    OpenProxyKey(bool),
    /// Does the core say that TUN is on?
    TunOn(Purpose),
    /// Does the registry say that the system proxy is on and leads to the core?
    ProxyOn(Purpose),
    /// Is there an autostart entry?
    AutostartOn(AutostartUse),
    /// Can the key of the autostart entry be made, to switch it on, or opened, to switch it off?
    OpenRunKey(bool),
    /// Is the path of the running executable known?
    ExeKnown,
    /// Does the picture of the mode exist at this place?
    IconExists(IconMode, IconDir),
    /// Does the picture give pixels?
    IconReads(IconMode, IconDir),
    /// Can an icon be made of those pixels? Without a place, of the plain square.
    IconMakes(IconMode, Option<IconDir>),
    /// Can the tray icon be built?
    TrayBuilds(IconMode),
    /// Does the core name the mode?
    TitleKnown,
    /// Did the probe come back?
    DelayMeasured,
}

/// One step of the work that is left.
#[derive(Clone, Copy, PartialEq, Eq, Structural, Debug)]
pub enum Step {
    Act(Action),
    Ask(Query),
}

// ---- launching, stopping and the core's service

/// Look for clashtui on an errand.
pub open spec fn find_steps(errand: Errand) -> Seq<Step> {
    seq![Step::Ask(Query::IsBeside(errand))]
}

/// What is done with the clashtui at `place`: it is launched if it is there, or runs its service
/// command.
pub open spec fn found_steps(errand: Errand, place: Candidate) -> Seq<Step> {
    match errand {
        Errand::Launch => seq![Step::Ask(Query::IsPresent(place))],
        Errand::Service(verb) => seq![Step::Act(Action::RunService(place, verb))],
    }
}

/// Close clashtui if it is running, else launch it.
pub open spec fn toggle_steps(running: bool) -> Seq<Step> {
    if running {
        seq![Step::Act(Action::StopClashtui)]
    } else {
        find_steps(Errand::Launch)
    }
}

/// The steps that toggle clashtui, from whether it is running.
pub fn toggle_clashtui(running: bool) -> (steps: Vec<Step>)
    ensures
        steps@ == toggle_steps(running),
{
    if running {
        vec![Step::Act(Action::StopClashtui)]
    } else {
        vec![Step::Ask(Query::IsBeside(Errand::Launch))]
    }
}

fn after_finding(errand: Errand, place: Candidate) -> (steps: Vec<Step>)
    ensures
        steps@ == found_steps(errand, place),
{
    match errand {
        Errand::Launch => vec![Step::Ask(Query::IsPresent(place))],
        Errand::Service(verb) => vec![Step::Act(Action::RunService(place, verb))],
    }
}

// ---- the modes

/// The writes that switch the system proxy, once its key is open: the switch, the address where it
/// is switched on, and word to WinInet to take the settings up.
pub open spec fn proxy_writes(enabled: bool) -> Seq<Step> {
    if enabled {
        seq![
            Step::Act(Action::WriteProxyEnable(1)),
            Step::Act(Action::WriteProxyServer),
            Step::Act(Action::NotifyWinInet(INTERNET_OPTION_SETTINGS_CHANGED)),
            Step::Act(Action::NotifyWinInet(INTERNET_OPTION_REFRESH)),
        ]
    } else {
        seq![
            Step::Act(Action::WriteProxyEnable(0)),
            Step::Act(Action::NotifyWinInet(INTERNET_OPTION_SETTINGS_CHANGED)),
            Step::Act(Action::NotifyWinInet(INTERNET_OPTION_REFRESH)),
        ]
    }
}

/// The steps that switch the system proxy, from whether its key could be opened: where it could
/// not, nothing is done.
pub fn set_system_proxy(enabled: bool, key_opened: bool) -> (steps: Vec<Step>)
    ensures
        steps@ == (if key_opened {
            proxy_writes(enabled)
        } else {
            seq![]
        }),
{
    let mut steps: Vec<Step> = Vec::new();
    if key_opened {
        if enabled {
            steps.push(Step::Act(Action::WriteProxyEnable(1)));
            steps.push(Step::Act(Action::WriteProxyServer));
        } else {
            steps.push(Step::Act(Action::WriteProxyEnable(0)));
        }
        steps.push(Step::Act(Action::NotifyWinInet(INTERNET_OPTION_SETTINGS_CHANGED)));
        steps.push(Step::Act(Action::NotifyWinInet(INTERNET_OPTION_REFRESH)));
    }
    assert(steps@ =~= if key_opened {
        proxy_writes(enabled)
    } else {
        seq![]
    });
    steps
}

/// What turns a mode on and the others off. What is switched off goes first, so that TUN and the
/// system proxy are not on together.
pub open spec fn apply_steps(mode: IconMode) -> Seq<Step> {
    match mode {
        IconMode::Tun => seq![
            Step::Ask(Query::OpenProxyKey(false)),
            Step::Act(Action::PatchTun(true)),
        ],
        IconMode::SystemProxy => seq![
            Step::Act(Action::PatchTun(false)),
            Step::Ask(Query::OpenProxyKey(true)),
        ],
        IconMode::Normal => seq![
            Step::Act(Action::PatchTun(false)),
            Step::Ask(Query::OpenProxyKey(false)),
        ],
    }
}

/// The steps that apply `mode`: TUN goes through the core, the system proxy through the registry,
/// and the normal mode turns both off.
pub fn apply_mode(mode: IconMode) -> (steps: Vec<Step>)
    ensures
        steps@ == apply_steps(mode),
{
    match mode {
        IconMode::Tun => vec![
            Step::Ask(Query::OpenProxyKey(false)),
            Step::Act(Action::PatchTun(true)),
        ],
        IconMode::SystemProxy => vec![
            Step::Act(Action::PatchTun(false)),
            Step::Ask(Query::OpenProxyKey(true)),
        ],
        IconMode::Normal => vec![
            Step::Act(Action::PatchTun(false)),
            Step::Ask(Query::OpenProxyKey(false)),
        ],
    }
}

/// Build the tray icon anew.
pub open spec fn rebuild_steps() -> Seq<Step> {
    seq![Step::Ask(Query::TunOn(Purpose::Rebuild))]
}

/// Go over to `mode`: apply it, show its check marks, and build the tray icon anew.
pub open spec fn switch_steps(mode: IconMode) -> Seq<Step> {
    apply_steps(mode) + seq![Step::Act(Action::ShowMode(mode))] + rebuild_steps()
}

/// The steps that go over to `mode`.
pub fn switch_mode(mode: IconMode) -> (steps: Vec<Step>)
    ensures
        steps@ == switch_steps(mode),
{
    let mut steps: Vec<Step> = apply_mode(mode);
    steps.push(Step::Act(Action::ShowMode(mode)));
    steps.push(Step::Ask(Query::TunOn(Purpose::Rebuild)));
    assert(steps@ =~= switch_steps(mode));
    steps
}

/// What is done once the mode in force is known. A chosen entry switches its mode on, or off again
/// where it is the one in force.
pub open spec fn detected_steps(purpose: Purpose, mode: IconMode) -> Seq<Step> {
    match purpose {
        Purpose::FirstChecks => seq![
            Step::Act(Action::ShowMode(mode)),
            Step::Ask(Query::AutostartOn(AutostartUse::FirstCheck)),
        ],
        Purpose::Rebuild => seq![
            Step::Act(Action::ShowMode(mode)),
            Step::Ask(Query::IconExists(mode, IconDir::Assets)),
        ],
        Purpose::Click(chosen) => switch_steps(mode::mode_after_click(mode, chosen)),
    }
}

fn after_detecting(purpose: Purpose, mode: IconMode) -> (steps: Vec<Step>)
    ensures
        steps@ == detected_steps(purpose, mode),
{
    match purpose {
        Purpose::FirstChecks => vec![
            Step::Act(Action::ShowMode(mode)),
            Step::Ask(Query::AutostartOn(AutostartUse::FirstCheck)),
        ],
        Purpose::Rebuild => vec![
            Step::Act(Action::ShowMode(mode)),
            Step::Ask(Query::IconExists(mode, IconDir::Assets)),
        ],
        Purpose::Click(chosen) => switch_mode(mode::clicked_mode(mode, chosen)),
    }
}

// ---- the icon

/// Go on looking for a picture after `dir`; after the last place, take the plain square. What the
/// executable carries is read without asking whether it is there.
pub open spec fn icon_steps_after(mode: IconMode, dir: IconDir) -> Seq<Step> {
    match paths::icon_dir_after(dir) {
        Some(IconDir::Embedded) => seq![Step::Ask(Query::IconReads(mode, IconDir::Embedded))],
        Some(next) => seq![Step::Ask(Query::IconExists(mode, next))],
        None => seq![Step::Ask(Query::IconMakes(mode, None))],
    }
}

fn next_icon(mode: IconMode, dir: IconDir) -> (steps: Vec<Step>)
    ensures
        steps@ == icon_steps_after(mode, dir),
{
    match paths::next_icon_dir(dir) {
        Some(IconDir::Embedded) => vec![Step::Ask(Query::IconReads(mode, IconDir::Embedded))],
        Some(next) => vec![Step::Ask(Query::IconExists(mode, next))],
        None => vec![Step::Ask(Query::IconMakes(mode, None))],
    }
}

// ---- autostart

/// The steps that switch autostart on or off, once its key is open.
pub open spec fn run_key_steps(enabled: bool) -> Seq<Step> {
    if enabled {
        seq![Step::Ask(Query::ExeKnown)]
    } else {
        seq![Step::Act(Action::DeleteRunEntry)]
    }
}

/// The steps that switch autostart, from whether its key could be made or opened: where it could
/// not, nothing is done.
pub fn set_autostart(enabled: bool, key_opened: bool) -> (steps: Vec<Step>)
    ensures
        steps@ == (if key_opened {
            run_key_steps(enabled)
        } else {
            seq![]
        }),
{
    if key_opened {
        if enabled {
            vec![Step::Ask(Query::ExeKnown)]
        } else {
            vec![Step::Act(Action::DeleteRunEntry)]
        }
    } else {
        Vec::new()
    }
}

// ---- the answers

/// What the answer to a question leads to.
pub open spec fn follow_up(query: Query, yes: bool) -> Seq<Step> {
    match query {
        Query::IsBeside(errand) => if yes {
            found_steps(errand, Candidate::Beside)
        } else {
            seq![Step::Ask(Query::IsAbove(errand))]
        },
        Query::IsAbove(errand) => found_steps(errand, paths::first_present(false, yes)),
        Query::IsPresent(place) => if yes {
            seq![Step::Act(Action::StartClashtui(place))]
        } else {
            seq![]
        },
        Query::IsRunning => toggle_steps(yes),
        Query::OpenProxyKey(enabled) => if yes {
            proxy_writes(enabled)
        } else {
            seq![]
        },
        Query::TunOn(purpose) => if yes {
            detected_steps(purpose, IconMode::Tun)
        } else {
            seq![Step::Ask(Query::ProxyOn(purpose))]
        },
        Query::ProxyOn(purpose) => detected_steps(purpose, mode::mode_of(false, yes)),
        Query::AutostartOn(AutostartUse::FirstCheck) => seq![
            Step::Act(Action::ShowAutostart(yes)),
            Step::Act(Action::BuildMenu),
        ],
        Query::AutostartOn(AutostartUse::Toggle) => seq![
            Step::Ask(Query::OpenRunKey(!yes)),
            Step::Act(Action::ShowAutostart(!yes)),
        ],
        Query::OpenRunKey(enabled) => if yes {
            run_key_steps(enabled)
        } else {
            seq![]
        },
        Query::ExeKnown => seq![
            Step::Act(
                Action::WriteRunEntry(
                    if yes {
                        TrayExe::Running
                    } else {
                        TrayExe::Named
                    },
                ),
            ),
        ],
        Query::IconExists(mode, dir) => if yes {
            seq![Step::Ask(Query::IconReads(mode, dir))]
        } else {
            icon_steps_after(mode, dir)
        },
        Query::IconReads(mode, dir) => if yes {
            seq![Step::Ask(Query::IconMakes(mode, Some(dir)))]
        } else {
            icon_steps_after(mode, dir)
        },
        Query::IconMakes(mode, from) => if yes {
            seq![Step::Ask(Query::TrayBuilds(mode))]
        } else {
            match from {
                Some(dir) => icon_steps_after(mode, dir),
                None => seq![Step::Act(Action::Fail(Failure::Icon))],
            }
        },
        Query::TrayBuilds(_) => if yes {
            seq![Step::Ask(Query::TitleKnown)]
        } else {
            seq![Step::Act(Action::Fail(Failure::TrayIcon))]
        },
        Query::TitleKnown => if yes {
            seq![Step::Ask(Query::DelayMeasured)]
        } else {
            seq![]
        },
        Query::DelayMeasured => seq![Step::Act(Action::ShowTooltip)],
    }
}

/// The steps that the answer to a question leads to.
pub fn answered(query: Query, yes: bool) -> (steps: Vec<Step>)
    ensures
        steps@ == follow_up(query, yes),
{
    match query {
        Query::IsBeside(errand) => if yes {
            after_finding(errand, paths::clashtui_path(true, false))
        } else {
            vec![Step::Ask(Query::IsAbove(errand))]
        },
        Query::IsAbove(errand) => after_finding(errand, paths::clashtui_path(false, yes)),
        Query::IsPresent(place) => if yes {
            vec![Step::Act(Action::StartClashtui(place))]
        } else {
            Vec::new()
        },
        Query::IsRunning => toggle_clashtui(yes),
        Query::OpenProxyKey(enabled) => set_system_proxy(enabled, yes),
        Query::TunOn(purpose) => if yes {
            after_detecting(purpose, mode::detect_mode(true, false))
        } else {
            vec![Step::Ask(Query::ProxyOn(purpose))]
        },
        Query::ProxyOn(purpose) => after_detecting(purpose, mode::detect_mode(false, yes)),
        Query::AutostartOn(AutostartUse::FirstCheck) => vec![
            Step::Act(Action::ShowAutostart(yes)),
            Step::Act(Action::BuildMenu),
        ],
        Query::AutostartOn(AutostartUse::Toggle) => vec![
            Step::Ask(Query::OpenRunKey(!yes)),
            Step::Act(Action::ShowAutostart(!yes)),
        ],
        Query::OpenRunKey(enabled) => set_autostart(enabled, yes),
        Query::ExeKnown => vec![Step::Act(Action::WriteRunEntry(paths::tray_exe_path(yes)))],
        Query::IconExists(mode, dir) => if yes {
            vec![Step::Ask(Query::IconReads(mode, dir))]
        } else {
            next_icon(mode, dir)
        },
        Query::IconReads(mode, dir) => if yes {
            vec![Step::Ask(Query::IconMakes(mode, Some(dir)))]
        } else {
            next_icon(mode, dir)
        },
        Query::IconMakes(mode, from) => if yes {
            vec![Step::Ask(Query::TrayBuilds(mode))]
        } else {
            match from {
                Some(dir) => next_icon(mode, dir),
                None => vec![Step::Act(Action::Fail(Failure::Icon))],
            }
        },
        Query::TrayBuilds(_) => if yes {
            vec![Step::Ask(Query::TitleKnown)]
        } else {
            vec![Step::Act(Action::Fail(Failure::TrayIcon))]
        },
        Query::TitleKnown => if yes {
            vec![Step::Ask(Query::DelayMeasured)]
        } else {
            Vec::new()
        },
        Query::DelayMeasured => vec![Step::Act(Action::ShowTooltip)],
    }
}

// ---- how much is left

/// How many steps one step can lead to, itself counted.
pub open spec fn cost(step: Step) -> nat {
    match step {
        Step::Act(_) => 1,
        Step::Ask(query) => match query {
            Query::TrayBuilds(_) => 4,
            Query::IconMakes(_, None) => 5,
            Query::IconMakes(_, Some(dir)) => icon_cost(dir),
            Query::IconReads(_, dir) => icon_cost(dir) + 1,
            Query::IconExists(_, dir) => icon_cost(dir) + 2,
            Query::ProxyOn(Purpose::Click(_)) => 27,
            Query::TunOn(Purpose::Click(_)) => 28,
            Query::ProxyOn(_) => 18,
            Query::TunOn(_) => 19,
            Query::ExeKnown => 2,
            Query::OpenRunKey(_) => 3,
            Query::AutostartOn(_) => 5,
            Query::OpenProxyKey(_) => 5,
            Query::IsPresent(_) => 2,
            Query::IsAbove(_) => 3,
            Query::IsBeside(_) => 4,
            Query::IsRunning => 5,
            Query::DelayMeasured => 2,
            Query::TitleKnown => 3,
        },
    }
}

/// What making an icon of the picture in `dir` can lead to: the search goes on after it.
pub open spec fn icon_cost(dir: IconDir) -> nat {
    match dir {
        IconDir::Embedded => 6,
        IconDir::Source => 8,
        IconDir::Beside => 11,
        IconDir::Assets => 14,
    }
}

/// How many steps are left at most.
pub open spec fn total_cost(steps: Seq<Step>) -> nat
    decreases steps.len(),
{
    if steps.len() == 0 {
        0
    } else {
        cost(steps[0]) + total_cost(steps.skip(1))
    }
}

/// The cost of steps one after the other.
pub proof fn lemma_cost_of_chain(first: Seq<Step>, then: Seq<Step>)
    ensures
        total_cost(first + then) == total_cost(first) + total_cost(then),
    decreases first.len(),
{
    if first.len() == 0 {
        assert(first + then =~= then);
    } else {
        assert((first + then).skip(1) =~= first.skip(1) + then);
        lemma_cost_of_chain(first.skip(1), then);
    }
}

/// The cost of a single step.
pub proof fn lemma_cost_of_one(a: Step)
    ensures
        total_cost(seq![a]) == cost(a),
{
    assert(seq![a].skip(1) =~= seq![]);
    assert(total_cost(seq![]) == 0);
}

/// The cost of two steps.
pub proof fn lemma_cost_of_two(a: Step, b: Step)
    ensures
        total_cost(seq![a, b]) == cost(a) + cost(b),
{
    assert(seq![a, b].skip(1) =~= seq![b]);
    lemma_cost_of_one(b);
}

proof fn lemma_cost_of_proxy_writes(enabled: bool)
    ensures
        total_cost(proxy_writes(enabled)) <= 4,
{
    let steps: Seq<Step> = proxy_writes(enabled);
    let notices: Seq<Step> = seq![
        Step::Act(Action::NotifyWinInet(INTERNET_OPTION_SETTINGS_CHANGED)),
        Step::Act(Action::NotifyWinInet(INTERNET_OPTION_REFRESH)),
    ];
    lemma_cost_of_two(notices[0], notices[1]);
    if enabled {
        assert(steps =~= seq![steps[0], steps[1]] + notices);
        lemma_cost_of_two(steps[0], steps[1]);
        lemma_cost_of_chain(seq![steps[0], steps[1]], notices);
    } else {
        assert(steps =~= seq![steps[0]] + notices);
        lemma_cost_of_one(steps[0]);
        lemma_cost_of_chain(seq![steps[0]], notices);
    }
}

proof fn lemma_cost_of_switch(mode: IconMode)
    ensures
        total_cost(switch_steps(mode)) == 26,
{
    let apply: Seq<Step> = apply_steps(mode);
    let show: Seq<Step> = seq![Step::Act(Action::ShowMode(mode))];
    assert(apply =~= seq![apply[0], apply[1]]);
    lemma_cost_of_two(apply[0], apply[1]);
    lemma_cost_of_one(show[0]);
    lemma_cost_of_one(rebuild_steps()[0]);
    lemma_cost_of_chain(apply, show);
    lemma_cost_of_chain(apply + show, rebuild_steps());
}

proof fn lemma_icon_costs_less(query: Query, yes: bool)
    requires
        query is IconExists || query is IconReads || query is IconMakes || query is TrayBuilds,
    ensures
        total_cost(follow_up(query, yes)) < cost(Step::Ask(query)),
{
    let steps: Seq<Step> = follow_up(query, yes);
    assert(steps =~= seq![steps[0]]);
    lemma_cost_of_one(steps[0]);
}

proof fn lemma_mode_costs_less(purpose: Purpose, mode: IconMode)
    ensures
        total_cost(detected_steps(purpose, mode)) < cost(Step::Ask(Query::ProxyOn(purpose))),
{
    let steps: Seq<Step> = detected_steps(purpose, mode);
    if let Purpose::Click(chosen) = purpose {
        lemma_cost_of_switch(mode::mode_after_click(mode, chosen));
    } else {
        assert(steps =~= seq![steps[0], steps[1]]);
        lemma_cost_of_two(steps[0], steps[1]);
    }
}

/// An answer leaves less to do than the question.
pub proof fn lemma_answer_costs_less(query: Query, yes: bool)
    ensures
        total_cost(follow_up(query, yes)) < cost(Step::Ask(query)),
{
    let steps: Seq<Step> = follow_up(query, yes);
    match query {
        Query::OpenProxyKey(enabled) => {
            lemma_cost_of_proxy_writes(enabled);
        },
        Query::TunOn(purpose) => {
            lemma_mode_costs_less(purpose, IconMode::Tun);
            lemma_cost_of_one(Step::Ask(Query::ProxyOn(purpose)));
        },
        Query::ProxyOn(purpose) => {
            lemma_mode_costs_less(purpose, mode::mode_of(false, yes));
        },
        Query::IconExists(_, _) | Query::IconReads(_, _) | Query::IconMakes(_, _)
        | Query::TrayBuilds(_) => {
            lemma_icon_costs_less(query, yes);
        },
        Query::AutostartOn(_) => {
            assert(steps =~= seq![steps[0], steps[1]]);
            lemma_cost_of_two(steps[0], steps[1]);
        },
        _ => {
            if steps.len() > 0 {
                assert(steps =~= seq![steps[0]]);
                lemma_cost_of_one(steps[0]);
            }
        },
    }
}

} // verus!
