//! A model of the desktop that the tray acts on, and what becomes of it when steps are carried out.
use crate::core_api;
use crate::mode;
use crate::mode::IconMode;
use crate::paths::{Candidate, IconDir};
use crate::settings;
use crate::steps;
use crate::steps::{Action, Query, Step};
use vstd::prelude::*;

verus! {

/// What there is on a desktop, as far as the tray asks for it or changes it.
pub struct Desktop {
    /// A clashtui is installed beside the tray.
    pub beside: bool,
    /// A clashtui is installed in the directory above.
    pub above: bool,
    /// clashtui is running.
    pub running: bool,
    /// The core answers.
    pub core_up: bool,
    /// TUN is on in the core.
    pub tun: bool,
    /// The proxy settings can be opened for writing.
    pub proxy_key: bool,
    /// The system proxy is switched on, wherever it leads.
    pub proxy_enabled: bool,
    /// The address of the system proxy, if there is one.
    pub proxy_server: Option<Seq<char>>,
    /// The key of the autostart entry can be made and opened.
    pub run_key: bool,
    /// There is an autostart entry.
    pub run_entry: bool,
    /// The path of the running executable is known.
    pub exe_known: bool,
    /// The pictures that exist as files.
    pub pictures: Set<(IconMode, IconDir)>,
    /// The pictures that can be read.
    pub readable: Set<(IconMode, IconDir)>,
    /// The pictures that make an icon.
    pub usable: Set<(IconMode, IconDir)>,
    /// An icon can be made of the plain square.
    pub square: bool,
    /// A tray icon can be built.
    pub tray: bool,
    /// The name that the core gives the mode, if it gives one.
    pub title: Option<Seq<char>>,
    /// How many milliseconds the probe takes, if it comes back.
    pub delay: Option<u64>,
    /// The mode that the check marks show.
    pub shown: IconMode,
    /// Whether the check mark of autostart is set.
    pub autostart_shown: bool,
    /// The picture that the last icon was made of; none for the plain square.
    pub made_of: Option<IconDir>,
    /// The mode whose icon is in the tray, once there is one.
    pub icon: Option<IconMode>,
    /// The tooltip of that icon.
    pub tooltip: Seq<char>,
}

impl Desktop {
    /// Whether there is a clashtui at `place`.
    pub open spec fn has(self, place: Candidate) -> bool {
        match place {
            Candidate::Beside => self.beside,
            Candidate::Above => self.above,
        }
    }

    /// Whether the system proxy is on and leads to the core.
    pub open spec fn proxy_on(self) -> bool {
        self.proxy_enabled && self.proxy_server == Some(settings::CORE_PROXY@)
    }

    /// Whether the desktop answers a question by yes.
    pub open spec fn says_yes(self, query: Query) -> bool {
        match query {
            Query::IsBeside(_) => self.beside,
            Query::IsAbove(_) => self.above,
            Query::IsPresent(place) => self.has(place),
            Query::IsRunning => self.running,
            Query::OpenProxyKey(_) => self.proxy_key,
            Query::TunOn(_) => self.core_up && self.tun,
            Query::ProxyOn(_) => self.proxy_on(),
            Query::AutostartOn(_) => self.run_entry,
            Query::OpenRunKey(_) => self.run_key,
            Query::ExeKnown => self.exe_known,
            Query::IconExists(mode, dir) => self.pictures.contains((mode, dir)),
            Query::IconReads(mode, dir) => self.readable.contains((mode, dir)),
            Query::IconMakes(mode, Some(dir)) => self.usable.contains((mode, dir)),
            Query::IconMakes(_, None) => self.square,
            Query::TrayBuilds(_) => self.tray,
            Query::TitleKnown => self.title is Some,
            Query::DelayMeasured => self.delay is Some,
        }
    }

    /// The desktop after a question: an icon that could be made was made, and a tray icon that
    /// could be built was built, with the tooltip of its mode.
    pub open spec fn after_question(self, query: Query) -> Desktop {
        match query {
            Query::IconMakes(_, from) => if self.says_yes(query) {
                Desktop { made_of: from, ..self }
            } else {
                self
            },
            Query::TrayBuilds(mode) => if self.tray {
                Desktop { icon: Some(mode), tooltip: mode::mode_tooltip_of(mode), ..self }
            } else {
                self
            },
            _ => self,
        }
    }

    /// The desktop after something was done.
    pub open spec fn after_action(self, action: Action) -> Desktop {
        match action {
            Action::StartClashtui(_) => Desktop { running: true, ..self },
            Action::StopClashtui => Desktop { running: false, ..self },
            Action::PatchTun(on) => if self.core_up {
                Desktop { tun: on, ..self }
            } else {
                self
            },
            Action::WriteProxyEnable(number) => Desktop { proxy_enabled: number != 0, ..self },
            Action::WriteProxyServer => Desktop {
                proxy_server: Some(settings::CORE_PROXY@),
                ..self
            },
            Action::ShowMode(mode) => Desktop { shown: mode, ..self },
            Action::ShowAutostart(on) => Desktop { autostart_shown: on, ..self },
            Action::WriteRunEntry(_) => Desktop { run_entry: true, ..self },
            Action::DeleteRunEntry => Desktop { run_entry: false, ..self },
            Action::ShowTooltip => match self.title {
                Some(name) => Desktop {
                    tooltip: name + " "@ + core_api::delay_text_of(self.delay),
                    ..self
                },
                None => self,
            },
            _ => self,
        }
    }

    /// Whether the picture of `mode` at `dir` exists, can be read and makes an icon. What the
    /// executable carries needs no file.
    pub open spec fn can_use(self, mode: IconMode, dir: IconDir) -> bool {
        &&& dir == IconDir::Embedded || self.pictures.contains((mode, dir))
        &&& self.readable.contains((mode, dir))
        &&& self.usable.contains((mode, dir))
    }

    /// The first place with a picture of `mode` that can be used.
    pub open spec fn first_picture(self, mode: IconMode) -> Option<IconDir> {
        if self.can_use(mode, IconDir::Assets) {
            Some(IconDir::Assets)
        } else if self.can_use(mode, IconDir::Beside) {
            Some(IconDir::Beside)
        } else if self.can_use(mode, IconDir::Source) {
            Some(IconDir::Source)
        } else if self.can_use(mode, IconDir::Embedded) {
            Some(IconDir::Embedded)
        } else {
            None
        }
    }
}

/// What was done, and the desktop that it left.
pub struct Outcome {
    pub done: Seq<Action>,
    pub desktop: Desktop,
}

impl Outcome {
    /// The outcome of going on from this one.
    pub open spec fn and_so(self, next: Outcome) -> Outcome {
        Outcome { done: self.done + next.done, desktop: next.desktop }
    }
}

/// Carries out steps, the first one first, until none is left; each answer's steps come before the
/// rest.
#[verifier::opaque]
pub open spec fn carry_out(todo: Seq<Step>, desktop: Desktop) -> Outcome
    decreases steps::total_cost(todo),
{
    if todo.len() == 0 {
        Outcome { done: seq![], desktop }
    } else {
        match todo[0] {
            Step::Act(action) => {
                let next = carry_out(todo.skip(1), desktop.after_action(action));
                Outcome { done: seq![action] + next.done, desktop: next.desktop }
            },
            Step::Ask(query) => {
                proof {
                    steps::lemma_answer_costs_less(query, desktop.says_yes(query));
                    steps::lemma_cost_of_chain(
                        steps::follow_up(query, desktop.says_yes(query)),
                        todo.skip(1),
                    );
                }
                carry_out(
                    steps::follow_up(query, desktop.says_yes(query)) + todo.skip(1),
                    desktop.after_question(query),
                )
            },
        }
    }
}

/// Whether `good` holds of the desktop before, between and after the steps.
#[verifier::opaque]
pub open spec fn holds_throughout(
    todo: Seq<Step>,
    desktop: Desktop,
    good: spec_fn(Desktop) -> bool,
) -> bool
    decreases steps::total_cost(todo),
{
    good(desktop) && (todo.len() > 0 ==> match todo[0] {
        Step::Act(action) => holds_throughout(todo.skip(1), desktop.after_action(action), good),
        Step::Ask(query) => {
            proof {
                steps::lemma_answer_costs_less(query, desktop.says_yes(query));
                steps::lemma_cost_of_chain(
                    steps::follow_up(query, desktop.says_yes(query)),
                    todo.skip(1),
                );
            }
            holds_throughout(
                steps::follow_up(query, desktop.says_yes(query)) + todo.skip(1),
                desktop.after_question(query),
                good,
            )
        },
    })
}

/// Steps one after the other have the one outcome after the other.
pub proof fn lemma_chain(first: Seq<Step>, then: Seq<Step>, desktop: Desktop)
    ensures
        carry_out(first + then, desktop) == carry_out(first, desktop).and_so(
            carry_out(then, carry_out(first, desktop).desktop),
        ),
    decreases steps::total_cost(first),
{
    reveal_with_fuel(carry_out, 2);
    let both: Seq<Step> = first + then;
    if first.len() == 0 {
        assert(both =~= then);
        assert(carry_out(first, desktop).and_so(carry_out(then, desktop)).done =~= carry_out(
            then,
            desktop,
        ).done);
    } else {
        assert(both[0] == first[0]);
        assert(both.skip(1) =~= first.skip(1) + then);
        match first[0] {
            Step::Act(action) => {
                lemma_chain(first.skip(1), then, desktop.after_action(action));
                assert(carry_out(both, desktop).done =~= carry_out(first, desktop).and_so(
                    carry_out(then, carry_out(first, desktop).desktop),
                ).done);
            },
            Step::Ask(query) => {
                let head: Seq<Step> = steps::follow_up(query, desktop.says_yes(query));
                steps::lemma_answer_costs_less(query, desktop.says_yes(query));
                steps::lemma_cost_of_chain(head, first.skip(1));
                assert(head + both.skip(1) =~= (head + first.skip(1)) + then);
                lemma_chain(head + first.skip(1), then, desktop.after_question(query));
            },
        }
    }
}

/// Nothing to do.
pub proof fn lemma_nothing(desktop: Desktop)
    ensures
        carry_out(seq![], desktop) == (Outcome { done: seq![], desktop }),
{
    reveal_with_fuel(carry_out, 1);
}

/// A single action.
pub proof fn lemma_act(action: Action, desktop: Desktop)
    ensures
        carry_out(seq![Step::Act(action)], desktop) == (Outcome {
            done: seq![action],
            desktop: desktop.after_action(action),
        }),
{
    reveal_with_fuel(carry_out, 2);
    let todo: Seq<Step> = seq![Step::Act(action)];
    assert(todo.skip(1) =~= seq![]);
    assert(carry_out(todo.skip(1), desktop.after_action(action)).done =~= seq![]);
    assert(carry_out(todo, desktop).done =~= seq![action]);
}

/// An action, and then the rest.
pub proof fn lemma_act_first(action: Action, rest: Seq<Step>, desktop: Desktop)
    ensures
        carry_out(seq![Step::Act(action)] + rest, desktop) == (Outcome {
            done: seq![action],
            desktop: desktop.after_action(action),
        }).and_so(carry_out(rest, desktop.after_action(action))),
{
    lemma_chain(seq![Step::Act(action)], rest, desktop);
    lemma_act(action, desktop);
}

/// A single question.
pub proof fn lemma_ask(query: Query, desktop: Desktop)
    ensures
        carry_out(seq![Step::Ask(query)], desktop) == carry_out(
            steps::follow_up(query, desktop.says_yes(query)),
            desktop.after_question(query),
        ),
{
    reveal_with_fuel(carry_out, 2);
    let todo: Seq<Step> = seq![Step::Ask(query)];
    let head: Seq<Step> = steps::follow_up(query, desktop.says_yes(query));
    assert(head + todo.skip(1) =~= head);
}

/// With nothing to do, what holds now holds throughout.
pub proof fn lemma_throughout_nothing(desktop: Desktop, good: spec_fn(Desktop) -> bool)
    ensures
        holds_throughout(seq![], desktop, good) == good(desktop),
{
    reveal_with_fuel(holds_throughout, 1);
}

/// What holds throughout an action and the rest.
pub proof fn lemma_throughout_act(
    action: Action,
    rest: Seq<Step>,
    desktop: Desktop,
    good: spec_fn(Desktop) -> bool,
)
    ensures
        holds_throughout(seq![Step::Act(action)] + rest, desktop, good) == (good(desktop)
            && holds_throughout(rest, desktop.after_action(action), good)),
{
    reveal_with_fuel(holds_throughout, 1);
    assert((seq![Step::Act(action)] + rest).skip(1) =~= rest);
}

/// What holds throughout a question and the rest.
pub proof fn lemma_throughout_ask(
    query: Query,
    rest: Seq<Step>,
    desktop: Desktop,
    good: spec_fn(Desktop) -> bool,
)
    ensures
        holds_throughout(seq![Step::Ask(query)] + rest, desktop, good) == (good(desktop)
            && holds_throughout(
            steps::follow_up(query, desktop.says_yes(query)) + rest,
            desktop.after_question(query),
            good,
        )),
{
    reveal_with_fuel(holds_throughout, 1);
    assert((seq![Step::Ask(query)] + rest).skip(1) =~= rest);
}

} // verus!
