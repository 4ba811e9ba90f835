//! The tray as a whole: it takes events, says what to do or to find out next, and takes the
//! answers.
use crate::command;
use crate::command::ServiceVerb;
use crate::core_api;
use crate::core_api::CoreReply;
use crate::icon;
use crate::icon::{Raster, RasterView};
use crate::menu;
use crate::menu::MenuEntry;
use crate::mode;
use crate::mode::{IconMode, ModeChecks};
use crate::settings;
use crate::steps;
use crate::steps::{Action, AutostartUse, Errand, Purpose, Query, Step};
use vstd::prelude::*;
use vstd::string::*;

verus! {

/// A button of the mouse.
#[derive(Clone, Copy, PartialEq, Eq, Structural, Debug)]
pub enum MouseButton {
    Left,
    Right,
    Middle,
}

/// Whether the button went up or down.
#[derive(Clone, Copy, PartialEq, Eq, Structural, Debug)]
pub enum MouseButtonState {
    Up,
    Down,
}

/// What the mouse did to the tray icon.
#[derive(Clone, Copy, PartialEq, Eq, Structural, Debug)]
pub enum TrayEvent {
    Click { button: MouseButton, button_state: MouseButtonState },
    DoubleClick { button: MouseButton },
    Enter,
    Move,
    Leave,
}

/// What the tray reacts to.
#[derive(Debug)]
pub enum UserEvent {
    TrayIcon(TrayEvent),
    /// The menu item with this identifier was chosen.
    Menu(String),
    /// The tooltip is due to be brought up to date.
    Tick,
}

/// What was found out.
pub enum Reply {
    /// Yes or no.
    Flag(bool),
    /// What a program printed, if it ran.
    Output(Option<Vec<u8>>),
    /// What came of a request to the core.
    Core(CoreReply),
    /// The number under `ProxyEnable` and the text under `ProxyServer`, as far as they could be read.
    Proxy { enable: Option<u32>, server: Option<String> },
    /// A text from the registry, if it could be read.
    Text(Option<String>),
    /// The contents of a file, if it could be read.
    File(Option<Vec<u8>>),
    /// How long a page took, if it came.
    Millis(Option<u64>),
}

/// Whether a reply means yes. A reply of another kind than the question asks for means no.
pub open spec fn means_yes(query: Query, reply: Reply) -> bool {
    match query {
        Query::IsRunning => reply matches Reply::Output(Some(stdout))
            && command::listing_names_clashtui(stdout@),
        Query::TunOn(_) => reply matches Reply::Core(answer) && (core_api::document_of(
            answer,
        ) matches Some(config) && core_api::tun_is_on(config)),
        Query::ProxyOn(_) => reply matches Reply::Proxy { enable: Some(number), server: Some(server) }
            && number != 0 && server@ == settings::CORE_PROXY@,
        Query::AutostartOn(_) => reply matches Reply::Text(Some(_)),
        Query::IconReads(_, _) => picture_in(reply) is Some,
        Query::TitleKnown => title_in(reply) is Some,
        Query::DelayMeasured => reply matches Reply::Millis(Some(_)),
        _ => reply matches Reply::Flag(true),
    }
}

/// The picture that a reply gives for the icon.
pub open spec fn picture_in(reply: Reply) -> Option<RasterView> {
    match reply {
        Reply::File(Some(png)) => icon::picture_of(Some(png@)),
        _ => None,
    }
}

/// Whether the picture that was read from a file, where there is one, keeps the ratio of the sides
/// that the file announces.
pub open spec fn keeps_sides(query: Query, reply: Reply, art: Option<RasterView>) -> bool {
    query is IconReads ==> (reply matches Reply::File(Some(png)) ==> (art matches Some(picture) ==> {
        &&& icon::keeps_ratio(
            picture,
            icon::width_of(png@),
            icon::height_of(png@),
            icon::ICON_SIDE as int,
        )
        &&& 1 <= picture.width <= icon::ICON_SIDE
        &&& 1 <= picture.height <= icon::ICON_SIDE
    }))
}

/// The name that a reply gives the mode.
pub open spec fn title_in(reply: Reply) -> Option<Seq<char>> {
    match reply {
        Reply::Core(answer) => core_api::mode_title_of(answer),
        _ => None,
    }
}

/// The delay that a reply gives.
pub open spec fn delay_in(reply: Reply) -> Option<u64> {
    match reply {
        Reply::Millis(delay) => delay,
        _ => None,
    }
}

/// What choosing an entry of the menu leads to. The entries of TUN and of the system proxy depend on
/// the mode in force, which is found out first.
pub open spec fn menu_steps(entry: MenuEntry) -> Seq<Step> {
    match entry {
        MenuEntry::Launch => steps::find_steps(Errand::Launch),
        MenuEntry::Web => seq![Step::Act(Action::OpenWeb)],
        MenuEntry::RestartCore => steps::find_steps(Errand::Service(ServiceVerb::Restart)),
        MenuEntry::StopCore => steps::find_steps(Errand::Service(ServiceVerb::Stop)),
        MenuEntry::Tun => seq![Step::Ask(Query::TunOn(Purpose::Click(IconMode::Tun)))],
        MenuEntry::SystemProxy => seq![
            Step::Ask(Query::TunOn(Purpose::Click(IconMode::SystemProxy))),
        ],
        MenuEntry::Normal => steps::switch_steps(IconMode::Normal),
        MenuEntry::Autostart => seq![Step::Ask(Query::AutostartOn(AutostartUse::Toggle))],
        MenuEntry::CloseProxy => steps::find_steps(Errand::Service(ServiceVerb::Stop)) + seq![
            Step::Act(Action::Exit),
        ],
        MenuEntry::Exit => seq![Step::Act(Action::Exit)],
    }
}

/// What the mouse on the tray icon leads to: a left click that ends, and a left double click,
/// toggle clashtui; coming over the icon brings the tooltip up to date.
pub open spec fn tray_steps(event: TrayEvent) -> Seq<Step> {
    match event {
        TrayEvent::Click { button: MouseButton::Left, button_state: MouseButtonState::Up } => seq![
            Step::Ask(Query::IsRunning),
        ],
        TrayEvent::DoubleClick { button: MouseButton::Left } => seq![Step::Ask(Query::IsRunning)],
        TrayEvent::Enter => seq![Step::Ask(Query::TitleKnown)],
        _ => seq![],
    }
}

/// The state of the tray.
pub struct ApplicationView {
    /// The identifiers of the menu entries, in the order of the menu.
    pub ids: Seq<Seq<char>>,
    /// What is left to do, the next step first.
    pub todo: Seq<Step>,
    /// The mode that the check marks show.
    pub mode: IconMode,
    /// Whether the check mark of autostart is set.
    pub autostart: bool,
    /// The picture that was last read for the icon.
    pub art: Option<RasterView>,
    /// The name that the core last gave the mode.
    pub title: Seq<char>,
    /// The tooltip that was last worked out.
    pub tooltip: Seq<char>,
}

impl ApplicationView {
    /// What an event leads to.
    pub open spec fn event_steps(self, event: UserEvent) -> Seq<Step> {
        match event {
            UserEvent::TrayIcon(mouse) => tray_steps(mouse),
            UserEvent::Menu(id) => match menu::entry_from(self.ids, id@, 0) {
                Some(entry) => menu_steps(entry),
                None => seq![],
            },
            UserEvent::Tick => seq![Step::Ask(Query::TitleKnown)],
        }
    }

    /// The state with more to do at the end.
    pub open spec fn with_more(self, more: Seq<Step>) -> ApplicationView {
        ApplicationView { todo: self.todo + more, ..self }
    }

    /// The state once the first step, which is to do `action`, is handed out.
    pub open spec fn after_action(self, action: Action) -> ApplicationView {
        ApplicationView {
            todo: self.todo.skip(1),
            mode: match action {
                Action::ShowMode(mode) => mode,
                _ => self.mode,
            },
            autostart: match action {
                Action::ShowAutostart(on) => on,
                _ => self.autostart,
            },
            ..self
        }
    }

    /// The state once the first step, which is the question `query`, is answered: what the answer
    /// leads to comes first, and a picture, a name or a tooltip that came with it is kept.
    pub open spec fn after_answer(self, query: Query, reply: Reply) -> ApplicationView {
        ApplicationView {
            todo: steps::follow_up(query, means_yes(query, reply)) + self.todo.skip(1),
            art: if query is IconReads {
                picture_in(reply)
            } else {
                self.art
            },
            title: match title_in(reply) {
                Some(name) => if query is TitleKnown {
                    name
                } else {
                    self.title
                },
                None => self.title,
            },
            tooltip: if query is DelayMeasured {
                self.title + " "@ + core_api::delay_text_of(delay_in(reply))
            } else {
                self.tooltip
            },
            ..self
        }
    }

    /// Whether a picture is at hand whenever an icon is to be made of one, and has all its pixels.
    pub open spec fn is_ready(self) -> bool {
        &&& forall|i: int|
            0 <= i < self.todo.len() && #[trigger] needs_picture(self.todo[i]) ==> i == 0
                && self.art is Some
        &&& self.art matches Some(picture) ==> picture.is_full()
    }
}

/// Whether a step is to make an icon of a picture.
pub open spec fn needs_picture(step: Step) -> bool {
    step matches Step::Ask(Query::IconMakes(_, Some(_)))
}

/// The tray.
pub struct Application {
    ids: Vec<String>,
    todo: Vec<Step>,
    mode: IconMode,
    autostart: bool,
    art: Option<Raster>,
    title: String,
    tooltip: String,
}

impl View for Application {
    type V = ApplicationView;

    closed spec fn view(&self) -> ApplicationView {
        ApplicationView {
            ids: menu::spelled_ids(self.ids@),
            todo: self.todo@,
            mode: self.mode,
            autostart: self.autostart,
            art: match self.art {
                Some(raster) => Some(raster@),
                None => None,
            },
            title: self.title@,
            tooltip: self.tooltip@,
        }
    }
}

impl Application {
    /// A tray whose menu entries have these identifiers, in the order of the menu. It first finds
    /// out the mode and the autostart entry, for the check marks, and puts the menu together.
    pub fn new(ids: Vec<String>) -> (app: Self)
        ensures
            app@ == (ApplicationView {
                ids: menu::spelled_ids(ids@),
                todo: seq![Step::Ask(Query::TunOn(Purpose::FirstChecks))],
                mode: IconMode::Normal,
                autostart: false,
                art: None,
                title: seq![],
                tooltip: seq![],
            }),
            app@.is_ready(),
    {
        let app = Application {
            ids,
            todo: vec![Step::Ask(Query::TunOn(Purpose::FirstChecks))],
            mode: IconMode::Normal,
            autostart: false,
            art: None,
            title: String::new(),
            tooltip: String::new(),
        };
        assert(app@.todo =~= seq![Step::Ask(Query::TunOn(Purpose::FirstChecks))]);
        assert(app@.title =~= seq![]);
        assert(app@.tooltip =~= seq![]);
        app
    }

    /// The mode that the check marks show.
    pub fn mode(&self) -> (mode: IconMode)
        ensures
            mode == self@.mode,
    {
        self.mode
    }

    /// Whether the check mark of autostart is set.
    pub fn autostart(&self) -> (on: bool)
        ensures
            on == self@.autostart,
    {
        self.autostart
    }

    /// The tooltip that was last worked out.
    pub fn tooltip(&self) -> (text: String)
        ensures
            text@ == self@.tooltip,
    {
        self.tooltip.clone()
    }

    /// The event loop woke up: at its start, the tray icon is built.
    pub fn new_events(&mut self, starting: bool)
        ensures
            final(self)@ == (if starting {
                old(self)@.with_more(steps::rebuild_steps())
            } else {
                old(self)@
            }),
            old(self)@.is_ready() ==> final(self)@.is_ready(),
    {
        if starting {
            self.rebuild_tray();
        }
    }

    /// Build the tray icon anew: find out the mode, show its check marks, and make its icon.
    pub fn rebuild_tray(&mut self)
        ensures
            final(self)@ == old(self)@.with_more(steps::rebuild_steps()),
            old(self)@.is_ready() ==> final(self)@.is_ready(),
    {
        self.todo.push(Step::Ask(Query::TunOn(Purpose::Rebuild)));
        assert(self@.todo =~= old(self)@.todo + steps::rebuild_steps());
        proof {
            if old(self)@.is_ready() {
                lemma_more_keeps_ready(old(self)@, steps::rebuild_steps());
            }
        }
    }

    /// The check marks of the three mode entries.
    pub fn refresh_mode_checks(&self) -> (checks: ModeChecks)
        ensures
            checks == mode::checks_of(self@.mode),
    {
        mode::mode_checks(self.mode)
    }

    /// Something happened: what it leads to is to be done after all else.
    pub fn user_event(&mut self, event: UserEvent)
        ensures
            final(self)@ == old(self)@.with_more(old(self)@.event_steps(event)),
            old(self)@.is_ready() ==> final(self)@.is_ready(),
    {
        let mut more: Vec<Step> = match &event {
            UserEvent::TrayIcon(mouse) => after_mouse(*mouse),
            UserEvent::Menu(id) => match menu::entry_with_id(&self.ids, id) {
                Some(entry) => after_choice(entry),
                None => Vec::new(),
            },
            UserEvent::Tick => vec![Step::Ask(Query::TitleKnown)],
        };
        let ghost steps: Seq<Step> = more@;
        assert(steps == self@.event_steps(event));
        self.todo.append(&mut more);
        proof {
            if old(self)@.is_ready() {
                lemma_events_need_no_picture(old(self)@, event);
                lemma_more_keeps_ready(old(self)@, steps);
            }
        }
    }

    /// The next step, if any is left. An action is handed out once; a question stays until it is
    /// answered.
    pub fn next(&mut self) -> (step: Option<Step>)
        ensures
            match step {
                None => old(self)@.todo.len() == 0 && final(self)@ == old(self)@,
                Some(Step::Ask(query)) => old(self)@.todo.len() > 0 && old(self)@.todo[0]
                    == Step::Ask(query) && final(self)@ == old(self)@,
                Some(Step::Act(action)) => old(self)@.todo.len() > 0 && old(self)@.todo[0]
                    == Step::Act(action) && final(self)@ == old(self)@.after_action(action)
                    && steps::total_cost(final(self)@.todo) < steps::total_cost(old(self)@.todo),
            },
            old(self)@.is_ready() ==> final(self)@.is_ready(),
    {
        if self.todo.len() == 0 {
            return None;
        }
        match self.todo[0] {
            Step::Ask(query) => Some(Step::Ask(query)),
            Step::Act(action) => {
                let _ = self.todo.remove(0);
                assert(self@.todo =~= old(self)@.todo.skip(1));
                match action {
                    Action::ShowMode(mode) => {
                        self.mode = mode;
                    },
                    Action::ShowAutostart(on) => {
                        self.autostart = on;
                    },
                    _ => {},
                }
                proof {
                    if old(self)@.is_ready() {
                        lemma_rest_needs_no_picture(old(self)@);
                    }
                }
                Some(Step::Act(action))
            },
        }
    }

    /// Takes the reply to the question that is next. Where no question is next, nothing changes.
    pub fn answer(&mut self, reply: Reply)
        ensures
            old(self)@.todo.len() > 0 ==> (old(self)@.todo[0] matches Step::Ask(query) ==> {
                &&& final(self)@ == old(self)@.after_answer(query, reply)
                &&& steps::total_cost(final(self)@.todo) < steps::total_cost(old(self)@.todo)
                &&& keeps_sides(query, reply, final(self)@.art)
                &&& query == Query::IsRunning ==> (reply matches Reply::Output(Some(stdout)) ==> (
                final(self)@.todo[0] == Step::Act(Action::StopClashtui)
                    <==> command::decoded_names_clashtui(stdout@)))
            }),
            !(old(self)@.todo.len() > 0 && old(self)@.todo[0] is Ask) ==> final(self)@ == old(
                self,
            )@,
            old(self)@.is_ready() ==> final(self)@.is_ready(),
    {
        if self.todo.len() == 0 {
            return;
        }
        match self.todo[0] {
            Step::Act(_) => {},
            Step::Ask(query) => {
                let yes: bool = self.take_in(query, &reply);
                let mut todo: Vec<Step> = steps::answered(query, yes);
                let _ = self.todo.remove(0);
                todo.append(&mut self.todo);
                self.todo = todo;
                assert(self@.todo =~= steps::follow_up(query, yes) + old(self)@.todo.skip(1));
                proof {
                    steps::lemma_answer_costs_less(query, yes);
                    steps::lemma_cost_of_chain(
                        steps::follow_up(query, yes),
                        old(self)@.todo.skip(1),
                    );
                    if old(self)@.is_ready() {
                        lemma_answer_keeps_ready(old(self)@, query, reply);
                    }
                }
            },
        }
    }

    /// Keeps what came with a reply, and says whether it means yes.
    fn take_in(&mut self, query: Query, reply: &Reply) -> (yes: bool)
        ensures
            yes == means_yes(query, *reply),
            final(self)@ == (ApplicationView {
                todo: old(self)@.todo,
                ..old(self)@.after_answer(query, *reply)
            }),
            final(self)@.art matches Some(picture) ==> old(self)@.art == Some(picture)
                || picture.is_full(),
            keeps_sides(query, *reply, final(self)@.art),
            query == Query::IsRunning ==> (*reply matches Reply::Output(Some(stdout)) ==> yes
                == command::decoded_names_clashtui(stdout@)),
    {
        match query {
            Query::IsRunning => match reply {
                Reply::Output(Some(stdout)) => command::clashtui_running(Some(stdout.as_slice())),
                _ => false,
            },
            Query::TunOn(_) => match reply {
                Reply::Core(answer) => core_api::tun_enabled(answer),
                _ => false,
            },
            Query::ProxyOn(_) => match reply {
                Reply::Proxy { enable, server } => settings::system_proxy_enabled(*enable, server),
                _ => false,
            },
            Query::AutostartOn(_) => match reply {
                Reply::Text(text) => settings::autostart_enabled(text),
                _ => false,
            },
            Query::IconReads(_, _) => {
                self.art = match reply {
                    Reply::File(Some(png)) => icon::load_picture(Some(png.as_slice())),
                    _ => None,
                };
                self.art.is_some()
            },
            Query::TitleKnown => {
                let title: Option<String> = match reply {
                    Reply::Core(answer) => core_api::mode_title(answer),
                    _ => None,
                };
                match title {
                    Some(name) => {
                        self.title = name;
                        true
                    },
                    None => false,
                }
            },
            Query::DelayMeasured => {
                let delay: Option<u64> = match reply {
                    Reply::Millis(delay) => *delay,
                    _ => None,
                };
                self.tooltip = core_api::delay_tooltip(self.title.as_str(), delay);
                delay.is_some()
            },
            _ => match reply {
                Reply::Flag(yes) => *yes,
                _ => false,
            },
        }
    }

    /// The pixels to make an icon of, where that is the next question: the picture that was read,
    /// or the plain square.
    pub fn load_icon(&self) -> (pixels: Option<Raster>)
        ensures
            match pixels {
                Some(raster) => self@.todo.len() > 0 && (match self@.todo[0] {
                    Step::Ask(Query::IconMakes(_, Some(_))) => self@.art == Some(raster@),
                    Step::Ask(Query::IconMakes(mode, None)) => raster@ == icon::square_of(mode),
                    _ => false,
                }),
                None => self@.todo.len() > 0 ==> (match self@.todo[0] {
                    Step::Ask(Query::IconMakes(_, Some(_))) => self@.art is None,
                    Step::Ask(Query::IconMakes(_, None)) => false,
                    _ => true,
                }),
            },
            // in a tray that is ready, pixels are never missing
            self@.is_ready() ==> (match pixels {
                Some(raster) => raster@.is_full(),
                None => self@.todo.len() > 0 ==> !(self@.todo[0] matches Step::Ask(
                    Query::IconMakes(_, _),
                )),
            }),
    {
        if self.todo.len() == 0 {
            return None;
        }
        assert(self@.is_ready() && needs_picture(self@.todo[0]) ==> self@.art is Some);
        match self.todo[0] {
            Step::Ask(Query::IconMakes(_, Some(_))) => match &self.art {
                Some(raster) => Some(icon::copy_of(raster)),
                None => None,
            },
            Step::Ask(Query::IconMakes(mode, None)) => Some(icon::solid_square(mode)),
            _ => None,
        }
    }
}

fn after_mouse(event: TrayEvent) -> (steps: Vec<Step>)
    ensures
        steps@ == tray_steps(event),
{
    match event {
        TrayEvent::Click { button: MouseButton::Left, button_state: MouseButtonState::Up } => vec![
            Step::Ask(Query::IsRunning),
        ],
        TrayEvent::DoubleClick { button: MouseButton::Left } => vec![Step::Ask(Query::IsRunning)],
        TrayEvent::Enter => vec![Step::Ask(Query::TitleKnown)],
        _ => Vec::new(),
    }
}

fn after_choice(entry: MenuEntry) -> (steps: Vec<Step>)
    ensures
        steps@ == menu_steps(entry),
{
    match entry {
        MenuEntry::Launch => vec![Step::Ask(Query::IsBeside(Errand::Launch))],
        MenuEntry::Web => vec![Step::Act(Action::OpenWeb)],
        MenuEntry::RestartCore => vec![
            Step::Ask(Query::IsBeside(Errand::Service(ServiceVerb::Restart))),
        ],
        MenuEntry::StopCore => vec![
            Step::Ask(Query::IsBeside(Errand::Service(ServiceVerb::Stop))),
        ],
        MenuEntry::Tun => vec![Step::Ask(Query::TunOn(Purpose::Click(IconMode::Tun)))],
        MenuEntry::SystemProxy => vec![
            Step::Ask(Query::TunOn(Purpose::Click(IconMode::SystemProxy))),
        ],
        MenuEntry::Normal => steps::switch_mode(IconMode::Normal),
        MenuEntry::Autostart => vec![Step::Ask(Query::AutostartOn(AutostartUse::Toggle))],
        MenuEntry::CloseProxy => {
            let steps: Vec<Step> = vec![
                Step::Ask(Query::IsBeside(Errand::Service(ServiceVerb::Stop))),
                Step::Act(Action::Exit),
            ];
            assert(steps@ =~= menu_steps(entry));
            steps
        },
        MenuEntry::Exit => vec![Step::Act(Action::Exit)],
    }
}

proof fn lemma_events_need_no_picture(app: ApplicationView, event: UserEvent)
    ensures
        forall|i: int|
            0 <= i < app.event_steps(event).len() ==> !needs_picture(
                #[trigger] app.event_steps(event)[i],
            ),
{
}

proof fn lemma_rest_needs_no_picture(app: ApplicationView)
    requires
        app.is_ready(),
        app.todo.len() > 0,
    ensures
        forall|i: int|
            0 <= i < app.todo.skip(1).len() ==> !needs_picture(#[trigger] app.todo.skip(1)[i]),
{
    assert forall|i: int| 0 <= i < app.todo.skip(1).len() implies !needs_picture(
        #[trigger] app.todo.skip(1)[i],
    ) by {
        assert(app.todo.skip(1)[i] == app.todo[i + 1]);
        assert(!needs_picture(app.todo[i + 1]));
    }
}

proof fn lemma_answer_keeps_ready(app: ApplicationView, query: Query, reply: Reply)
    requires
        app.is_ready(),
        app.todo.len() > 0,
        app.todo[0] == Step::Ask(query),
        app.after_answer(query, reply).art matches Some(picture) ==> picture.is_full(),
    ensures
        app.after_answer(query, reply).is_ready(),
{
    let after = app.after_answer(query, reply);
    let head: Seq<Step> = steps::follow_up(query, means_yes(query, reply));
    lemma_rest_needs_no_picture(app);
    assert forall|i: int| 0 <= i < after.todo.len() && #[trigger] needs_picture(after.todo[i]) implies i
        == 0 && after.art is Some by {
        if i < head.len() {
            assert(after.todo[i] == head[i]);
        } else {
            assert(after.todo[i] == app.todo.skip(1)[i - head.len()]);
        }
    }
}

proof fn lemma_more_keeps_ready(app: ApplicationView, more: Seq<Step>)
    requires
        app.is_ready(),
        forall|i: int| 0 <= i < more.len() ==> !needs_picture(#[trigger] more[i]),
    ensures
        app.with_more(more).is_ready(),
{
    let after = app.with_more(more);
    assert forall|i: int| 0 <= i < after.todo.len() && #[trigger] needs_picture(after.todo[i]) implies i
        == 0 && after.art is Some by {
        if i < app.todo.len() {
            assert(app.todo[i] == after.todo[i]);
        } else {
            assert(more[i - app.todo.len()] == after.todo[i]);
        }
    }
}

} // verus!
