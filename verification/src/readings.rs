//! What the texts, replies and pictures that the tray handles mean, in plain terms.
use crate::application;
use crate::application::{ApplicationView, Reply, UserEvent};
use crate::command;
use crate::command::CommandLine;
use crate::core_api;
use crate::core_api::CoreReply;
use crate::icon;
use crate::icon::{Raster, RasterView};
use crate::json;
use crate::json::Json;
use crate::laws;
use crate::menu;
use crate::menu::MenuEntry;
use crate::mode;
use crate::mode::IconMode;
use crate::paths;
use crate::paths::{Candidate, IconDir};
use crate::settings;
use crate::steps;
use crate::steps::{Action, AutostartUse, Errand, Purpose, Query, Step};
use crate::text;
use vstd::prelude::*;
use vstd::string::*;

verus! {

// ---- text

/// A text occurs wherever it stands between any two others.
pub proof fn law_text_occurs_at_any_place(before: Seq<char>, part: Seq<char>, after: Seq<char>)
    ensures
        text::occurs_in(part, before + part + after),
{
    let whole: Seq<char> = before + part + after;
    assert(whole.subrange(before.len() as int, (before.len() + part.len()) as int) =~= part);
}

/// A text that occurs in another stands in it between what comes before and what comes after.
pub proof fn law_text_that_occurs_can_be_cut_out(part: Seq<char>, whole: Seq<char>)
    requires
        text::occurs_in(part, whole),
    ensures
        exists|before: Seq<char>, after: Seq<char>| whole == #[trigger] (before + part + after),
{
    let i: int = choose|i: int|
        0 <= i && i + part.len() <= whole.len() && #[trigger] whole.subrange(i, i + part.len())
            == part;
    let before: Seq<char> = whole.subrange(0, i);
    let after: Seq<char> = whole.subrange(i + part.len(), whole.len() as int);
    assert(whole =~= before + whole.subrange(i, i + part.len()) + after);
    assert(whole == before + part + after);
}

/// Lowering moves the 26 capital letters to the small ones, which stand 32 places on, and leaves
/// every other character as it is.
pub proof fn law_capitals_are_lowered(c: char)
    ensures
        65 <= c as u32 <= 90 ==> text::ascii_lower(c) as u32 == c as u32 + 32,
        !(65 <= c as u32 <= 90) ==> text::ascii_lower(c) == c,
{
}

// ---- the process list

/// Whether `clashtui.exe` is spelled out in `bytes` from position `at` on, each letter as a capital
/// or a small one.
pub open spec fn name_stands_at(bytes: Seq<u8>, at: int) -> bool {
    &&& 0 <= at
    &&& at + 12 <= bytes.len()
    &&& bytes[at] == 99 || bytes[at] == 67
    &&& bytes[at + 1] == 108 || bytes[at + 1] == 76
    &&& bytes[at + 2] == 97 || bytes[at + 2] == 65
    &&& bytes[at + 3] == 115 || bytes[at + 3] == 83
    &&& bytes[at + 4] == 104 || bytes[at + 4] == 72
    &&& bytes[at + 5] == 116 || bytes[at + 5] == 84
    &&& bytes[at + 6] == 117 || bytes[at + 6] == 85
    &&& bytes[at + 7] == 105 || bytes[at + 7] == 73
    &&& bytes[at + 8] == 46
    &&& bytes[at + 9] == 101 || bytes[at + 9] == 69
    &&& bytes[at + 10] == 120 || bytes[at + 10] == 88
    &&& bytes[at + 11] == 101 || bytes[at + 11] == 69
}

proof fn lemma_name_lowered(bytes: Seq<u8>, at: int)
    requires
        forall|i: int| 0 <= i < bytes.len() ==> #[trigger] bytes[i] < 128,
        0 <= at,
        at + 12 <= bytes.len(),
    ensures
        ({
            let lower = command::ascii_text(bytes).map_values(|c: char| text::ascii_lower(c));
            name_stands_at(bytes, at) <==> lower.subrange(at, at + 12) == "clashtui.exe"@
        }),
{
    let lower: Seq<char> = command::ascii_text(bytes).map_values(|c: char| text::ascii_lower(c));
    let part: Seq<char> = lower.subrange(at, at + 12);
    reveal_strlit("clashtui.exe");
    assert forall|k: int| 0 <= k < 12 implies part[k] == text::ascii_lower(
        #[trigger] bytes[at + k] as char,
    ) by {}
    assert(bytes[at + 0] < 128 && bytes[at + 1] < 128 && bytes[at + 2] < 128 && bytes[at + 3]
        < 128);
    assert(bytes[at + 4] < 128 && bytes[at + 5] < 128 && bytes[at + 6] < 128 && bytes[at + 7]
        < 128);
    assert(bytes[at + 8] < 128 && bytes[at + 9] < 128 && bytes[at + 10] < 128 && bytes[at + 11]
        < 128);
    if name_stands_at(bytes, at) {
        assert(part =~= "clashtui.exe"@);
    }
    if part == "clashtui.exe"@ {
        assert(part[0] == 'c' && part[1] == 'l' && part[2] == 'a' && part[3] == 's');
        assert(part[4] == 'h' && part[5] == 't' && part[6] == 'u' && part[7] == 'i');
        assert(part[8] == '.' && part[9] == 'e' && part[10] == 'x' && part[11] == 'e');
    }
}

/// Of ASCII output of the process list, clashtui is running just where its name stands in it, at any
/// place and in any case. A click then has the running clashtui stopped, and else has one looked for.
pub proof fn law_click_goes_by_the_listing(app: ApplicationView, stdout: Vec<u8>)
    requires
        forall|i: int| 0 <= i < stdout@.len() ==> #[trigger] stdout@[i] < 128,
        app.todo.len() > 0,
        app.todo[0] == Step::Ask(Query::IsRunning),
    ensures
        ({
            let after = app.after_answer(Query::IsRunning, Reply::Output(Some(stdout)));
            let named = exists|at: int| #[trigger] name_stands_at(stdout@, at);
            &&& named ==> after.todo == seq![Step::Act(Action::StopClashtui)] + app.todo.skip(1)
            &&& !named ==> after.todo == seq![Step::Ask(Query::IsBeside(Errand::Launch))]
                + app.todo.skip(1)
        }),
{
    let bytes: Seq<u8> = stdout@;
    let lower: Seq<char> = command::ascii_text(bytes).map_values(|c: char| text::ascii_lower(c));
    reveal_strlit("clashtui.exe");
    assert(command::is_ascii_bytes(bytes));
    if exists|at: int| #[trigger] name_stands_at(bytes, at) {
        let at: int = choose|at: int| #[trigger] name_stands_at(bytes, at);
        lemma_name_lowered(bytes, at);
        assert(lower.subrange(at, at + "clashtui.exe"@.len()) == "clashtui.exe"@);
        assert(text::occurs_in("clashtui.exe"@, lower));
    } else if text::occurs_in("clashtui.exe"@, lower) {
        let at: int = choose|i: int|
            0 <= i && i + "clashtui.exe"@.len() <= lower.len() && #[trigger] lower.subrange(
                i,
                i + "clashtui.exe"@.len(),
            ) == "clashtui.exe"@;
        lemma_name_lowered(bytes, at);
        assert(name_stands_at(bytes, at));
    }
}

/// A process list that could not be had, and a reply of another kind, have clashtui looked for.
pub proof fn law_click_without_a_listing(app: ApplicationView, reply: Reply)
    requires
        app.todo.len() > 0,
        app.todo[0] == Step::Ask(Query::IsRunning),
        !(reply matches Reply::Output(Some(_))),
    ensures
        app.after_answer(Query::IsRunning, reply).todo == seq![
            Step::Ask(Query::IsBeside(Errand::Launch)),
        ] + app.todo.skip(1),
{
}

/// A listing means that clashtui is running just where it names it, and no other reply does.
pub proof fn law_reply_on_the_listing(stdout: Vec<u8>, other: Reply)
    ensures
        application::means_yes(Query::IsRunning, Reply::Output(Some(stdout)))
            <==> command::listing_names_clashtui(stdout@),
        !(other matches Reply::Output(Some(_))) ==> !application::means_yes(Query::IsRunning, other),
{
}

/// Output that is not all ASCII is decoded and lowered by std first; it shows a running clashtui just
/// where the name then occurs.
pub proof fn law_other_listings_are_lowered(stdout: Seq<u8>)
    requires
        exists|i: int| 0 <= i < stdout.len() && #[trigger] stdout[i] >= 128,
    ensures
        command::listing_names_clashtui(stdout) == text::occurs_in(
            "clashtui.exe"@,
            text::lowercase(text::utf8_lossy(stdout)),
        ),
{
}

// ---- documents of the core

/// An object has the members that are in it, under their own names, and no others; nothing else has
/// members.
pub proof fn law_members_of_objects(members: Map<Seq<char>, Json>, key: Seq<char>, other: Json)
    ensures
        members.contains_key(key) ==> Json::Object(members).member(key) == Some(members[key]),
        !members.contains_key(key) ==> Json::Object(members).member(key) is None,
        !(other is Object) ==> other.member(key) is None,
{
}

/// A configuration whose `tun` is an object with a boolean `enable` is read as that boolean, whatever
/// else the two objects hold.
pub proof fn law_tun_is_the_flag(
    config: Map<Seq<char>, Json>,
    tun: Map<Seq<char>, Json>,
    enabled: bool,
)
    requires
        config.contains_key("tun"@),
        config["tun"@] == Json::Object(tun),
        tun.contains_key("enable"@),
        tun["enable"@] == Json::Bool(enabled),
    ensures
        core_api::tun_is_on(Json::Object(config)) == enabled,
{
}

/// TUN is read as on from no other document than an object whose `tun` is an object whose `enable` is
/// `true`.
pub proof fn law_tun_is_on_by_its_flag_alone(config: Json)
    requires
        core_api::tun_is_on(config),
    ensures
        config matches Json::Object(members) && members.contains_key("tun"@) && (members["tun"@]
            matches Json::Object(tun) && tun.contains_key("enable"@) && tun["enable"@]
            == Json::Bool(true)),
{
}

/// What is asked of the core names `tun.enable` with the wanted value, and nothing else.
pub proof fn law_tun_request_is_minimal(enabled: bool, key: Seq<char>)
    ensures
        ({
            let request = core_api::tun_request(enabled);
            &&& request matches Json::Object(members) && members.contains_key("tun"@)
                && (members["tun"@] matches Json::Object(tun) && tun.contains_key("enable"@)
                && tun["enable"@] == Json::Bool(enabled) && (key != "enable"@
                ==> !tun.contains_key(key)))
            &&& key != "tun"@ ==> request.member(key) is None
        }),
{
}

/// An answer carries the document that its body parses to, just where its status is one of the two
/// hundreds and its body could be read.
pub proof fn law_successful_answers_carry_documents(status: u16, body: Vec<u8>)
    ensures
        status / 100 == 2 ==> core_api::document_of(
            CoreReply::Answer { status, body: Some(body) },
        ) == json::json_parsed(body@),
        status / 100 != 2 ==> core_api::document_of(
            CoreReply::Answer { status, body: Some(body) },
        ) is None,
        core_api::document_of(CoreReply::Answer { status, body: None }) is None,
        core_api::document_of(CoreReply::Unreachable) is None,
{
}

/// The mode is named by the text at `proxies.总体模式.now`, whatever else the three objects hold.
pub proof fn law_mode_is_named_by_its_group(
    groups: Map<Seq<char>, Json>,
    proxies: Map<Seq<char>, Json>,
    group: Map<Seq<char>, Json>,
    name: Seq<char>,
)
    requires
        groups.contains_key("proxies"@),
        groups["proxies"@] == Json::Object(proxies),
        proxies.contains_key("总体模式"@),
        proxies["总体模式"@] == Json::Object(group),
        group.contains_key("now"@),
        group["now"@] == Json::Text(name),
    ensures
        core_api::group_choice(Json::Object(groups)) == Some(name),
{
}

/// No other document names the mode.
pub proof fn law_mode_is_named_by_nothing_else(groups: Json)
    requires
        core_api::group_choice(groups) is Some,
    ensures
        groups matches Json::Object(members) && members.contains_key("proxies"@) && (
        members["proxies"@] matches Json::Object(proxies) && proxies.contains_key("总体模式"@) && (
        proxies["总体模式"@] matches Json::Object(group) && group.contains_key("now"@) && group["now"@]
            == Json::Text(core_api::group_choice(groups)->0))),
{
}

/// The name of the mode in a reply is the one in its document, and none where it carries none.
pub proof fn law_mode_title_is_in_the_document(status: u16, body: Vec<u8>, groups: Json)
    requires
        json::json_parsed(body@) == Some(groups),
    ensures
        ({
            let reply = CoreReply::Answer { status, body: Some(body) };
            &&& status / 100 == 2 ==> core_api::mode_title_of(reply) == core_api::group_choice(groups)
            &&& status / 100 != 2 ==> core_api::mode_title_of(reply) is None
        }),
        core_api::mode_title_of(CoreReply::Answer { status, body: None }) is None,
        core_api::mode_title_of(CoreReply::Unreachable) is None,
{
}

/// A body that does not parse names no mode and has TUN read as off.
pub proof fn law_broken_bodies_say_nothing(status: u16, body: Vec<u8>)
    requires
        json::json_parsed(body@) is None,
    ensures
        core_api::document_of(CoreReply::Answer { status, body: Some(body) }) is None,
        core_api::mode_title_of(CoreReply::Answer { status, body: Some(body) }) is None,
{
}

// ---- the delay

/// The number that digits give, read in base ten from the left.
pub open spec fn number_read(digits: Seq<char>) -> int
    decreases digits.len(),
{
    if digits.len() == 0 {
        0
    } else {
        10 * number_read(digits.drop_last()) + (digits.last() as u32 - 48)
    }
}

/// The digits of a number read back as that number. They are digits, and the first is no zero but in
/// the number zero.
pub proof fn law_digits_read_back(n: nat)
    ensures
        number_read(core_api::decimal(n)) == n,
        core_api::decimal(n).len() > 0,
        forall|i: int|
            0 <= i < core_api::decimal(n).len() ==> 48 <= #[trigger] core_api::decimal(n)[i] as u32
                <= 57,
        n > 0 ==> core_api::decimal(n)[0] as u32 != 48,
        n == 0 ==> core_api::decimal(n).len() == 1,
    decreases n,
{
    reveal_with_fuel(number_read, 2);
    let digits: Seq<char> = core_api::decimal(n);
    if n < 10 {
        assert(digits.drop_last() =~= seq![]);
    } else {
        law_digits_read_back(n / 10);
        assert(digits.drop_last() =~= core_api::decimal(n / 10));
        assert(digits[0] == core_api::decimal(n / 10)[0]);
    }
}

/// Different numbers have different digits.
pub proof fn law_digits_tell_numbers_apart(a: nat, b: nat)
    requires
        core_api::decimal(a) == core_api::decimal(b),
    ensures
        a == b,
{
    law_digits_read_back(a);
    law_digits_read_back(b);
}

/// A delay of at most five seconds is shown in milliseconds, by digits that read back as it and the
/// unit; a longer one, and one that could not be measured, is shown as `FALSE`.
pub proof fn law_delay_is_shown_in_milliseconds(delay: Option<u64>)
    ensures
        ({
            let shown = core_api::delay_text_of(delay);
            match delay {
                Some(ms) => {
                    &&& ms <= 5000 ==> shown.len() > 2 && shown.subrange(
                        shown.len() - 2,
                        shown.len() as int,
                    ) == "ms"@ && number_read(shown.subrange(0, shown.len() - 2)) == ms
                        && shown.subrange(0, shown.len() - 2) == core_api::decimal(ms as nat)
                    &&& ms > 5000 ==> shown == "FALSE"@
                },
                None => shown == "FALSE"@,
            }
        }),
{
    if let Some(ms) = delay {
        law_digits_read_back(ms as nat);
        reveal_strlit("ms");
        let digits: Seq<char> = core_api::decimal(ms as nat);
        assert((digits + "ms"@).subrange(0, digits.len() as int) =~= digits);
        assert((digits + "ms"@).subrange(digits.len() as int, (digits.len() + 2) as int) =~= "ms"@);
    }
}

// ---- replies

/// The core's reply to a request for its configuration means that TUN is on just where it is a
/// success whose body parses to an object whose `tun` is an object whose `enable` is `true`.
pub proof fn law_reply_on_tun(purpose: Purpose, status: u16, body: Vec<u8>, other: Reply)
    ensures
        ({
            let query = Query::TunOn(purpose);
            let reply = Reply::Core(CoreReply::Answer { status, body: Some(body) });
            application::means_yes(query, reply) <==> status / 100 == 2 && (json::json_parsed(body@)
                matches Some(Json::Object(config)) && config.contains_key("tun"@) && (config["tun"@]
                matches Json::Object(tun) && tun.contains_key("enable"@) && tun["enable"@]
                == Json::Bool(true)))
        }),
        !(other matches Reply::Core(CoreReply::Answer { status: _, body: Some(_) }))
            ==> !application::means_yes(Query::TunOn(purpose), other),
{
}

/// The registry's reply means that the system proxy is on just where its switch is not zero and its
/// address is that of the core.
pub proof fn law_reply_on_the_proxy(
    purpose: Purpose,
    number: u32,
    address: String,
    enable: Option<u32>,
    server: Option<String>,
    other: Reply,
)
    ensures
        ({
            let query = Query::ProxyOn(purpose);
            &&& application::means_yes(
                query,
                Reply::Proxy { enable: Some(number), server: Some(address) },
            ) <==> number > 0 && address@ == "127.0.0.1:7890"@
            &&& !application::means_yes(query, Reply::Proxy { enable: None, server })
            &&& !application::means_yes(query, Reply::Proxy { enable, server: None })
            &&& !(other is Proxy) ==> !application::means_yes(query, other)
        }),
{
}

/// There is an autostart entry just where a text was read, whatever it says.
pub proof fn law_reply_on_autostart(usage: AutostartUse, entry: String, other: Reply)
    ensures
        application::means_yes(Query::AutostartOn(usage), Reply::Text(Some(entry))),
        !(other matches Reply::Text(Some(_))) ==> !application::means_yes(
            Query::AutostartOn(usage),
            other,
        ),
{
}

/// The core names the mode just where its reply holds a name; a probe came back just where a time was
/// measured.
pub proof fn law_replies_on_the_tooltip(answer: CoreReply, delay: u64, other: Reply)
    ensures
        application::means_yes(Query::TitleKnown, Reply::Core(answer))
            <==> core_api::mode_title_of(answer) is Some,
        application::title_in(Reply::Core(answer)) == core_api::mode_title_of(answer),
        !(other is Core) ==> !application::means_yes(Query::TitleKnown, other),
        !(other is Core) ==> application::title_in(other) is None,
        application::means_yes(Query::DelayMeasured, Reply::Millis(Some(delay))),
        application::delay_in(Reply::Millis(Some(delay))) == Some(delay),
        !(other matches Reply::Millis(Some(_))) ==> !application::means_yes(
            Query::DelayMeasured,
            other,
        ) && application::delay_in(other) is None,
{
}

/// Whether a question is answered by a plain yes or no.
pub open spec fn is_plain(query: Query) -> bool {
    ||| query is IsBeside
    ||| query is IsAbove
    ||| query is IsPresent
    ||| query is OpenProxyKey
    ||| query is OpenRunKey
    ||| query is ExeKnown
    ||| query is IconExists
    ||| query is IconMakes
    ||| query is TrayBuilds
}

/// A plain question is answered by yes just by a reply that says so.
pub proof fn law_plain_replies(query: Query, reply: Reply)
    requires
        is_plain(query),
    ensures
        application::means_yes(query, reply) <==> reply == Reply::Flag(true),
{
}

/// A file gives the icon a picture just where it gives one at all, and the picture is that one.
pub proof fn law_reply_on_the_picture(mode: IconMode, dir: IconDir, png: Vec<u8>, other: Reply)
    ensures
        ({
            let query = Query::IconReads(mode, dir);
            let reply = Reply::File(Some(png));
            &&& application::picture_in(reply) == icon::picture_of(Some(png@))
            &&& application::means_yes(query, reply) <==> icon::picture_of(Some(png@)) is Some
            &&& !(other matches Reply::File(Some(_))) ==> application::picture_in(other) is None
                && !application::means_yes(query, other)
        }),
{
}

// ---- the state of the tray

/// A reply to the question that is next takes its place by what follows from it, and changes of the
/// rest only what it is about: the picture, the name of the mode, or the tooltip.
pub proof fn law_answers_change_only_what_they_are_about(
    app: ApplicationView,
    query: Query,
    reply: Reply,
)
    ensures
        ({
            let after = app.after_answer(query, reply);
            &&& after.todo == steps::follow_up(query, application::means_yes(query, reply))
                + app.todo.skip(1)
            &&& after.ids == app.ids && after.mode == app.mode && after.autostart == app.autostart
            &&& query is IconReads ==> after.art == application::picture_in(reply)
            &&& !(query is IconReads) ==> after.art == app.art
            &&& query is TitleKnown && application::title_in(reply) is Some ==> after.title
                == application::title_in(reply)->0
            &&& !(query is TitleKnown && application::title_in(reply) is Some) ==> after.title
                == app.title
            &&& query is DelayMeasured ==> after.tooltip == app.title + " "@
                + core_api::delay_text_of(application::delay_in(reply))
            &&& !(query is DelayMeasured) ==> after.tooltip == app.tooltip
        }),
{
}

/// Handing out an action takes it off what is left to do, and changes of the rest only the check
/// marks that it shows.
pub proof fn law_actions_change_only_the_check_marks(app: ApplicationView, action: Action)
    ensures
        ({
            let after = app.after_action(action);
            &&& after.todo == app.todo.skip(1)
            &&& after.ids == app.ids && after.art == app.art && after.title == app.title
                && after.tooltip == app.tooltip
            &&& action is ShowMode ==> Action::ShowMode(after.mode) == action
            &&& !(action is ShowMode) ==> after.mode == app.mode
            &&& action is ShowAutostart ==> Action::ShowAutostart(after.autostart) == action
            &&& !(action is ShowAutostart) ==> after.autostart == app.autostart
        }),
{
}

/// What is added is done after all that was left to do, and nothing else changes.
pub proof fn law_new_work_comes_last(app: ApplicationView, more: Seq<Step>)
    ensures
        ({
            let after = app.with_more(more);
            &&& after.todo.len() == app.todo.len() + more.len()
            &&& forall|i: int| 0 <= i < app.todo.len() ==> #[trigger] after.todo[i] == app.todo[i]
            &&& forall|i: int|
                0 <= i < more.len() ==> after.todo[app.todo.len() + i] == #[trigger] more[i]
            &&& after.ids == app.ids && after.mode == app.mode && after.autostart == app.autostart
            &&& after.art == app.art && after.title == app.title && after.tooltip == app.tooltip
        }),
{
}

/// An identifier that no entry has leads to nothing.
pub proof fn law_unknown_identifiers_lead_to_nothing(app: ApplicationView, id: String)
    requires
        !app.ids.contains(id@),
    ensures
        app.event_steps(UserEvent::Menu(id)).len() == 0,
{
    lemma_not_found(app.ids, id@, 0);
}

proof fn lemma_not_found(ids: Seq<Seq<char>>, id: Seq<char>, from: int)
    requires
        !ids.contains(id),
        0 <= from,
    ensures
        menu::entry_from(ids, id, from) is None,
    decreases ids.len() - from,
{
    if from < ids.len() {
        assert(ids.contains(ids[from]));
        lemma_not_found(ids, id, from + 1);
    }
}

/// The identifiers go to the entries in the order of the menu.
pub proof fn law_identifiers_go_by_the_order_of_the_menu(ids: Seq<Seq<char>>)
    requires
        ids.len() == 10,
        ids.no_duplicates(),
    ensures
        menu::entry_from(ids, ids[0], 0) == Some(MenuEntry::Launch),
        menu::entry_from(ids, ids[1], 0) == Some(MenuEntry::Web),
        menu::entry_from(ids, ids[2], 0) == Some(MenuEntry::RestartCore),
        menu::entry_from(ids, ids[3], 0) == Some(MenuEntry::StopCore),
        menu::entry_from(ids, ids[4], 0) == Some(MenuEntry::Tun),
        menu::entry_from(ids, ids[5], 0) == Some(MenuEntry::SystemProxy),
        menu::entry_from(ids, ids[6], 0) == Some(MenuEntry::Normal),
        menu::entry_from(ids, ids[7], 0) == Some(MenuEntry::Autostart),
        menu::entry_from(ids, ids[8], 0) == Some(MenuEntry::CloseProxy),
        menu::entry_from(ids, ids[9], 0) == Some(MenuEntry::Exit),
{
    assert forall|at: int| 0 <= at < 10 implies menu::entry_from(ids, #[trigger] ids[at], 0) == Some(
        menu::all_entries()[at],
    ) by {
        laws::law_entries_are_found(ids, at);
    }
}

/// Identifiers and parts of paths are spelled one by one, each as it is.
pub proof fn law_spelling_keeps_the_words(ids: Seq<String>, parts: Seq<&'static str>)
    ensures
        menu::spelled_ids(ids).len() == ids.len(),
        forall|i: int| 0 <= i < ids.len() ==> #[trigger] menu::spelled_ids(ids)[i] == ids[i]@,
        paths::spelled(parts).len() == parts.len(),
        forall|i: int| 0 <= i < parts.len() ==> #[trigger] paths::spelled(parts)[i] == parts[i]@,
{
}

// ---- the modes

/// TUN decides where it is on; else the system proxy does.
pub proof fn law_tun_counts_first(proxy: bool)
    ensures
        mode::mode_of(true, proxy) == IconMode::Tun,
        mode::mode_of(false, true) == IconMode::SystemProxy,
        mode::mode_of(false, false) == IconMode::Normal,
{
}

/// A click on the entry of the mode in force, and on the entry of the normal mode, leads to the
/// normal mode; any other leads to the mode of the entry.
pub proof fn law_clicks_lead_to_modes(current: IconMode, chosen: IconMode)
    ensures
        mode::mode_after_click(current, chosen) == IconMode::Normal <==> current == chosen || chosen
            == IconMode::Normal,
        mode::mode_after_click(current, chosen) == chosen <==> current != chosen || chosen
            == IconMode::Normal,
{
}

/// Each check mark stands for one mode.
pub proof fn law_check_marks_stand_for_modes(mode: IconMode)
    ensures
        mode::checks_of(mode).tun <==> mode == IconMode::Tun,
        mode::checks_of(mode).sysproxy <==> mode == IconMode::SystemProxy,
        mode::checks_of(mode).normal <==> mode == IconMode::Normal,
{
}

/// The words and colours by which the modes are shown.
pub proof fn law_modes_are_shown_by(mode: IconMode)
    ensures
        mode::mode_tooltip_of(mode) == "Clashtui 托盘 - 点击启动 ("@ + mode::mode_name_of(mode) + ")"@,
        mode == IconMode::Normal ==> mode::mode_name_of(mode) == "常规"@ && paths::icon_file_of(mode)
            == "tray_white.png"@ && icon::icon_color_of(mode) == seq![240u8, 240u8, 240u8, 255u8],
        mode == IconMode::Tun ==> mode::mode_name_of(mode) == "TUN"@ && paths::icon_file_of(mode)
            == "tray_tun.png"@ && icon::icon_color_of(mode) == seq![255u8, 220u8, 0u8, 255u8],
        mode == IconMode::SystemProxy ==> mode::mode_name_of(mode) == "系统代理"@
            && paths::icon_file_of(mode) == "tray_sysproxy.png"@ && icon::icon_color_of(mode)
            == seq![30u8, 144u8, 255u8, 255u8],
{
}

// ---- places and commands

/// A clashtui that is installed is preferred beside the tray, and the place beside the tray stands in
/// where none is.
pub proof fn law_beside_is_preferred(beside: bool, above: bool)
    ensures
        paths::first_present(beside, above) == Candidate::Above <==> above && !beside,
{
}

/// The path of a picture ends in the name of its file, and what leads there depends on the place
/// alone; only the picture in the executable has none.
pub proof fn law_pictures_lie_in_their_places(mode: IconMode, dir: IconDir)
    ensures
        ({
            let path = paths::icon_parts_of(mode, dir);
            &&& path is None <==> dir == IconDir::Embedded
            &&& path matches Some(parts) ==> parts.len() > 0 && parts.last() == paths::icon_file_of(
                mode,
            ) && parts.drop_last() == (match dir {
                IconDir::Assets => seq!["assets"@],
                IconDir::Source => seq![".."@, "tray"@, "assets"@],
                _ => seq![],
            })
        }),
{
    if let Some(parts) = paths::icon_parts_of(mode, dir) {
        match dir {
            IconDir::Assets => {
                assert(parts.drop_last() =~= seq!["assets"@]);
            },
            IconDir::Source => {
                assert(parts.drop_last() =~= seq![".."@, "tray"@, "assets"@]);
            },
            _ => {
                assert(parts.drop_last() =~= seq![]);
            },
        }
    }
}

/// The search for a picture passes each place once, and ends with the executable.
pub proof fn law_search_passes_every_place()
    ensures
        paths::icon_dir_after(IconDir::Assets) == Some(IconDir::Beside),
        paths::icon_dir_after(IconDir::Beside) == Some(IconDir::Source),
        paths::icon_dir_after(IconDir::Source) == Some(IconDir::Embedded),
        paths::icon_dir_after(IconDir::Embedded) is None,
{
}

/// What is opened through the shell is handed over as the last argument, as it is, after an empty
/// title; no window is opened for the shell itself.
pub proof fn law_shell_gets_the_target_as_it_is(target: Seq<char>)
    ensures
        command::start_text(target).program == "cmd"@,
        command::start_text(target).args == seq!["/c"@, "start"@, ""@, target],
        command::start_text(target).creation_flags == 0x08000000,
{
}

/// A command is its program, its arguments one by one, and its flags.
pub proof fn law_commands_are_spelled_out(line: CommandLine)
    ensures
        line@.program == line.program@,
        line@.args.len() == line.args@.len(),
        forall|i: int| 0 <= i < line.args@.len() ==> #[trigger] line@.args[i] == line.args@[i]@,
        line@.creation_flags == line.creation_flags,
{
}

/// The fixed words, addresses and limits.
pub proof fn law_fixed_values()
    ensures
        paths::CLASHTUI_EXE@ == "clashtui.exe"@,
        paths::TRAY_EXE@ == "clashtui_tray.exe"@,
        command::CREATE_NO_WINDOW == 0x08000000,
        command::WEB_URL@ == "http://127.0.0.1:9090/ui/"@,
        core_api::CORE_API@ == "http://127.0.0.1:9090"@,
        core_api::CORE_TIMEOUT_SECS == 3,
        core_api::PROBE_PROXY@ == "http://127.0.0.1:7890"@,
        core_api::PROBE_URL@ == "https://cp.cloudflare.com/generate_204"@,
        core_api::PROBE_TIMEOUT_MS == 5000,
        core_api::MODE_GROUP@ == "总体模式"@,
        core_api::TOOLTIP_PERIOD_SECS == 30,
        settings::CORE_PROXY@ == "127.0.0.1:7890"@,
        settings::PROXY_ENABLE@ == "ProxyEnable"@,
        settings::PROXY_SERVER@ == "ProxyServer"@,
        settings::PROXY_KEY@
            == "Software\\Microsoft\\Windows\\CurrentVersion\\Internet Settings"@,
        settings::AUTOSTART_KEY@ == "Software\\Microsoft\\Windows\\CurrentVersion\\Run"@,
        settings::AUTOSTART_NAME@ == "ClashtuiTray"@,
        steps::INTERNET_OPTION_SETTINGS_CHANGED == 39,
        steps::INTERNET_OPTION_REFRESH == 37,
        icon::ICON_SIDE == 256,
        icon::SQUARE_SIDE == 32,
{
}

// ---- pictures

/// The header of a PNG file holds the two sides from the sixteenth byte on, the highest byte first.
pub proof fn law_header_holds_the_sides(png: Seq<u8>)
    ensures
        icon::width_of(png) == 16777216 * png[16] + 65536 * png[17] + 256 * png[18] + png[19],
        icon::height_of(png) == 16777216 * png[20] + 65536 * png[21] + 256 * png[22] + png[23],
{
}

/// A file with other than sixteen bits to the sample is never too deep, and one with sixteen is not
/// while its sides are at most 32768 pixels.
pub proof fn law_common_pictures_are_not_too_deep(png: Seq<u8>)
    ensures
        png.len() <= 24 || png[24] != 16 ==> !icon::is_too_deep(png, 256),
        16777216 * png[16] + 65536 * png[17] + 256 * png[18] + png[19] <= 32768 && 16777216 * png[20]
            + 65536 * png[21] + 256 * png[22] + png[23] <= 32768 ==> !icon::is_too_deep(png, 256),
{
    let width: int = icon::width_of(png);
    let height: int = icon::height_of(png);
    if 0 < width <= 32768 && 0 < height <= 32768 {
        if width >= height {
            lemma_block_is_small(height, width);
        } else {
            lemma_block_is_small(width, height);
        }
    }
}

proof fn lemma_block_is_small(short: int, long: int)
    requires
        0 < short <= long <= 32768,
    ensures
        icon::extent(long, 256) * icon::extent(short, icon::least_scaled(short, long, 256)) <= 65536,
{
    let n: int = icon::least_scaled(short, long, 256);
    laws::law_least_scaled_is_least(n, short, long, 256);
    let share: int = short / n;
    assert(share <= 192) by (nonlinear_arith)
        requires
            share == short / n,
            n >= 1,
            0 < short <= long <= 32768,
            2 * short * 256 - long <= 2 * n * long,
    {
        assert(n * share <= short);
        if share >= 193 {
            assert(n * share >= 193 * n);
            assert(512 * short >= 512 * 193 * n);
            assert(512 * short <= 2 * n * long + long);
            assert(2 * n * long + long <= 3 * n * long);
            assert(3 * n * long <= 3 * 32768 * n);
        }
    }
    let a: int = icon::extent(long, 256);
    let b: int = icon::extent(short, n);
    assert(a * b <= 65536) by (nonlinear_arith)
        requires
            0 <= a <= 130,
            0 <= b <= 194,
    ;
}

/// Every file that decodes and is not too deep gives just the picture of 256 pixels that decoding and
/// scaling make of it. What could not be read gives none.
pub proof fn law_what_decodes_is_shown(png: Seq<u8>)
    ensures
        !icon::is_too_deep(png, 256) ==> icon::picture_of(Some(png)) == icon::png_thumbnail_of(
            png,
            256,
        ),
        png.len() <= 24 || png[24] != 16 ==> icon::picture_of(Some(png)) == icon::png_thumbnail_of(
            png,
            256,
        ),
        icon::picture_of(None) is None,
{
}

/// Where a file of sixteen bits to the sample is not too deep, the samples that come together in one
/// pixel are at most 65536, so that their sum fits. A pixel takes at most `a` of the longer side's
/// pixels, which is cut into 256 parts, and `b` of the shorter side's, which is cut into `n`.
pub proof fn law_sums_fit(png: Seq<u8>, short: int, long: int, n: int, a: int, b: int)
    requires
        png.len() > 24,
        png[24] == 16,
        0 < short <= long,
        (short == icon::width_of(png) && long == icon::height_of(png)) || (long == icon::width_of(png)
            && short == icon::height_of(png)),
        !icon::is_too_deep(png, 256),
        1 <= n,
        2 * short * 256 - long <= 2 * n * long,
        0 <= a,
        256 * (a - 1) < long,
        0 <= b,
        n * (b - 1) < short,
    ensures
        a * b <= 65536,
{
    let least: int = icon::least_scaled(short, long, 256);
    lemma_least_is_reached(n, short, long);
    lemma_part_in_extent(a, long, 256);
    assert(least * (b - 1) < short) by (nonlinear_arith)
        requires
            1 <= least <= n,
            n * (b - 1) < short,
            0 < short,
            0 <= b,
    ;
    lemma_part_in_extent(b, short, least);
    let wide: int = icon::extent(long, 256);
    let high: int = icon::extent(short, least);
    assert(icon::block_samples(icon::width_of(png), icon::height_of(png), 256) == wide * high);
    assert(a * b <= wide * high) by (nonlinear_arith)
        requires
            0 <= a <= wide,
            0 <= b <= high,
    ;
}

/// A file is refused as too deep for no other reason: it has sixteen bits to the sample, and one pixel
/// of the picture stands for more than 65536 of its own, two more to each side allowed. Where the
/// sides are whole multiples of the parts that they are cut into, just that decides.
pub proof fn law_only_overflow_is_refused(png: Seq<u8>, short: int, long: int, n: int)
    requires
        0 < short <= long,
        (short == icon::width_of(png) && long == icon::height_of(png)) || (long == icon::width_of(png)
            && short == icon::height_of(png)),
        1 <= n,
        2 * short * 256 - long <= 2 * n * long,
        n == 1 || 2 * n * long < 2 * short * 256 + long,
    ensures
        icon::is_too_deep(png, 256) ==> png.len() > 24 && png[24] == 16 && (long / 256 + 2) * (short
            / n + 2) > 65536,
        long % 256 == 0 && short % n == 0 && png.len() > 24 && png[24] == 16 ==> (
        icon::is_too_deep(png, 256) <==> (long / 256) * (short / n) > 65536),
{
    let least: int = icon::least_scaled(short, long, 256);
    lemma_least_is_reached(n, short, long);
    laws::law_least_scaled_is_least(n, short, long, 256);
    if least < n {
        assert(2 * least * long + 2 * long <= 2 * n * long) by (nonlinear_arith)
            requires
                least + 1 <= n,
                0 < long,
        ;
    }
    assert(least == n);
    let wide: int = icon::extent(long, 256);
    let high: int = icon::extent(short, n);
    assert(icon::block_samples(icon::width_of(png), icon::height_of(png), 256) == wide * high);
    let q: int = short / n;
    assert(0 <= q <= short && (q == short ==> short % n == 0 || q + 1 > short)) by (nonlinear_arith)
        requires
            q == short / n,
            1 <= n,
            0 < short,
    ;
    assert(wide * high <= (long / 256 + 2) * (q + 2)) by (nonlinear_arith)
        requires
            0 <= wide <= long / 256 + 2,
            0 <= high <= q + 2,
    ;
}

proof fn lemma_least_is_reached(n: int, short: int, long: int)
    requires
        0 < short <= long,
        1 <= n,
        2 * short * 256 - long <= 2 * n * long,
    ensures
        1 <= icon::least_scaled(short, long, 256) <= n,
{
    let least: int = icon::least_scaled(short, long, 256);
    laws::law_least_scaled_is_least(n, short, long, 256);
    if least > n {
        assert(2 * n * long + 2 * long <= 2 * least * long) by (nonlinear_arith)
            requires
                n + 1 <= least,
                0 < long,
        ;
        assert(2 * least * long <= 2 * short * 256 + long);
        assert(icon::is_scaled(n, short, long, 256));
    }
}

proof fn lemma_part_in_extent(a: int, length: int, parts: int)
    requires
        0 < length,
        0 < parts,
        0 <= a,
        parts * (a - 1) < length,
    ensures
        a <= icon::extent(length, parts),
{
    let q: int = length / parts;
    assert(length == parts * q + length % parts && 0 <= length % parts < parts) by (nonlinear_arith)
        requires
            q == length / parts,
            0 < parts,
    ;
    assert(a <= length) by (nonlinear_arith)
        requires
            parts * (a - 1) < length,
            0 < parts,
            0 < length,
            0 <= a,
    ;
    if length % parts == 0 {
        assert(a <= q) by (nonlinear_arith)
            requires
                parts * (a - 1) < parts * q,
                0 < parts,
        ;
    } else {
        assert(a <= q + 1) by (nonlinear_arith)
            requires
                parts * (a - 1) < parts * q + parts,
                0 < parts,
        ;
    }
}

/// A picture that keeps its ratio fills the square with its longer side, and its shorter side is off
/// by no more than half a pixel, unless it would vanish.
pub proof fn law_ratio_is_kept_to_half_a_pixel(picture: RasterView, width: int, height: int)
    requires
        icon::keeps_ratio(picture, width, height, 256),
        0 < width,
        0 < height,
    ensures
        width >= height ==> picture.width == 256 && picture.height >= 1 && 2 * (picture.height * width)
            >= 512 * height - width && (picture.height == 1 || 2 * (picture.height * width) <= 512
            * height + width),
        width < height ==> picture.height == 256 && picture.width >= 1 && 2 * (picture.width * height)
            >= 512 * width - height && (picture.width == 1 || 2 * (picture.width * height) <= 512
            * width + height),
{
    let w: int = picture.width as int;
    let h: int = picture.height as int;
    assert(2 * h * width == 2 * (h * width)) by (nonlinear_arith);
    assert(2 * w * height == 2 * (w * height)) by (nonlinear_arith);
}

/// The plain square has 32 pixels to the side, and each of them has the colour of the mode.
pub proof fn law_square_is_filled(mode: IconMode, pixel: int)
    requires
        0 <= pixel < 1024,
    ensures
        icon::square_of(mode).width == 32 && icon::square_of(mode).height == 32,
        icon::square_of(mode).rgba.len() == 4096,
        icon::square_of(mode).rgba.subrange(4 * pixel, 4 * pixel + 4) == icon::icon_color_of(mode),
{
    assert(icon::square_of(mode).rgba.subrange(4 * pixel, 4 * pixel + 4) =~= icon::icon_color_of(
        mode,
    ));
}

/// A picture shows its own sides and bytes, and is full just where each pixel has four bytes.
pub proof fn law_pictures_show_their_bytes(picture: Raster)
    ensures
        picture@.width == picture.width && picture@.height == picture.height,
        picture@.rgba == picture.rgba@,
        picture@.is_full() <==> picture.rgba@.len() == 4 * (picture.width * picture.height),
{
}

} // verus!
