//! The menu of the tray.
use vstd::prelude::*;
use vstd::string::*;

verus! {

/// An entry of the menu.
#[derive(Clone, Copy, PartialEq, Eq, Structural, Debug)]
pub enum MenuEntry {
    Launch,
    Web,
    RestartCore,
    StopCore,
    Tun,
    SystemProxy,
    Normal,
    Autostart,
    CloseProxy,
    Exit,
}

/// The entries, from the top of the menu to its end.
pub open spec fn all_entries() -> Seq<MenuEntry> {
    seq![
        MenuEntry::Launch,
        MenuEntry::Web,
        MenuEntry::RestartCore,
        MenuEntry::StopCore,
        MenuEntry::Tun,
        MenuEntry::SystemProxy,
        MenuEntry::Normal,
        MenuEntry::Autostart,
        MenuEntry::CloseProxy,
        MenuEntry::Exit,
    ]
}

/// The entries, from the top of the menu to its end.
pub fn entries() -> (all: Vec<MenuEntry>)
    ensures
        all@ == all_entries(),
{
    vec![
        MenuEntry::Launch,
        MenuEntry::Web,
        MenuEntry::RestartCore,
        MenuEntry::StopCore,
        MenuEntry::Tun,
        MenuEntry::SystemProxy,
        MenuEntry::Normal,
        MenuEntry::Autostart,
        MenuEntry::CloseProxy,
        MenuEntry::Exit,
    ]
}

/// A row of the menu.
#[derive(Clone, Copy, PartialEq, Eq, Structural, Debug)]
pub enum MenuRow {
    Item(MenuEntry),
    Separator,
}

/// The rows of the menu: programs, the core, the modes, autostart, and the two ways out.
pub fn menu_rows() -> (rows: Vec<MenuRow>)
    ensures
        rows@ == seq![
            MenuRow::Item(MenuEntry::Launch),
            MenuRow::Item(MenuEntry::Web),
            MenuRow::Separator,
            MenuRow::Item(MenuEntry::RestartCore),
            MenuRow::Item(MenuEntry::StopCore),
            MenuRow::Separator,
            MenuRow::Item(MenuEntry::Tun),
            MenuRow::Item(MenuEntry::SystemProxy),
            MenuRow::Item(MenuEntry::Normal),
            MenuRow::Separator,
            MenuRow::Item(MenuEntry::Autostart),
            MenuRow::Separator,
            MenuRow::Item(MenuEntry::CloseProxy),
            MenuRow::Item(MenuEntry::Exit),
        ],
{
    vec![
        MenuRow::Item(MenuEntry::Launch),
        MenuRow::Item(MenuEntry::Web),
        MenuRow::Separator,
        MenuRow::Item(MenuEntry::RestartCore),
        MenuRow::Item(MenuEntry::StopCore),
        MenuRow::Separator,
        MenuRow::Item(MenuEntry::Tun),
        MenuRow::Item(MenuEntry::SystemProxy),
        MenuRow::Item(MenuEntry::Normal),
        MenuRow::Separator,
        MenuRow::Item(MenuEntry::Autostart),
        MenuRow::Separator,
        MenuRow::Item(MenuEntry::CloseProxy),
        MenuRow::Item(MenuEntry::Exit),
    ]
}

/// The label of an entry.
pub fn entry_label(entry: MenuEntry) -> (label: &'static str)
    ensures
        label@ == (match entry {
            MenuEntry::Launch => "仪表盘"@,
            MenuEntry::Web => "打开网页端"@,
            MenuEntry::RestartCore => "重启内核"@,
            MenuEntry::StopCore => "停止内核"@,
            MenuEntry::Tun => "TUN 模式"@,
            MenuEntry::SystemProxy => "系统代理"@,
            MenuEntry::Normal => "常规模式"@,
            MenuEntry::Autostart => "开机自启"@,
            MenuEntry::CloseProxy => "关闭代理"@,
            MenuEntry::Exit => "退出"@,
        }),
{
    match entry {
        MenuEntry::Launch => "仪表盘",
        MenuEntry::Web => "打开网页端",
        MenuEntry::RestartCore => "重启内核",
        MenuEntry::StopCore => "停止内核",
        MenuEntry::Tun => "TUN 模式",
        MenuEntry::SystemProxy => "系统代理",
        MenuEntry::Normal => "常规模式",
        MenuEntry::Autostart => "开机自启",
        MenuEntry::CloseProxy => "关闭代理",
        MenuEntry::Exit => "退出",
    }
}

/// Whether an entry carries a check mark.
pub fn has_check(entry: MenuEntry) -> (check: bool)
    ensures
        check == (entry == MenuEntry::Tun || entry == MenuEntry::SystemProxy || entry
            == MenuEntry::Normal || entry == MenuEntry::Autostart),
{
    match entry {
        MenuEntry::Tun | MenuEntry::SystemProxy | MenuEntry::Normal | MenuEntry::Autostart => true,
        _ => false,
    }
}

/// The characters of each of `ids`.
pub open spec fn spelled_ids(ids: Seq<String>) -> Seq<Seq<char>> {
    ids.map_values(|id: String| id@)
}

/// The entry of position `from` or later whose identifier is `id`; the first one counts. Entry `i`
/// of the menu has the identifier at position `i` of `ids`.
pub open spec fn entry_from(ids: Seq<Seq<char>>, id: Seq<char>, from: int) -> Option<MenuEntry>
    decreases ids.len() - from,
{
    if from < 0 || from >= ids.len() || from >= all_entries().len() {
        None
    } else if ids[from] == id {
        Some(all_entries()[from])
    } else {
        entry_from(ids, id, from + 1)
    }
}

/// The entry whose identifier is `id`.
pub fn entry_with_id(ids: &Vec<String>, id: &String) -> (entry: Option<MenuEntry>)
    ensures
        entry == entry_from(spelled_ids(ids@), id@, 0),
{
    let all: Vec<MenuEntry> = entries();
    let mut i: usize = 0;
    while i < ids.len() && i < all.len()
        invariant
            all@ == all_entries(),
            i <= ids@.len(),
            i <= all@.len(),
            entry_from(spelled_ids(ids@), id@, 0) == entry_from(spelled_ids(ids@), id@, i as int),
        decreases ids@.len() - i,
    {
        if ids[i] == *id {
            return Some(all[i]);
        }
        i += 1;
    }
    None
}

} // verus!
