//! Where the programs and pictures of the tray are looked for.
use crate::mode::IconMode;
use vstd::prelude::*;

verus! {

/// The file name of the program that the tray launches.
pub const CLASHTUI_EXE: &'static str = "clashtui.exe";

/// The file name of the tray itself.
pub const TRAY_EXE: &'static str = "clashtui_tray.exe";

/// The directory that every relative place starts from.
#[derive(Clone, Copy, PartialEq, Eq, Structural, Debug)]
pub enum BaseDir {
    /// The directory that holds the running executable.
    ExeParent,
    /// The working directory, `.`.
    Here,
}

/// The directory of the tray: the parent of the running executable where it has a known one, else
/// the working directory.
pub fn exe_dir(parent_known: bool) -> (dir: BaseDir)
    ensures
        dir == (if parent_known {
            BaseDir::ExeParent
        } else {
            BaseDir::Here
        }),
{
    if parent_known {
        BaseDir::ExeParent
    } else {
        BaseDir::Here
    }
}

/// A place at which clashtui may be installed.
#[derive(Clone, Copy, PartialEq, Eq, Structural, Debug)]
pub enum Candidate {
    /// In the directory of the tray.
    Beside,
    /// In the directory above it.
    Above,
}

/// The first of the two places that exists, else the first of them.
pub open spec fn first_present(beside: bool, above: bool) -> Candidate {
    if !beside && above {
        Candidate::Above
    } else {
        Candidate::Beside
    }
}

/// Where clashtui is, from which of the two places exist.
pub fn clashtui_path(beside_exists: bool, above_exists: bool) -> (place: Candidate)
    ensures
        place == first_present(beside_exists, above_exists),
{
    if beside_exists {
        Candidate::Beside
    } else if above_exists {
        Candidate::Above
    } else {
        Candidate::Beside
    }
}

/// The executable that autostart is to run.
#[derive(Clone, Copy, PartialEq, Eq, Structural, Debug)]
pub enum TrayExe {
    /// The running executable, under the path that the system reports.
    Running,
    /// `clashtui_tray.exe` in the directory of the tray.
    Named,
}

/// The executable of the tray: the running one where its path is known.
pub fn tray_exe_path(exe_known: bool) -> (exe: TrayExe)
    ensures
        exe == (if exe_known {
            TrayExe::Running
        } else {
            TrayExe::Named
        }),
{
    if exe_known {
        TrayExe::Running
    } else {
        TrayExe::Named
    }
}

/// A place at which the picture of an icon is looked for.
#[derive(Clone, Copy, PartialEq, Eq, Structural, Debug)]
pub enum IconDir {
    /// `assets` in the directory of the tray.
    Assets,
    /// The directory of the tray.
    Beside,
    /// `tray/assets` next to the directory of the tray.
    Source,
    /// Inside the executable, which carries the pictures itself and needs no files.
    Embedded,
}

/// The place that is searched after `dir`, as long as one is left.
pub open spec fn icon_dir_after(dir: IconDir) -> Option<IconDir> {
    match dir {
        IconDir::Assets => Some(IconDir::Beside),
        IconDir::Beside => Some(IconDir::Source),
        IconDir::Source => Some(IconDir::Embedded),
        IconDir::Embedded => None,
    }
}

/// The place to search after `dir`.
pub fn next_icon_dir(dir: IconDir) -> (next: Option<IconDir>)
    ensures
        next == icon_dir_after(dir),
{
    match dir {
        IconDir::Assets => Some(IconDir::Beside),
        IconDir::Beside => Some(IconDir::Source),
        IconDir::Source => Some(IconDir::Embedded),
        IconDir::Embedded => None,
    }
}

/// The file name of the picture that shows `mode`.
pub open spec fn icon_file_of(mode: IconMode) -> Seq<char> {
    match mode {
        IconMode::Tun => "tray_tun.png"@,
        IconMode::SystemProxy => "tray_sysproxy.png"@,
        IconMode::Normal => "tray_white.png"@,
    }
}

/// The file name of the picture that shows `mode`.
pub fn icon_file(mode: IconMode) -> (name: &'static str)
    ensures
        name@ == icon_file_of(mode),
{
    match mode {
        IconMode::Tun => "tray_tun.png",
        IconMode::SystemProxy => "tray_sysproxy.png",
        IconMode::Normal => "tray_white.png",
    }
}

/// The characters of each of `parts`.
pub open spec fn spelled(parts: Seq<&'static str>) -> Seq<Seq<char>> {
    parts.map_values(|part: &'static str| part@)
}

/// The components that lead from the directory of the tray to `place`.
pub fn candidate_parts(place: Candidate) -> (parts: Vec<&'static str>)
    ensures
        spelled(parts@) == (match place {
            Candidate::Beside => seq![CLASHTUI_EXE@],
            Candidate::Above => seq![".."@, CLASHTUI_EXE@],
        }),
{
    let mut parts: Vec<&'static str> = Vec::new();
    match place {
        Candidate::Beside => {},
        Candidate::Above => {
            parts.push("..");
        },
    }
    parts.push(CLASHTUI_EXE);
    parts
}

/// The components that lead from the directory of the tray to the picture of `mode` in `dir`; none,
/// where it is no file.
pub open spec fn icon_parts_of(mode: IconMode, dir: IconDir) -> Option<Seq<Seq<char>>> {
    match dir {
        IconDir::Assets => Some(seq!["assets"@, icon_file_of(mode)]),
        IconDir::Beside => Some(seq![icon_file_of(mode)]),
        IconDir::Source => Some(seq![".."@, "tray"@, "assets"@, icon_file_of(mode)]),
        IconDir::Embedded => None,
    }
}

/// The components that lead from the directory of the tray to the picture of `mode` in `dir`.
pub fn icon_parts(mode: IconMode, dir: IconDir) -> (path: Option<Vec<&'static str>>)
    ensures
        match path {
            Some(parts) => icon_parts_of(mode, dir) == Some(spelled(parts@)),
            None => icon_parts_of(mode, dir) is None,
        },
{
    let mut parts: Vec<&'static str> = Vec::new();
    match dir {
        IconDir::Assets => {
            parts.push("assets");
        },
        IconDir::Beside => {},
        IconDir::Source => {
            parts.push("..");
            parts.push("tray");
            parts.push("assets");
        },
        IconDir::Embedded => {
            return None;
        },
    }
    parts.push(icon_file(mode));
    assert(spelled(parts@) =~= icon_parts_of(mode, dir)->0);
    Some(parts)
}

} // verus!
