use vstd::prelude::*;

verus! {

/// Whether a launcher's executable was found.
#[derive(Clone, Copy, Debug, PartialEq, Eq, Structural)]
pub enum DetectionStatus {
    Found,
    NotFound,
    UserSkipped,
}

/// A launcher with the executable it was found at, if any.
#[derive(Clone, Debug)]
pub struct DetectedLauncher {
    pub id: String,
    pub name: String,
    pub path: Option<String>,
    pub status: DetectionStatus,
}

/// The launchers that are looked for.
#[derive(Clone, Copy, Debug, PartialEq, Eq, Structural)]
pub enum LauncherKind {
    Steam,
    Epic,
    Ubisoft,
    Ea,
    Rockstar,
}

pub open spec fn launcher_id(kind: LauncherKind) -> Seq<char> {
    match kind {
        LauncherKind::Steam => "Steam_ALL"@,
        LauncherKind::Epic => "Epic"@,
        LauncherKind::Ubisoft => "Ubisoft"@,
        LauncherKind::Ea => "EA"@,
        LauncherKind::Rockstar => "Rockstar"@,
    }
}

pub open spec fn launcher_title(kind: LauncherKind) -> Seq<char> {
    match kind {
        LauncherKind::Steam => "Steam"@,
        LauncherKind::Epic => "Epic Games"@,
        LauncherKind::Ubisoft => "Ubisoft Connect"@,
        LauncherKind::Ea => "EA App"@,
        LauncherKind::Rockstar => "Rockstar Games"@,
    }
}

/// The usual install places of a launcher's executable, in the order they are tried.
pub open spec fn common_paths(kind: LauncherKind) -> Seq<Seq<char>> {
    match kind {
        LauncherKind::Steam => seq![
            "C:\\Program Files (x86)\\Steam\\steam.exe"@,
            "D:\\Steam\\steam.exe"@,
            "E:\\Steam\\steam.exe"@,
            "C:\\Program Files\\Steam\\steam.exe"@,
        ],
        LauncherKind::Epic => seq![
            "C:\\Program Files (x86)\\Epic Games\\Launcher\\Portal\\Binaries\\Win64\\EpicGamesLauncher.exe"@,
            "D:\\Epic Games\\Launcher\\Portal\\Binaries\\Win64\\EpicGamesLauncher.exe"@,
            "C:\\Program Files\\Epic Games\\Launcher\\Portal\\Binaries\\Win64\\EpicGamesLauncher.exe"@,
            "E:\\Epic Games\\Launcher\\Portal\\Binaries\\Win64\\EpicGamesLauncher.exe"@,
        ],
        LauncherKind::Ubisoft => seq![
            "C:\\Program Files (x86)\\Ubisoft\\Ubisoft Game Launcher\\upc.exe"@,
            "D:\\Ubisoft\\Ubisoft Game Launcher\\upc.exe"@,
            "C:\\Program Files\\Ubisoft\\Ubisoft Game Launcher\\upc.exe"@,
            "E:\\Ubisoft\\Ubisoft Game Launcher\\upc.exe"@,
        ],
        LauncherKind::Ea => seq![
            "C:\\Program Files\\Electronic Arts\\EA Desktop\\EA Desktop\\EADesktop.exe"@,
            "D:\\Electronic Arts\\EA Desktop\\EA Desktop\\EADesktop.exe"@,
            "C:\\Program Files (x86)\\Electronic Arts\\EA Desktop\\EA Desktop\\EADesktop.exe"@,
            "E:\\EA Desktop\\EA Desktop\\EADesktop.exe"@,
        ],
        LauncherKind::Rockstar => seq![
            "C:\\Program Files\\Rockstar Games\\Launcher\\Launcher.exe"@,
            "D:\\Rockstar Games\\Launcher\\Launcher.exe"@,
            "C:\\Program Files (x86)\\Rockstar Games\\Launcher\\Launcher.exe"@,
            "E:\\Rockstar Games\\Launcher\\Launcher.exe"@,
        ],
    }
}

/// The places to look for a launcher: first the one its own records give (the
/// located Steam directory, Epic's registry entry), then the usual ones.
pub open spec fn candidates_of(kind: LauncherKind, recorded: Option<Seq<char>>) -> Seq<Seq<char>> {
    match recorded {
        Some(p) => seq![p] + common_paths(kind),
        None => common_paths(kind),
    }
}

/// Epic's executable below the data directory that its registry entry names.
pub open spec fn epic_exe_under_text(root: Seq<char>) -> Seq<char> {
    root + "\\Launcher\\Portal\\Binaries\\Win64\\EpicGamesLauncher.exe"@
}

/// The first candidate known to exist.
pub open spec fn first_existing_of(candidates: Seq<Seq<char>>, exists: Seq<bool>, i: int) -> Option<Seq<char>>
    decreases candidates.len() - i,
{
    if i < 0 || i >= candidates.len() || i >= exists.len() {
        None
    } else if exists[i] {
        Some(candidates[i])
    } else {
        first_existing_of(candidates, exists, i + 1)
    }
}

fn push_str(v: &mut Vec<String>, s: &str)
    ensures
        final(v)@.map_values(|p: String| p@) == old(v)@.map_values(|p: String| p@).push(s@),
{
    let ghost before = v@.map_values(|p: String| p@);
    v.push(String::from_str(s));
    assert(v@.map_values(|p: String| p@) =~= before.push(s@));
}

/// Epic's executable below its registry data directory (see `epic_exe_under_text`).
pub fn epic_exe_under(root: &str) -> (r: String)
    ensures
        r@ == epic_exe_under_text(root@),
{
    let mut s = String::from_str(root);
    s.append("\\Launcher\\Portal\\Binaries\\Win64\\EpicGamesLauncher.exe");
    s
}

/// The places to look for a launcher (see `candidates_of`).
pub fn candidate_paths(kind: LauncherKind, recorded: &Option<String>) -> (r: Vec<String>)
    ensures
        r@.map_values(|p: String| p@) == candidates_of(kind, recorded.deep_view()),
{
    let mut v: Vec<String> = Vec::new();
    match recorded {
        Some(p) => push_str(&mut v, p.as_str()),
        None => {},
    }
    match kind {
        LauncherKind::Steam => {
            push_str(&mut v, "C:\\Program Files (x86)\\Steam\\steam.exe");
            push_str(&mut v, "D:\\Steam\\steam.exe");
            push_str(&mut v, "E:\\Steam\\steam.exe");
            push_str(&mut v, "C:\\Program Files\\Steam\\steam.exe");
        },
        LauncherKind::Epic => {
            push_str(
                &mut v,
                "C:\\Program Files (x86)\\Epic Games\\Launcher\\Portal\\Binaries\\Win64\\EpicGamesLauncher.exe",
            );
            push_str(&mut v, "D:\\Epic Games\\Launcher\\Portal\\Binaries\\Win64\\EpicGamesLauncher.exe");
            push_str(
                &mut v,
                "C:\\Program Files\\Epic Games\\Launcher\\Portal\\Binaries\\Win64\\EpicGamesLauncher.exe",
            );
            push_str(&mut v, "E:\\Epic Games\\Launcher\\Portal\\Binaries\\Win64\\EpicGamesLauncher.exe");
        },
        LauncherKind::Ubisoft => {
            push_str(&mut v, "C:\\Program Files (x86)\\Ubisoft\\Ubisoft Game Launcher\\upc.exe");
            push_str(&mut v, "D:\\Ubisoft\\Ubisoft Game Launcher\\upc.exe");
            push_str(&mut v, "C:\\Program Files\\Ubisoft\\Ubisoft Game Launcher\\upc.exe");
            push_str(&mut v, "E:\\Ubisoft\\Ubisoft Game Launcher\\upc.exe");
        },
        LauncherKind::Ea => {
            push_str(&mut v, "C:\\Program Files\\Electronic Arts\\EA Desktop\\EA Desktop\\EADesktop.exe");
            push_str(&mut v, "D:\\Electronic Arts\\EA Desktop\\EA Desktop\\EADesktop.exe");
            push_str(
                &mut v,
                "C:\\Program Files (x86)\\Electronic Arts\\EA Desktop\\EA Desktop\\EADesktop.exe",
            );
            push_str(&mut v, "E:\\EA Desktop\\EA Desktop\\EADesktop.exe");
        },
        LauncherKind::Rockstar => {
            push_str(&mut v, "C:\\Program Files\\Rockstar Games\\Launcher\\Launcher.exe");
            push_str(&mut v, "D:\\Rockstar Games\\Launcher\\Launcher.exe");
            push_str(&mut v, "C:\\Program Files (x86)\\Rockstar Games\\Launcher\\Launcher.exe");
            push_str(&mut v, "E:\\Rockstar Games\\Launcher\\Launcher.exe");
        },
    }
    assert(v@.map_values(|p: String| p@) =~= candidates_of(kind, recorded.deep_view()));
    v
}

/// The first candidate whose entry in `exists` is true.
pub fn first_existing(candidates: &Vec<String>, exists: &Vec<bool>) -> (r: Option<String>)
    ensures
        r.deep_view() == first_existing_of(candidates.deep_view(), exists@, 0),
{
    let mut i: usize = 0;
    while i < candidates.len() && i < exists.len()
        invariant
            i <= candidates.len(),
            first_existing_of(candidates.deep_view(), exists@, i as int) == first_existing_of(
                candidates.deep_view(),
                exists@,
                0,
            ),
        decreases candidates.len() - i,
    {
        if exists[i] {
            assert(candidates.deep_view()[i as int] == candidates@[i as int]@);
            return Some(candidates[i].clone());
        }
        i = i + 1;
    }
    None
}

pub open spec fn detected_view(kind: LauncherKind, path: Option<Seq<char>>, d: DetectedLauncher) -> bool {
    &&& d.id@ == launcher_id(kind)
    &&& d.name@ == launcher_title(kind)
    &&& d.path.deep_view() == path
    &&& d.status == if path is Some {
        DetectionStatus::Found
    } else {
        DetectionStatus::NotFound
    }
}

/// The detection record of a launcher found at `path`, or not found.
pub fn detected(kind: LauncherKind, path: Option<String>) -> (r: DetectedLauncher)
    ensures
        detected_view(kind, path.deep_view(), r),
{
    let (id, name) = match kind {
        LauncherKind::Steam => (String::from_str("Steam_ALL"), String::from_str("Steam")),
        LauncherKind::Epic => (String::from_str("Epic"), String::from_str("Epic Games")),
        LauncherKind::Ubisoft => (String::from_str("Ubisoft"), String::from_str("Ubisoft Connect")),
        LauncherKind::Ea => (String::from_str("EA"), String::from_str("EA App")),
        LauncherKind::Rockstar => (String::from_str("Rockstar"), String::from_str("Rockstar Games")),
    };
    let status = match &path {
        Some(_) => DetectionStatus::Found,
        None => DetectionStatus::NotFound,
    };
    DetectedLauncher { id, name, path, status }
}

} // verus!
