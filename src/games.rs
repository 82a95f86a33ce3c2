use vstd::prelude::*;

use crate::accounts::{entry_of, field, text_field, Fields, FieldsV, UserMap, UserMapV};
use crate::text::{decimal, decimal_text, same_text};

verus! {

/// An installed game as the client's library lists it.
pub struct InstalledApp {
    pub app_id: u32,
    pub name: Option<String>,
    pub install_dir: String,
    pub last_user: Option<u64>,
}

/// An installed game with the names of the login that last played it.
pub struct SteamGame {
    pub id: u32,
    pub name: String,
    pub path: String,
    pub owner_name: String,
    pub account_name: String,
}

pub struct GameView {
    pub id: u32,
    pub name: Seq<char>,
    pub path: Seq<char>,
    pub owner_name: Seq<char>,
    pub account_name: Seq<char>,
}

impl View for SteamGame {
    type V = GameView;

    open spec fn view(&self) -> GameView {
        GameView {
            id: self.id,
            name: self.name@,
            path: self.path@,
            owner_name: self.owner_name@,
            account_name: self.account_name@,
        }
    }
}

pub open spec fn or_unknown(v: Option<Seq<char>>) -> Seq<char> {
    match v {
        Some(s) => s,
        None => "Unknown"@,
    }
}

/// The login that last played a game, by its account id.
pub open spec fn last_login(last_user: Option<u64>, users: UserMapV) -> Option<FieldsV> {
    match last_user {
        Some(u) => entry_of(users, decimal_text(u as nat)),
        None => None,
    }
}

/// A game described: `Unknown Game` without a name; the persona and account names of
/// the login that last played it, each `Unknown` where missing.
pub open spec fn game_of(
    app_id: u32,
    name: Option<Seq<char>>,
    install_dir: Seq<char>,
    last_user: Option<u64>,
    users: UserMapV,
) -> GameView {
    GameView {
        id: app_id,
        name: match name {
            Some(n) => n,
            None => "Unknown Game"@,
        },
        path: install_dir,
        owner_name: match last_login(last_user, users) {
            Some(f) => or_unknown(text_field(f, "PersonaName"@)),
            None => "Unknown"@,
        },
        account_name: match last_login(last_user, users) {
            Some(f) => or_unknown(text_field(f, "AccountName"@)),
            None => "Unknown"@,
        },
    }
}

pub open spec fn app_game(a: InstalledApp, users: UserMapV) -> GameView {
    game_of(a.app_id, a.name.deep_view(), a.install_dir@, a.last_user, users)
}

fn find_login<'a>(users: &'a UserMap, id: &str) -> (r: Option<&'a Fields>)
    ensures
        r.deep_view() == entry_of(users.deep_view(), id@),
{
    let mut i: usize = 0;
    while i < users.len()
        invariant
            i <= users.len(),
            crate::accounts::entry_from(users.deep_view(), id@, i as int) == entry_of(
                users.deep_view(),
                id@,
            ),
        decreases users.len() - i,
    {
        assert(users.deep_view()[i as int] == (users@[i as int].0@, users@[i as int].1.deep_view()));
        if same_text(users[i].0.as_str(), id) {
            return Some(&users[i].1);
        }
        i = i + 1;
    }
    None
}

fn field_or_unknown(fields: &Fields, key: &str) -> (r: String)
    ensures
        r@ == or_unknown(text_field(fields.deep_view(), key@)),
{
    match field(fields, key) {
        Some(t) => t.clone(),
        None => String::from_str("Unknown"),
    }
}

/// Describes one installed game (see `game_of`).
pub fn describe_game(app: &InstalledApp, users: &UserMap) -> (r: SteamGame)
    ensures
        r@ == app_game(*app, users.deep_view()),
{
    proof {
        reveal_strlit("PersonaName");
        reveal_strlit("AccountName");
    }
    let login = match app.last_user {
        Some(u) => {
            let id = decimal(u);
            find_login(users, id.as_str())
        },
        None => None,
    };
    let (owner, account) = match login {
        Some(f) => (field_or_unknown(f, "PersonaName"), field_or_unknown(f, "AccountName")),
        None => (String::from_str("Unknown"), String::from_str("Unknown")),
    };
    let name = match &app.name {
        Some(n) => n.clone(),
        None => String::from_str("Unknown Game"),
    };
    SteamGame {
        id: app.app_id,
        name,
        path: app.install_dir.clone(),
        owner_name: owner,
        account_name: account,
    }
}

/// Describes each installed game, in order.
pub fn describe_games(apps: &Vec<InstalledApp>, users: &UserMap) -> (r: Vec<SteamGame>)
    ensures
        r@.map_values(|g: SteamGame| g@) == apps@.map_values(
            |a: InstalledApp| app_game(a, users.deep_view()),
        ),
{
    let mut out: Vec<SteamGame> = Vec::new();
    let mut i: usize = 0;
    while i < apps.len()
        invariant
            i <= apps.len(),
            out@.map_values(|g: SteamGame| g@) =~= apps@.map_values(
                |a: InstalledApp| app_game(a, users.deep_view()),
            ).subrange(0, i as int),
        decreases apps.len() - i,
    {
        let g = describe_game(&apps[i], users);
        let ghost before = out@.map_values(|g: SteamGame| g@);
        out.push(g);
        assert(out@.map_values(|g: SteamGame| g@) =~= before.push(g@));
        i = i + 1;
    }
    out
}

} // verus!
