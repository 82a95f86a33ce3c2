use vstd::prelude::*;

use indexmap::IndexMap;
use serde_json::Value;

use crate::text::{
    all_digits, eq_ascii_ci, eq_ignore_ascii_case, is_digit, parse_u64, same_text,
    u64_of_text,
};

verus! {

/// The named fields of one cached login, in the order the parser gives them (key
/// order): the text of each field whose value is text, `None` for one whose value is
/// a block or a repeated key.
pub type Fields = Vec<(String, Option<String>)>;

/// The cached logins by account id, in the order the parser gives them (key order).
pub type UserMap = Vec<(String, Fields)>;

/// The login cache's top level as read when a wrapper key holds the logins: each key
/// with its value read as logins, `None` where it does not read so.
pub type WrappedUserMap = Vec<(String, Option<UserMap>)>;

pub type FieldsV = Seq<(Seq<char>, Option<Seq<char>>)>;

pub type UserMapV = Seq<(Seq<char>, FieldsV)>;

pub type WrappedUserMapV = Seq<(Seq<char>, Option<UserMapV>)>;

/// What `keyvalues_serde` reads from a login cache below its root key, as a map of
/// records of fields.
pub uninterp spec fn vdf_user_map(text: Seq<char>) -> Option<UserMapV>;

/// What `keyvalues_serde` reads from a login cache below its root key, each value
/// read in turn as a map of records of fields.
pub uninterp spec fn vdf_wrapped_user_map(text: Seq<char>) -> Option<WrappedUserMapV>;

/// No key occurs twice.
pub open spec fn distinct_keys<V>(m: Seq<(Seq<char>, V)>) -> bool {
    forall|i: int, j: int| 0 <= i < j < m.len() ==> m[i].0 != m[j].0
}

/// Relies on `keyvalues_serde::from_str` into an `IndexMap` (unique keys) of
/// `IndexMap`s of `serde_json::Value`s: the entries below the root key in the parser's
/// order, or an error; a text value becomes `Some`, any other value `None`.
#[verifier::external_body]
fn read_user_map(text: &str) -> (r: Option<UserMap>)
    ensures
        r.deep_view() == vdf_user_map(text@),
        r is Some ==> distinct_keys(r->0.deep_view()),
{
    keyvalues_serde::from_str::<IndexMap<String, IndexMap<String, Value>>>(text).ok().map(
        |m|
            m.into_iter().map(
                |(id, rec)|
                    (
                        id,
                        rec.into_iter().map(|(k, v)| (k, match v {
                            Value::String(s) => Some(s),
                            _ => None,
                        })).collect(),
                    ),
            ).collect(),
    )
}

/// Relies on `keyvalues_serde::from_str` into an `IndexMap` of `serde_json::Value`s,
/// and on `serde_json::from_value` to read each value as an `IndexMap` of `IndexMap`s
/// of values, `None` where it fails; a text value becomes `Some`, any other `None`.
#[verifier::external_body]
fn read_wrapped_user_map(text: &str) -> (r: Option<WrappedUserMap>)
    ensures
        r.deep_view() == vdf_wrapped_user_map(text@),
        r is Some ==> forall|i: int|
            0 <= i < r->0.len() && #[trigger] r->0[i].1 is Some ==> distinct_keys(
                r->0[i].1->0.deep_view(),
            ),
{
    keyvalues_serde::from_str::<IndexMap<String, Value>>(text).ok().map(|top| {
        top.into_iter().map(|(key, v)| {
            let logins = serde_json::from_value::<IndexMap<String, IndexMap<String, Value>>>(v);
            (key, logins.ok().map(|m| m.into_iter().map(|(id, rec)| {
                (id, rec.into_iter().map(|(f, x)| (f, match x {
                    Value::String(t) => Some(t),
                    _ => None,
                })).collect())
            }).collect()))
        }).collect()
    })
}

/// A key that reads as a 64-bit account id: more than ten characters, all digits.
pub open spec fn plausible_id(k: Seq<char>) -> bool {
    k.len() > 10 && all_digits(k)
}

pub open spec fn has_plausible_id(m: UserMapV) -> bool {
    exists|i: int| 0 <= i < m.len() && #[trigger] plausible_id(m[i].0)
}

/// The value of the first entry from index `i` on whose key is `key`.
pub open spec fn entry_from<V>(m: Seq<(Seq<char>, V)>, key: Seq<char>, i: int) -> Option<V>
    decreases m.len() - i,
{
    if i < 0 || i >= m.len() {
        None
    } else if m[i].0 == key {
        Some(m[i].1)
    } else {
        entry_from(m, key, i + 1)
    }
}

/// The text of the field named `key`: none where it is missing or not text.
pub open spec fn text_field(fields: FieldsV, key: Seq<char>) -> Option<Seq<char>> {
    match entry_of(fields, key) {
        Some(Some(t)) => Some(t),
        _ => None,
    }
}

/// The value of the first entry whose key is `key`.
pub open spec fn entry_of<V>(m: Seq<(Seq<char>, V)>, key: Seq<char>) -> Option<V> {
    entry_from(m, key, 0)
}

/// The logins that a login cache holds, from its two readings: the direct one when one
/// of its keys reads as an account id, else the one below the `users` wrapper key, else
/// none.
pub open spec fn chosen_user_map(direct: Option<UserMapV>, wrapped: Option<WrappedUserMapV>) -> UserMapV {
    if direct is Some && has_plausible_id(direct->0) {
        direct->0
    } else if wrapped is Some && entry_of(wrapped->0, "users"@) matches Some(Some(_)) {
        entry_of(wrapped->0, "users"@)->0->0
    } else {
        Seq::empty()
    }
}

fn is_plausible_id(k: &str) -> (r: bool)
    ensures
        r == plausible_id(k@),
{
    let n = k.unicode_len();
    if n <= 10 {
        return false;
    }
    let mut i: usize = 0;
    while i < n
        invariant
            n == k@.len(),
            i <= n,
            forall|j: int| 0 <= j < i ==> #[trigger] is_digit(k@[j]),
        decreases n - i,
    {
        let c = k.get_char(i);
        if !('0' <= c && c <= '9') {
            assert(!is_digit(k@[i as int]));
            return false;
        }
        i = i + 1;
    }
    true
}

fn any_plausible_id(m: &UserMap) -> (r: bool)
    ensures
        r == has_plausible_id(m.deep_view()),
{
    let mut i: usize = 0;
    while i < m.len()
        invariant
            i <= m.len(),
            forall|j: int| 0 <= j < i ==> !#[trigger] plausible_id(m.deep_view()[j].0),
        decreases m.len() - i,
    {
        if is_plausible_id(m[i].0.as_str()) {
            assert(plausible_id(m.deep_view()[i as int].0));
            return true;
        }
        i = i + 1;
    }
    assert forall|j: int| 0 <= j < m.deep_view().len() implies !#[trigger] plausible_id(
        m.deep_view()[j].0,
    ) by {}
    false
}

/// Takes out the value of the first entry whose key is `users`.
fn take_users_entry(top: WrappedUserMap) -> (r: Option<Option<UserMap>>)
    ensures
        r.deep_view() == entry_of(top.deep_view(), "users"@),
{
    let mut i: usize = 0;
    proof { reveal_strlit("users"); }
    while i < top.len()
        invariant
            i <= top.len(),
            entry_from(top.deep_view(), "users"@, i as int) == entry_of(top.deep_view(), "users"@),
        ensures
            i <= top.len(),
            entry_from(top.deep_view(), "users"@, i as int) == entry_of(top.deep_view(), "users"@),
            i < top.len() ==> top@[i as int].0@ == "users"@,
        decreases top.len() - i,
    {
        if same_text(top[i].0.as_str(), "users") {
            break;
        }
        assert(top.deep_view()[i as int].0 != "users"@);
        i = i + 1;
    }
    if i == top.len() {
        return None;
    }
    let ghost dv = top.deep_view();
    assert(dv[i as int].0 == top@[i as int].0@);
    let mut w = top;
    let (_, m) = w.remove(i);
    assert(dv[i as int].1 == m.deep_view());
    Some(m)
}

/// Picks the logins of a login cache from its two readings (see `chosen_user_map`).
pub fn choose_user_map(direct: Option<UserMap>, wrapped: Option<WrappedUserMap>) -> (r: UserMap)
    ensures
        r.deep_view() == chosen_user_map(direct.deep_view(), wrapped.deep_view()),
{
    if let Some(m) = direct {
        if any_plausible_id(&m) {
            return m;
        }
    }
    match wrapped {
        Some(w) => match take_users_entry(w) {
            Some(Some(m)) => m,
            _ => Vec::new(),
        },
        None => Vec::new(),
    }
}

proof fn lemma_entry_from_is_value<V>(m: Seq<(Seq<char>, V)>, key: Seq<char>, i: int)
    requires
        entry_from(m, key, i) is Some,
    ensures
        exists|j: int| 0 <= j < m.len() && m[j].1 == entry_from(m, key, i)->0,
    decreases m.len() - i,
{
    if 0 <= i < m.len() && m[i].0 != key {
        lemma_entry_from_is_value(m, key, i + 1);
    }
}

/// Reads the logins of a login cache; an unreadable cache holds none. No account id
/// occurs twice.
pub fn parse_login_users(content: &str) -> (r: UserMap)
    ensures
        r.deep_view() == chosen_user_map(vdf_user_map(content@), vdf_wrapped_user_map(content@)),
        distinct_keys(r.deep_view()),
{
    let direct = read_user_map(content);
    let wrapped = read_wrapped_user_map(content);
    let ghost dv = direct.deep_view();
    let ghost wv = wrapped.deep_view();
    proof {
        if !(dv is Some && has_plausible_id(dv->0)) && wv is Some && entry_of(wv->0, "users"@) matches Some(Some(_)) {
            lemma_entry_from_is_value(wv->0, "users"@, 0);
            let j = choose|j: int| 0 <= j < wv->0.len() && wv->0[j].1 == entry_of(wv->0, "users"@)->0;
            assert(wrapped->0@[j].1 is Some);
            assert(wv->0[j].1 == wrapped->0@[j].1.deep_view());
        }
    }
    let r = choose_user_map(direct, wrapped);
    assert(distinct_keys(Seq::<(Seq<char>, FieldsV)>::empty()));
    r
}

/// The fixed amount by which a 64-bit account id exceeds the 32-bit local id.
pub const STEAM_ID_BASE: u64 = 76561197960265728;

/// One cached login, ready for display.
pub struct SteamUserDisplay {
    pub steam_id: String,
    pub account_name: String,
    pub persona_name: String,
    pub timestamp: u64,
}

/// A cached login as values.
pub struct AccountView {
    pub steam_id: Seq<char>,
    pub account_name: Seq<char>,
    pub persona_name: Seq<char>,
    pub timestamp: u64,
}

impl View for SteamUserDisplay {
    type V = AccountView;

    open spec fn view(&self) -> AccountView {
        AccountView {
            steam_id: self.steam_id@,
            account_name: self.account_name@,
            persona_name: self.persona_name@,
            timestamp: self.timestamp,
        }
    }
}

/// A timestamp field read as a number; missing or unreadable reads as zero.
pub open spec fn timestamp_of(t: Option<Seq<char>>) -> u64 {
    match t {
        Some(x) => match u64_of_text(x) {
            Some(v) => v,
            None => 0,
        },
        None => 0,
    }
}

/// The display row of one login: none without an account name.
pub open spec fn account_row(id: Seq<char>, fields: FieldsV) -> Option<AccountView> {
    match text_field(fields, "AccountName"@) {
        None => None,
        Some(name) => Some(
            AccountView {
                steam_id: id,
                account_name: name,
                persona_name: match text_field(fields, "PersonaName"@) {
                    Some(p) => p,
                    None => "Unknown"@,
                },
                timestamp: timestamp_of(text_field(fields, "Timestamp"@)),
            },
        ),
    }
}

/// `x` placed into `s` after every row that is not older than it.
pub open spec fn insert_by_time(s: Seq<AccountView>, x: AccountView) -> Seq<AccountView>
    decreases s.len(),
{
    if s.len() == 0 {
        seq![x]
    } else if s[0].timestamp < x.timestamp {
        seq![x] + s
    } else {
        seq![s[0]] + insert_by_time(s.drop_first(), x)
    }
}

/// The display rows of the logins, newest first, rows of equal time in the order of
/// the reading.
pub open spec fn listed_accounts(users: UserMapV) -> Seq<AccountView>
    decreases users.len(),
{
    if users.len() == 0 {
        Seq::empty()
    } else {
        let prev = listed_accounts(users.drop_last());
        match account_row(users.last().0, users.last().1) {
            Some(a) => insert_by_time(prev, a),
            None => prev,
        }
    }
}

pub open spec fn newest_first(s: Seq<AccountView>) -> bool {
    forall|i: int, j: int| 0 <= i < j < s.len() ==> s[i].timestamp >= s[j].timestamp
}

/// The text of the first field named `key` (see `text_field`).
pub(crate) fn field<'a>(fields: &'a Fields, key: &str) -> (r: Option<&'a String>)
    ensures
        r.deep_view() == text_field(fields.deep_view(), key@),
{
    let mut i: usize = 0;
    while i < fields.len()
        invariant
            i <= fields.len(),
            entry_from(fields.deep_view(), key@, i as int) == entry_of(fields.deep_view(), key@),
        decreases fields.len() - i,
    {
        assert(fields.deep_view()[i as int] == (fields@[i as int].0@, fields@[i as int].1.deep_view()));
        if same_text(fields[i].0.as_str(), key) {
            return match &fields[i].1 {
                Some(t) => Some(t),
                None => None,
            };
        }
        i = i + 1;
    }
    None
}

fn display_row(id: &String, fields: &Fields) -> (r: Option<SteamUserDisplay>)
    ensures
        match r {
            Some(d) => account_row(id@, fields.deep_view()) == Some(d@),
            None => account_row(id@, fields.deep_view()) is None,
        },
{
    proof {
        reveal_strlit("AccountName");
        reveal_strlit("PersonaName");
        reveal_strlit("Timestamp");
        reveal_strlit("Unknown");
    }
    match field(fields, "AccountName") {
        None => None,
        Some(name) => {
            let persona = match field(fields, "PersonaName") {
                Some(p) => p.clone(),
                None => String::from_str("Unknown"),
            };
            let timestamp = match field(fields, "Timestamp") {
                Some(t) => match parse_u64(t.as_str()) {
                    Some(v) => v,
                    None => 0,
                },
                None => 0,
            };
            Some(
                SteamUserDisplay {
                    steam_id: id.clone(),
                    account_name: name.clone(),
                    persona_name: persona,
                    timestamp,
                },
            )
        },
    }
}

proof fn lemma_insert_at(s: Seq<AccountView>, x: AccountView, pos: int)
    requires
        0 <= pos <= s.len(),
        forall|k: int| 0 <= k < pos ==> s[k].timestamp >= x.timestamp,
        pos < s.len() ==> s[pos].timestamp < x.timestamp,
    ensures
        insert_by_time(s, x) == s.insert(pos, x),
    decreases pos,
{
    if pos == 0 {
        assert(s.insert(0, x) =~= seq![x] + s);
    } else {
        let t = s.drop_first();
        lemma_insert_at(t, x, pos - 1);
        assert(s.insert(pos, x) =~= seq![s[0]] + t.insert(pos - 1, x));
    }
}

/// The cached logins fit for display: those with an account name, newest first, and
/// in the order of the reading where their times are equal.
pub fn list_accounts(users: &UserMap) -> (r: Vec<SteamUserDisplay>)
    ensures
        r@.map_values(|d: SteamUserDisplay| d@) == listed_accounts(users.deep_view()),
        newest_first(r@.map_values(|d: SteamUserDisplay| d@)),
{
    let mut out: Vec<SteamUserDisplay> = Vec::new();
    let mut i: usize = 0;
    while i < users.len()
        invariant
            i <= users.len(),
            out@.map_values(|d: SteamUserDisplay| d@) == listed_accounts(
                users.deep_view().subrange(0, i as int),
            ),
        decreases users.len() - i,
    {
        let ghost pre = users.deep_view().subrange(0, i as int);
        let ghost next = users.deep_view().subrange(0, i + 1);
        assert(next.drop_last() =~= pre);
        assert(next.last() == (users@[i as int].0@, users@[i as int].1.deep_view()));
        match display_row(&users[i].0, &users[i].1) {
            None => {},
            Some(d) => {
                let mut pos: usize = 0;
                while pos < out.len() && out[pos].timestamp >= d.timestamp
                    invariant
                        pos <= out.len(),
                        forall|k: int| 0 <= k < pos ==> out@[k].timestamp >= d.timestamp,
                    decreases out.len() - pos,
                {
                    pos = pos + 1;
                }
                let ghost before = out@.map_values(|d: SteamUserDisplay| d@);
                proof {
                    lemma_insert_at(before, d@, pos as int);
                }
                out.insert(pos, d);
                assert(out@.map_values(|d: SteamUserDisplay| d@) =~= before.insert(pos as int, d@));
            },
        }
        i = i + 1;
    }
    assert(users.deep_view().subrange(0, users.len() as int) =~= users.deep_view());
    proof {
        lemma_listed_newest_first(users.deep_view());
    }
    out
}

/// The local id of a 64-bit account id: the amount above the base, cut to 32 bits;
/// none for text that is not a number or a number not above the base.
pub open spec fn local_id(id: Seq<char>) -> Option<u32> {
    match u64_of_text(id) {
        Some(v) => if v > STEAM_ID_BASE {
            Some((v - STEAM_ID_BASE) as u32)
        } else {
            None
        },
        None => None,
    }
}

/// The local id of the first login from index `i` on whose account name matches `name`
/// without regard to ASCII case and whose id has a local id.
pub open spec fn account_id_from(users: UserMapV, name: Seq<char>, i: int) -> Option<u32>
    decreases users.len() - i,
{
    if i < 0 || i >= users.len() {
        None
    } else {
        let n = text_field(users[i].1, "AccountName"@);
        if n is Some && eq_ascii_ci(n->0, name) && local_id(users[i].0) is Some {
            local_id(users[i].0)
        } else {
            account_id_from(users, name, i + 1)
        }
    }
}

pub open spec fn account_id_of(users: UserMapV, name: Seq<char>) -> Option<u32> {
    account_id_from(users, name, 0)
}

fn local_id_exec(id: &str) -> (r: Option<u32>)
    ensures
        r == local_id(id@),
{
    match parse_u64(id) {
        Some(v) => if v > STEAM_ID_BASE {
            Some((v - STEAM_ID_BASE) as u32)
        } else {
            None
        },
        None => None,
    }
}

/// The local id of the login whose account name is `name` (see `account_id_of`).
pub fn account_id(users: &UserMap, name: &str) -> (r: Option<u32>)
    ensures
        r == account_id_of(users.deep_view(), name@),
{
    let mut i: usize = 0;
    proof { reveal_strlit("AccountName"); }
    while i < users.len()
        invariant
            i <= users.len(),
            account_id_from(users.deep_view(), name@, i as int) == account_id_of(
                users.deep_view(),
                name@,
            ),
        decreases users.len() - i,
    {
        assert(users.deep_view()[i as int] == (users@[i as int].0@, users@[i as int].1.deep_view()));
        match field(&users[i].1, "AccountName") {
            Some(n) => {
                if eq_ignore_ascii_case(n.as_str(), name) {
                    let id = local_id_exec(users[i].0.as_str());
                    if id.is_some() {
                        return id;
                    }
                }
            },
            None => {},
        }
        i = i + 1;
    }
    None
}

/// Reads a login cache and lists its logins for display.
pub fn cached_accounts(content: &str) -> (r: Vec<SteamUserDisplay>)
    ensures
        r@.map_values(|d: SteamUserDisplay| d@) == listed_accounts(
            chosen_user_map(vdf_user_map(content@), vdf_wrapped_user_map(content@)),
        ),
{
    let users = parse_login_users(content);
    list_accounts(&users)
}

/// Reads a login cache and finds the local id of the login named `name`.
pub fn resolve_account_id(content: &str, name: &str) -> (r: Option<u32>)
    ensures
        r == account_id_of(
            chosen_user_map(vdf_user_map(content@), vdf_wrapped_user_map(content@)),
            name@,
        ),
{
    let users = parse_login_users(content);
    account_id(&users, name)
}

/// An account id that is the base plus a positive `k` of 32 bits has the local id `k`.
pub proof fn lemma_local_id_of_offset(k: u32)
    requires
        k > 0,
    ensures
        local_id(crate::text::decimal_text((STEAM_ID_BASE + k) as nat)) == Some(k),
{
    crate::text::lemma_decimal_round_trip((STEAM_ID_BASE + k) as u64);
}

/// An account id that is not above the base, or is not a number, has no local id.
pub proof fn lemma_no_local_id_at_or_below_base(id: Seq<char>)
    requires
        u64_of_text(id) is None || u64_of_text(id)->0 <= STEAM_ID_BASE,
    ensures
        local_id(id) is None,
{
}

/// A single login whose account name matches resolves to the local id of its account
/// id, and to nothing where that id has none.
pub proof fn lemma_single_login_resolves(id: Seq<char>, fields: FieldsV, name: Seq<char>)
    requires
        text_field(fields, "AccountName"@) is Some,
        eq_ascii_ci(text_field(fields, "AccountName"@)->0, name),
    ensures
        account_id_of(seq![(id, fields)], name) == local_id(id),
{
    let users = seq![(id, fields)];
    assert(users[0] == (id, fields));
    assert(account_id_from(users, name, 1) is None);
}

/// The logins are the same whether the cache holds them directly or below a `users`
/// wrapper key, so long as one of their keys reads as an account id.
pub proof fn lemma_wrapped_reads_as_direct(m: UserMapV, rest: WrappedUserMapV)
    requires
        has_plausible_id(m),
    ensures
        chosen_user_map(None, Some(seq![("users"@, Some(m))] + rest)) == chosen_user_map(
            Some(m),
            None,
        ),
{
    let w = seq![("users"@, Some(m))] + rest;
    assert(w[0] == ("users"@, Some(m)));
}

proof fn lemma_insert_keeps_order(s: Seq<AccountView>, x: AccountView)
    requires
        newest_first(s),
    ensures
        newest_first(insert_by_time(s, x)),
        insert_by_time(s, x).len() == s.len() + 1,
        forall|k: int|
            0 <= k < insert_by_time(s, x).len() ==> #[trigger] insert_by_time(s, x)[k] == x || s.contains(
                insert_by_time(s, x)[k],
            ),
    decreases s.len(),
{
    if s.len() > 0 && s[0].timestamp >= x.timestamp {
        let t = s.drop_first();
        lemma_insert_keeps_order(t, x);
        let r = insert_by_time(s, x);
        assert(r == seq![s[0]] + insert_by_time(t, x));
        assert forall|k: int| 0 <= k < r.len() implies #[trigger] r[k] == x || s.contains(r[k]) by {
            if k > 0 {
                let j = k - 1;
                if insert_by_time(t, x)[j] != x {
                    let w = choose|w: int| 0 <= w < t.len() && t[w] == insert_by_time(t, x)[j];
                    assert(s[w + 1] == r[k]);
                }
            } else {
                assert(s[0] == r[0]);
            }
        }
        assert forall|i: int, j: int| 0 <= i < j < r.len() implies r[i].timestamp >= r[j].timestamp by {
            if i == 0 {
                if r[j] != x {
                    let w = choose|w: int| 0 <= w < s.len() && s[w] == r[j];
                    if w > 0 {
                        assert(s[0].timestamp >= s[w].timestamp);
                    }
                }
            }
        }
    } else if s.len() > 0 {
        let r = insert_by_time(s, x);
        assert(r == seq![x] + s);
        assert forall|k: int| 0 <= k < r.len() implies #[trigger] r[k] == x || s.contains(r[k]) by {
            if k > 0 {
                assert(s[k - 1] == r[k]);
            }
        }
    }
}

/// The listed logins come newest first.
pub proof fn lemma_listed_newest_first(users: UserMapV)
    ensures
        newest_first(listed_accounts(users)),
    decreases users.len(),
{
    if users.len() > 0 {
        lemma_listed_newest_first(users.drop_last());
        let prev = listed_accounts(users.drop_last());
        match account_row(users.last().0, users.last().1) {
            Some(a) => {
                lemma_insert_keeps_order(prev, a);
            },
            None => {},
        }
    }
}

} // verus!
