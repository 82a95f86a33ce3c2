use vstd::prelude::*;

use crate::text::{decimal, decimal_text, same_text};

verus! {

/// The rule that blocks the Steam client's main executable.
pub const STEAM_EXE_RULE: &'static str = "Block Steam Exe";

/// The rule that blocks the Steam client's web helper.
pub const STEAM_HELPER_RULE: &'static str = "Block Steam WebHelper";

pub const STEAM_EXE_FALLBACK: &'static str = "C:\\Program Files (x86)\\Steam\\steam.exe";

pub const STEAM_HELPER_FALLBACK: &'static str =
    "C:\\Program Files (x86)\\Steam\\bin\\cef\\cef.win7x64\\steamwebhelper.exe";

pub const UBISOFT_EXE: &'static str = "C:\\Program Files (x86)\\Ubisoft\\Ubisoft Game Launcher\\upc.exe";

pub const EA_EXE: &'static str = "C:\\Program Files\\Electronic Arts\\EA Desktop\\EA Desktop\\EADesktop.exe";

pub const EPIC_EXE: &'static str =
    "C:\\Program Files (x86)\\Epic Games\\Launcher\\Portal\\Binaries\\Win64\\EpicGamesLauncher.exe";

pub const ROCKSTAR_LAUNCHER: &'static str = "C:\\Program Files\\Rockstar Games\\Launcher\\Launcher.exe";

pub const ROCKSTAR_SOCIAL_CLUB: &'static str =
    "C:\\Program Files\\Rockstar Games\\Social Club\\SocialClubHelper.exe";

pub const ROCKSTAR_SERVICE: &'static str = "C:\\Program Files\\Rockstar Games\\Launcher\\RockstarService.exe";

pub const ROCKSTAR_ERROR_HANDLER: &'static str =
    "C:\\Program Files\\Rockstar Games\\Launcher\\ThirdParty\\Crashpad\\RockstarErrorHandler.exe";

pub const RDR2_EXE: &'static str = "D:\\SteamLibrary\\steamapps\\common\\Red Dead Redemption 2\\RDR2.exe";

pub const RDR2_PLAY_EXE: &'static str =
    "D:\\SteamLibrary\\steamapps\\common\\Red Dead Redemption 2\\PlayRDR2.exe";

/// Where the Steam client was found: its main executable and its web helper.
pub struct SteamLocation {
    pub exe: String,
    pub web_helper: String,
}

/// A firewall rule to put in place (`block`) or to delete, by name.
pub struct RuleChange {
    pub rule_name: String,
    pub program_path: String,
    pub block: bool,
}

/// An executable of a launcher and the name of the rule that blocks it.
pub struct RuleTarget {
    pub path: String,
    pub rule_name: String,
}

pub struct RuleChangeView {
    pub rule_name: Seq<char>,
    pub program_path: Seq<char>,
    pub block: bool,
}

impl View for RuleChange {
    type V = RuleChangeView;

    open spec fn view(&self) -> RuleChangeView {
        RuleChangeView {
            rule_name: self.rule_name@,
            program_path: self.program_path@,
            block: self.block,
        }
    }
}

impl View for RuleTarget {
    type V = (Seq<char>, Seq<char>);

    open spec fn view(&self) -> (Seq<char>, Seq<char>) {
        (self.path@, self.rule_name@)
    }
}

pub open spec fn location_view(steam: Option<SteamLocation>) -> Option<(Seq<char>, Seq<char>)> {
    match steam {
        Some(l) => Some((l.exe@, l.web_helper@)),
        None => None,
    }
}

pub open spec fn steam_exe_path(steam: Option<(Seq<char>, Seq<char>)>) -> Seq<char> {
    match steam {
        Some(l) => l.0,
        None => STEAM_EXE_FALLBACK@,
    }
}

pub open spec fn steam_helper_path(steam: Option<(Seq<char>, Seq<char>)>) -> Seq<char> {
    match steam {
        Some(l) => l.1,
        None => STEAM_HELPER_FALLBACK@,
    }
}

/// The names under which the whole Steam client is addressed.
pub open spec fn is_steam(name: Seq<char>) -> bool {
    name == "Steam"@ || name == "Steam_ALL"@
}

/// The executables of a launcher, by its name; none for an unknown name.
pub open spec fn known_paths(name: Seq<char>, steam: Option<(Seq<char>, Seq<char>)>) -> Seq<Seq<char>> {
    if is_steam(name) {
        seq![steam_exe_path(steam)]
    } else if name == "SteamWebHelper"@ {
        seq![steam_helper_path(steam)]
    } else if name == "Ubisoft"@ {
        seq![UBISOFT_EXE@]
    } else if name == "EA"@ {
        seq![EA_EXE@]
    } else if name == "Epic"@ {
        seq![EPIC_EXE@]
    } else if name == "Rockstar"@ {
        seq![
            ROCKSTAR_LAUNCHER@,
            ROCKSTAR_SOCIAL_CLUB@,
            ROCKSTAR_SERVICE@,
            ROCKSTAR_ERROR_HANDLER@,
            RDR2_EXE@,
            RDR2_PLAY_EXE@,
        ]
    } else {
        Seq::empty()
    }
}

/// The name of the rule for the executable at `index` of a launcher.
pub open spec fn rule_name_text(launcher: Seq<char>, index: nat) -> Seq<char> {
    "Block "@ + launcher + " App "@ + decimal_text(index + 1)
}

/// The executables of a launcher with their rule names: Steam's two under their fixed
/// names, any other's numbered from one.
pub open spec fn rule_targets(name: Seq<char>, steam: Option<(Seq<char>, Seq<char>)>) -> Seq<(Seq<char>, Seq<char>)> {
    if is_steam(name) {
        seq![(steam_exe_path(steam), STEAM_EXE_RULE@), (steam_helper_path(steam), STEAM_HELPER_RULE@)]
    } else {
        Seq::new(
            known_paths(name, steam).len(),
            |i: int| (known_paths(name, steam)[i], rule_name_text(name, i as nat)),
        )
    }
}

fn is_steam_name(name: &str) -> (r: bool)
    ensures
        r == is_steam(name@),
{
    same_text(name, "Steam") || same_text(name, "Steam_ALL")
}

/// The executables of a launcher (see `known_paths`).
pub fn launcher_paths(name: &str, steam: &Option<SteamLocation>) -> (r: Vec<String>)
    ensures
        r@.map_values(|p: String| p@) == known_paths(name@, location_view(*steam)),
{
    let mut v: Vec<String> = Vec::new();
    if is_steam_name(name) {
        match steam {
            Some(l) => v.push(l.exe.clone()),
            None => v.push(String::from_str(STEAM_EXE_FALLBACK)),
        }
    } else if same_text(name, "SteamWebHelper") {
        match steam {
            Some(l) => v.push(l.web_helper.clone()),
            None => v.push(String::from_str(STEAM_HELPER_FALLBACK)),
        }
    } else if same_text(name, "Ubisoft") {
        v.push(String::from_str(UBISOFT_EXE));
    } else if same_text(name, "EA") {
        v.push(String::from_str(EA_EXE));
    } else if same_text(name, "Epic") {
        v.push(String::from_str(EPIC_EXE));
    } else if same_text(name, "Rockstar") {
        v.push(String::from_str(ROCKSTAR_LAUNCHER));
        v.push(String::from_str(ROCKSTAR_SOCIAL_CLUB));
        v.push(String::from_str(ROCKSTAR_SERVICE));
        v.push(String::from_str(ROCKSTAR_ERROR_HANDLER));
        v.push(String::from_str(RDR2_EXE));
        v.push(String::from_str(RDR2_PLAY_EXE));
    }
    assert(v@.map_values(|p: String| p@) =~= known_paths(name@, location_view(*steam)));
    v
}

/// The name of the rule for the executable at `index` of a launcher:
/// `Block <launcher> App <index + 1>`.
pub fn rule_name(launcher: &str, index: usize) -> (r: String)
    requires
        index < u64::MAX,
    ensures
        r@ == rule_name_text(launcher@, index as nat),
{
    let mut s = String::from_str("Block ");
    s.append(launcher);
    s.append(" App ");
    let n = decimal(index as u64 + 1);
    s.append(n.as_str());
    s
}

/// The executables of a launcher with their rule names (see `rule_targets`).
pub fn launcher_rule_targets(name: &str, steam: &Option<SteamLocation>) -> (r: Vec<RuleTarget>)
    ensures
        r@.map_values(|t: RuleTarget| t@) == rule_targets(name@, location_view(*steam)),
{
    let mut out: Vec<RuleTarget> = Vec::new();
    if is_steam_name(name) {
        proof {
            reveal_strlit("Steam");
            reveal_strlit("SteamWebHelper");
            reveal_strlit("Steam_ALL");
            assert("SteamWebHelper"@.len() != "Steam"@.len());
            assert("SteamWebHelper"@.len() != "Steam_ALL"@.len());
        }
        let exe = launcher_paths("Steam", steam);
        let helper = launcher_paths("SteamWebHelper", steam);
        assert(exe@.map_values(|p: String| p@).len() == 1);
        assert(exe@.len() == 1);
        assert(!is_steam("SteamWebHelper"@));
        assert(helper@.map_values(|p: String| p@).len() == 1);
        assert(helper@.len() == 1);
        assert(exe@.map_values(|p: String| p@)[0] == steam_exe_path(location_view(*steam)));
        assert(helper@.map_values(|p: String| p@)[0] == steam_helper_path(location_view(*steam)));
        out.push(RuleTarget { path: exe[0].clone(), rule_name: String::from_str(STEAM_EXE_RULE) });
        out.push(
            RuleTarget { path: helper[0].clone(), rule_name: String::from_str(STEAM_HELPER_RULE) },
        );
    } else {
        let paths = launcher_paths(name, steam);
        let ghost kp = known_paths(name@, location_view(*steam));
        let mut i: usize = 0;
        while i < paths.len()
            invariant
                i <= paths.len(),
                paths@.map_values(|p: String| p@) == kp,
                kp == known_paths(name@, location_view(*steam)),
                out@.map_values(|t: RuleTarget| t@) =~= Seq::new(
                    i as nat,
                    |k: int| (kp[k], rule_name_text(name@, k as nat)),
                ),
            decreases paths.len() - i,
        {
            assert(paths@.map_values(|p: String| p@)[i as int] == paths@[i as int]@);
            let rn = rule_name(name, i);
            let t = RuleTarget { path: paths[i].clone(), rule_name: rn };
            assert(t@ == (kp[i as int], rule_name_text(name@, i as nat)));
            let ghost before = out@.map_values(|t: RuleTarget| t@);
            out.push(t);
            assert(out@.map_values(|t: RuleTarget| t@) =~= before.push(t@));
            i = i + 1;
        }
    }
    assert(out@.map_values(|t: RuleTarget| t@) =~= rule_targets(name@, location_view(*steam)));
    out
}

/// The changes that block (or unblock) every target.
pub open spec fn toggle_changes(targets: Seq<(Seq<char>, Seq<char>)>, block: bool) -> Seq<RuleChangeView> {
    Seq::new(
        targets.len(),
        |i: int| RuleChangeView { rule_name: targets[i].1, program_path: targets[i].0, block },
    )
}

/// The report of a toggle of `n` executables of a launcher.
pub open spec fn toggle_message(name: Seq<char>, n: nat) -> Seq<char> {
    if is_steam(name) {
        "Steam Full firewall rules updated"@
    } else {
        name + " firewall rules updated ("@ + decimal_text(n) + " executables)"@
    }
}

/// The changes that block or unblock all executables of a launcher, with a report;
/// an error for a launcher with no known executables.
pub fn firewall_toggle_plan(name: &str, steam: &Option<SteamLocation>, block: bool) -> (r: Result<
    (Vec<RuleChange>, String),
    String,
>)
    ensures
        match r {
            Ok((changes, message)) => {
                &&& rule_targets(name@, location_view(*steam)).len() > 0
                &&& changes@.map_values(|c: RuleChange| c@) == toggle_changes(
                    rule_targets(name@, location_view(*steam)),
                    block,
                )
                &&& message@ == toggle_message(
                    name@,
                    rule_targets(name@, location_view(*steam)).len(),
                )
            },
            Err(e) => {
                &&& rule_targets(name@, location_view(*steam)).len() == 0
                &&& e@ == "Launcher paths not found"@
            },
        },
{
    let targets = launcher_rule_targets(name, steam);
    let ghost tv = rule_targets(name@, location_view(*steam));
    if targets.len() == 0 {
        return Err(String::from_str("Launcher paths not found"));
    }
    let mut changes: Vec<RuleChange> = Vec::new();
    let mut i: usize = 0;
    while i < targets.len()
        invariant
            i <= targets.len(),
            targets@.map_values(|t: RuleTarget| t@) == tv,
            changes@.map_values(|c: RuleChange| c@) =~= toggle_changes(tv, block).subrange(
                0,
                i as int,
            ),
        decreases targets.len() - i,
    {
        assert(targets@.map_values(|t: RuleTarget| t@)[i as int] == targets@[i as int]@);
        let c = RuleChange {
            rule_name: targets[i].rule_name.clone(),
            program_path: targets[i].path.clone(),
            block,
        };
        let ghost before = changes@.map_values(|c: RuleChange| c@);
        changes.push(c);
        assert(changes@.map_values(|c: RuleChange| c@) =~= before.push(c@));
        i = i + 1;
    }
    assert(toggle_changes(tv, block).subrange(0, i as int) =~= toggle_changes(tv, block));
    let message = if is_steam_name(name) {
        String::from_str("Steam Full firewall rules updated")
    } else {
        let mut m = String::from_str(name);
        m.append(" firewall rules updated (");
        let n = decimal(targets.len() as u64);
        m.append(n.as_str());
        m.append(" executables)");
        m
    };
    Ok((changes, message))
}

/// The rule whose presence tells whether a launcher is blocked: Steam's main rule, or
/// the rule of a launcher's first executable; none for a launcher with none.
pub open spec fn status_rule_of(name: Seq<char>, steam: Option<(Seq<char>, Seq<char>)>) -> Option<Seq<char>> {
    if is_steam(name) {
        Some(STEAM_EXE_RULE@)
    } else if known_paths(name, steam).len() == 0 {
        None
    } else {
        Some(rule_name_text(name, 0))
    }
}

/// The rule to query for a launcher's blocked state (see `status_rule_of`).
pub fn status_rule(name: &str, steam: &Option<SteamLocation>) -> (r: Option<String>)
    ensures
        r.deep_view() == status_rule_of(name@, location_view(*steam)),
{
    if is_steam_name(name) {
        return Some(String::from_str(STEAM_EXE_RULE));
    }
    let paths = launcher_paths(name, steam);
    if paths.len() == 0 {
        None
    } else {
        Some(rule_name(name, 0))
    }
}

/// One `netsh advfirewall firewall` operation on the rule store.
pub enum NetshOp {
    /// Adds an outbound block rule for the program, beside any rule of the same name.
    Add { name: Seq<char>, program: Seq<char> },
    /// Deletes every rule of the name; with none present it changes nothing.
    Delete { name: Seq<char> },
}

/// The operations that apply a rule change: a block first deletes every rule of its
/// name and then adds one, so that it never leaves two; an unblock deletes them.
pub open spec fn change_ops(c: RuleChangeView) -> Seq<NetshOp> {
    if c.block {
        seq![NetshOp::Delete { name: c.rule_name }, NetshOp::Add { name: c.rule_name, program: c.program_path }]
    } else {
        seq![NetshOp::Delete { name: c.rule_name }]
    }
}

/// The `netsh` command line of one operation.
pub open spec fn op_text(op: NetshOp) -> Seq<char> {
    match op {
        NetshOp::Add { name, program } => "netsh advfirewall firewall add rule name=\""@ + name
            + "\" dir=out action=block program=\""@ + program + "\" enable=yes"@,
        NetshOp::Delete { name } => "netsh advfirewall firewall delete rule name=\""@ + name
            + "\""@,
    }
}

/// The shell command that applies a rule change: its operations in order, joined by
/// ` & `, which runs the next whatever the outcome of the one before.
pub open spec fn command_text(c: RuleChangeView) -> Seq<char> {
    if c.block {
        op_text(change_ops(c)[0]) + " & "@ + op_text(change_ops(c)[1])
    } else {
        op_text(change_ops(c)[0])
    }
}

/// The shell command that applies a rule change (see `command_text`).
pub fn firewall_command(c: &RuleChange) -> (r: String)
    ensures
        r@ == command_text(c@),
{
    let mut s = String::from_str("netsh advfirewall firewall delete rule name=\"");
    s.append(c.rule_name.as_str());
    s.append("\"");
    if c.block {
        s.append(" & ");
        s.append("netsh advfirewall firewall add rule name=\"");
        s.append(c.rule_name.as_str());
        s.append("\" dir=out action=block program=\"");
        s.append(c.program_path.as_str());
        s.append("\" enable=yes");
    }
    assert(s@ =~= command_text(c@));
    s
}

/// The PowerShell query that succeeds exactly when a rule of the given name exists.
pub open spec fn query_text(rule: Seq<char>) -> Seq<char> {
    "Get-NetFirewallRule -DisplayName '"@ + rule + "'"@
}

/// The PowerShell query for a rule (see `query_text`).
pub fn rule_query_command(rule: &str) -> (r: String)
    ensures
        r@ == query_text(rule@),
{
    let mut s = String::from_str("Get-NetFirewallRule -DisplayName '");
    s.append(rule);
    s.append("'");
    s
}

/// The rules of a store that do not have the name, in order.
pub open spec fn without(rules: Seq<(Seq<char>, Seq<char>)>, name: Seq<char>) -> Seq<(Seq<char>, Seq<char>)>
    decreases rules.len(),
{
    if rules.len() == 0 {
        Seq::empty()
    } else if rules.last().0 == name {
        without(rules.drop_last(), name)
    } else {
        without(rules.drop_last(), name).push(rules.last())
    }
}

/// The rules of a store that have the name, in order.
pub open spec fn named(rules: Seq<(Seq<char>, Seq<char>)>, name: Seq<char>) -> Seq<(Seq<char>, Seq<char>)>
    decreases rules.len(),
{
    if rules.len() == 0 {
        Seq::empty()
    } else if rules.last().0 == name {
        named(rules.drop_last(), name).push(rules.last())
    } else {
        named(rules.drop_last(), name)
    }
}

/// The rule store, as (name, program) pairs of outbound block rules, after one
/// operation.
pub open spec fn apply_op(rules: Seq<(Seq<char>, Seq<char>)>, op: NetshOp) -> Seq<(Seq<char>, Seq<char>)> {
    match op {
        NetshOp::Add { name, program } => rules.push((name, program)),
        NetshOp::Delete { name } => without(rules, name),
    }
}

pub open spec fn apply_ops(rules: Seq<(Seq<char>, Seq<char>)>, ops: Seq<NetshOp>) -> Seq<(Seq<char>, Seq<char>)>
    decreases ops.len(),
{
    if ops.len() == 0 {
        rules
    } else {
        apply_ops(apply_op(rules, ops[0]), ops.drop_first())
    }
}

/// The rule store after the command of a change has run.
pub open spec fn apply_change(rules: Seq<(Seq<char>, Seq<char>)>, c: RuleChangeView) -> Seq<(Seq<char>, Seq<char>)> {
    apply_ops(rules, change_ops(c))
}

pub open spec fn blocked_in(rules: Seq<(Seq<char>, Seq<char>)>, name: Seq<char>) -> bool {
    named(rules, name).len() > 0
}

proof fn lemma_named_push(rules: Seq<(Seq<char>, Seq<char>)>, r: (Seq<char>, Seq<char>), name: Seq<char>)
    ensures
        named(rules.push(r), name) == if r.0 == name {
            named(rules, name).push(r)
        } else {
            named(rules, name)
        },
{
    assert(rules.push(r).drop_last() =~= rules);
}

proof fn lemma_named_without(rules: Seq<(Seq<char>, Seq<char>)>, name: Seq<char>, other: Seq<char>)
    ensures
        named(without(rules, name), name) == Seq::<(Seq<char>, Seq<char>)>::empty(),
        other != name ==> named(without(rules, name), other) == named(rules, other),
    decreases rules.len(),
{
    if rules.len() > 0 {
        lemma_named_without(rules.drop_last(), name, other);
        if rules.last().0 != name {
            lemma_named_push(without(rules.drop_last(), name), rules.last(), name);
            lemma_named_push(without(rules.drop_last(), name), rules.last(), other);
        }
    }
}

/// After the command of a change has run, the store holds exactly one rule of the
/// change's name, for its program, where the change blocks, and none where it
/// unblocks; rules of other names stay as they were.
pub proof fn lemma_change_effect(rules: Seq<(Seq<char>, Seq<char>)>, c: RuleChangeView, other: Seq<char>)
    ensures
        named(apply_change(rules, c), c.rule_name) == if c.block {
            seq![(c.rule_name, c.program_path)]
        } else {
            Seq::<(Seq<char>, Seq<char>)>::empty()
        },
        other != c.rule_name ==> named(apply_change(rules, c), other) == named(rules, other),
{
    let ops = change_ops(c);
    lemma_named_without(rules, c.rule_name, other);
    let w = without(rules, c.rule_name);
    if c.block {
        assert(ops.drop_first().drop_first() =~= Seq::<NetshOp>::empty());
        assert(ops.drop_first()[0] == NetshOp::Add { name: c.rule_name, program: c.program_path });
        assert(apply_ops(w.push((c.rule_name, c.program_path)), ops.drop_first().drop_first())
            == w.push((c.rule_name, c.program_path)));
        assert(apply_ops(w, ops.drop_first()) == w.push((c.rule_name, c.program_path)));
        assert(apply_change(rules, c) == w.push((c.rule_name, c.program_path)));
        lemma_named_push(w, (c.rule_name, c.program_path), c.rule_name);
        lemma_named_push(w, (c.rule_name, c.program_path), other);
        assert(named(w, c.rule_name).push((c.rule_name, c.program_path)) =~= seq![(c.rule_name, c.program_path)]);
    } else {
        assert(ops.drop_first() =~= Seq::<NetshOp>::empty());
        assert(apply_ops(w, ops.drop_first()) == w);
        assert(apply_change(rules, c) == w);
    }
}

/// Blocking makes a rule present, once; unblocking after it makes it absent; blocking
/// twice leaves one rule of the name, so one unblock after two blocks leaves none.
pub proof fn lemma_block_unblock(rules: Seq<(Seq<char>, Seq<char>)>, name: Seq<char>, path: Seq<char>)
    ensures
        named(
            apply_change(rules, RuleChangeView { rule_name: name, program_path: path, block: true }),
            name,
        ) == seq![(name, path)],
        !blocked_in(
            apply_change(
                apply_change(rules, RuleChangeView { rule_name: name, program_path: path, block: true }),
                RuleChangeView { rule_name: name, program_path: path, block: false },
            ),
            name,
        ),
        named(
            apply_change(
                apply_change(rules, RuleChangeView { rule_name: name, program_path: path, block: true }),
                RuleChangeView { rule_name: name, program_path: path, block: true },
            ),
            name,
        ) == seq![(name, path)],
        !blocked_in(
            apply_change(
                apply_change(
                    apply_change(rules, RuleChangeView { rule_name: name, program_path: path, block: true }),
                    RuleChangeView { rule_name: name, program_path: path, block: true },
                ),
                RuleChangeView { rule_name: name, program_path: path, block: false },
            ),
            name,
        ),
        !blocked_in(
            apply_change(rules, RuleChangeView { rule_name: name, program_path: path, block: false }),
            name,
        ),
{
    let b = RuleChangeView { rule_name: name, program_path: path, block: true };
    let u = RuleChangeView { rule_name: name, program_path: path, block: false };
    let once = apply_change(rules, b);
    let twice = apply_change(once, b);
    lemma_change_effect(rules, b, name);
    lemma_change_effect(once, u, name);
    lemma_change_effect(once, b, name);
    lemma_change_effect(twice, u, name);
    lemma_change_effect(rules, u, name);
}

} // verus!
