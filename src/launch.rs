use vstd::prelude::*;

use crate::firewall::{
    launcher_paths, location_view, steam_exe_path, steam_helper_path, RuleChange,
    RuleChangeView, SteamLocation, STEAM_EXE_RULE, STEAM_HELPER_RULE,
};
use crate::text::{decimal, decimal_text, replace_all, replace_text, same_text};

verus! {

/// The offline flag of the login cache, set off, in its tab-separated spelling.
pub const ONLINE_TAB: &'static str = "\"WantsOfflineMode\"\t\t\"0\"";

/// The offline flag of the login cache, set on, in its tab-separated spelling.
pub const OFFLINE_TAB: &'static str = "\"WantsOfflineMode\"\t\t\"1\"";

/// The offline flag of the login cache, set off, in its space-separated spelling.
pub const ONLINE_SPACE: &'static str = "\"WantsOfflineMode\" \"0\"";

/// The offline flag of the login cache, set on, in its space-separated spelling.
pub const OFFLINE_SPACE: &'static str = "\"WantsOfflineMode\" \"1\"";

/// A request to start a game, optionally as another account and offline.
pub struct LaunchRequest {
    pub app_id: u32,
    pub account_name: Option<String>,
    pub offline: bool,
}

/// The steps of a launch, in the order they are taken:
/// 1. when `kill_client_first`, end the client and wait for it to exit;
/// 2. apply `rule_changes`;
/// 3. rewrite the login cache's offline flag to `offline_marker`;
/// 4. when `switch_account` is set, end the client and wait for it to exit, resolve the
///    account's local id, start the client with `login_args` (a failure is fatal) and,
///    where the id resolved, wait for that login;
/// 5. start the client with `launch_args` (a failure is fatal).
pub struct LaunchPlan {
    pub kill_client_first: bool,
    pub rule_changes: Vec<RuleChange>,
    pub offline_marker: bool,
    pub switch_account: Option<String>,
    pub login_args: Vec<String>,
    pub launch_args: Vec<String>,
}

/// The account to switch to: a name that is neither empty nor `Unknown`.
pub open spec fn switch_target(account: Option<Seq<char>>) -> Option<Seq<char>> {
    match account {
        Some(a) => if a.len() > 0 && a != "Unknown"@ {
            Some(a)
        } else {
            None
        },
        None => None,
    }
}

/// Offline: block both Steam executables; online: delete both rules.
pub open spec fn offline_changes(offline: bool, steam: Option<(Seq<char>, Seq<char>)>) -> Seq<RuleChangeView> {
    if offline {
        seq![
            RuleChangeView { rule_name: STEAM_EXE_RULE@, program_path: steam_exe_path(steam), block: true },
            RuleChangeView {
                rule_name: STEAM_HELPER_RULE@,
                program_path: steam_helper_path(steam),
                block: true,
            },
        ]
    } else {
        seq![
            RuleChangeView { rule_name: STEAM_EXE_RULE@, program_path: Seq::empty(), block: false },
            RuleChangeView { rule_name: STEAM_HELPER_RULE@, program_path: Seq::empty(), block: false },
        ]
    }
}

pub open spec fn login_args_of(account: Seq<char>) -> Seq<Seq<char>> {
    seq!["-login"@, account]
}

pub open spec fn launch_args_of(app_id: u32) -> Seq<Seq<char>> {
    seq!["-applaunch"@, decimal_text(app_id as nat)]
}

/// The login cache with its offline flag set on (`offline`) or off, in both spellings.
pub open spec fn marker_rewritten(content: Seq<char>, offline: bool) -> Seq<char> {
    if offline {
        replace_all(replace_all(content, ONLINE_TAB@, OFFLINE_TAB@), ONLINE_SPACE@, OFFLINE_SPACE@)
    } else {
        replace_all(replace_all(content, OFFLINE_TAB@, ONLINE_TAB@), OFFLINE_SPACE@, ONLINE_SPACE@)
    }
}

/// Sets the offline flag of a login cache's text on or off.
pub fn rewrite_offline_marker(content: &str, offline: bool) -> (r: String)
    ensures
        r@ == marker_rewritten(content@, offline),
{
    proof {
        reveal_strlit("\"WantsOfflineMode\"\t\t\"0\"");
        reveal_strlit("\"WantsOfflineMode\"\t\t\"1\"");
        reveal_strlit("\"WantsOfflineMode\" \"0\"");
        reveal_strlit("\"WantsOfflineMode\" \"1\"");
    }
    if offline {
        let once = replace_text(content, ONLINE_TAB, OFFLINE_TAB);
        replace_text(once.as_str(), ONLINE_SPACE, OFFLINE_SPACE)
    } else {
        let once = replace_text(content, OFFLINE_TAB, ONLINE_TAB);
        replace_text(once.as_str(), OFFLINE_SPACE, ONLINE_SPACE)
    }
}

/// The account to switch to (see `switch_target`).
pub fn account_to_switch(account: &Option<String>) -> (r: Option<String>)
    ensures
        r.deep_view() == switch_target(account.deep_view()),
{
    match account {
        Some(a) => if a.as_str().unicode_len() > 0 && !same_text(a.as_str(), "Unknown") {
            Some(a.clone())
        } else {
            None
        },
        None => None,
    }
}

/// The arguments that start the client logged in as `account`.
pub fn login_args(account: &str) -> (r: Vec<String>)
    ensures
        r@.map_values(|s: String| s@) == login_args_of(account@),
{
    let v = vec![String::from_str("-login"), String::from_str(account)];
    assert(v@.map_values(|s: String| s@) =~= login_args_of(account@));
    v
}

/// The arguments that make the client start a game.
pub fn launch_args(app_id: u32) -> (r: Vec<String>)
    ensures
        r@.map_values(|s: String| s@) == launch_args_of(app_id),
{
    let v = vec![String::from_str("-applaunch"), decimal(app_id as u64)];
    assert(v@.map_values(|s: String| s@) =~= launch_args_of(app_id));
    v
}

/// The firewall changes of a launch (see `offline_changes`).
pub fn offline_rule_changes(offline: bool, steam: &Option<SteamLocation>) -> (r: Vec<RuleChange>)
    ensures
        r@.map_values(|c: RuleChange| c@) == offline_changes(offline, location_view(*steam)),
{
    let v = if offline {
        let exe = launcher_paths("Steam", steam);
        let helper = launcher_paths("SteamWebHelper", steam);
        proof {
            reveal_strlit("Steam");
            reveal_strlit("SteamWebHelper");
            reveal_strlit("Steam_ALL");
            assert("SteamWebHelper"@.len() != "Steam"@.len());
            assert("SteamWebHelper"@.len() != "Steam_ALL"@.len());
        }
        assert(exe@.map_values(|p: String| p@).len() == 1);
        assert(helper@.map_values(|p: String| p@).len() == 1);
        assert(exe@.map_values(|p: String| p@)[0] == exe@[0]@);
        assert(helper@.map_values(|p: String| p@)[0] == helper@[0]@);
        vec![
            RuleChange {
                rule_name: String::from_str(STEAM_EXE_RULE),
                program_path: exe[0].clone(),
                block: true,
            },
            RuleChange {
                rule_name: String::from_str(STEAM_HELPER_RULE),
                program_path: helper[0].clone(),
                block: true,
            },
        ]
    } else {
        vec![
            RuleChange {
                rule_name: String::from_str(STEAM_EXE_RULE),
                program_path: String::new(),
                block: false,
            },
            RuleChange {
                rule_name: String::from_str(STEAM_HELPER_RULE),
                program_path: String::new(),
                block: false,
            },
        ]
    };
    assert(v@.map_values(|c: RuleChange| c@) =~= offline_changes(offline, location_view(*steam)));
    v
}

/// The plan of a launch (see `LaunchPlan`): offline it ends the client first and
/// blocks it, online it lifts the blocks; it switches account only for a name that is
/// neither empty nor `Unknown`; it always ends by launching the game.
pub fn plan_launch(req: &LaunchRequest, steam: &Option<SteamLocation>) -> (r: LaunchPlan)
    ensures
        r.kill_client_first == req.offline,
        r.rule_changes@.map_values(|c: RuleChange| c@) == offline_changes(
            req.offline,
            location_view(*steam),
        ),
        r.offline_marker == req.offline,
        r.switch_account.deep_view() == switch_target(req.account_name.deep_view()),
        r.login_args@.map_values(|s: String| s@) == match switch_target(
            req.account_name.deep_view(),
        ) {
            Some(a) => login_args_of(a),
            None => Seq::empty(),
        },
        r.launch_args@.map_values(|s: String| s@) == launch_args_of(req.app_id),
{
    let switch_account = account_to_switch(&req.account_name);
    let login = match &switch_account {
        Some(a) => login_args(a.as_str()),
        None => {
            let v: Vec<String> = Vec::new();
            assert(v@.map_values(|s: String| s@) =~= Seq::<Seq<char>>::empty());
            v
        },
    };
    LaunchPlan {
        kill_client_first: req.offline,
        rule_changes: offline_rule_changes(req.offline, steam),
        offline_marker: req.offline,
        switch_account,
        login_args: login,
        launch_args: launch_args(req.app_id),
    }
}

/// The arguments that restart the client as `account`, or the error for a name that
/// is empty or `Unknown`.
pub fn switch_account_args(account: &str) -> (r: Result<Vec<String>, String>)
    ensures
        match r {
            Ok(args) => account@.len() > 0 && account@ != "Unknown"@ && args@.map_values(
                |s: String| s@,
            ) == login_args_of(account@),
            Err(e) => (account@.len() == 0 || account@ == "Unknown"@) && e@
                == "Invalid account name"@,
        },
{
    if account.unicode_len() == 0 || same_text(account, "Unknown") {
        Err(String::from_str("Invalid account name"))
    } else {
        Ok(login_args(account))
    }
}

/// Where a launch stands. `EndingClient`, `ApplyingRules` and `RewritingMarker` make up
/// the offline toggle; `EndingForSwitch`, `Resolving` and `SpawningLogin` the account
/// switch; `AwaitingLogin` the wait for the login; `SpawningLaunch` the launch.
#[derive(Clone, Copy, Debug, PartialEq, Eq, Structural)]
pub enum FlowPoint {
    Start,
    EndingClient,
    ApplyingRules,
    RewritingMarker,
    EndingForSwitch,
    Resolving,
    SpawningLogin,
    AwaitingLogin,
    SpawningLaunch,
    Done,
    Failed,
}

/// What the host does next for a launch. Steps that name no values take them from the
/// flow's plan.
pub enum LaunchStep {
    /// Apply the plan's rule changes; failures are only reported.
    ApplyRules,
    /// Set the login cache's offline flag to the plan's marker; failures are ignored.
    RewriteMarker,
    /// End the client's processes and wait until they have exited.
    EndClientAndAwaitExit,
    /// Find the local id of the plan's account in the login cache.
    ResolveAccount,
    /// Start the client with the plan's login arguments.
    SpawnLogin,
    /// Wait until the client reports this local id as the active one.
    AwaitLogin(u32),
    /// Start the client with the plan's launch arguments.
    SpawnLaunch,
    /// The launch is over, with this outcome.
    Finish(Result<(), String>),
}

/// What the host reports after a step.
pub enum LaunchEvent {
    /// A step with no result of its own has been carried out.
    Completed,
    /// The account's local id, where it could be found.
    Resolved(Option<u32>),
    /// The client was started, or the error of the attempt.
    Spawned(Result<(), String>),
    /// Whether the login was seen before the wait ran out.
    LoginSeen(bool),
}

/// A launch in progress: its plan, where it stands, the local id it waits for, and
/// the message of its failure once it has failed.
pub struct LaunchFlow {
    pub plan: LaunchPlan,
    pub point: FlowPoint,
    pub target: Option<u32>,
    pub failure: String,
}

/// Where a launch goes on an event: each step moves it on when the host reports its
/// outcome, the switch only happens when the plan has an account, the login wait only
/// when the account's local id was found; a failed spawn fails it, as does an event
/// that does not answer the pending step.
pub open spec fn next_point(p: FlowPoint, offline: bool, switching: bool, target: Option<u32>, ev: LaunchEvent) -> FlowPoint {
    match p {
        FlowPoint::Start => if offline {
            FlowPoint::EndingClient
        } else {
            FlowPoint::ApplyingRules
        },
        FlowPoint::EndingClient => if ev is Completed {
            FlowPoint::ApplyingRules
        } else {
            FlowPoint::Failed
        },
        FlowPoint::ApplyingRules => if ev is Completed {
            FlowPoint::RewritingMarker
        } else {
            FlowPoint::Failed
        },
        FlowPoint::RewritingMarker => if !(ev is Completed) {
            FlowPoint::Failed
        } else if switching {
            FlowPoint::EndingForSwitch
        } else {
            FlowPoint::SpawningLaunch
        },
        FlowPoint::EndingForSwitch => if ev is Completed {
            FlowPoint::Resolving
        } else {
            FlowPoint::Failed
        },
        FlowPoint::Resolving => if ev is Resolved {
            FlowPoint::SpawningLogin
        } else {
            FlowPoint::Failed
        },
        FlowPoint::SpawningLogin => match ev {
            LaunchEvent::Spawned(Ok(())) => if target is Some {
                FlowPoint::AwaitingLogin
            } else {
                FlowPoint::SpawningLaunch
            },
            _ => FlowPoint::Failed,
        },
        FlowPoint::AwaitingLogin => if ev is LoginSeen {
            FlowPoint::SpawningLaunch
        } else {
            FlowPoint::Failed
        },
        FlowPoint::SpawningLaunch => match ev {
            LaunchEvent::Spawned(Ok(())) => FlowPoint::Done,
            _ => FlowPoint::Failed,
        },
        FlowPoint::Done => FlowPoint::Done,
        FlowPoint::Failed => FlowPoint::Failed,
    }
}

/// The local id a launch waits for: set when the account is resolved.
pub open spec fn next_target(p: FlowPoint, target: Option<u32>, ev: LaunchEvent) -> Option<u32> {
    match (p, ev) {
        (FlowPoint::Resolving, LaunchEvent::Resolved(id)) => id,
        _ => target,
    }
}

/// The message of a failure that happens on `ev` at `p`.
pub open spec fn failure_text(p: FlowPoint, ev: LaunchEvent, earlier: Seq<char>) -> Seq<char> {
    match (p, ev) {
        (FlowPoint::Failed, _) => earlier,
        (FlowPoint::SpawningLogin, LaunchEvent::Spawned(Err(e))) => "Failed to start Steam login: "@ + e@,
        (FlowPoint::SpawningLaunch, LaunchEvent::Spawned(Err(e))) => "Failed to launch game: "@ + e@,
        _ => "Unexpected launch event"@,
    }
}

/// The step that belongs to a point of a launch.
pub open spec fn step_of(p: FlowPoint, target: Option<u32>, failure: Seq<char>, s: LaunchStep) -> bool {
    match p {
        FlowPoint::Start => s is ApplyRules,
        FlowPoint::EndingClient => s is EndClientAndAwaitExit,
        FlowPoint::ApplyingRules => s is ApplyRules,
        FlowPoint::RewritingMarker => s is RewriteMarker,
        FlowPoint::EndingForSwitch => s is EndClientAndAwaitExit,
        FlowPoint::Resolving => s is ResolveAccount,
        FlowPoint::SpawningLogin => s is SpawnLogin,
        FlowPoint::AwaitingLogin => target is Some && s == LaunchStep::AwaitLogin(target->0),
        FlowPoint::SpawningLaunch => s is SpawnLaunch,
        FlowPoint::Done => s matches LaunchStep::Finish(Ok(())),
        FlowPoint::Failed => match s {
            LaunchStep::Finish(Err(m)) => m@ == failure,
            _ => false,
        },
    }
}

fn failure_message(prefix: &str, e: &String) -> (r: String)
    ensures
        r@ == prefix@ + e@,
{
    let mut m = String::from_str(prefix);
    m.append(e.as_str());
    m
}

impl LaunchFlow {
    /// A launch about to start, with the plan of the request.
    pub fn new(req: &LaunchRequest, steam: &Option<SteamLocation>) -> (r: LaunchFlow)
        ensures
            r.point == FlowPoint::Start,
            r.target is None,
            r.plan.kill_client_first == req.offline,
            r.plan.rule_changes@.map_values(|c: RuleChange| c@) == offline_changes(
                req.offline,
                location_view(*steam),
            ),
            r.plan.offline_marker == req.offline,
            r.plan.switch_account.deep_view() == switch_target(req.account_name.deep_view()),
            r.plan.login_args@.map_values(|s: String| s@) == match switch_target(
                req.account_name.deep_view(),
            ) {
                Some(a) => login_args_of(a),
                None => Seq::empty(),
            },
            r.plan.launch_args@.map_values(|s: String| s@) == launch_args_of(req.app_id),
    {
        LaunchFlow {
            plan: plan_launch(req, steam),
            point: FlowPoint::Start,
            target: None,
            failure: String::new(),
        }
    }

    /// Moves the launch on by the host's report of the last step, and gives the next
    /// step (see `next_point`).
    pub fn advance(&mut self, ev: LaunchEvent) -> (r: LaunchStep)
        ensures
            final(self).plan == old(self).plan,
            final(self).point == next_point(
                old(self).point,
                old(self).plan.kill_client_first,
                old(self).plan.switch_account is Some,
                old(self).target,
                ev,
            ),
            final(self).target == next_target(old(self).point, old(self).target, ev),
            final(self).point == FlowPoint::Failed ==> final(self).failure@ == failure_text(
                old(self).point,
                ev,
                old(self).failure@,
            ),
            step_of(final(self).point, final(self).target, final(self).failure@, r),
    {
        let p = self.point;
        let completed = match &ev {
            LaunchEvent::Completed => true,
            _ => false,
        };
        let next = match p {
            FlowPoint::Start => if self.plan.kill_client_first {
                FlowPoint::EndingClient
            } else {
                FlowPoint::ApplyingRules
            },
            FlowPoint::EndingClient => if completed {
                FlowPoint::ApplyingRules
            } else {
                FlowPoint::Failed
            },
            FlowPoint::ApplyingRules => if completed {
                FlowPoint::RewritingMarker
            } else {
                FlowPoint::Failed
            },
            FlowPoint::RewritingMarker => if !completed {
                FlowPoint::Failed
            } else if self.plan.switch_account.is_some() {
                FlowPoint::EndingForSwitch
            } else {
                FlowPoint::SpawningLaunch
            },
            FlowPoint::EndingForSwitch => if completed {
                FlowPoint::Resolving
            } else {
                FlowPoint::Failed
            },
            FlowPoint::Resolving => match &ev {
                LaunchEvent::Resolved(id) => {
                    self.target = *id;
                    FlowPoint::SpawningLogin
                },
                _ => FlowPoint::Failed,
            },
            FlowPoint::SpawningLogin => match &ev {
                LaunchEvent::Spawned(Ok(())) => if self.target.is_some() {
                    FlowPoint::AwaitingLogin
                } else {
                    FlowPoint::SpawningLaunch
                },
                _ => FlowPoint::Failed,
            },
            FlowPoint::AwaitingLogin => match &ev {
                LaunchEvent::LoginSeen(_) => FlowPoint::SpawningLaunch,
                _ => FlowPoint::Failed,
            },
            FlowPoint::SpawningLaunch => match &ev {
                LaunchEvent::Spawned(Ok(())) => FlowPoint::Done,
                _ => FlowPoint::Failed,
            },
            FlowPoint::Done => FlowPoint::Done,
            FlowPoint::Failed => FlowPoint::Failed,
        };
        if next == FlowPoint::Failed && p != FlowPoint::Failed {
            self.failure = match (p, &ev) {
                (FlowPoint::SpawningLogin, LaunchEvent::Spawned(Err(e))) => failure_message(
                    "Failed to start Steam login: ",
                    e,
                ),
                (FlowPoint::SpawningLaunch, LaunchEvent::Spawned(Err(e))) => failure_message(
                    "Failed to launch game: ",
                    e,
                ),
                _ => String::from_str("Unexpected launch event"),
            };
        }
        self.point = next;
        match next {
            FlowPoint::Start => LaunchStep::ApplyRules,
            FlowPoint::EndingClient => LaunchStep::EndClientAndAwaitExit,
            FlowPoint::ApplyingRules => LaunchStep::ApplyRules,
            FlowPoint::RewritingMarker => LaunchStep::RewriteMarker,
            FlowPoint::EndingForSwitch => LaunchStep::EndClientAndAwaitExit,
            FlowPoint::Resolving => LaunchStep::ResolveAccount,
            FlowPoint::SpawningLogin => LaunchStep::SpawnLogin,
            FlowPoint::AwaitingLogin => match self.target {
                Some(id) => LaunchStep::AwaitLogin(id),
                None => LaunchStep::SpawnLaunch,
            },
            FlowPoint::SpawningLaunch => LaunchStep::SpawnLaunch,
            FlowPoint::Done => LaunchStep::Finish(Ok(())),
            FlowPoint::Failed => LaunchStep::Finish(Err(self.failure.clone())),
        }
    }
}

/// Without an account to switch to, an online launch lifts its blocks, rewrites the
/// offline flag and goes straight to starting the game: it neither switches account
/// nor waits for a login, and one successful start finishes it.
pub proof fn lemma_online_launch_without_switch(target: Option<u32>, first: LaunchEvent)
    ensures
        next_point(FlowPoint::Start, false, false, target, first) == FlowPoint::ApplyingRules,
        next_point(FlowPoint::ApplyingRules, false, false, target, LaunchEvent::Completed)
            == FlowPoint::RewritingMarker,
        next_point(FlowPoint::RewritingMarker, false, false, target, LaunchEvent::Completed)
            == FlowPoint::SpawningLaunch,
        next_point(FlowPoint::SpawningLaunch, false, false, target, LaunchEvent::Spawned(Ok(())))
            == FlowPoint::Done,
        forall|s: Option<(Seq<char>, Seq<char>)>|
            #![trigger offline_changes(false, s)]
            offline_changes(false, s).len() == 2 && !offline_changes(false, s)[0].block
                && !offline_changes(false, s)[1].block,
        switch_target(None) is None,
{
}

/// A launch whose account is `Unknown` or empty does not switch; offline, it still ends
/// the client, blocks both of its executables and sets the offline flag before it
/// starts the game.
pub proof fn lemma_offline_launch_without_switch(target: Option<u32>, first: LaunchEvent)
    ensures
        switch_target(Some("Unknown"@)) is None,
        switch_target(Some(Seq::empty())) is None,
        next_point(FlowPoint::Start, true, false, target, first) == FlowPoint::EndingClient,
        next_point(FlowPoint::EndingClient, true, false, target, LaunchEvent::Completed)
            == FlowPoint::ApplyingRules,
        next_point(FlowPoint::ApplyingRules, true, false, target, LaunchEvent::Completed)
            == FlowPoint::RewritingMarker,
        next_point(FlowPoint::RewritingMarker, true, false, target, LaunchEvent::Completed)
            == FlowPoint::SpawningLaunch,
        forall|s: Option<(Seq<char>, Seq<char>)>|
            #![trigger offline_changes(true, s)]
            offline_changes(true, s).len() == 2 && offline_changes(true, s)[0].block
                && offline_changes(true, s)[1].block,
        forall|c: Seq<char>|
            #![trigger marker_rewritten(c, true)]
            marker_rewritten(c, true) == replace_all(
                replace_all(c, ONLINE_TAB@, OFFLINE_TAB@),
                ONLINE_SPACE@,
                OFFLINE_SPACE@,
            ),
{
}

/// A launch that does switch account waits for the login only where the account's
/// local id was found, and starts the game whether or not the login was seen.
pub proof fn lemma_switch_waits_only_for_resolved_login(offline: bool, id: u32, seen: bool)
    ensures
        next_point(FlowPoint::RewritingMarker, offline, true, None, LaunchEvent::Completed)
            == FlowPoint::EndingForSwitch,
        next_point(FlowPoint::SpawningLogin, offline, true, Some(id), LaunchEvent::Spawned(Ok(())))
            == FlowPoint::AwaitingLogin,
        next_point(FlowPoint::SpawningLogin, offline, true, None, LaunchEvent::Spawned(Ok(())))
            == FlowPoint::SpawningLaunch,
        next_point(FlowPoint::AwaitingLogin, offline, true, Some(id), LaunchEvent::LoginSeen(seen))
            == FlowPoint::SpawningLaunch,
{
}

} // verus!
