use launcher_core::launch::{FlowPoint, LaunchEvent, LaunchFlow, LaunchRequest, LaunchStep};

fn name(step: &LaunchStep) -> String {
    match step {
        LaunchStep::ApplyRules => "rules".to_string(),
        LaunchStep::RewriteMarker => "marker".to_string(),
        LaunchStep::EndClientAndAwaitExit => "end-wait".to_string(),
        LaunchStep::ResolveAccount => "resolve".to_string(),
        LaunchStep::SpawnLogin => "spawn-login".to_string(),
        LaunchStep::AwaitLogin(id) => format!("await-{}", id),
        LaunchStep::SpawnLaunch => "spawn-launch".to_string(),
        LaunchStep::Finish(Ok(())) => "ok".to_string(),
        LaunchStep::Finish(Err(e)) => format!("err: {}", e),
    }
}

/// Runs a launch with a host that answers each step from the given outcomes.
fn drive(
    req: LaunchRequest,
    resolved: Option<u32>,
    login_spawn: Result<(), String>,
    launch_spawn: Result<(), String>,
) -> Vec<String> {
    let mut flow = LaunchFlow::new(&req, &None);
    let mut trace = Vec::new();
    let mut step = flow.advance(LaunchEvent::Completed);
    for _ in 0..20 {
        trace.push(name(&step));
        let event = match &step {
            LaunchStep::ResolveAccount => LaunchEvent::Resolved(resolved),
            LaunchStep::SpawnLogin => LaunchEvent::Spawned(login_spawn.clone()),
            LaunchStep::AwaitLogin(_) => LaunchEvent::LoginSeen(false),
            LaunchStep::SpawnLaunch => LaunchEvent::Spawned(launch_spawn.clone()),
            LaunchStep::Finish(_) => break,
            _ => LaunchEvent::Completed,
        };
        step = flow.advance(event);
    }
    trace
}

#[test]
fn launch_without_account_spawns_game_once() {
    let req = LaunchRequest { app_id: 730, account_name: None, offline: false };
    let trace = drive(req, None, Ok(()), Ok(()));
    assert_eq!(trace, vec!["rules", "marker", "spawn-launch", "ok"]);
}

#[test]
fn launch_as_unknown_offline_toggles_only() {
    let req = LaunchRequest { app_id: 730, account_name: Some("Unknown".to_string()), offline: true };
    let trace = drive(req, Some(9), Ok(()), Ok(()));
    assert_eq!(trace, vec!["end-wait", "rules", "marker", "spawn-launch", "ok"]);
}

#[test]
fn launch_with_account_switches_and_waits() {
    let req = LaunchRequest { app_id: 440, account_name: Some("alice".to_string()), offline: false };
    let trace = drive(req, Some(5), Ok(()), Ok(()));
    assert_eq!(
        trace,
        vec!["rules", "marker", "end-wait", "resolve", "spawn-login", "await-5", "spawn-launch", "ok"]
    );
}

#[test]
fn unresolved_account_skips_login_wait() {
    let req = LaunchRequest { app_id: 440, account_name: Some("ghost".to_string()), offline: false };
    let trace = drive(req, None, Ok(()), Ok(()));
    assert_eq!(trace, vec!["rules", "marker", "end-wait", "resolve", "spawn-login", "spawn-launch", "ok"]);
}

#[test]
fn failed_game_spawn_is_fatal() {
    let req = LaunchRequest { app_id: 730, account_name: None, offline: false };
    let trace = drive(req, None, Ok(()), Err("boom".to_string()));
    assert_eq!(trace.last().unwrap(), "err: Failed to launch game: boom");
}

#[test]
fn failed_login_spawn_is_fatal() {
    let req = LaunchRequest { app_id: 730, account_name: Some("bob".to_string()), offline: false };
    let trace = drive(req, Some(1), Err("denied".to_string()), Ok(()));
    assert_eq!(trace.last().unwrap(), "err: Failed to start Steam login: denied");
    assert!(!trace.contains(&"spawn-launch".to_string()));
}

#[test]
fn unexpected_event_fails_the_launch() {
    let req = LaunchRequest { app_id: 1, account_name: None, offline: false };
    let mut flow = LaunchFlow::new(&req, &None);
    flow.advance(LaunchEvent::Completed);
    let step = flow.advance(LaunchEvent::LoginSeen(true));
    assert_eq!(name(&step), "err: Unexpected launch event");
    assert_eq!(flow.point, FlowPoint::Failed);
    let again = flow.advance(LaunchEvent::Completed);
    assert_eq!(name(&again), "err: Unexpected launch event");
}
