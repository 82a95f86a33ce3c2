use launcher_core::firewall::SteamLocation;
use launcher_core::launch::{
    account_to_switch, launch_args, plan_launch, rewrite_offline_marker, switch_account_args,
    LaunchRequest,
};

fn located() -> Option<SteamLocation> {
    Some(SteamLocation {
        exe: "C:\\Steam\\steam.exe".to_string(),
        web_helper: "C:\\Steam\\bin\\cef\\cef.win7x64\\steamwebhelper.exe".to_string(),
    })
}

#[test]
fn plain_launch_goes_straight_to_game() {
    let req = LaunchRequest { app_id: 730, account_name: None, offline: false };
    let plan = plan_launch(&req, &located());
    assert!(!plan.kill_client_first);
    assert!(plan.switch_account.is_none());
    assert!(plan.login_args.is_empty());
    assert_eq!(plan.launch_args, vec!["-applaunch".to_string(), "730".to_string()]);
    assert_eq!(plan.rule_changes.len(), 2);
    assert!(plan.rule_changes.iter().all(|c| !c.block && c.program_path.is_empty()));
    assert_eq!(plan.rule_changes[0].rule_name, "Block Steam Exe");
    assert_eq!(plan.rule_changes[1].rule_name, "Block Steam WebHelper");
    assert!(!plan.offline_marker);
}

#[test]
fn unknown_account_offline_toggles_without_switch() {
    let req = LaunchRequest { app_id: 730, account_name: Some("Unknown".to_string()), offline: true };
    let plan = plan_launch(&req, &located());
    assert!(plan.kill_client_first);
    assert!(plan.switch_account.is_none());
    assert!(plan.offline_marker);
    assert_eq!(plan.rule_changes.len(), 2);
    assert!(plan.rule_changes.iter().all(|c| c.block));
    assert_eq!(plan.rule_changes[0].program_path, "C:\\Steam\\steam.exe");
    assert_eq!(
        plan.rule_changes[1].program_path,
        "C:\\Steam\\bin\\cef\\cef.win7x64\\steamwebhelper.exe"
    );
    assert_eq!(plan.launch_args, vec!["-applaunch".to_string(), "730".to_string()]);
    let cache = "\"users\"\n{\n\t\"1\"\n\t{\n\t\t\"WantsOfflineMode\"\t\t\"0\"\n\t}\n}\n";
    let flipped = rewrite_offline_marker(cache, plan.offline_marker);
    assert!(flipped.contains("\"WantsOfflineMode\"\t\t\"1\""));
    assert!(!flipped.contains("\"WantsOfflineMode\"\t\t\"0\""));
}

#[test]
fn named_account_is_switched() {
    let req = LaunchRequest { app_id: 440, account_name: Some("alice".to_string()), offline: false };
    let plan = plan_launch(&req, &None);
    assert_eq!(plan.switch_account, Some("alice".to_string()));
    assert_eq!(plan.login_args, vec!["-login".to_string(), "alice".to_string()]);
    assert_eq!(plan.launch_args, vec!["-applaunch".to_string(), "440".to_string()]);
}

#[test]
fn empty_account_is_no_switch() {
    assert_eq!(account_to_switch(&Some(String::new())), None);
    assert_eq!(account_to_switch(&Some("Unknown".to_string())), None);
    assert_eq!(account_to_switch(&None), None);
    assert_eq!(account_to_switch(&Some("unknown".to_string())), Some("unknown".to_string()));
}

#[test]
fn offline_marker_both_spellings() {
    let text = "\"WantsOfflineMode\" \"0\" and \"WantsOfflineMode\"\t\t\"0\"";
    let on = rewrite_offline_marker(text, true);
    assert_eq!(on, "\"WantsOfflineMode\" \"1\" and \"WantsOfflineMode\"\t\t\"1\"");
    let off = rewrite_offline_marker(&on, false);
    assert_eq!(off, text);
    assert_eq!(rewrite_offline_marker("nothing here", true), "nothing here");
}

#[test]
fn switch_args_reject_empty_and_unknown() {
    assert_eq!(switch_account_args(""), Err("Invalid account name".to_string()));
    assert_eq!(switch_account_args("Unknown"), Err("Invalid account name".to_string()));
    assert_eq!(
        switch_account_args("bob"),
        Ok(vec!["-login".to_string(), "bob".to_string()])
    );
    assert_eq!(launch_args(0), vec!["-applaunch".to_string(), "0".to_string()]);
}
