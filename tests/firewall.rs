use launcher_core::firewall::{
    firewall_command, firewall_toggle_plan, launcher_paths, launcher_rule_targets, rule_name,
    rule_query_command, status_rule, RuleChange, SteamLocation,
};

fn located() -> Option<SteamLocation> {
    Some(SteamLocation {
        exe: "D:\\Steam\\steam.exe".to_string(),
        web_helper: "D:\\Steam\\bin\\cef\\cef.win7x64\\steamwebhelper.exe".to_string(),
    })
}

#[test]
fn rule_names_count_from_one() {
    assert_eq!(rule_name("Rockstar", 0), "Block Rockstar App 1");
    assert_eq!(rule_name("EA", 9), "Block EA App 10");
}

#[test]
fn known_paths_by_launcher() {
    assert_eq!(launcher_paths("Steam", &located()), vec!["D:\\Steam\\steam.exe".to_string()]);
    assert_eq!(
        launcher_paths("Steam_ALL", &None),
        vec!["C:\\Program Files (x86)\\Steam\\steam.exe".to_string()]
    );
    assert_eq!(
        launcher_paths("SteamWebHelper", &None),
        vec!["C:\\Program Files (x86)\\Steam\\bin\\cef\\cef.win7x64\\steamwebhelper.exe".to_string()]
    );
    assert_eq!(launcher_paths("Rockstar", &None).len(), 6);
    assert_eq!(
        launcher_paths("Ubisoft", &None),
        vec!["C:\\Program Files (x86)\\Ubisoft\\Ubisoft Game Launcher\\upc.exe".to_string()]
    );
    assert!(launcher_paths("Origin", &None).is_empty());
}

#[test]
fn steam_targets_use_fixed_rule_names() {
    let t = launcher_rule_targets("Steam", &located());
    assert_eq!(t.len(), 2);
    assert_eq!(t[0].rule_name, "Block Steam Exe");
    assert_eq!(t[0].path, "D:\\Steam\\steam.exe");
    assert_eq!(t[1].rule_name, "Block Steam WebHelper");
    assert_eq!(t[1].path, "D:\\Steam\\bin\\cef\\cef.win7x64\\steamwebhelper.exe");
}

#[test]
fn other_targets_are_numbered() {
    let t = launcher_rule_targets("Rockstar", &None);
    assert_eq!(t.len(), 6);
    assert_eq!(t[0].rule_name, "Block Rockstar App 1");
    assert_eq!(t[5].rule_name, "Block Rockstar App 6");
    assert_eq!(t[5].path, "D:\\SteamLibrary\\steamapps\\common\\Red Dead Redemption 2\\PlayRDR2.exe");
    assert!(launcher_rule_targets("Unknown", &None).is_empty());
}

#[test]
fn toggle_plan_blocks_every_executable() {
    let (changes, message) = firewall_toggle_plan("Rockstar", &None, true).unwrap();
    assert_eq!(changes.len(), 6);
    assert!(changes.iter().all(|c| c.block));
    assert_eq!(changes[1].rule_name, "Block Rockstar App 2");
    assert_eq!(message, "Rockstar firewall rules updated (6 executables)");
    let (changes, message) = firewall_toggle_plan("Steam_ALL", &located(), false).unwrap();
    assert_eq!(changes.len(), 2);
    assert!(!changes[0].block);
    assert_eq!(message, "Steam Full firewall rules updated");
}

#[test]
fn toggle_plan_of_unknown_launcher_fails() {
    let r = firewall_toggle_plan("Battle.net", &None, true);
    assert_eq!(r.err(), Some("Launcher paths not found".to_string()));
}

#[test]
fn status_rule_by_launcher() {
    assert_eq!(status_rule("Steam", &None), Some("Block Steam Exe".to_string()));
    assert_eq!(status_rule("EA", &None), Some("Block EA App 1".to_string()));
    assert_eq!(status_rule("Nothing", &None), None);
}

#[test]
fn block_and_delete_commands() {
    let block = RuleChange {
        rule_name: "Block Steam Exe".to_string(),
        program_path: "C:\\S\\steam.exe".to_string(),
        block: true,
    };
    assert_eq!(
        firewall_command(&block),
        "netsh advfirewall firewall delete rule name=\"Block Steam Exe\" & netsh advfirewall firewall add rule name=\"Block Steam Exe\" dir=out action=block program=\"C:\\S\\steam.exe\" enable=yes"
    );
    let unblock = RuleChange { block: false, ..block };
    assert_eq!(
        firewall_command(&unblock),
        "netsh advfirewall firewall delete rule name=\"Block Steam Exe\""
    );
    assert_eq!(
        rule_query_command("Block EA App 1"),
        "Get-NetFirewallRule -DisplayName 'Block EA App 1'"
    );
}
