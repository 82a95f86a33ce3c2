use launcher_core::games::{describe_games, InstalledApp};

#[test]
fn games_carry_last_login_names() {
    let users = vec![(
        "76561197960265729".to_string(),
        vec![
            ("AccountName".to_string(), Some("alice".to_string())),
            ("PersonaName".to_string(), Some("Alice".to_string())),
        ],
    )];
    let apps = vec![
        InstalledApp {
            app_id: 730,
            name: Some("Counter-Strike 2".to_string()),
            install_dir: "Counter-Strike Global Offensive".to_string(),
            last_user: Some(76561197960265729),
        },
        InstalledApp {
            app_id: 440,
            name: None,
            install_dir: "Team Fortress 2".to_string(),
            last_user: Some(1),
        },
        InstalledApp { app_id: 570, name: None, install_dir: "dota 2 beta".to_string(), last_user: None },
    ];
    let games = describe_games(&apps, &users);
    assert_eq!(games.len(), 3);
    assert_eq!(games[0].id, 730);
    assert_eq!(games[0].name, "Counter-Strike 2");
    assert_eq!(games[0].owner_name, "Alice");
    assert_eq!(games[0].account_name, "alice");
    assert_eq!(games[1].name, "Unknown Game");
    assert_eq!(games[1].owner_name, "Unknown");
    assert_eq!(games[1].account_name, "Unknown");
    assert_eq!(games[2].path, "dota 2 beta");
    assert_eq!(games[2].owner_name, "Unknown");
}

#[test]
fn login_without_persona_shows_unknown_owner() {
    let users = vec![("5".to_string(), vec![
        ("AccountName".to_string(), Some("x".to_string())),
        ("PersonaName".to_string(), None),
    ])];
    let apps = vec![InstalledApp {
        app_id: 1,
        name: Some("G".to_string()),
        install_dir: "g".to_string(),
        last_user: Some(5),
    }];
    let games = describe_games(&apps, &users);
    assert_eq!(games[0].owner_name, "Unknown");
    assert_eq!(games[0].account_name, "x");
}
