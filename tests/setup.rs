use bb_launcher::setup::{
    initial_status, install_run_failure, install_started_status, install_status, save_status,
    setup_run_failure, SetupAction, SetupFlow, SetupStage,
};

#[test]
fn setup_runs_all_steps_on_success() {
    let mut f = SetupFlow::new();
    assert_eq!(SetupFlow::start_status(), "Downloading SteamCMD...");
    assert_eq!(f.next_action(), SetupAction::Download);
    assert_eq!(f.advance(&Ok(())).unwrap(), "SteamCMD downloaded. Extracting...");
    assert_eq!(f.next_action(), SetupAction::Extract);
    assert_eq!(
        f.advance(&Ok(())).unwrap(),
        "SteamCMD extracted successfully. Running initial setup..."
    );
    assert_eq!(f.next_action(), SetupAction::RunSetup);
    assert!(!f.is_complete());
    assert_eq!(f.advance(&Ok(())).unwrap(), "SteamCMD setup completed successfully.");
    assert_eq!(f.next_action(), SetupAction::Stop);
    assert!(f.is_complete());
    assert_eq!(f.advance(&Ok(())), None);
    assert_eq!(f.stage, SetupStage::Finished);
}

#[test]
fn setup_stops_at_the_first_failure() {
    let mut f = SetupFlow::new();
    assert_eq!(
        f.advance(&Err("connection refused".to_string())).unwrap(),
        "Failed to download SteamCMD: connection refused"
    );
    assert_eq!(f.stage, SetupStage::Failed);
    assert_eq!(f.next_action(), SetupAction::Stop);
    assert!(!f.is_complete());
    assert_eq!(f.advance(&Ok(())), None);
}

#[test]
fn setup_failures_of_later_steps() {
    let mut f = SetupFlow::new();
    f.advance(&Ok(()));
    assert_eq!(
        f.advance(&Err("invalid archive".to_string())).unwrap(),
        "Failed to extract SteamCMD: invalid archive"
    );
    let mut g = SetupFlow::new();
    g.advance(&Ok(()));
    g.advance(&Ok(()));
    let e = setup_run_failure("exit 7");
    assert_eq!(e, "Failed to run SteamCMD: exit 7");
    assert_eq!(g.advance(&Err(e)).unwrap(), "Failed to run SteamCMD: Failed to run SteamCMD: exit 7");
    assert!(!g.is_complete());
}

#[test]
fn install_and_save_statuses() {
    assert_eq!(initial_status(), "Waiting for user input...");
    assert_eq!(install_started_status(), "Installing game server...");
    assert_eq!(install_status(&Ok(())), "Server installed successfully.");
    let e = install_run_failure("Login Failure");
    assert_eq!(e, "Failed to download server files: Login Failure");
    assert_eq!(install_status(&Err(e)), "Failed to install server: Failed to download server files: Login Failure");
    assert_eq!(save_status(&Ok(())), "Config saved successfully.");
    assert_eq!(save_status(&Err("disk full".to_string())), "Failed to save config: disk full");
}
