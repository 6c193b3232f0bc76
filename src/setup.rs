//! The status messages of the background jobs: fetching and setting up the
//! installer tool, installing the server, saving the configuration.
//!
//! The installer setup is a state machine: the caller performs the action it
//! asks for, hands back the outcome, and shows the status it returns.
use vstd::prelude::*;
use vstd::string::StringExecFns;

use crate::joined;

verus! {

/// The status shown before any job has run.
pub fn initial_status() -> (r: String)
    ensures
        r@ == "Waiting for user input..."@,
{
    String::from_str("Waiting for user input...")
}

#[derive(Clone, Copy, Debug, PartialEq, Eq, Structural)]
pub enum SetupStage {
    Downloading,
    Extracting,
    Initialising,
    Finished,
    Failed,
}

/// What the caller should do next for the installer setup.
#[derive(Clone, Copy, Debug, PartialEq, Eq, Structural)]
pub enum SetupAction {
    Download,
    Extract,
    RunSetup,
    Stop,
}

pub open spec fn action_of(stage: SetupStage) -> SetupAction {
    match stage {
        SetupStage::Downloading => SetupAction::Download,
        SetupStage::Extracting => SetupAction::Extract,
        SetupStage::Initialising => SetupAction::RunSetup,
        _ => SetupAction::Stop,
    }
}

/// The stage after the current step succeeded or failed.
pub open spec fn next_stage(stage: SetupStage, ok: bool) -> SetupStage {
    match stage {
        SetupStage::Downloading => if ok {
            SetupStage::Extracting
        } else {
            SetupStage::Failed
        },
        SetupStage::Extracting => if ok {
            SetupStage::Initialising
        } else {
            SetupStage::Failed
        },
        SetupStage::Initialising => if ok {
            SetupStage::Finished
        } else {
            SetupStage::Failed
        },
        _ => stage,
    }
}

/// The status after a step of `stage` ended with `outcome`.
pub open spec fn step_status(stage: SetupStage, outcome: Result<(), String>) -> Seq<char> {
    match (stage, outcome) {
        (SetupStage::Downloading, Ok(_)) => "SteamCMD downloaded. Extracting..."@,
        (SetupStage::Downloading, Err(e)) => "Failed to download SteamCMD: "@ + e@,
        (SetupStage::Extracting, Ok(_)) =>
            "SteamCMD extracted successfully. Running initial setup..."@,
        (SetupStage::Extracting, Err(e)) => "Failed to extract SteamCMD: "@ + e@,
        (SetupStage::Initialising, Ok(_)) => "SteamCMD setup completed successfully."@,
        (SetupStage::Initialising, Err(e)) => "Failed to run SteamCMD: "@ + e@,
        _ => Seq::empty(),
    }
}

/// Fetching the installer tool, unpacking it and running it once.
pub struct SetupFlow {
    pub stage: SetupStage,
}

impl SetupFlow {
    pub fn new() -> (r: SetupFlow)
        ensures
            r.stage == SetupStage::Downloading,
    {
        SetupFlow { stage: SetupStage::Downloading }
    }

    /// The status shown when the setup starts.
    pub fn start_status() -> (r: String)
        ensures
            r@ == "Downloading SteamCMD..."@,
    {
        String::from_str("Downloading SteamCMD...")
    }

    pub fn next_action(&self) -> (r: SetupAction)
        ensures
            r == action_of(self.stage),
    {
        match self.stage {
            SetupStage::Downloading => SetupAction::Download,
            SetupStage::Extracting => SetupAction::Extract,
            SetupStage::Initialising => SetupAction::RunSetup,
            _ => SetupAction::Stop,
        }
    }

    /// Takes the outcome of the action asked for. Returns the new status, or
    /// `None` once the setup has stopped.
    pub fn advance(&mut self, outcome: &Result<(), String>) -> (r: Option<String>)
        ensures
            final(self).stage == next_stage(old(self).stage, outcome is Ok),
            action_of(old(self).stage) == SetupAction::Stop <==> r is None,
            r matches Some(s) ==> s@ == step_status(old(self).stage, *outcome),
    {
        let ok = outcome.is_ok();
        let r = match (self.stage, outcome) {
            (SetupStage::Downloading, Ok(_)) => Some(
                String::from_str("SteamCMD downloaded. Extracting..."),
            ),
            (SetupStage::Downloading, Err(e)) => Some(
                joined("Failed to download SteamCMD: ", e.as_str()),
            ),
            (SetupStage::Extracting, Ok(_)) => Some(
                String::from_str("SteamCMD extracted successfully. Running initial setup..."),
            ),
            (SetupStage::Extracting, Err(e)) => Some(
                joined("Failed to extract SteamCMD: ", e.as_str()),
            ),
            (SetupStage::Initialising, Ok(_)) => Some(
                String::from_str("SteamCMD setup completed successfully."),
            ),
            (SetupStage::Initialising, Err(e)) => Some(
                joined("Failed to run SteamCMD: ", e.as_str()),
            ),
            _ => None,
        };
        self.stage = match self.stage {
            SetupStage::Downloading => if ok {
                SetupStage::Extracting
            } else {
                SetupStage::Failed
            },
            SetupStage::Extracting => if ok {
                SetupStage::Initialising
            } else {
                SetupStage::Failed
            },
            SetupStage::Initialising => if ok {
                SetupStage::Finished
            } else {
                SetupStage::Failed
            },
            s => s,
        };
        r
    }

    /// Whether every step succeeded.
    pub fn is_complete(&self) -> (r: bool)
        ensures
            r == (self.stage == SetupStage::Finished),
    {
        self.stage == SetupStage::Finished
    }
}

/// The error of a first run of the installer tool that failed.
pub fn setup_run_failure(diagnostic: &str) -> (r: String)
    ensures
        r@ == "Failed to run SteamCMD: "@ + diagnostic@,
{
    joined("Failed to run SteamCMD: ", diagnostic)
}

/// The error of a server install run that failed.
pub fn install_run_failure(diagnostic: &str) -> (r: String)
    ensures
        r@ == "Failed to download server files: "@ + diagnostic@,
{
    joined("Failed to download server files: ", diagnostic)
}

/// The status shown while the server is being installed.
pub fn install_started_status() -> (r: String)
    ensures
        r@ == "Installing game server..."@,
{
    String::from_str("Installing game server...")
}

pub fn install_status(outcome: &Result<(), String>) -> (r: String)
    ensures
        r@ == match outcome {
            Ok(_) => "Server installed successfully."@,
            Err(e) => "Failed to install server: "@ + e@,
        },
{
    match outcome {
        Ok(_) => String::from_str("Server installed successfully."),
        Err(e) => joined("Failed to install server: ", e.as_str()),
    }
}

pub fn save_status(outcome: &Result<(), String>) -> (r: String)
    ensures
        r@ == match outcome {
            Ok(_) => "Config saved successfully."@,
            Err(e) => "Failed to save config: "@ + e@,
        },
{
    match outcome {
        Ok(_) => String::from_str("Config saved successfully."),
        Err(e) => joined("Failed to save config: ", e.as_str()),
    }
}

} // verus!
