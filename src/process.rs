//! The command lines of the game server, the installer tool and the kill
//! request, and what a launch or a finished process comes to.
use vstd::prelude::*;
use vstd::string::StringExecFns;
use vstd::utf8::{decode_utf8, valid_utf8};

use crate::config::GameConfig;
use crate::console::string_views;
use crate::joined;

verus! {

/// The file name of the server executable in the install folder.
pub fn server_executable_name() -> (r: &'static str)
    ensures
        r@ == "battlebit.exe"@,
{
    "battlebit.exe"
}

/// The arguments the server is started with: the fixed flags, then each
/// option as `-Name=value`, values taken verbatim.
pub open spec fn server_arg_views(c: GameConfig) -> Seq<Seq<char>> {
    seq![
        "-batchmode"@,
        "-nographics"@,
        "-Port="@ + c.port@,
        "-Hz="@ + c.hz@,
        "-AntiCheat="@ + c.anticheat@,
        "-MaxPing="@ + c.max_ping@,
        "-VoxelMode="@ + c.voxel_mode@,
        "-ApiEndPoint="@ + c.api_endpoint@,
    ]
}

pub fn server_args(c: &GameConfig) -> (r: Vec<String>)
    ensures
        string_views(r@) == server_arg_views(*c),
{
    let mut r: Vec<String> = Vec::new();
    r.push(String::from_str("-batchmode"));
    r.push(String::from_str("-nographics"));
    r.push(joined("-Port=", c.port.as_str()));
    r.push(joined("-Hz=", c.hz.as_str()));
    r.push(joined("-AntiCheat=", c.anticheat.as_str()));
    r.push(joined("-MaxPing=", c.max_ping.as_str()));
    r.push(joined("-VoxelMode=", c.voxel_mode.as_str()));
    r.push(joined("-ApiEndPoint=", c.api_endpoint.as_str()));
    assert(string_views(r@) =~= server_arg_views(*c));
    r
}

/// The installer tool's first run: anonymous login, then quit.
pub open spec fn setup_arg_views() -> Seq<Seq<char>> {
    seq!["+login"@, "anonymous"@, "+quit"@]
}

pub fn setup_args() -> (r: Vec<String>)
    ensures
        string_views(r@) == setup_arg_views(),
{
    let mut r: Vec<String> = Vec::new();
    r.push(String::from_str("+login"));
    r.push(String::from_str("anonymous"));
    r.push(String::from_str("+quit"));
    assert(string_views(r@) =~= setup_arg_views());
    r
}

/// The installer tool's server install: login, install folder, update and
/// validate the server's app, then quit.
pub open spec fn install_arg_views(
    username: Seq<char>,
    password: Seq<char>,
    install_dir: Seq<char>,
) -> Seq<Seq<char>> {
    seq![
        "+login"@,
        username,
        password,
        "+force_install_dir"@,
        install_dir,
        "+app_update"@,
        "671860"@,
        "validate"@,
        "+quit"@,
    ]
}

pub fn install_args(username: &str, password: &str, install_dir: &str) -> (r: Vec<String>)
    ensures
        string_views(r@) == install_arg_views(username@, password@, install_dir@),
{
    let mut r: Vec<String> = Vec::new();
    r.push(String::from_str("+login"));
    r.push(String::from_str(username));
    r.push(String::from_str(password));
    r.push(String::from_str("+force_install_dir"));
    r.push(String::from_str(install_dir));
    r.push(String::from_str("+app_update"));
    r.push(String::from_str("671860"));
    r.push(String::from_str("validate"));
    r.push(String::from_str("+quit"));
    assert(string_views(r@) =~= install_arg_views(username@, password@, install_dir@));
    r
}

/// The program that ends processes by name.
pub fn kill_program() -> (r: &'static str)
    ensures
        r@ == "taskkill"@,
{
    "taskkill"
}

/// Force-ends every process that runs the server executable.
pub open spec fn kill_arg_views() -> Seq<Seq<char>> {
    seq!["/F"@, "/IM"@, "battlebit.exe"@]
}

pub fn kill_args() -> (r: Vec<String>)
    ensures
        string_views(r@) == kill_arg_views(),
{
    let mut r: Vec<String> = Vec::new();
    r.push(String::from_str("/F"));
    r.push(String::from_str("/IM"));
    r.push(String::from_str("battlebit.exe"));
    assert(string_views(r@) =~= kill_arg_views());
    r
}

/// Why the server was not started.
pub enum LaunchError {
    /// The executable is not in the install folder; nothing was spawned.
    ExecutableMissing,
    /// The system refused to start it, with its description.
    SpawnFailed(String),
}

impl LaunchError {
    pub fn message(&self) -> (r: String)
        ensures
            r@ == match self {
                LaunchError::ExecutableMissing =>
                    "Error: battlebit.exe not found in the installation directory."@,
                LaunchError::SpawnFailed(d) => "Failed to launch server: "@ + d@,
            },
    {
        match self {
            LaunchError::ExecutableMissing => String::from_str(
                "Error: battlebit.exe not found in the installation directory.",
            ),
            LaunchError::SpawnFailed(d) => joined("Failed to launch server: ", d.as_str()),
        }
    }
}

/// Decides a server launch before anything is spawned: a missing executable
/// is refused at once, otherwise the arguments to start it with.
pub fn plan_server_launch(executable_exists: bool, c: &GameConfig) -> (r: Result<
    Vec<String>,
    LaunchError,
>)
    ensures
        r is Ok <==> executable_exists,
        r matches Ok(a) ==> string_views(a@) == server_arg_views(*c),
        r matches Err(e) ==> e is ExecutableMissing,
{
    if executable_exists {
        Ok(server_args(c))
    } else {
        Err(LaunchError::ExecutableMissing)
    }
}

/// The text `String::from_utf8_lossy` makes of a byte string.
pub uninterp spec fn lossy_text(b: Seq<u8>) -> Seq<char>;

/// Relies on String::from_utf8_lossy: a function of the bytes alone, and the
/// plain decoding where the bytes are valid UTF-8.
#[verifier::external_body]
fn lossy_string(bytes: &Vec<u8>) -> (r: String)
    ensures
        r@ == lossy_text(bytes@),
        valid_utf8(bytes@) ==> r@ == decode_utf8(bytes@),
{
    String::from_utf8_lossy(bytes).into_owned()
}

/// What a finished process comes to: success, or the text of what it wrote
/// to its error stream.
pub fn exit_outcome(success: bool, stderr: &Vec<u8>) -> (r: Result<(), String>)
    ensures
        r is Ok <==> success,
        r matches Err(d) ==> d@ == lossy_text(stderr@),
{
    if success {
        Ok(())
    } else {
        Err(lossy_string(stderr))
    }
}

/// Why a kill request failed.
pub enum KillError {
    /// The kill program could not be run, with the system's description.
    NotRun(String),
    /// The kill program ran and reported failure (no such process, say),
    /// with what it wrote to its error stream.
    Rejected(String),
}

impl KillError {
    pub fn message(&self) -> (r: String)
        ensures
            r@ == match self {
                KillError::NotRun(d) => "Failed to kill server: "@ + d@,
                KillError::Rejected(d) => "Failed to kill server: Failed to kill battlebit.exe: "@
                    + d@,
            },
    {
        match self {
            KillError::NotRun(d) => joined("Failed to kill server: ", d.as_str()),
            KillError::Rejected(d) => joined(
                "Failed to kill server: Failed to kill battlebit.exe: ",
                d.as_str(),
            ),
        }
    }
}

/// What the kill program's exit comes to.
pub fn kill_outcome(success: bool, stderr: &Vec<u8>) -> (r: Result<(), KillError>)
    ensures
        r is Ok <==> success,
        r matches Err(e) ==> e matches KillError::Rejected(d) && d@ == lossy_text(stderr@),
{
    match exit_outcome(success, stderr) {
        Ok(()) => Ok(()),
        Err(d) => Err(KillError::Rejected(d)),
    }
}

} // verus!
