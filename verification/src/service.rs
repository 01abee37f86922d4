//! The service unit that lets the host's supervisor run the agent, and the
//! words that tell how to install it.

use vstd::prelude::*;
use crate::platform::current_user_name;

verus! {

/// Where the unit file is written.
pub const SERVICE_UNIT_PATH: &'static str = "/tmp/rust-signoz-agent.service";

/// The unit file up to the name of the user.
pub const UNIT_HEAD: &'static str =
    "[Unit]\nDescription=Rust SigNoz Agent\nAfter=network.target\n\n[Service]\nType=simple\nUser=";

/// The unit file between the user and the working directory.
pub const UNIT_DIRECTORY: &'static str = "\nWorkingDirectory=";

/// The unit file between the working directory and the program.
pub const UNIT_PROGRAM: &'static str = "\nExecStart=";

/// The unit file after the program.
pub const UNIT_TAIL: &'static str =
    "\nRestart=on-failure\nRestartSec=5s\n\n[Install]\nWantedBy=multi-user.target\n";

/// The install instructions up to the first mention of the unit file.
pub const INSTRUCTIONS_HEAD: &'static str = "Service file created at: ";

/// The install instructions between the two mentions of the unit file.
pub const INSTRUCTIONS_COPY: &'static str = "\nTo install the service, run:\n  sudo cp ";

/// The install instructions after the second mention of the unit file.
pub const INSTRUCTIONS_TAIL: &'static str = " /etc/systemd/system/\n  sudo systemctl daemon-reload\n  \
    sudo systemctl enable rust-signoz-agent\n  sudo systemctl start rust-signoz-agent\n";

/// The unit file for a user, a working directory and a program.
pub open spec fn unit_text(user: Seq<char>, directory: Seq<char>, program: Seq<char>) -> Seq<
    char,
> {
    UNIT_HEAD@ + user + UNIT_DIRECTORY@ + directory + UNIT_PROGRAM@ + program + UNIT_TAIL@
}

/// The words printed once the unit file lies at `path`.
pub open spec fn instructions_text(path: Seq<char>) -> Seq<char> {
    INSTRUCTIONS_HEAD@ + path + INSTRUCTIONS_COPY@ + path + INSTRUCTIONS_TAIL@
}

/// Writes out the unit file for a user, a working directory and a program.
pub fn render_service_unit(user: &str, directory: &str, program: &str) -> (unit: String)
    ensures
        unit@ == unit_text(user@, directory@, program@),
{
    let mut unit = UNIT_HEAD.to_owned();
    unit.append(user);
    unit.append(UNIT_DIRECTORY);
    unit.append(directory);
    unit.append(UNIT_PROGRAM);
    unit.append(program);
    unit.append(UNIT_TAIL);
    unit
}

/// Writes out the unit file that runs `program` in `directory` as the user
/// who runs this process, whoever the system says that is.
pub fn create_systemd_service(directory: &str, program: &str) -> (unit: String)
    ensures
        exists|user: Seq<char>| unit@ == #[trigger] unit_text(user, directory@, program@),
{
    let user = current_user_name();
    let unit = render_service_unit(user.as_str(), directory, program);
    assert(unit@ == unit_text(user@, directory@, program@));
    unit
}

/// The words that tell how to install the unit file that lies at `path`.
pub fn install_instructions(path: &str) -> (text: String)
    ensures
        text@ == instructions_text(path@),
{
    let mut text = INSTRUCTIONS_HEAD.to_owned();
    text.append(path);
    text.append(INSTRUCTIONS_COPY);
    text.append(path);
    text.append(INSTRUCTIONS_TAIL);
    text
}

} // verus!
