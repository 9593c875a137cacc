//! Windows of agents: whether a process is still the window that was registered,
//! and how an attempt to end it is answered.

use vstd::prelude::*;

use crate::failure::{seen, Failure};
use crate::sessions::VisiblePaneStopOutcome;
use crate::text::{
    contains, decimal, ends_with, finishes_with, holds_part, lower, opt_text, same_text, text,
    text_or, to_decimal, to_lower, trim, trimmed,
};

verus! {

/// What the system says of a process.
#[derive(Debug)]
pub struct WindowsProcessInfo {
    pub process_id: u32,
    pub name: Option<String>,
    pub executable_path: Option<String>,
    pub command_line: Option<String>,
}

#[verifier::ext_equal]
pub struct ProcessModel {
    pub process_id: u32,
    pub name: Option<Seq<char>>,
    pub executable_path: Option<Seq<char>>,
    pub command_line: Option<Seq<char>>,
}

impl View for WindowsProcessInfo {
    type V = ProcessModel;

    open spec fn view(&self) -> ProcessModel {
        ProcessModel {
            process_id: self.process_id,
            name: opt_text(self.name),
            executable_path: opt_text(self.executable_path),
            command_line: opt_text(self.command_line),
        }
    }
}

/// The text in small letters, empty where there is none.
pub open spec fn lowered(o: Option<Seq<char>>) -> Seq<char> {
    lower(text_or(o, ""@))
}

fn to_lowered(o: &Option<String>) -> (r: String)
    ensures
        r@ == lowered(opt_text(*o)),
{
    match o {
        Some(s) => to_lower(s.as_str()),
        None => to_lower(""),
    }
}

pub open spec fn is_shell_name(name: Seq<char>) -> bool {
    name == "powershell.exe"@ || name == "pwsh.exe"@
}

pub open spec fn is_shell_path(path: Seq<char>) -> bool {
    ||| path.len() == 0
    ||| holds_part(path, "\\windows\\system32\\windowspowershell\\"@)
    ||| finishes_with(path, "\\powershell.exe"@)
    ||| finishes_with(path, "\\pwsh.exe"@)
}

/// Whether a command line enters the shell or the view of the agent.
pub open spec fn enters_agent(line: Seq<char>, agent_name: Seq<char>) -> bool {
    &&& line.len() > 0
    &&& holds_part(line, "enter-agentshell.ps1"@) || holds_part(line, "enter-agentview.ps1"@)
    &&& holds_part(line, "-agentname"@)
    &&& holds_part(line, lower(agent_name))
}

/// Whether the process is the window of the agent: the process that was
/// registered, a shell, started to enter the agent.
pub open spec fn is_registered_pane(process: ProcessModel, agent_name: Seq<char>, pid: u32) -> bool {
    &&& process.process_id == pid
    &&& is_shell_name(lowered(process.name))
    &&& is_shell_path(lowered(process.executable_path))
    &&& enters_agent(lowered(process.command_line), agent_name)
}

pub fn matches_registered_visible_pane(
    process: &WindowsProcessInfo,
    agent_name: &str,
    pid: u32,
) -> (r: bool)
    ensures
        r == is_registered_pane(process@, agent_name@, pid),
{
    if process.process_id != pid {
        return false;
    }
    let name = to_lowered(&process.name);
    if !same_text(name.as_str(), "powershell.exe") && !same_text(name.as_str(), "pwsh.exe") {
        return false;
    }
    let path = to_lowered(&process.executable_path);
    let shell = contains(path.as_str(), "\\windows\\system32\\windowspowershell\\") || ends_with(
        path.as_str(),
        "\\powershell.exe",
    ) || ends_with(path.as_str(), "\\pwsh.exe");
    if !shell && !path.as_str().is_empty() {
        return false;
    }
    let line = to_lowered(&process.command_line);
    if line.as_str().is_empty() {
        return false;
    }
    let script = contains(line.as_str(), "enter-agentshell.ps1") || contains(
        line.as_str(),
        "enter-agentview.ps1",
    );
    let agent = contains(line.as_str(), "-agentname") && contains(
        line.as_str(),
        to_lower(agent_name).as_str(),
    );
    script && agent
}

/// What an inspection of a process gave: the description to read, or that the
/// process is gone.
pub struct Inspection {
    pub payload: Option<String>,
}

impl View for Inspection {
    type V = Option<Seq<char>>;

    open spec fn view(&self) -> Option<Seq<char>> {
        opt_text(self.payload)
    }
}

/// How an inspection that ended with a code is understood.
pub open spec fn inspected(
    code: Option<i32>,
    stdout: Seq<char>,
    stderr: Seq<char>,
    status: Seq<char>,
    agent_name: Seq<char>,
    pid: u32,
) -> Result<Option<Seq<char>>, Seq<char>> {
    if code == Some(0i32) {
        if trimmed(stdout).len() == 0 {
            Err(
                "process inspection returned empty payload for visible pane "@ + agent_name + " ("@
                    + decimal(pid as nat) + ")"@,
            )
        } else {
            Ok(Some(trimmed(stdout)))
        }
    } else if code == Some(3i32) {
        Ok(None)
    } else {
        Err(
            "process inspection failed for visible pane "@ + agent_name + " ("@ + decimal(
                pid as nat,
            ) + "): "@ + (if trimmed(stderr).len() == 0 {
                status
            } else {
                trimmed(stderr)
            }),
        )
    }
}

pub fn lookup_registered_visible_pane(
    code: Option<i32>,
    stdout: &str,
    stderr: &str,
    status: &str,
    agent_name: &str,
    pid: u32,
) -> (r: Result<Inspection, Failure>)
    ensures
        seen(r) == inspected(code, stdout@, stderr@, status@, agent_name@, pid),
{
    match code {
        Some(0) => {
            let payload = trim(stdout);
            if payload.as_str().is_empty() {
                Err(
                    Failure::new(
                        text(
                            "process inspection returned empty payload for visible pane ",
                        ).concat(agent_name).concat(" (").concat(
                            to_decimal(pid as u64).as_str(),
                        ).concat(")"),
                    ),
                )
            } else {
                Ok(Inspection { payload: Some(payload) })
            }
        },
        Some(3) => Ok(Inspection { payload: None }),
        _ => {
            let told = trim(stderr);
            let detail = if told.as_str().is_empty() {
                text(status)
            } else {
                told
            };
            Err(
                Failure::new(
                    text("process inspection failed for visible pane ").concat(agent_name).concat(
                        " (",
                    ).concat(to_decimal(pid as u64).as_str()).concat("): ").concat(
                        detail.as_str(),
                    ),
                ),
            )
        },
    }
}

/// Whether a window may be ended.
pub open spec fn end_check(process: ProcessModel, agent_name: Seq<char>, pid: u32) -> Result<
    (),
    Seq<char>,
> {
    if is_registered_pane(process, agent_name, pid) {
        Ok(())
    } else {
        Err(
            "pid "@ + decimal(pid as nat)
                + " no longer looks like the registered visible pane for agent "@ + agent_name,
        )
    }
}

pub fn check_registered_visible_pane(
    process: &WindowsProcessInfo,
    agent_name: &str,
    pid: u32,
) -> (r: Result<(), Failure>)
    ensures
        seen(r) == end_check(process@, agent_name@, pid),
{
    if matches_registered_visible_pane(process, agent_name, pid) {
        Ok(())
    } else {
        Err(
            Failure::new(
                text("pid ").concat(to_decimal(pid as u64).as_str()).concat(
                    " no longer looks like the registered visible pane for agent ",
                ).concat(agent_name),
            ),
        )
    }
}

impl View for VisiblePaneStopOutcome {
    type V = VisiblePaneStopOutcome;

    open spec fn view(&self) -> VisiblePaneStopOutcome {
        *self
    }
}

/// How an attempt to end a window is understood: it worked, or the window is
/// gone anyway.
pub open spec fn ended(success: bool, still_there: bool, status: Seq<char>) -> Result<
    VisiblePaneStopOutcome,
    Seq<char>,
> {
    if success {
        Ok(VisiblePaneStopOutcome::StopRequested)
    } else if !still_there {
        Ok(VisiblePaneStopOutcome::AlreadyGone)
    } else {
        Err("taskkill exited with status "@ + status)
    }
}

pub fn terminate_registered_visible_pane(success: bool, still_there: bool, status: &str) -> (r: Result<
    VisiblePaneStopOutcome,
    Failure,
>)
    ensures
        seen(r) == ended(success, still_there, status@),
{
    if success {
        Ok(VisiblePaneStopOutcome::StopRequested)
    } else if !still_there {
        Ok(VisiblePaneStopOutcome::AlreadyGone)
    } else {
        Err(Failure::new(text("taskkill exited with status ").concat(status)))
    }
}

/// A process of another number is never taken for the window, so a number that
/// was given out again ends no stranger's process.
pub proof fn other_process_is_no_pane(process: ProcessModel, agent_name: Seq<char>, pid: u32)
    requires
        process.process_id != pid || !is_shell_name(lowered(process.name)),
    ensures
        end_check(process, agent_name, pid) is Err,
{
}

} // verus!
