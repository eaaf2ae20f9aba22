//! Host facts given to the model, and how the shell family is recognised.

use vstd::prelude::*;

use crate::schema::{CommandProposal, COMMAND_PROPOSAL_SCHEMA};
use crate::text::{contains, push_char, seq_contains, spec_to_lowercase, str_eq, to_lowercase, to_owned_string};

verus! {

/// The family of shell the user works in.
#[derive(Debug, Clone, Copy, PartialEq, Eq, Structural)]
pub enum ShellFamily {
    PosixSh,
    Bash,
    Zsh,
    Fish,
    PowerShell,
    Pwsh,
    Cmd,
    Nu,
    Unknown,
}

/// Facts about the machine the command will run on.
#[derive(Debug, Clone)]
pub struct HostContext {
    pub os: String,
    pub arch: String,
    pub os_description: String,
    pub shell_family: ShellFamily,
    pub shell_executable_hint: Option<String>,
    pub is_tty: bool,
    pub path_separator: char,
    pub cwd: String,
}

/// The shell family a shell path names, judged on its lowercased text (first match wins).
pub open spec fn shell_family_spec(path: Seq<char>) -> ShellFamily {
    let l = spec_to_lowercase(path);
    if seq_contains(l, "pwsh"@) {
        ShellFamily::Pwsh
    } else if seq_contains(l, "powershell"@) {
        ShellFamily::PowerShell
    } else if seq_contains(l, "cmd"@) {
        ShellFamily::Cmd
    } else if seq_contains(l, "fish"@) {
        ShellFamily::Fish
    } else if seq_contains(l, "zsh"@) {
        ShellFamily::Zsh
    } else if seq_contains(l, "bash"@) {
        ShellFamily::Bash
    } else if seq_contains(l, "nu"@) {
        ShellFamily::Nu
    } else if seq_contains(l, "sh"@) {
        ShellFamily::PosixSh
    } else {
        ShellFamily::Unknown
    }
}

/// Recognise the shell family from a shell executable path such as `/bin/bash`.
pub fn classify_shell_path(path: &str) -> (r: ShellFamily)
    ensures
        r == shell_family_spec(path@),
{
    let lower = to_lowercase(path);
    let l = lower.as_str();
    if contains(l, "pwsh") {
        return ShellFamily::Pwsh;
    }
    if contains(l, "powershell") {
        return ShellFamily::PowerShell;
    }
    if contains(l, "cmd") {
        return ShellFamily::Cmd;
    }
    if contains(l, "fish") {
        return ShellFamily::Fish;
    }
    if contains(l, "zsh") {
        return ShellFamily::Zsh;
    }
    if contains(l, "bash") {
        return ShellFamily::Bash;
    }
    if contains(l, "nu") {
        return ShellFamily::Nu;
    }
    if contains(l, "sh") {
        return ShellFamily::PosixSh;
    }
    ShellFamily::Unknown
}

/// The shell family an `execution_profile` setting fixes, if it names one.
pub open spec fn profile_family_spec(profile: Seq<char>) -> Option<ShellFamily> {
    if profile == "windows_powershell"@ {
        Some(ShellFamily::PowerShell)
    } else if profile == "windows_cmd"@ {
        Some(ShellFamily::Cmd)
    } else if profile == "posix"@ {
        Some(ShellFamily::PosixSh)
    } else {
        None
    }
}

/// The shell family fixed by an `execution_profile` setting, if any.
pub fn shell_family_for_profile(profile: &str) -> (r: Option<ShellFamily>)
    ensures
        r == profile_family_spec(profile@),
{
    if str_eq(profile, "windows_powershell") {
        Some(ShellFamily::PowerShell)
    } else if str_eq(profile, "windows_cmd") {
        Some(ShellFamily::Cmd)
    } else if str_eq(profile, "posix") {
        Some(ShellFamily::PosixSh)
    } else {
        None
    }
}

/// Shell family from what the environment says: a preferred shell wins; on Windows,
/// `PSModulePath` means PowerShell and its absence `cmd`; elsewhere `$SHELL`. `None` when
/// nothing tells.
pub fn detect_shell_family(
    preferred: Option<&str>,
    windows: bool,
    ps_module_path_set: bool,
    shell_env: Option<&str>,
) -> (r: Option<ShellFamily>)
    ensures
        r == if preferred is Some {
            Some(shell_family_spec(preferred->0@))
        } else if windows {
            Some(
                if ps_module_path_set {
                    ShellFamily::PowerShell
                } else {
                    ShellFamily::Cmd
                },
            )
        } else if shell_env is Some {
            Some(shell_family_spec(shell_env->0@))
        } else {
            None
        },
{
    if let Some(s) = preferred {
        return Some(classify_shell_path(s));
    }
    if windows {
        if ps_module_path_set {
            return Some(ShellFamily::PowerShell);
        }
        return Some(ShellFamily::Cmd);
    }
    if let Some(s) = shell_env {
        return Some(classify_shell_path(s));
    }
    None
}

/// The `{:?}` name of a shell family.
pub open spec fn family_name(f: ShellFamily) -> Seq<char> {
    match f {
        ShellFamily::PosixSh => "PosixSh"@,
        ShellFamily::Bash => "Bash"@,
        ShellFamily::Zsh => "Zsh"@,
        ShellFamily::Fish => "Fish"@,
        ShellFamily::PowerShell => "PowerShell"@,
        ShellFamily::Pwsh => "Pwsh"@,
        ShellFamily::Cmd => "Cmd"@,
        ShellFamily::Nu => "Nu"@,
        ShellFamily::Unknown => "Unknown"@,
    }
}

fn family_name_exec(f: ShellFamily) -> (r: &'static str)
    ensures
        r@ == family_name(f),
{
    match f {
        ShellFamily::PosixSh => "PosixSh",
        ShellFamily::Bash => "Bash",
        ShellFamily::Zsh => "Zsh",
        ShellFamily::Fish => "Fish",
        ShellFamily::PowerShell => "PowerShell",
        ShellFamily::Pwsh => "Pwsh",
        ShellFamily::Cmd => "Cmd",
        ShellFamily::Nu => "Nu",
        ShellFamily::Unknown => "Unknown",
    }
}

/// Opening of the system prompt.
pub const PROMPT_HEAD: &'static str = "You output exactly one JSON object for running a CLI command. Schema:\n";

/// Closing rules of the system prompt.
pub const PROMPT_RULES: &'static str = "\nRules: use program + args (argv). No markdown. No prose outside JSON.\nAlways populate \"reason\" with a concise explanation of WHY this argv fits the user request (what problem it solves / why it is appropriate). If you refuse, use program \"echo\" and args [\"refused\"] and a reason field.";

/// The system prompt for a host: the proposal schema, the host facts, and the output rules.
pub open spec fn system_prompt_spec(host: HostContext) -> Seq<char> {
    PROMPT_HEAD@ + COMMAND_PROPOSAL_SCHEMA@ + "\nHost: os="@ + host.os@ + " arch="@ + host.arch@
        + " cwd="@ + host.cwd@ + " shell_family="@ + family_name(host.shell_family)
        + " path_sep="@ + seq![host.path_separator] + PROMPT_RULES@
}

/// Build the system prompt given to the model.
pub fn build_system_prompt(host: &HostContext) -> (r: String)
    ensures
        r@ == system_prompt_spec(*host),
{
    let mut s = to_owned_string(PROMPT_HEAD);
    s.append(CommandProposal::schema_json());
    s.append("\nHost: os=");
    s.append(host.os.as_str());
    s.append(" arch=");
    s.append(host.arch.as_str());
    s.append(" cwd=");
    s.append(host.cwd.as_str());
    s.append(" shell_family=");
    s.append(family_name_exec(host.shell_family));
    s.append(" path_sep=");
    push_char(&mut s, host.path_separator);
    s.append(PROMPT_RULES);
    assert(s@ =~= system_prompt_spec(*host));
    s
}

} // verus!
