//! Guest customization planning.
//!
//! Before a VM boots, its offline disk is customized: a login user is
//! created, granted passwordless elevated access, and given an SSH key.
//! This module resolves which user and key to use (request values beat
//! configured defaults; if either side resolves to nothing the whole step
//! is skipped), pins down the exact tool invocation, and states the
//! temporary-key-file cleanup rule.

use vstd::prelude::*;

use crate::disk::ToolCommand;
use crate::error::VmError;

verus! {

/// Where the SSH public key comes from.
pub enum KeySource {
    /// Key content handed in with the request; it is written to a fresh
    /// temporary file before the tool runs.
    Inline { content: String },
    /// A configured path to an existing public key file.
    KeyFile { path: String },
}

/// A resolved customization: the user to create and the key to inject.
pub struct CustomizePlan {
    pub user: String,
    pub key: KeySource,
}

/// The plan the resolution rules produce: the request's user beats the
/// configured user, inline key content beats the configured key file, and
/// the step is skipped when either the user or the key source is missing
/// on both sides.
pub open spec fn customize_plan_of(
    request_user: Option<String>,
    config_user: Option<String>,
    request_key: Option<String>,
    config_key_file: Option<String>,
) -> Option<CustomizePlan> {
    if (request_user is None && config_user is None) || (request_key is None
        && config_key_file is None) {
        None
    } else {
        Some(
            CustomizePlan {
                user: if request_user is Some {
                    request_user->0
                } else {
                    config_user->0
                },
                key: if request_key is Some {
                    KeySource::Inline { content: request_key->0 }
                } else {
                    KeySource::KeyFile { path: config_key_file->0 }
                },
            },
        )
    }
}

/// Resolve the effective user and key source, or decide to skip.
pub fn resolve_customization(
    request_user: Option<String>,
    config_user: Option<String>,
    request_key: Option<String>,
    config_key_file: Option<String>,
) -> (r: Option<CustomizePlan>)
    ensures
        r == customize_plan_of(request_user, config_user, request_key, config_key_file),
{
    let user = match request_user {
        Some(u) => u,
        None => match config_user {
            Some(u) => u,
            None => {
                return None;
            },
        },
    };
    let key = match request_key {
        Some(content) => KeySource::Inline { content },
        None => match config_key_file {
            Some(path) => KeySource::KeyFile { path },
            None => {
                return None;
            },
        },
    };
    Some(CustomizePlan { user, key })
}

/// The customization tool invocation: create the user with a home
/// directory, grant passwordless elevated access through a mode-0440
/// drop-in, prepare an owner-only SSH directory, inject the public key
/// from `key_path`, and hand the home directory to the user.
pub fn customize_tool_command(disk_path: &str, user: &str, key_path: &str) -> (cmd: ToolCommand)
    ensures
        cmd.program@ == "virt-customize"@,
        cmd.args@.len() == 16,
        cmd.args@[0]@ == "-a"@,
        cmd.args@[1]@ == disk_path@,
        cmd.args@[2]@ == "--run-command"@,
        cmd.args@[3]@ == "useradd -m -s /bin/bash "@ + user@,
        cmd.args@[4]@ == "--run-command"@,
        cmd.args@[5]@ == "echo '"@ + user@ + " ALL=(ALL) NOPASSWD:ALL' > /etc/sudoers.d/"@
            + user@,
        cmd.args@[6]@ == "--run-command"@,
        cmd.args@[7]@ == "chmod 0440 /etc/sudoers.d/"@ + user@,
        cmd.args@[8]@ == "--run-command"@,
        cmd.args@[9]@ == "mkdir -p /home/"@ + user@ + "/.ssh"@,
        cmd.args@[10]@ == "--run-command"@,
        cmd.args@[11]@ == "chmod 0700 /home/"@ + user@ + "/.ssh"@,
        cmd.args@[12]@ == "--ssh-inject"@,
        cmd.args@[13]@ == user@ + ":file:"@ + key_path@,
        cmd.args@[14]@ == "--run-command"@,
        cmd.args@[15]@ == "chown -R "@ + user@ + ":"@ + user@ + " /home/"@ + user@,
{
    let mut args: Vec<String> = Vec::new();
    args.push(String::from_str("-a"));
    args.push(String::from_str(disk_path));

    args.push(String::from_str("--run-command"));
    let mut useradd = String::from_str("useradd -m -s /bin/bash ");
    useradd.append(user);
    args.push(useradd);

    args.push(String::from_str("--run-command"));
    let mut sudoers = String::from_str("echo '");
    sudoers.append(user);
    sudoers.append(" ALL=(ALL) NOPASSWD:ALL' > /etc/sudoers.d/");
    sudoers.append(user);
    args.push(sudoers);

    args.push(String::from_str("--run-command"));
    let mut sudoers_mode = String::from_str("chmod 0440 /etc/sudoers.d/");
    sudoers_mode.append(user);
    args.push(sudoers_mode);

    args.push(String::from_str("--run-command"));
    let mut ssh_dir = String::from_str("mkdir -p /home/");
    ssh_dir.append(user);
    ssh_dir.append("/.ssh");
    args.push(ssh_dir);

    args.push(String::from_str("--run-command"));
    let mut ssh_dir_mode = String::from_str("chmod 0700 /home/");
    ssh_dir_mode.append(user);
    ssh_dir_mode.append("/.ssh");
    args.push(ssh_dir_mode);

    args.push(String::from_str("--ssh-inject"));
    let mut inject = String::from_str(user);
    inject.append(":file:");
    inject.append(key_path);
    args.push(inject);

    args.push(String::from_str("--run-command"));
    let mut chown = String::from_str("chown -R ");
    chown.append(user);
    chown.append(":");
    chown.append(user);
    chown.append(" /home/");
    chown.append(user);
    args.push(chown);

    ToolCommand { program: String::from_str("virt-customize"), args }
}

/// The customization failure carried back to the caller, preserving the
/// tool's exit status and captured output.
pub fn customize_tool_failure(status: &str, out: &str, err: &str) -> (e: VmError)
    ensures
        e is CustomizeTool,
        e->CustomizeTool_detail@ == "exit_code="@ + status@ + ", stdout="@ + out@ + ", stderr="@
            + err@,
{
    let mut detail = String::from_str("exit_code=");
    detail.append(status);
    detail.append(", stdout=");
    detail.append(out);
    detail.append(", stderr=");
    detail.append(err);
    VmError::CustomizeTool { detail }
}

/// Whether the temporary key file written for inline key content must be
/// removed once the tool has run: always when one was written, whatever
/// the tool reported.
pub open spec fn temp_key_removal_needed(wrote_temp_key: bool, tool_succeeded: bool) -> bool {
    wrote_temp_key
}

/// Decide whether to remove the temporary key file after the tool ran.
pub fn temp_key_file_cleanup(wrote_temp_key: bool, tool_succeeded: bool) -> (remove: bool)
    ensures
        remove == temp_key_removal_needed(wrote_temp_key, tool_succeeded),
{
    wrote_temp_key
}

/// A temporary key file is removed on every exit path: the cleanup
/// decision does not depend on whether the customization succeeded.
pub proof fn lemma_temp_key_removed_on_all_paths(wrote_temp_key: bool)
    ensures
        forall|outcome: bool|
            temp_key_removal_needed(wrote_temp_key, outcome) == wrote_temp_key,
{
}

} // verus!
