//! Device commands and their invocations: the closed set of subcommands the
//! orchestrator ever issues, the exact argument vectors they render to, the
//! fixed leading arguments carrying the credentials, and the masking of
//! credential-like tokens before anything is logged.

use vstd::prelude::*;
use crate::config::DeviceCredentials;
use crate::text::{contains_ci, contains_token, dec_rep, lower_chars, u32_to_dec};

verus! {

/// One subcommand for the external device-control tool.
#[derive(Clone, Copy, PartialEq, Eq, Structural, Debug)]
pub enum DeviceCommand {
    /// Turn the plug on.
    On,
    /// Turn the plug off.
    Off,
    /// Program the auto-off delay, in minutes.
    SetAutoOffMinutes(u32),
    /// Enable or disable the auto-off feature.
    SetAutoOffEnabled(bool),
}

/// The argument vector a command renders to.
pub open spec fn spec_cmd_args(c: DeviceCommand) -> Seq<Seq<char>> {
    match c {
        DeviceCommand::On => seq!["on"@],
        DeviceCommand::Off => seq!["off"@],
        DeviceCommand::SetAutoOffMinutes(m) => seq![
            "feature"@,
            "auto_off_minutes"@,
            dec_rep(m as int),
        ],
        DeviceCommand::SetAutoOffEnabled(b) => seq![
            "feature"@,
            "auto_off_enabled"@,
            if b {
                "True"@
            } else {
                "False"@
            },
        ],
    }
}

/// Renders a command to the exact argument vector `spec_cmd_args` gives.
pub fn cmd_args(c: &DeviceCommand) -> (r: Vec<String>)
    ensures
        r.deep_view() == spec_cmd_args(*c),
{
    let mut r: Vec<String> = Vec::new();
    match c {
        DeviceCommand::On => {
            r.push("on".to_owned());
        },
        DeviceCommand::Off => {
            r.push("off".to_owned());
        },
        DeviceCommand::SetAutoOffMinutes(m) => {
            r.push("feature".to_owned());
            r.push("auto_off_minutes".to_owned());
            r.push(u32_to_dec(*m));
        },
        DeviceCommand::SetAutoOffEnabled(b) => {
            r.push("feature".to_owned());
            r.push("auto_off_enabled".to_owned());
            if *b {
                r.push("True".to_owned());
            } else {
                r.push("False".to_owned());
            }
        },
    }
    proof {
        assert(r.deep_view() =~~= spec_cmd_args(*c));
    }
    r
}

/// Why one invocation of the external tool failed.
#[derive(PartialEq, Eq, Debug)]
pub enum FailureDetail {
    /// The tool could not be started at all; carries the launch error text.
    Invocation(String),
    /// The tool ran and exited unsuccessfully; carries the captured
    /// standard-error text.
    CommandFailed(String),
}

/// A token is sensitive when, after ASCII case folding, it contains
/// "username" or "password".
pub open spec fn is_sensitive(s: Seq<char>) -> bool {
    contains_token(lower_chars(s), "username"@) || contains_token(lower_chars(s), "password"@)
}

/// The fixed replacement for a sensitive token in logs.
pub open spec fn mask_view() -> Seq<char> {
    "[MASKED]"@
}

/// The fixed replacement token itself.
pub fn mask_token() -> (r: &'static str)
    ensures
        r@ == mask_view(),
{
    "[MASKED]"
}

/// Decides sensitivity of one token.
pub fn is_sensitive_token(s: &str) -> (r: bool)
    ensures
        r == is_sensitive(s@),
{
    contains_ci(s, "username") || contains_ci(s, "password")
}

/// The loggable form of an argument vector: every sensitive token is
/// replaced by the mask and every other token is kept as it is.
pub fn mask_args(args: &Vec<String>) -> (r: Vec<String>)
    ensures
        r@.len() == args@.len(),
        forall|i: int|
            0 <= i < args@.len() ==> r@[i]@ == (if is_sensitive(args@[i]@) {
                mask_view()
            } else {
                args@[i]@
            }),
{
    let mut r: Vec<String> = Vec::new();
    let mut i: usize = 0;
    while i < args.len()
        invariant
            i <= args@.len(),
            r@.len() == i,
            forall|j: int|
                0 <= j < i ==> r@[j]@ == (if is_sensitive(args@[j]@) {
                    mask_view()
                } else {
                    args@[j]@
                }),
        decreases args@.len() - i,
    {
        let a: &String = &args[i];
        if is_sensitive_token(a.as_str()) {
            r.push(mask_token().to_owned());
        } else {
            r.push(a.clone());
        }
        i += 1;
    }
    r
}

/// The fixed leading arguments of every invocation: the tool's own
/// subcommand followed by the device address and the credentials.
pub open spec fn fixed_prefix(creds: DeviceCredentials) -> Seq<Seq<char>> {
    seq![
        "run"@,
        "kasa"@,
        "--host"@,
        creds.device_ip@,
        "--username"@,
        creds.username@,
        "--password"@,
        creds.password@,
    ]
}

/// One fully assembled invocation of the external tool: program name,
/// working directory, and the complete argument vector. Built fresh per
/// call and never persisted.
pub struct Invocation {
    pub program: String,
    pub workdir: String,
    pub args: Vec<String>,
}

/// Assembles the invocation for one command: the fixed credential-carrying
/// prefix followed by the command's own arguments, run from the configured
/// working directory.
pub fn build_invocation(creds: &DeviceCredentials, cmd: &DeviceCommand) -> (r: Invocation)
    ensures
        r.program@ == "uv"@,
        r.workdir@ == creds.kasa_dir@,
        r.args.deep_view() == fixed_prefix(*creds) + spec_cmd_args(*cmd),
{
    let mut args: Vec<String> = Vec::new();
    args.push("run".to_owned());
    args.push("kasa".to_owned());
    args.push("--host".to_owned());
    args.push(creds.device_ip.clone());
    args.push("--username".to_owned());
    args.push(creds.username.clone());
    args.push("--password".to_owned());
    args.push(creds.password.clone());
    let tail = cmd_args(cmd);
    proof {
        assert(args.deep_view() =~~= fixed_prefix(*creds) + tail.deep_view().subrange(0, 0));
    }
    let mut k: usize = 0;
    while k < tail.len()
        invariant
            k <= tail@.len(),
            tail.deep_view() == spec_cmd_args(*cmd),
            args.deep_view() == fixed_prefix(*creds) + tail.deep_view().subrange(0, k as int),
        decreases tail@.len() - k,
    {
        let ghost pre = args.deep_view();
        let elem: &String = &tail[k];
        let x: String = elem.clone();
        proof {
            assert(x@ == tail@[k as int]@);
            assert(tail.deep_view()[k as int] == tail@[k as int]@);
        }
        args.push(x);
        proof {
            assert(args.deep_view() =~~= pre.push(tail@[k as int]@));
            assert(args.deep_view() =~~= fixed_prefix(*creds) + tail.deep_view().subrange(
                0,
                k as int + 1,
            ));
        }
        k += 1;
    }
    proof {
        assert(tail.deep_view().subrange(0, tail.deep_view().len() as int) =~~= tail.deep_view());
    }
    Invocation { program: "uv".to_owned(), workdir: creds.kasa_dir.clone(), args }
}

} // verus!
