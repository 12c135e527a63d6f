//! Power operations and their platform-specific command lines.
//!
//! The operation itself is delegated to the host OS: on Windows through the
//! `shutdown` utility, on Linux through `systemctl`. This module holds the
//! mapping from the selected operation to that command's program name and
//! arguments, the capability gate (sleep is available only on Linux), and
//! the user-facing description printed before the countdown starts. The
//! caller detects the platform and spawns the command; nothing here performs
//! any I/O.

use vstd::prelude::*;

verus! {

/// The system power operation to schedule.
#[derive(Clone, Copy, Debug, PartialEq, Eq, Structural)]
pub enum Operation {
    Shutdown,
    Reboot,
    Hibernate,
    Sleep,
}

/// The host platform family, resolved once at startup by the caller.
#[derive(Clone, Copy, Debug, PartialEq, Eq, Structural)]
pub enum Platform {
    Windows,
    Linux,
}

/// Whether `operation` is available on `platform`: every operation but
/// `Sleep` everywhere, `Sleep` only on Linux.
pub open spec fn spec_operation_supported(platform: Platform, operation: Operation) -> bool {
    platform == Platform::Linux || operation != Operation::Sleep
}

/// Decides whether `operation` can be scheduled on `platform`.
pub fn operation_supported(platform: Platform, operation: Operation) -> (r: bool)
    ensures
        r == spec_operation_supported(platform, operation),
{
    match (platform, operation) {
        (Platform::Windows, Operation::Sleep) => false,
        _ => true,
    }
}

/// The program that performs power operations on `platform`.
pub fn power_command_program(platform: Platform) -> (r: &'static str)
    ensures
        platform == Platform::Windows ==> r@ == "shutdown"@,
        platform == Platform::Linux ==> r@ == "systemctl"@,
{
    match platform {
        Platform::Windows => "shutdown",
        Platform::Linux => "systemctl",
    }
}

/// The arguments that select `operation` when passed to the power command
/// of `platform`.
pub fn power_command_args(platform: Platform, operation: Operation) -> (r: Vec<&'static str>)
    requires
        spec_operation_supported(platform, operation),
    ensures
        platform == Platform::Windows && operation == Operation::Shutdown ==> r@.len() == 3
            && r@[0]@ == "/s"@ && r@[1]@ == "/t"@ && r@[2]@ == "0"@,
        platform == Platform::Windows && operation == Operation::Reboot ==> r@.len() == 3
            && r@[0]@ == "/r"@ && r@[1]@ == "/t"@ && r@[2]@ == "0"@,
        platform == Platform::Windows && operation == Operation::Hibernate ==> r@.len() == 1
            && r@[0]@ == "/h"@,
        platform == Platform::Linux && operation == Operation::Shutdown ==> r@.len() == 1
            && r@[0]@ == "poweroff"@,
        platform == Platform::Linux && operation == Operation::Reboot ==> r@.len() == 1
            && r@[0]@ == "reboot"@,
        platform == Platform::Linux && operation == Operation::Hibernate ==> r@.len() == 1
            && r@[0]@ == "hibernate"@,
        platform == Platform::Linux && operation == Operation::Sleep ==> r@.len() == 1
            && r@[0]@ == "suspend"@,
{
    match platform {
        Platform::Windows => match operation {
            Operation::Shutdown => vec!["/s", "/t", "0"],
            Operation::Reboot => vec!["/r", "/t", "0"],
            Operation::Hibernate => vec!["/h"],
            Operation::Sleep => vec![],
        },
        Platform::Linux => match operation {
            Operation::Shutdown => vec!["poweroff"],
            Operation::Reboot => vec!["reboot"],
            Operation::Hibernate => vec!["hibernate"],
            Operation::Sleep => vec!["suspend"],
        },
    }
}

/// The phrase naming `operation` in the notice printed before the countdown
/// ("System will <description> in <n> seconds").
pub fn operation_description(operation: Operation) -> (r: &'static str)
    ensures
        operation == Operation::Shutdown ==> r@ == "shutdown"@,
        operation == Operation::Reboot ==> r@ == "reboot"@,
        operation == Operation::Hibernate ==> r@ == "go into hibernation mode"@,
        operation == Operation::Sleep ==> r@ == "go into sleep mode"@,
{
    match operation {
        Operation::Shutdown => "shutdown",
        Operation::Reboot => "reboot",
        Operation::Hibernate => "go into hibernation mode",
        Operation::Sleep => "go into sleep mode",
    }
}

} // verus!
