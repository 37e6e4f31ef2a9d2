//! Command-line dispatch and the exit status that each outcome is reported
//! with.

use vstd::prelude::*;

verus! {

/// What the command line asks for.
#[derive(Clone, Debug, PartialEq, Eq)]
pub enum Command {
    /// `devices`: list the supported controllers that OpenRGB reports.
    Devices,
    /// `apply cyan-static`: set both supported devices to static cyan.
    ApplyCyanStatic,
    /// `apply ripple [speed]`: run the keypress ripple; `speed` is the
    /// optional speed argument as given, still to be parsed.
    ApplyRipple { speed: Option<String> },
    /// Anything else: print the usage text.
    Usage,
}

/// The command that an argument list (without the program path) selects.
pub open spec fn spec_parse_command(args: Seq<String>) -> Command {
    if args.len() == 1 && args[0]@ == "devices"@ {
        Command::Devices
    } else if args.len() == 2 && args[0]@ == "apply"@ && args[1]@ == "cyan-static"@ {
        Command::ApplyCyanStatic
    } else if args.len() == 2 && args[0]@ == "apply"@ && args[1]@ == "ripple"@ {
        Command::ApplyRipple { speed: None }
    } else if args.len() == 3 && args[0]@ == "apply"@ && args[1]@ == "ripple"@ {
        Command::ApplyRipple { speed: Some(args[2]) }
    } else {
        Command::Usage
    }
}

fn is_word(arg: &String, word: &str) -> (r: bool)
    ensures
        r == (arg@ == word@),
{
    let w: String = word.to_owned();
    *arg == w
}

/// Selects the command from the user-supplied arguments.
pub fn parse_command(args: &[String]) -> (r: Command)
    ensures
        r == spec_parse_command(args@),
{
    if args.len() == 1 && is_word(&args[0], "devices") {
        Command::Devices
    } else if args.len() == 2 && is_word(&args[0], "apply") && is_word(&args[1], "cyan-static") {
        Command::ApplyCyanStatic
    } else if args.len() == 2 && is_word(&args[0], "apply") && is_word(&args[1], "ripple") {
        Command::ApplyRipple { speed: None }
    } else if args.len() == 3 && is_word(&args[0], "apply") && is_word(&args[1], "ripple") {
        Command::ApplyRipple { speed: Some(args[2].clone()) }
    } else {
        Command::Usage
    }
}

/// How the process exits.
#[derive(Clone, Copy, Debug, PartialEq, Eq, Structural)]
pub enum ExitStatus {
    /// The command completed successfully.
    Success,
    /// An OpenRGB, evdev, signal or animation error.
    Error,
    /// An invalid command or speed, or required hardware was not found.
    Invalid,
}

/// The process exit code of a status.
pub open spec fn spec_exit_code(status: ExitStatus) -> u8 {
    match status {
        ExitStatus::Success => 0,
        ExitStatus::Error => 1,
        ExitStatus::Invalid => 2,
    }
}

impl ExitStatus {
    /// The process exit code.
    pub fn code(&self) -> (r: u8)
        ensures
            r == spec_exit_code(*self),
    {
        match self {
            ExitStatus::Success => 0,
            ExitStatus::Error => 1,
            ExitStatus::Invalid => 2,
        }
    }
}

/// The status of a command on the keyboard-and-mouse group (`devices` or
/// `apply cyan-static`): `None` when talking to OpenRGB failed, otherwise the
/// `(keyboard_found, mouse_found)` pair.
pub fn device_group_status(outcome: Option<(bool, bool)>) -> (r: ExitStatus)
    ensures
        r == match outcome {
            None => ExitStatus::Error,
            Some((true, true)) => ExitStatus::Success,
            Some(_) => ExitStatus::Invalid,
        },
{
    match outcome {
        None => ExitStatus::Error,
        Some((true, true)) => ExitStatus::Success,
        Some(_) => ExitStatus::Invalid,
    }
}

/// The status of the ripple command: `None` when OpenRGB, evdev, signal
/// handling or the animation failed, otherwise whether the keyboard was found.
pub fn ripple_status(outcome: Option<bool>) -> (r: ExitStatus)
    ensures
        r == match outcome {
            None => ExitStatus::Error,
            Some(true) => ExitStatus::Success,
            Some(false) => ExitStatus::Invalid,
        },
{
    match outcome {
        None => ExitStatus::Error,
        Some(true) => ExitStatus::Success,
        Some(false) => ExitStatus::Invalid,
    }
}

/// The result of the ripple command once the animation has stopped and the
/// keyboard has been set back to static cyan (which is attempted whether or
/// not the animation failed): an animation error is reported before a
/// restore error, and with neither the keyboard counts as found.
pub fn ripple_result<E>(animation: Result<(), E>, restore: Result<(), E>) -> (r: Result<bool, E>)
    ensures
        r == match (animation, restore) {
            (Err(e), _) => Err(e),
            (Ok(()), Err(e)) => Err(e),
            (Ok(()), Ok(())) => Ok(true),
        },
{
    match animation {
        Err(e) => Err(e),
        Ok(()) => match restore {
            Err(e) => Err(e),
            Ok(()) => Ok(true),
        },
    }
}

/// The command grammar: `devices` alone lists the devices; exactly `apply
/// cyan-static` applies the static preset; `apply ripple` with at most one more
/// argument, the speed, runs the ripple; every other argument list, such as
/// `apply` alone, prints the usage text.
pub proof fn lemma_command_grammar(args: Seq<String>)
    ensures
        (spec_parse_command(args) == Command::Devices) <==> (args.len() == 1 && args[0]@
            == "devices"@),
        (spec_parse_command(args) == Command::ApplyCyanStatic) <==> (args.len() == 2 && args[0]@
            == "apply"@ && args[1]@ == "cyan-static"@),
        (spec_parse_command(args) is ApplyRipple) <==> ((args.len() == 2 || args.len() == 3)
            && args[0]@ == "apply"@ && args[1]@ == "ripple"@),
        spec_parse_command(args) matches Command::ApplyRipple { speed } ==> speed == (if args.len()
            == 3 {
            Some(args[2])
        } else {
            None
        }),
        (spec_parse_command(args) == Command::Usage) <==> !((args.len() == 1 && args[0]@
            == "devices"@) || ((args.len() == 2 || args.len() == 3) && args[0]@ == "apply"@
            && args[1]@ == "ripple"@) || (args.len() == 2 && args[0]@ == "apply"@ && args[1]@
            == "cyan-static"@)),
{
    reveal_strlit("cyan-static");
    reveal_strlit("ripple");
    assert("cyan-static"@.len() != "ripple"@.len());
}

} // verus!
