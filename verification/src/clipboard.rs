//! Pasting: on Linux, which helper programs are run and in which order; on
//! macOS, the script that sets the clipboard and pastes.
//!
//! Running a program is left to the caller. This module names the program
//! to run next, given how the last one went, and writes the script.

use vstd::prelude::*;
use vstd::string::*;

verus! {

/// How one character is written inside a quoted text of a script: a
/// backslash before a backslash and before a quote, and the two letters of
/// the escape for a line feed and for a carriage return.
pub open spec fn escaped_char(c: char) -> Seq<char> {
    if c == '\\' {
        seq!['\\', '\\']
    } else if c == '"' {
        seq!['\\', '"']
    } else if c == '\n' {
        seq!['\\', 'n']
    } else if c == '\r' {
        seq!['\\', 'r']
    } else {
        seq![c]
    }
}

/// The first `n` characters of `text`, each written as [`escaped_char`]
/// says.
pub open spec fn escaped(text: Seq<char>, n: nat) -> Seq<char>
    decreases n,
{
    if n == 0 {
        Seq::empty()
    } else {
        escaped(text, (n - 1) as nat) + escaped_char(text[n - 1])
    }
}

/// Writes `text` so that it can stand between quotes in a script.
pub fn escape_for_script(text: &str) -> (safe: String)
    ensures
        safe@ == escaped(text@, text@.len()),
{
    let len: usize = text.unicode_len();
    let mut safe = String::new();
    let mut i: usize = 0;
    while i < len
        invariant
            len == text@.len(),
            i <= len,
            safe@ == escaped(text@, i as nat),
        decreases len - i,
    {
        let c = text.get_char(i);
        proof {
            reveal_strlit("\\\\");
            reveal_strlit("\\\"");
            reveal_strlit("\\n");
            reveal_strlit("\\r");
        }
        if c == '\\' {
            assert("\\\\"@ =~= seq!['\\', '\\']);
            safe.append("\\\\");
        } else if c == '"' {
            assert("\\\""@ =~= seq!['\\', '"']);
            safe.append("\\\"");
        } else if c == '\n' {
            assert("\\n"@ =~= seq!['\\', 'n']);
            safe.append("\\n");
        } else if c == '\r' {
            assert("\\r"@ =~= seq!['\\', 'r']);
            safe.append("\\r");
        } else {
            let one = text.substring_char(i, i + 1);
            assert(one@ =~= seq![c]);
            safe.append(one);
        }
        i += 1;
    }
    safe
}

/// The script that puts `text` on the clipboard and pastes it.
pub open spec fn paste_script_of(text: Seq<char>) -> Seq<char> {
    "\n        set the clipboard to \""@ + escaped(text, text.len())
        + "\"\n        tell application \"System Events\"\n            keystroke \"v\" using command down\n        end tell\n        "@
}

/// The script that puts `text` on the clipboard and pastes it.
pub fn paste_script(text: &str) -> (script: String)
    ensures
        script@ == paste_script_of(text@),
{
    let mut script = String::from_str("\n        set the clipboard to \"");
    let safe = escape_for_script(text);
    script.append(safe.as_str());
    script.append(
        "\"\n        tell application \"System Events\"\n            keystroke \"v\" using command down\n        end tell\n        ",
    );
    script
}

/// A helper program, by what it is run for.
#[derive(Clone, Copy, Debug, PartialEq, Eq, Structural)]
pub enum PasteCommand {
    /// `wl-copy`: puts the text on the Wayland clipboard.
    CopyWayland,
    /// `xclip`: puts the text on the X11 clipboard.
    CopyX11,
    /// `wtype`: types the paste shortcut on Wayland.
    TypeWayland,
    /// `xdotool`: types the paste shortcut on X11.
    TypeX11,
}

/// What comes after a helper program has run.
#[derive(Clone, Copy, Debug, PartialEq, Eq, Structural)]
pub enum PasteNext {
    /// Run this program.
    Run(PasteCommand),
    /// The text is pasted.
    Pasted,
    /// Pasting has failed, with the error of the program that ran last.
    Failed,
}

/// The program to start with.
pub open spec fn first_command(wayland: bool) -> PasteCommand {
    if wayland {
        PasteCommand::CopyWayland
    } else {
        PasteCommand::CopyX11
    }
}

/// What comes after `ran`, which succeeded or not.
///
/// On X11 the text is copied with `xclip` and pasted with `xdotool`, and
/// both have to succeed. On Wayland the text is copied with `wl-copy`, which
/// has to succeed, and with `xclip` for programs that run through XWayland,
/// which may fail; it is pasted with `wtype` or, where that fails, with
/// `xdotool`.
pub open spec fn after(wayland: bool, ran: PasteCommand, succeeded: bool) -> PasteNext {
    match (wayland, ran) {
        (true, PasteCommand::CopyWayland) => if succeeded {
            PasteNext::Run(PasteCommand::CopyX11)
        } else {
            PasteNext::Failed
        },
        (true, PasteCommand::CopyX11) => PasteNext::Run(PasteCommand::TypeWayland),
        (true, PasteCommand::TypeWayland) => if succeeded {
            PasteNext::Pasted
        } else {
            PasteNext::Run(PasteCommand::TypeX11)
        },
        (false, PasteCommand::CopyX11) => if succeeded {
            PasteNext::Run(PasteCommand::TypeX11)
        } else {
            PasteNext::Failed
        },
        (_, PasteCommand::TypeX11) => if succeeded {
            PasteNext::Pasted
        } else {
            PasteNext::Failed
        },
        (false, _) => PasteNext::Failed,
    }
}

/// The program to start with: `wl-copy` on Wayland, `xclip` on X11.
pub fn first_paste_command(wayland: bool) -> (command: PasteCommand)
    ensures
        command == first_command(wayland),
{
    if wayland {
        PasteCommand::CopyWayland
    } else {
        PasteCommand::CopyX11
    }
}

/// What comes after the program `ran`, given whether it succeeded.
pub fn next_paste_step(wayland: bool, ran: PasteCommand, succeeded: bool) -> (next: PasteNext)
    ensures
        next == after(wayland, ran, succeeded),
{
    match (wayland, ran) {
        (true, PasteCommand::CopyWayland) => if succeeded {
            PasteNext::Run(PasteCommand::CopyX11)
        } else {
            PasteNext::Failed
        },
        (true, PasteCommand::CopyX11) => PasteNext::Run(PasteCommand::TypeWayland),
        (true, PasteCommand::TypeWayland) => if succeeded {
            PasteNext::Pasted
        } else {
            PasteNext::Run(PasteCommand::TypeX11)
        },
        (false, PasteCommand::CopyX11) => if succeeded {
            PasteNext::Run(PasteCommand::TypeX11)
        } else {
            PasteNext::Failed
        },
        (_, PasteCommand::TypeX11) => if succeeded {
            PasteNext::Pasted
        } else {
            PasteNext::Failed
        },
        (false, _) => PasteNext::Failed,
    }
}

/// The number of programs still to run, at most, once `command` is due.
pub open spec fn commands_left(wayland: bool, command: PasteCommand) -> nat {
    match command {
        PasteCommand::CopyWayland => 4,
        PasteCommand::CopyX11 => if wayland {
            3
        } else {
            2
        },
        PasteCommand::TypeWayland => 2,
        PasteCommand::TypeX11 => 1,
    }
}

/// Pasting ends: each program that is run leaves fewer to run, so that no
/// more than four are run on Wayland and no more than two on X11.
pub proof fn pasting_ends(wayland: bool, ran: PasteCommand, succeeded: bool)
    ensures
        after(wayland, ran, succeeded) matches PasteNext::Run(next) ==> commands_left(wayland, next)
            < commands_left(wayland, ran),
        commands_left(wayland, first_command(wayland)) == if wayland {
            4nat
        } else {
            2nat
        },
{
}

/// The text counts as pasted only when a program has typed the paste
/// shortcut and succeeded.
pub proof fn pasted_means_typed(wayland: bool, ran: PasteCommand, succeeded: bool)
    ensures
        after(wayland, ran, succeeded) == PasteNext::Pasted ==> succeeded && (ran == PasteCommand::TypeWayland
            || ran == PasteCommand::TypeX11),
{
}

} // verus!
