use vstd::prelude::*;

verus! {

/// How colours get to the terminal on the platform the process runs on.
#[derive(Clone, Copy, Debug, PartialEq, Eq)]
pub enum AnsiSupport {
    /// The console must be switched to virtual terminal processing first.
    VirtualTerminal,
    /// Escape sequences work as they are.
    Native,
}

/// Decides the terminal setup: consoles of Windows need virtual terminal
/// processing switched on; other platforms understand colours already.
pub fn enable_ansi_support(on_windows: bool) -> (r: AnsiSupport)
    ensures
        r == (if on_windows {
            AnsiSupport::VirtualTerminal
        } else {
            AnsiSupport::Native
        }),
{
    if on_windows {
        AnsiSupport::VirtualTerminal
    } else {
        AnsiSupport::Native
    }
}

impl AnsiSupport {
    /// The line that tells the operator what was detected.
    pub fn notice(self) -> (r: &'static str)
        ensures
            r@ == (if self is VirtualTerminal {
                "Detected Windows.... Enabling ANSI SUPPORT for colors..."@
            } else {
                "Detected UNIX BASED OS...."@
            }),
    {
        match self {
            AnsiSupport::VirtualTerminal => "Detected Windows.... Enabling ANSI SUPPORT for colors...",
            AnsiSupport::Native => "Detected UNIX BASED OS....",
        }
    }
}

} // verus!
