//! ANSI escape sequences used by the log facility's colored output.

use vstd::prelude::*;

verus! {

pub const FOREGROUND_CYAN: &'static str = "\u{1b}[36m";

pub const FOREGROUND_DEFAULT: &'static str = "\u{1b}[39m";

pub const FOREGROUND_BRIGHT_WHITE: &'static str = "\u{1b}[97m";

pub const FOREGROUND_BRIGHT_GREEN: &'static str = "\u{1b}[92m";

pub const FOREGROUND_BRIGHT_BLUE: &'static str = "\u{1b}[94m";

pub const FOREGROUND_BRIGHT_YELLOW: &'static str = "\u{1b}[93m";

pub const FOREGROUND_BRIGHT_RED: &'static str = "\u{1b}[91m";

} // verus!
