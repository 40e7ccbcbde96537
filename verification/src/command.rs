//! The subcommands, and how the first argument chooses among them.

use vstd::prelude::*;
use vstd::string::*;
use crate::text::texts;

verus! {

/// A subcommand.
#[derive(Clone, Copy, Debug, PartialEq, Eq, Structural)]
pub enum Command {
    Init,
    Reset,
    Config,
    Help,
    Create,
}

/// The code of `c`, with the capital letters A to Z counted as their small ones.
pub open spec fn folded(c: char) -> u32 {
    let n = c as u32;
    if 65 <= n && n <= 90 {
        (n + 32) as u32
    } else {
        n
    }
}

/// Whether `a` and `b` are the same but for the case of the letters A to Z.
pub open spec fn same_ignoring_case(a: Seq<char>, b: Seq<char>) -> bool {
    a.len() == b.len() && forall|i: int| 0 <= i < a.len() ==> folded(a[i]) == folded(b[i])
}

/// What is said of a first argument that names no subcommand.
pub open spec fn unknown_command_text(token: Seq<char>) -> Seq<char> {
    "Matching variant not found: '"@ + token + "'"@
}

/// The code of `c`, with the capital letters A to Z counted as their small ones.
fn fold(c: char) -> (n: u32)
    ensures
        n == folded(c),
{
    let n: u32 = c as u32;
    if 65 <= n && n <= 90 {
        n + 32
    } else {
        n
    }
}

/// Whether `a` and `b` are the same but for the case of the letters A to Z.
pub fn eq_ignoring_case(a: &str, b: &str) -> (same: bool)
    ensures
        same == same_ignoring_case(a@, b@),
{
    let n: usize = a.unicode_len();
    if n != b.unicode_len() {
        return false;
    }
    let mut i: usize = 0;
    while i < n
        invariant
            i <= n,
            n == a@.len(),
            n == b@.len(),
            forall|j: int| 0 <= j < i ==> folded(a@[j]) == folded(b@[j]),
        decreases n - i,
    {
        if fold(a.get_char(i)) != fold(b.get_char(i)) {
            return false;
        }
        i += 1;
    }
    true
}

impl Command {
    /// The subcommand's name.
    pub open spec fn name(self) -> Seq<char> {
        match self {
            Command::Init => "Init"@,
            Command::Reset => "Reset"@,
            Command::Config => "Config"@,
            Command::Help => "Help"@,
            Command::Create => "Create"@,
        }
    }

    /// The subcommand's name.
    pub fn as_str(&self) -> (s: &'static str)
        ensures
            s@ == self.name(),
    {
        match self {
            Command::Init => "Init",
            Command::Reset => "Reset",
            Command::Config => "Config",
            Command::Help => "Help",
            Command::Create => "Create",
        }
    }

    /// The subcommand that `token` names, whatever the case of its letters;
    /// nothing where it names none.
    pub fn parse(token: &str) -> (r: Option<Command>)
        ensures
            match r {
                Some(c) => same_ignoring_case(token@, c.name()),
                None => forall|c: Command| !same_ignoring_case(token@, c.name()),
            },
    {
        if eq_ignoring_case(token, Command::Init.as_str()) {
            Some(Command::Init)
        } else if eq_ignoring_case(token, Command::Reset.as_str()) {
            Some(Command::Reset)
        } else if eq_ignoring_case(token, Command::Config.as_str()) {
            Some(Command::Config)
        } else if eq_ignoring_case(token, Command::Help.as_str()) {
            Some(Command::Help)
        } else if eq_ignoring_case(token, Command::Create.as_str()) {
            Some(Command::Create)
        } else {
            None
        }
    }
}

/// What a run does, as its arguments decide.
#[derive(Debug)]
pub enum Route {
    /// No argument after the program's name: render the card.
    Base,
    /// The first argument names this subcommand.
    Run(Command),
    /// The first argument names none; the text says so and names the argument.
    Unknown(String),
}

/// What the arguments `args` ask for, the program's name being the first of them.
pub open spec fn routed(args: Seq<Seq<char>>, route: Route) -> bool {
    if args.len() <= 1 {
        route is Base
    } else {
        match route {
            Route::Base => false,
            Route::Run(c) => same_ignoring_case(args[1], c.name()),
            Route::Unknown(said) => said@ == unknown_command_text(args[1]) && forall|c: Command|
                !same_ignoring_case(args[1], c.name()),
        }
    }
}

/// Decides what a run does: the card where no argument follows the
/// program's name, else the subcommand that the first argument names, else
/// a message that names the argument.
pub fn route(args: &Vec<String>) -> (r: Route)
    ensures
        routed(texts(args@), r),
{
    if args.len() <= 1 {
        return Route::Base;
    }
    let token = args[1].as_str();
    match Command::parse(token) {
        Some(c) => Route::Run(c),
        None => {
            let mut said = String::from_str("Matching variant not found: '");
            said.append(token);
            said.append("'");
            Route::Unknown(said)
        },
    }
}

} // verus!
