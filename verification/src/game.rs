use vstd::prelude::*;
use vstd::string::StringExecFns;
use vstd::utf8::encode_utf8;

verus! {

/// The environment variable that makes the game exit right after starting.
pub const EXIT_VAR_NAME: &'static str = "STABMAN_EXIT";

/// The environment variable that turns on development mode.
pub const DEV_VAR_NAME: &'static str = "STABMAN_DEV";

/// An environment variable counts as set when it has the name, and a value that is
/// neither empty nor `0`.
pub open spec fn is_set_var(key: Seq<char>, val: Seq<char>, name: Seq<char>) -> bool {
    key == name && val.len() > 0 && val != "0"@
}

/// Whether some variable among `vars` (name and value pairs) sets the flag `name`.
pub fn flag_is_set(vars: &Vec<(String, String)>, name: &str) -> (r: bool)
    ensures
        r == exists|i: int|
            0 <= i < vars.len() && #[trigger] is_set_var(vars[i].0@, vars[i].1@, name@),
{
    let name_string = name.to_owned();
    let zero = String::from_str("0");
    let mut i: usize = 0;
    while i < vars.len()
        invariant
            i <= vars.len(),
            name_string@ == name@,
            zero@ == "0"@,
            forall|j: int| 0 <= j < i ==> !#[trigger] is_set_var(vars[j].0@, vars[j].1@, name@),
        decreases vars.len() - i,
    {
        let key = &vars[i].0;
        let val = &vars[i].1;
        if *key == name_string && !val.as_str().is_empty() && *val != zero {
            assert(is_set_var(vars[i as int].0@, vars[i as int].1@, name@));
            return true;
        }
        i = i + 1;
    }
    false
}

/// Whether the environment asks the game to exit right away (used to validate a build
/// where no graphical environment exists).
pub fn exit_requested(vars: &Vec<(String, String)>) -> (r: bool)
    ensures
        r == exists|i: int|
            0 <= i < vars.len() && #[trigger] is_set_var(vars[i].0@, vars[i].1@, EXIT_VAR_NAME@),
{
    flag_is_set(vars, EXIT_VAR_NAME)
}

/// Whether the environment turns on development mode, which adds the debug and noclip
/// systems (in builds with debugging support).
pub fn in_development_mode(vars: &Vec<(String, String)>) -> (r: bool)
    ensures
        r == exists|i: int|
            0 <= i < vars.len() && #[trigger] is_set_var(vars[i].0@, vars[i].1@, DEV_VAR_NAME@),
{
    flag_is_set(vars, DEV_VAR_NAME)
}

/// The dimensions of the game window, as the display configuration gives them.
#[derive(Clone, Copy, Debug)]
pub struct DisplayDimensions {
    pub dimensions: Option<(u32, u32)>,
    pub max_dimensions: Option<(u32, u32)>,
    pub min_dimensions: Option<(u32, u32)>,
}

impl DisplayDimensions {
    /// A resolution given in the resolution file overrides the window's dimensions,
    /// and its maximum and minimum dimensions where those are set.
    pub fn apply_resolution(&mut self, resolution: Option<(u32, u32)>)
        ensures
            *final(self) == match resolution {
                Some(res) => DisplayDimensions {
                    dimensions: Some(res),
                    max_dimensions: if old(self).max_dimensions is Some {
                        Some(res)
                    } else {
                        None
                    },
                    min_dimensions: if old(self).min_dimensions is Some {
                        Some(res)
                    } else {
                        None
                    },
                },
                None => *old(self),
            },
    {
        if let Some(res) = resolution {
            self.dimensions = Some(res);
            if self.max_dimensions.is_some() {
                self.max_dimensions = Some(res);
            }
            if self.min_dimensions.is_some() {
                self.min_dimensions = Some(res);
            }
        }
    }
}

/// A line of `n` dashes.
pub open spec fn dashes(n: nat) -> Seq<char> {
    Seq::new(n, |_i: int| '-')
}

/// The name and version line of the welcome message.
pub open spec fn name_and_version(name: Seq<char>, version: Seq<char>) -> Seq<char> {
    name + " v"@ + version
}

/// The welcome message: the name and version, underlined with as many dashes as the
/// line has bytes, and a thank-you line.
pub open spec fn spec_welcome_message(name: Seq<char>, version: Seq<char>) -> Seq<char> {
    let line = name_and_version(name, version);
    line + "\n"@ + dashes(encode_utf8(line).len()) + "\n"@ + "Thanks for playing our game! <3"@
}

/// The message printed when the game starts.
pub fn welcome_message(name: &str, version: &str) -> (r: String)
    ensures
        r@ == spec_welcome_message(name@, version@),
{
    let mut line = String::from_str(name);
    line.append(" v");
    line.append(version);
    let n = line.as_str().as_bytes().len();
    let mut underline = String::from_str("");
    proof {
        reveal_strlit("");
        reveal_strlit("-");
    }
    let mut i: usize = 0;
    while i < n
        invariant
            i <= n,
            underline@ == dashes(i as nat),
            "-"@ == seq!['-'],
        decreases n - i,
    {
        underline.append("-");
        i = i + 1;
    }
    let mut message = line;
    message.append("\n");
    message.append(underline.as_str());
    message.append("\n");
    message.append("Thanks for playing our game! <3");
    message
}

} // verus!
