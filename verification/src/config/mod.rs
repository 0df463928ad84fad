use vstd::prelude::*;

pub mod keybind;

use crate::config::keybind::Keybind;
use crate::wm::actions::ActionType;

verus! {

/// Gap, in pixels, that the layout leaves around windows.
pub const DEFAULT_GAP: u16 = 16;

/// Configured border width.
pub const DEFAULT_BORDER: u16 = 2;

/// What the manager knows of its surroundings: the root window, the layout
/// constants, the key bindings and the two atoms of the close protocol.
pub struct Config {
    pub root: u32,
    pub gap: u16,
    pub border: u16,
    pub keybindings: Vec<Keybind>,
    pub protocol_atom: u32,
    pub delete_atom: u32,
}

/// One entry of the configuration file, as it is written there.
#[derive(Clone, Debug, PartialEq, Eq)]
pub struct RawBinding {
    pub keycode: u8,
    pub modkey: u16,
    pub action: String,
    pub args: String,
}

/// Why an entry of the configuration file is refused.
#[derive(Clone, Copy, Debug, PartialEq, Eq)]
pub enum ConfigError {
    /// The arguments of `Run` are not a shell command of at least one word.
    BadCommand,
    /// The argument of `CycleFocus` is neither `+` nor `-`.
    BadCycleFocus,
    /// The argument of `ChangeSize` is neither `+` nor `-`.
    BadChangeSize,
    /// The action's name is not one of the nine.
    UnknownAction,
}

/// The words that `shlex::split` makes of a command line, or `None` where it
/// reports the line as erroneous.
pub uninterp spec fn shell_words(line: Seq<char>) -> Option<Seq<Seq<char>>>;

/// The words of a split line as sequences of characters.
pub open spec fn words_view(words: Option<Vec<String>>) -> Option<Seq<Seq<char>>> {
    match words {
        Some(w) => Some(Seq::new(w@.len(), |i: int| w@[i]@)),
        None => None,
    }
}

/// Calls `shlex::split`. Trusted: the result is the function's value on the
/// characters of `line`, which this library names `shell_words` and says
/// nothing more of.
#[verifier::external_body]
fn split_words(line: &str) -> (words: Option<Vec<String>>)
    ensures
        words_view(words) == shell_words(line@),
{
    shlex::split(line)
}

/// Whether two string slices hold the same characters.
fn same_text(a: &str, b: &str) -> (same: bool)
    ensures
        same == (a@ == b@),
{
    a.to_owned() == b.to_owned()
}

/// The action that the name and argument of an entry stand for, for every
/// name but `Run`. `ChangeSize` moves by a twentieth of `screen_width`:
/// down for `+`, up for `-`.
pub open spec fn simple_action(name: Seq<char>, args: Seq<char>, screen_width: u16) -> Result<
    ActionType,
    ConfigError,
> {
    if name == "Quit"@ {
        Ok(ActionType::Quit)
    } else if name == "CycleFocus"@ {
        if args == "+"@ {
            Ok(ActionType::CycleFocus { direction: true })
        } else if args == "-"@ {
            Ok(ActionType::CycleFocus { direction: false })
        } else {
            Err(ConfigError::BadCycleFocus)
        }
    } else if name == "ChangeSize"@ {
        if args == "+"@ {
            Ok(ActionType::ChangeSize { amount: (-(screen_width / 20)) as i32 })
        } else if args == "-"@ {
            Ok(ActionType::ChangeSize { amount: (screen_width / 20) as i32 })
        } else {
            Err(ConfigError::BadChangeSize)
        }
    } else if name == "PromoteWindow"@ {
        Ok(ActionType::PromoteWindow)
    } else if name == "Close"@ {
        Ok(ActionType::Close)
    } else if name == "NextScreen"@ {
        Ok(ActionType::NextScreen)
    } else if name == "MoveWindow"@ {
        Ok(ActionType::MoveWindow)
    } else if name == "ToggleFull"@ {
        Ok(ActionType::ToggleFull)
    } else {
        Err(ConfigError::UnknownAction)
    }
}

/// `res` is what a `Run` entry yields for the split command line `words`:
/// the first word as the program and the rest as its arguments, or
/// `BadCommand` where the line is erroneous or has no word.
pub open spec fn run_result(res: Result<ActionType, ConfigError>, words: Option<Seq<Seq<char>>>) -> bool {
    match words {
        Some(w) if w.len() > 0 => match res {
            Ok(ActionType::Run { prog, args }) => {
                &&& prog@ == w[0]
                &&& args@.len() == w.len() - 1
                &&& forall|i: int| 0 <= i < args@.len() ==> (#[trigger] args@[i])@ == w[i + 1]
            },
            _ => false,
        },
        _ => res == Err::<ActionType, ConfigError>(ConfigError::BadCommand),
    }
}

/// `res` is what an entry with this name and argument yields, where `words`
/// is the argument split as a command line.
pub open spec fn action_result(
    res: Result<ActionType, ConfigError>,
    name: Seq<char>,
    args: Seq<char>,
    screen_width: u16,
    words: Option<Seq<Seq<char>>>,
) -> bool {
    if name == "Run"@ {
        run_result(res, words)
    } else {
        res == simple_action(name, args, screen_width)
    }
}

/// `res` is what the entry `raw` yields: its key and modifiers with the
/// action that its name and argument stand for, or the reason why not.
pub open spec fn binding_result(
    res: Result<Keybind, ConfigError>,
    raw: RawBinding,
    screen_width: u16,
) -> bool {
    match res {
        Ok(kb) => kb.keycode == raw.keycode && kb.modkeys == raw.modkey && action_result(
            Ok(kb.action),
            raw.action@,
            raw.args@,
            screen_width,
            shell_words(raw.args@),
        ),
        Err(e) => action_result(
            Err(e),
            raw.action@,
            raw.args@,
            screen_width,
            shell_words(raw.args@),
        ),
    }
}

/// Why the entry `raw` is refused, or `None` where it is valid.
pub open spec fn entry_error(raw: RawBinding, screen_width: u16) -> Option<ConfigError> {
    if raw.action@ == "Run"@ {
        match shell_words(raw.args@) {
            Some(w) if w.len() > 0 => None,
            _ => Some(ConfigError::BadCommand),
        }
    } else {
        match simple_action(raw.action@, raw.args@, screen_width) {
            Ok(_) => None,
            Err(e) => Some(e),
        }
    }
}

/// Makes the `Run` action of a split command line: the first word is the
/// program, the others are its arguments.
pub fn run_action(words: Option<Vec<String>>) -> (res: Result<ActionType, ConfigError>)
    ensures
        run_result(res, words_view(words)),
        match words {
            Some(w) if w@.len() > 0 => res matches Ok(ActionType::Run { prog, args }) && prog
                == w@[0] && args@ == w@.subrange(1, w@.len() as int),
            _ => res == Err::<ActionType, ConfigError>(ConfigError::BadCommand),
        },
{
    match words {
        Some(mut w) => {
            if w.len() == 0 {
                return Err(ConfigError::BadCommand);
            }
            let ghost all = w@;
            let prog = w.remove(0);
            proof {
                assert(w@ =~= all.subrange(1, all.len() as int));
            }
            Ok(ActionType::Run { prog, args: w })
        },
        None => Err(ConfigError::BadCommand),
    }
}

/// Reads the action of one entry from its name and its argument.
pub fn parse_action(name: &str, args: &str, screen_width: u16) -> (res: Result<
    ActionType,
    ConfigError,
>)
    ensures
        action_result(res, name@, args@, screen_width, shell_words(args@)),
{
    let step: i32 = (screen_width / 20) as i32;
    if same_text(name, "Run") {
        run_action(split_words(args))
    } else if same_text(name, "Quit") {
        Ok(ActionType::Quit)
    } else if same_text(name, "CycleFocus") {
        if same_text(args, "+") {
            Ok(ActionType::CycleFocus { direction: true })
        } else if same_text(args, "-") {
            Ok(ActionType::CycleFocus { direction: false })
        } else {
            Err(ConfigError::BadCycleFocus)
        }
    } else if same_text(name, "ChangeSize") {
        if same_text(args, "+") {
            Ok(ActionType::ChangeSize { amount: -step })
        } else if same_text(args, "-") {
            Ok(ActionType::ChangeSize { amount: step })
        } else {
            Err(ConfigError::BadChangeSize)
        }
    } else if same_text(name, "PromoteWindow") {
        Ok(ActionType::PromoteWindow)
    } else if same_text(name, "Close") {
        Ok(ActionType::Close)
    } else if same_text(name, "NextScreen") {
        Ok(ActionType::NextScreen)
    } else if same_text(name, "MoveWindow") {
        Ok(ActionType::MoveWindow)
    } else if same_text(name, "ToggleFull") {
        Ok(ActionType::ToggleFull)
    } else {
        Err(ConfigError::UnknownAction)
    }
}

/// Reads one entry of the configuration file.
pub fn parse_binding(raw: &RawBinding, screen_width: u16) -> (res: Result<Keybind, ConfigError>)
    ensures
        binding_result(res, *raw, screen_width),
        match res {
            Ok(_) => entry_error(*raw, screen_width).is_none(),
            Err(e) => entry_error(*raw, screen_width) == Some(e),
        },
{
    match parse_action(raw.action.as_str(), raw.args.as_str(), screen_width) {
        Ok(action) => Ok(Keybind { keycode: raw.keycode, modkeys: raw.modkey, action }),
        Err(e) => Err(e),
    }
}

impl Config {
    /// Builds the configuration from the entries of the configuration file
    /// and what the server told of itself. Every entry must be valid: the
    /// result is the error of the first one that is not.
    pub fn new(
        root: u32,
        screen_width: u16,
        protocol_atom: u32,
        delete_atom: u32,
        entries: &Vec<RawBinding>,
    ) -> (res: Result<Config, ConfigError>)
        ensures
            res is Ok <==> forall|i: int|
                0 <= i < entries@.len() ==> entry_error(#[trigger] entries@[i], screen_width).is_none(),
            match res {
                Ok(config) => {
                    &&& config.root == root
                    &&& config.gap == DEFAULT_GAP
                    &&& config.border == DEFAULT_BORDER
                    &&& config.protocol_atom == protocol_atom
                    &&& config.delete_atom == delete_atom
                    &&& config.keybindings@.len() == entries@.len()
                    &&& forall|i: int|
                        0 <= i < entries@.len() ==> binding_result(
                            Ok(#[trigger] config.keybindings@[i]),
                            entries@[i],
                            screen_width,
                        )
                },
                Err(e) => exists|i: int|
                    {
                        &&& 0 <= i < entries@.len()
                        &&& entry_error(#[trigger] entries@[i], screen_width) == Some(e)
                        &&& forall|j: int|
                            0 <= j < i ==> entry_error(#[trigger] entries@[j], screen_width).is_none()
                    },
            },
    {
        let mut keybindings: Vec<Keybind> = Vec::new();
        let n: usize = entries.len();
        let mut i: usize = 0;
        while i < n
            invariant
                n == entries@.len(),
                i <= n,
                keybindings@.len() == i,
                forall|j: int| 0 <= j < i ==> entry_error(#[trigger] entries@[j], screen_width).is_none(),
                forall|j: int|
                    0 <= j < i ==> binding_result(
                        Ok(#[trigger] keybindings@[j]),
                        entries@[j],
                        screen_width,
                    ),
            decreases n - i,
        {
            match parse_binding(&entries[i], screen_width) {
                Ok(kb) => {
                    keybindings.push(kb);
                },
                Err(e) => {
                    return Err(e);
                },
            }
            i += 1;
        }
        Ok(
            Config {
                root,
                gap: DEFAULT_GAP,
                border: DEFAULT_BORDER,
                keybindings,
                protocol_atom,
                delete_atom,
            },
        )
    }
}

} // verus!
