use vstd::prelude::*;

use std::sync::mpsc::Sender;

verus! {

/// The commands the game understands.
#[derive(PartialEq, Eq, Structural, Clone, Copy, Debug, Hash)]
pub enum Input {
    Left,
    Right,
    Down,
    Rotate,
    Drop,
    Quit,
    Restart,
    Number(u32),
}

/// How a run of the game ends.
#[derive(PartialEq, Eq, Structural, Clone, Copy, Debug, Hash)]
pub enum End {
    Quit,
    Restart,
}

/// The end of the run a command asks for, if any.
pub open spec fn end_of_input(input: Input) -> Option<End> {
    match input {
        Input::Restart => Some(End::Restart),
        Input::Quit => Some(End::Quit),
        _ => None,
    }
}

/// The end asked for by the first command among `inputs` that asks for one.
pub open spec fn end_of(inputs: Seq<Input>) -> Option<End>
    decreases inputs.len(),
{
    if inputs.len() == 0 {
        None
    } else if end_of_input(inputs[0]) is Some {
        end_of_input(inputs[0])
    } else {
        end_of(inputs.drop_first())
    }
}

/// `Quit` and `Restart` end the run; other commands do not.
impl From<Input> for Option<End> {
    fn from(value: Input) -> (r: Option<End>) {
        match value {
            Input::Restart => Some(End::Restart),
            Input::Quit => Some(End::Quit),
            _ => None,
        }
    }
}

impl vstd::std_specs::convert::FromSpecImpl<Input> for Option<End> {
    open spec fn obeys_from_spec() -> bool {
        true
    }

    open spec fn from_spec(v: Input) -> Option<End> {
        end_of_input(v)
    }
}

/// A key, as far as the game tells keys apart.
#[derive(PartialEq, Eq, Structural, Clone, Copy, Debug, Hash)]
pub enum Key {
    Up,
    Down,
    Left,
    Right,
    Char(char),
    Other,
}

/// A keyboard event: the key, whether it is a release, and whether Control is held
/// (and no other modifier).
#[derive(PartialEq, Eq, Structural, Clone, Copy, Debug, Hash)]
pub struct KeyEvent {
    pub key: Key,
    pub release: bool,
    pub control: bool,
}

/// The command a key event stands for: arrows move and rotate, `d` and space drop,
/// `q` and Control-C quit, `r` restarts, a digit picks a level. Releases and other
/// keys stand for nothing.
pub open spec fn decode(e: KeyEvent) -> Option<Input> {
    if e.release {
        None
    } else {
        match e.key {
            Key::Up => Some(Input::Rotate),
            Key::Right => Some(Input::Right),
            Key::Left => Some(Input::Left),
            Key::Down => Some(Input::Down),
            Key::Char(c) => if c == 'd' || c == ' ' {
                Some(Input::Drop)
            } else if c == 'q' {
                Some(Input::Quit)
            } else if c == 'r' {
                Some(Input::Restart)
            } else if c == 'c' {
                if e.control {
                    Some(Input::Quit)
                } else {
                    None
                }
            } else if '0' <= c <= '9' {
                Some(Input::Number((c as u32 - '0' as u32) as u32))
            } else {
                None
            },
            Key::Other => None,
        }
    }
}

impl Input {
    /// The command a key event stands for, if any.
    pub fn from_key(e: &KeyEvent) -> (r: Option<Input>)
        ensures
            r == decode(*e),
    {
        if e.release {
            return None;
        }
        match e.key {
            Key::Up => Some(Input::Rotate),
            Key::Right => Some(Input::Right),
            Key::Left => Some(Input::Left),
            Key::Down => Some(Input::Down),
            Key::Char(c) => if c == 'd' || c == ' ' {
                Some(Input::Drop)
            } else if c == 'q' {
                Some(Input::Quit)
            } else if c == 'r' {
                Some(Input::Restart)
            } else if c == 'c' {
                if e.control {
                    Some(Input::Quit)
                } else {
                    None
                }
            } else if '0' <= c && c <= '9' {
                Some(Input::Number(c as u32 - '0' as u32))
            } else {
                None
            },
            Key::Other => None,
        }
    }
}

/// Whether the reader goes on after a command.
#[derive(PartialEq, Eq, Structural, Clone, Copy, Debug)]
pub enum Loop {
    Continue,
    Break,
}

/// `std::sync::mpsc::Sender`, held and passed along without looking inside.
#[verifier::external_type_specification]
#[verifier::external_body]
#[verifier::reject_recursive_types(T)]
pub struct ExSender<T>(std::sync::mpsc::Sender<T>);

/// Relies on `Sender::send`: queues the command for the receiver. It fails only when
/// the receiver is gone, which at shutdown is expected and ignored.
#[verifier::external_body]
fn send(sender: &Sender<Input>, input: Input) {
    sender.send(input).ok();
}

/// Forwards decoded commands to the simulation until one ends the run.
pub struct InputLoop {
    sender: Sender<Input>,
}

impl InputLoop {
    pub fn new(sender: Sender<Input>) -> (r: InputLoop) {
        InputLoop { sender }
    }

    /// Forwards a command, if there is one, and says whether to read on.
    pub fn forward(&self, input: Option<Input>) -> (r: Loop)
        ensures
            r == (if input matches Some(i) && end_of_input(i) is Some {
                Loop::Break
            } else {
                Loop::Continue
            }),
    {
        if let Some(i) = input {
            send(&self.sender, i);
        }
        self.determine_result(&input)
    }

    /// Reading stops after `Quit` or `Restart`, and goes on after anything else.
    pub fn determine_result(&self, input: &Option<Input>) -> (r: Loop)
        ensures
            r == (if *input matches Some(i) && end_of_input(i) is Some {
                Loop::Break
            } else {
                Loop::Continue
            }),
    {
        match input {
            Some(Input::Quit) | Some(Input::Restart) => Loop::Break,
            _ => Loop::Continue,
        }
    }
}

} // verus!
