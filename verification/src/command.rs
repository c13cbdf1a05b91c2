//! The operator's commands: how they are read from a chat message and what each one
//! does.

use crate::armed::ArmedState;
use crate::telegram::{command_word, find_command_word};
use vstd::prelude::*;
use vstd::string::*;

verus! {

/// What an operator can ask of the bot.
#[derive(Clone, Copy, Debug, PartialEq, Eq, Hash, Structural)]
pub enum Command {
    /// Relay the cameras' pictures now.
    Photo,
    /// Hold back the relays that alarms ask for.
    Arm,
    /// Let alarms relay again.
    Disarm,
    /// Say whether the bot is armed.
    Status,
}

impl Command {
    /// The command that a command word names: the variant's name in lower case.
    pub open spec fn named(word: Seq<char>) -> Option<Command> {
        if word == "photo"@ {
            Some(Command::Photo)
        } else if word == "arm"@ {
            Some(Command::Arm)
        } else if word == "disarm"@ {
            Some(Command::Disarm)
        } else if word == "status"@ {
            Some(Command::Status)
        } else {
            None
        }
    }

    /// The command that a message holds for the bot `bot_name`: the one its command
    /// word names.
    pub open spec fn parsed(text: Seq<char>, bot_name: Seq<char>) -> Option<Command> {
        match command_word(text, bot_name) {
            Some(word) => Command::named(word),
            None => None,
        }
    }

    /// Reads a command word, written without the leading `/`.
    pub fn from_word(word: &str) -> (command: Option<Command>)
        ensures
            command == Command::named(word@),
    {
        let word = String::from_str(word);
        if word == String::from_str("photo") {
            Some(Command::Photo)
        } else if word == String::from_str("arm") {
            Some(Command::Arm)
        } else if word == String::from_str("disarm") {
            Some(Command::Disarm)
        } else if word == String::from_str("status") {
            Some(Command::Status)
        } else {
            None
        }
    }

    /// Reads the command in a chat message, if it holds one for the bot `bot_name`.
    pub fn parse(text: &str, bot_name: &str) -> (command: Option<Command>)
        ensures
            command == Command::parsed(text@, bot_name@),
    {
        match find_command_word(text, bot_name) {
            Some(word) => Command::from_word(word.as_str()),
            None => None,
        }
    }
}

impl ArmedState {
    /// The armed state after a command: `Arm` and `Disarm` set it, the others leave
    /// it.
    pub open spec fn after(self, command: Command) -> ArmedState {
        match command {
            Command::Arm => ArmedState::Armed,
            Command::Disarm => ArmedState::Disarmed,
            _ => self,
        }
    }

    /// The armed state after a series of commands.
    pub open spec fn after_all(self, commands: Seq<Command>) -> ArmedState
        decreases commands.len(),
    {
        if commands.len() == 0 {
            self
        } else {
            self.after_all(commands.drop_last()).after(commands.last())
        }
    }

    /// What the bot says of an armed state.
    pub open spec fn status(self) -> Seq<char> {
        match self {
            ArmedState::Armed => "armed: alarms send no pictures"@,
            ArmedState::Disarmed => "disarmed: alarms send pictures"@,
        }
    }

    /// What the bot says of the armed state.
    pub fn describe(&self) -> (text: String)
        ensures
            text@ == self.status(),
    {
        match self {
            ArmedState::Armed => String::from_str("armed: alarms send no pictures"),
            ArmedState::Disarmed => String::from_str("disarmed: alarms send pictures"),
        }
    }
}

/// What the bot does in answer to a command, besides keeping the armed state.
#[derive(Debug, PartialEq, Eq)]
pub enum Reaction {
    /// Run a relay to the conversation the command came from.
    Relay,
    /// Send this text to the conversation the command came from.
    Reply { text: String },
}

/// A `Reaction` as plain mathematical values.
pub enum ReactionView {
    Relay,
    Reply { text: Seq<char> },
}

impl View for Reaction {
    type V = ReactionView;

    open spec fn view(&self) -> ReactionView {
        match *self {
            Reaction::Relay => ReactionView::Relay,
            Reaction::Reply { text } => ReactionView::Reply { text: text@ },
        }
    }
}

/// The answer to a command: the armed state from now on, and what to do.
#[derive(Debug, PartialEq, Eq)]
pub struct Answer {
    pub armed: ArmedState,
    pub reaction: Reaction,
}

/// What the bot does in answer to `command` in the armed state `armed`: a relay for
/// `Photo`, and for the others a reply that tells the armed state from now on.
pub open spec fn reaction_to(command: Command, armed: ArmedState) -> ReactionView {
    match command {
        Command::Photo => ReactionView::Relay,
        _ => ReactionView::Reply { text: armed.after(command).status() },
    }
}

/// Answers a command given in the armed state `armed`.
pub fn answer(command: Command, armed: ArmedState) -> (answer: Answer)
    ensures
        answer.armed == armed.after(command),
        answer.reaction@ == reaction_to(command, armed),
{
    match command {
        Command::Photo => Answer { armed, reaction: Reaction::Relay },
        Command::Arm => Answer {
            armed: ArmedState::Armed,
            reaction: Reaction::Reply { text: ArmedState::Armed.describe() },
        },
        Command::Disarm => Answer {
            armed: ArmedState::Disarmed,
            reaction: Reaction::Reply { text: ArmedState::Disarmed.describe() },
        },
        Command::Status => Answer { armed, reaction: Reaction::Reply { text: armed.describe() } },
    }
}

/// Once armed, the bot stays armed until an operator disarms it; once disarmed, it
/// stays disarmed until an operator arms it.
pub proof fn lemma_armed_state_holds(state: ArmedState, commands: Seq<Command>)
    ensures
        (forall|i: int| 0 <= i < commands.len() ==> commands[i] != Command::Disarm)
            ==> state.after(Command::Arm).after_all(commands) == ArmedState::Armed,
        (forall|i: int| 0 <= i < commands.len() ==> commands[i] != Command::Arm)
            ==> state.after(Command::Disarm).after_all(commands) == ArmedState::Disarmed,
    decreases commands.len(),
{
    if commands.len() > 0 {
        let front = commands.drop_last();
        lemma_armed_state_holds(state, front);
        if forall|i: int| 0 <= i < commands.len() ==> commands[i] != Command::Disarm {
            assert forall|i: int| 0 <= i < front.len() implies front[i] != Command::Disarm by {
                assert(front[i] == commands[i]);
            }
            assert(commands.last() == commands[commands.len() - 1]);
        }
        if forall|i: int| 0 <= i < commands.len() ==> commands[i] != Command::Arm {
            assert forall|i: int| 0 <= i < front.len() implies front[i] != Command::Arm by {
                assert(front[i] == commands[i]);
            }
            assert(commands.last() == commands[commands.len() - 1]);
        }
    }
}

/// A request for a relay never changes the armed state, and is answered with a relay
/// whatever the armed state is.
pub proof fn lemma_photo_runs_in_any_state(armed: ArmedState)
    ensures
        armed.after(Command::Photo) == armed,
        reaction_to(Command::Photo, armed) == ReactionView::Relay,
{
}

} // verus!
