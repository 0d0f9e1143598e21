//! The messages that server and clients exchange.

use crate::comms::CommError;
use crate::game::game_core::GameCore;
use crate::game::rules::GameCoreView;
use vstd::prelude::*;

verus! {

/// One message. It is the only thing that is ever put into a frame.
#[derive(Debug)]
pub enum Message {
    /// A client asks to join the lobby under this name.
    JoinLobby(String),
    /// The server has let the client in.
    Okay,
    /// The server has turned the client away, for this reason.
    Nok(String),
    /// The whole match as the server has it.
    GameUpdate(GameCore),
    /// A key that a client's player has pressed.
    SendInput(char),
}

/// A message, as a value.
pub enum MessageView {
    JoinLobby(Seq<char>),
    Okay,
    Nok(Seq<char>),
    GameUpdate(GameCoreView),
    SendInput(char),
}

impl View for Message {
    type V = MessageView;

    open spec fn view(&self) -> MessageView {
        match self {
            Message::JoinLobby(name) => MessageView::JoinLobby(name@),
            Message::Okay => MessageView::Okay,
            Message::Nok(reason) => MessageView::Nok(reason@),
            Message::GameUpdate(game) => MessageView::GameUpdate(game@),
            Message::SendInput(c) => MessageView::SendInput(*c),
        }
    }
}

/// What the receiver makes of a payload once the codec has been at it:
/// the message that the payload holds, or `Unknown` where it holds none.
pub fn decoded(outcome: Option<Message>) -> (r: Result<Message, CommError>)
    ensures
        r == (match outcome {
            Some(m) => Ok::<Message, CommError>(m),
            None => Err::<Message, CommError>(CommError::Unknown),
        }),
{
    match outcome {
        Some(m) => Ok(m),
        None => Err(CommError::Unknown),
    }
}

} // verus!
