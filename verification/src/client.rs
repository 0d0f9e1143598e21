//! The client's side of a session: what it asks of the server, and what it
//! makes of the server's answers.
//!
//! A client keeps a copy of the match and never works the rules on what the
//! server has decided: every update from the server replaces the copy whole.

use crate::common::TICK_RATE_FREQ;
use crate::comms::{ClientError, CommError};
use crate::game::rules::GameCoreView;
use crate::game::GameLocal;
use crate::ifc::{Message, MessageView};
use crate::server::received_view;
use vstd::prelude::*;

verus! {

/// One player's session with the server.
#[derive(Debug)]
pub struct Client {
    nickname: String,
    update_count: usize,
}

/// A [`Client`], as a value.
pub struct ClientView {
    pub nickname: Seq<char>,
    /// Updates taken in since the last full batch of [`TICK_RATE_FREQ`].
    pub update_count: nat,
}

impl View for Client {
    type V = ClientView;

    closed spec fn view(&self) -> ClientView {
        ClientView { nickname: self.nickname@, update_count: self.update_count as nat }
    }
}

/// What the copy of the match is after the server's message `response`: an
/// update that holds a match as the rules can leave one behind replaces the
/// copy; anything else leaves it.
pub open spec fn synched(
    game: GameCoreView,
    response: Result<MessageView, CommError>,
) -> GameCoreView {
    match response {
        Ok(MessageView::GameUpdate(new_state)) => if new_state.wf() {
            new_state
        } else {
            game
        },
        _ => game,
    }
}

/// The update in `response` is taken in.
pub open spec fn takes_update(response: Result<MessageView, CommError>) -> bool {
    response matches Ok(MessageView::GameUpdate(new_state)) && new_state.wf()
}

/// The failure in `response` ends the session: every failure does, but for
/// a read that would have had to wait and a frame that is not complete yet.
pub open spec fn ends_session(response: Result<MessageView, CommError>) -> bool {
    response matches Err(e) && e != CommError::WouldBlock && e != CommError::WaitingForMoreData
}

/// Whether the failure `e` of a read says no more than that the server's
/// answer has not arrived in full, so that the client is to read again:
/// the read would have had to wait, or the frame is not complete.
pub fn answer_pending(e: &CommError) -> (r: bool)
    ensures
        r == (*e == CommError::WouldBlock || *e == CommError::WaitingForMoreData),
{
    match e {
        CommError::WouldBlock => true,
        CommError::WaitingForMoreData => true,
        _ => false,
    }
}

impl Client {
    /// Whether a client can have this many updates counted.
    pub open spec fn wf(&self) -> bool {
        self@.update_count < TICK_RATE_FREQ
    }

    /// A session of the player called `nickname`.
    pub fn new(nickname: String) -> (c: Self)
        ensures
            c@ == (ClientView { nickname: nickname@, update_count: 0 }),
            c.wf(),
    {
        Self { nickname, update_count: 0 }
    }

    /// The request to join the lobby under the client's name.
    pub fn join_request(&self) -> (m: Message)
        ensures
            m@ == MessageView::JoinLobby(self@.nickname),
    {
        Message::JoinLobby(self.nickname.clone())
    }

    /// Decides from the server's answer whether the client is in.
    ///
    /// Without an answer the connection counts as failed. Any answer but
    /// `Okay` ends the session with `Unknown` and no text.
    pub fn join_server(response: Result<Message, CommError>) -> (r: Result<(), ClientError>)
        ensures
            r is Ok <==> received_view(response) == Ok::<MessageView, CommError>(MessageView::Okay),
            response is Err ==> r matches Err(ClientError::ConnectionError),
            response is Ok && r is Err ==> (r matches Err(ClientError::Unknown(text)) && text@
                == Seq::<char>::empty()),
    {
        let response = match response {
            Ok(m) => m,
            Err(_) => {
                return Err(ClientError::ConnectionError);
            },
        };
        match response {
            Message::Okay => Ok(()),
            Message::Nok(_msg) => Err(ClientError::Unknown(String::new())),
            _ => Err(ClientError::Unknown(String::new())),
        }
    }

    /// The message that tells the server of the key `c`.
    pub fn send_input(c: char) -> (m: Message)
        ensures
            m@ == MessageView::SendInput(c),
    {
        Message::SendInput(c)
    }

    /// What the sending of a key press came to, for the session: a failure
    /// of any kind counts as a failed connection.
    pub fn input_sent(result: Result<(), CommError>) -> (r: Result<(), ClientError>)
        ensures
            r is Ok <==> result is Ok,
            r is Err ==> r matches Err(ClientError::ConnectionError),
    {
        match result {
            Ok(_) => Ok(()),
            Err(_) => Err(ClientError::ConnectionError),
        }
    }

    /// Takes in what came of a read from the server.
    ///
    /// An update replaces the client's copy of the match, unless it holds
    /// what no match can be; such an update is dropped. Any other message is
    /// ignored. A read that would have had to wait, and a frame that is not
    /// complete yet, change nothing. Any other failure ends the session.
    ///
    /// The result says whether this update completed a batch of
    /// [`TICK_RATE_FREQ`] updates.
    pub fn synch_game(
        &mut self,
        game: &mut GameLocal,
        response: Result<Message, CommError>,
    ) -> (r: Result<bool, ClientError>)
        requires
            old(self).wf(),
        ensures
            final(self).wf(),
            final(self)@.nickname == old(self)@.nickname,
            final(game)@.player_name == old(game)@.player_name,
            final(game)@.game_core == synched(old(game)@.game_core, received_view(response)),
            old(game)@.game_core.wf() ==> final(game)@.game_core.wf(),
            final(self)@.update_count == (if takes_update(received_view(response)) {
                (old(self)@.update_count + 1) % (TICK_RATE_FREQ as nat)
            } else {
                old(self)@.update_count
            }),
            r is Err <==> ends_session(received_view(response)),
            r is Err ==> r matches Err(ClientError::ConnectionError),
            r matches Ok(full) ==> full == (takes_update(received_view(response))
                && final(self)@.update_count == 0),
    {
        match response {
            Ok(response) => {
                if let Message::GameUpdate(new_state) = response {
                    if new_state.is_valid() {
                        game.replace(new_state);
                        self.update_count = (self.update_count + 1) % (TICK_RATE_FREQ as usize);
                        return Ok(self.update_count == 0);
                    }
                }
                Ok(false)
            },
            Err(CommError::WaitingForMoreData) => Ok(false),
            Err(CommError::WouldBlock) => Ok(false),
            Err(_) => Err(ClientError::ConnectionError),
        }
    }
}

} // verus!
