//! The server's side of the lobby: who is let in, what is done with what a
//! player sends, and when a player is dropped.
//!
//! The server owns the one match that counts. It does not own the
//! connections: whoever runs the network loop keeps one per admitted player,
//! under the player's name, hands every message and every failure to the
//! functions here, and does what they decide.

use crate::comms::CommError;
use crate::game::game_core::GameCore;
use crate::game::rules::GameCoreView;
use crate::ifc::{Message, MessageView};
use vstd::prelude::*;
use vstd::string::StringExecFns;

verus! {

/// Whether the server still waits for players or has its full number.
#[derive(Clone, Copy, PartialEq, Eq, Structural, Debug)]
pub enum ServerState {
    WaitingForPlayers,
    Running,
}

/// The server: its state and the match it decides.
#[derive(Debug)]
pub struct Server {
    pub state: ServerState,
    pub game: GameCore,
}

/// A server, as a value.
pub struct ServerView {
    pub state: ServerState,
    pub game: GameCoreView,
}

impl View for Server {
    type V = ServerView;

    open spec fn view(&self) -> ServerView {
        ServerView { state: self.state, game: self.game@ }
    }
}

/// What the server makes of a connection's first message.
#[derive(Debug)]
pub struct JoinReply {
    /// The answer to send.
    pub response: Message,
    /// The name under which the connection is to be kept, or nothing if it
    /// is to be closed once the answer is sent.
    pub admitted: Option<String>,
}

/// A [`JoinReply`], as a value.
pub struct JoinReplyView {
    pub response: MessageView,
    pub admitted: Option<Seq<char>>,
}

impl View for JoinReply {
    type V = JoinReplyView;

    open spec fn view(&self) -> JoinReplyView {
        JoinReplyView {
            response: self.response@,
            admitted: match self.admitted {
                Some(name) => Some(name@),
                None => None,
            },
        }
    }
}

/// Why the registry turns a name away that is taken.
pub open spec fn taken_text(nickname: Seq<char>) -> Seq<char> {
    "Player "@ + nickname + " is already added"@
}

/// The reason given to a client whose name is taken.
pub open spec fn duplicate_text(nickname: Seq<char>) -> Seq<char> {
    "Player '"@ + nickname + "' is already added"@
}

/// The reason given to a client whose first message is no request to join.
pub open spec fn unexpected_text() -> Seq<char> {
    "Invalid message, expected join lobby"@
}

/// The failure `e` means that the connection is lost. Only a call that would
/// have had to wait leaves the connection standing.
pub open spec fn is_fatal(e: CommError) -> bool {
    e != CommError::WouldBlock
}

impl ServerView {
    /// What holds of every server: it runs exactly when the match has its
    /// full number of players.
    pub open spec fn wf(self) -> bool {
        &&& self.game.wf()
        &&& self.state == ServerState::Running <==> self.game.is_full()
    }

    /// A server that waits for its first player.
    pub open spec fn new() -> ServerView {
        ServerView { state: ServerState::WaitingForPlayers, game: GameCoreView::new(true) }
    }

    /// The server with `game` for its match, running if that is full now.
    pub open spec fn with_game(self, game: GameCoreView) -> ServerView {
        ServerView {
            state: if game.is_full() {
                ServerState::Running
            } else {
                self.state
            },
            game,
        }
    }

    /// The server after the first message `msg` of a new connection.
    pub open spec fn joined(self, msg: MessageView) -> ServerView {
        match msg {
            MessageView::JoinLobby(name) => if self.game.has_player(name) {
                self
            } else {
                self.with_game(self.game.with_player(name))
            },
            _ => self,
        }
    }

    /// The answer to the first message `msg` of a new connection: a request
    /// to join under a free name is granted and the connection kept; one
    /// under a taken name, and any other message, is turned away.
    pub open spec fn join_reply(self, msg: MessageView) -> JoinReplyView {
        match msg {
            MessageView::JoinLobby(name) => if self.game.has_player(name) {
                JoinReplyView { response: MessageView::Nok(duplicate_text(name)), admitted: None }
            } else {
                JoinReplyView { response: MessageView::Okay, admitted: Some(name) }
            },
            _ => JoinReplyView { response: MessageView::Nok(unexpected_text()), admitted: None },
        }
    }

    /// The server without the player called `name`: it waits for players
    /// again, and the match is back in the lobby.
    pub open spec fn without_player(self, name: Seq<char>) -> ServerView {
        ServerView { state: ServerState::WaitingForPlayers, game: self.game.without_player(name) }
    }

    /// The server after what came of a read from the connection of the
    /// player called `name`: a key press is applied to the match, everything
    /// else leaves the server as it is.
    pub open spec fn after_message(
        self,
        name: Seq<char>,
        received: Result<MessageView, CommError>,
    ) -> ServerView {
        match received {
            Ok(MessageView::SendInput(c)) => ServerView {
                game: self.game.input_applied(name, c),
                ..self
            },
            _ => self,
        }
    }
}

/// A name that has joined cannot join a second time: the second request is
/// turned away with the reason that the name is taken, and changes nothing.
pub proof fn lemma_second_join_is_refused(s: ServerView, name: Seq<char>)
    requires
        s.wf(),
        !s.game.has_player(name),
    ensures
        ({
            let request = MessageView::JoinLobby(name);
            let once = s.joined(request);
            &&& s.join_reply(request) == (JoinReplyView {
                response: MessageView::Okay,
                admitted: Some(name),
            })
            &&& once.join_reply(request) == (JoinReplyView {
                response: MessageView::Nok(duplicate_text(name)),
                admitted: None,
            })
            &&& once.joined(request) == once
        }),
{
    s.game.lemma_with_player(name);
}

/// The message in `r`, as a value.
pub open spec fn received_view(r: Result<Message, CommError>) -> Result<MessageView, CommError> {
    match r {
        Ok(m) => Ok(m@),
        Err(e) => Err(e),
    }
}

/// Whether a connection on which a read or a write failed with `e` is lost.
pub fn connection_lost(e: &CommError) -> (r: bool)
    ensures
        r == is_fatal(*e),
{
    match e {
        CommError::WouldBlock => false,
        _ => true,
    }
}

impl Server {
    /// A server that waits for its first player, with an empty lobby.
    pub fn new() -> (s: Self)
        ensures
            s@ == ServerView::new(),
            s@.wf(),
    {
        Self { state: ServerState::WaitingForPlayers, game: GameCore::new(true) }
    }

    /// Whether this is a server as the functions here can leave one behind:
    /// see [`ServerView::wf`].
    pub fn is_valid(&self) -> (r: bool)
        ensures
            r == self@.wf(),
    {
        let full = self.game.players.len() == crate::common::PLAYER_COUNT_MAX;
        self.game.is_valid() && (self.state == ServerState::Running) == full
    }

    /// Registers a player called `nickname`, unless the name is taken.
    fn try_add_player(&mut self, nickname: &str) -> (r: Result<(), String>)
        requires
            old(self)@.wf(),
            old(self).state == ServerState::WaitingForPlayers,
        ensures
            final(self).state == old(self).state,
            final(self).game@.wf(),
            old(self)@.game.has_player(nickname@) ==> {
                &&& r matches Err(reason)
                &&& reason@ == taken_text(nickname@)
                &&& final(self).game@ == old(self).game@
            },
            !old(self)@.game.has_player(nickname@) ==> {
                &&& r is Ok
                &&& final(self).game@ == old(self).game@.with_player(nickname@)
            },
    {
        if self.game.find_player(nickname).is_some() {
            let mut reason = String::from_str("Player ");
            reason.append(nickname);
            reason.append(" is already added");
            return Err(reason);
        }
        self.game.add_player(nickname);
        Ok(())
    }

    /// Drops the player called `nickname`. The server waits for players
    /// again and the match goes back to the lobby.
    pub fn remove_player(&mut self, nickname: &str)
        requires
            old(self)@.wf(),
            old(self)@.game.has_player(nickname@),
        ensures
            final(self)@ == old(self)@.without_player(nickname@),
            final(self)@.wf(),
    {
        self.state = ServerState::WaitingForPlayers;
        assert(0 <= old(self)@.game.player_index(nickname@) < old(self)@.game.players.len());
        self.game.remove_player(nickname);
    }

    /// Decides on a new connection from its first message, and runs the
    /// match once the last player is in.
    ///
    /// A request to join under a free name is granted: the player is
    /// registered, the connection is to be kept under the name, and the
    /// answer is `Okay`. A request under a name that is taken, and any other
    /// message, gets `Nok` with the reason, and the connection is not kept.
    pub fn handle_connection(&mut self, msg: Message) -> (r: JoinReply)
        requires
            old(self)@.wf(),
            old(self).state == ServerState::WaitingForPlayers,
        ensures
            final(self)@ == old(self)@.joined(msg@),
            r@ == old(self)@.join_reply(msg@),
            final(self)@.wf(),
    {
        match msg {
            Message::JoinLobby(nickname) => {
                let result = self.try_add_player(nickname.as_str());
                match result {
                    Err(_) => {
                        let mut reason = String::from_str("Player '");
                        reason.append(nickname.as_str());
                        reason.append("' is already added");
                        JoinReply { response: Message::Nok(reason), admitted: None }
                    },
                    Ok(_) => {
                        if self.game.players.len() == crate::common::PLAYER_COUNT_MAX {
                            self.state = ServerState::Running;
                        }
                        JoinReply { response: Message::Okay, admitted: Some(nickname) }
                    },
                }
            },
            _ => JoinReply {
                response: Message::Nok(String::from_str("Invalid message, expected join lobby")),
                admitted: None,
            },
        }
    }

    /// The message that tells every client how the match stands: a copy of
    /// the whole match.
    pub fn send_update(&self) -> (m: Message)
        ensures
            m@ == MessageView::GameUpdate(self@.game),
    {
        Message::GameUpdate(self.game.clone())
    }

    /// Takes in what came of a read from the connection of the player called
    /// `player_name`, and says whether that connection is lost.
    ///
    /// A key press is applied to the match. Any other message is ignored. A
    /// read that would have had to wait changes nothing. Any other failure
    /// means that the player is to be dropped.
    pub fn receive_messages(
        &mut self,
        player_name: &str,
        message: Result<Message, CommError>,
    ) -> (lost: bool)
        requires
            old(self)@.wf(),
            old(self)@.game.has_player(player_name@),
        ensures
            final(self)@ == old(self)@.after_message(player_name@, received_view(message)),
            lost == (message matches Err(e) && is_fatal(e)),
            final(self)@.wf(),
            final(self)@.game.player_names() == old(self)@.game.player_names(),
    {
        match message {
            Ok(Message::SendInput(c)) => {
                proof {
                    old(self)@.game.lemma_input_keeps_names(player_name@, c);
                }
                self.game.handle_input(player_name, c);
                false
            },
            Ok(_) => false,
            Err(e) => connection_lost(&e),
        }
    }

    /// Advances the match by one tick, as [`GameCore::update`] does. The
    /// server stays in the state it is in.
    pub fn update(&mut self)
        requires
            old(self)@.wf(),
        ensures
            final(self).state == old(self).state,
            old(self)@.game.ticks_to(final(self)@.game),
            final(self)@.wf(),
            final(self)@.game.player_names() == old(self)@.game.player_names(),
    {
        proof {
            old(self)@.game.lemma_advanced_keeps_names();
        }
        self.game.update();
    }

    /// Whether the server lets new connections in at present: it does while
    /// it waits for players, one connection per round of its loop.
    pub fn accepts_connections(&self) -> (r: bool)
        ensures
            r == (self.state == ServerState::WaitingForPlayers),
    {
        self.state == ServerState::WaitingForPlayers
    }

    /// Whether a round of the server's loop reads from the players'
    /// connections: always while the server runs, and while it waits as soon
    /// as a player is there.
    pub fn polls_players(&self) -> (r: bool)
        ensures
            r == (self.state == ServerState::Running || self@.game.players.len() > 0),
    {
        match self.state {
            ServerState::Running => true,
            ServerState::WaitingForPlayers => self.game.players.len() > 0,
        }
    }
}

} // verus!
