//! The game itself: snakes, players, the fruit and the match they make up,
//! and the copy of a match that one client looks at.

use crate::common::PLAYER_COUNT_MAX;
use crate::game::game_core::{GameCore, GameState, PlayerState};
use crate::game::rules::{GameCoreView, GameStateView, PlayerView};
use crate::names::same_name;
use vstd::prelude::*;
use vstd::string::StringExecFns;

pub mod fruit;
pub mod game_core;
pub mod laws;
pub mod rules;
pub mod snake;

verus! {

/// A client's copy of the match, and the name of the player who looks at it.
#[derive(Debug)]
pub struct GameLocal {
    pub game_core: GameCore,
    player_name: String,
}

/// A [`GameLocal`], as a value.
pub struct GameLocalView {
    pub game_core: GameCoreView,
    pub player_name: Seq<char>,
}

impl View for GameLocal {
    type V = GameLocalView;

    closed spec fn view(&self) -> GameLocalView {
        GameLocalView { game_core: self.game_core@, player_name: self.player_name@ }
    }
}

/// What is laid behind a banner.
#[derive(Clone, Copy, PartialEq, Eq, Structural, Debug)]
pub enum Backdrop {
    /// The lobby, and a paused match.
    Lobby,
    /// The match ended in a draw.
    Draw,
    /// The player who looks has won.
    Won,
    /// The other player has won.
    Lost,
}

/// What is shown over the field.
#[derive(Debug)]
pub enum Overlay {
    /// Nothing: the match is played.
    Nothing,
    /// The lobby: who is there and who is ready.
    Lobby { text: String },
    /// The end of a match: how it ended, and who is ready for the next.
    Finished { backdrop: Backdrop, status: String, players: String },
}

/// An [`Overlay`], as a value.
pub enum OverlayView {
    Nothing,
    Lobby { text: Seq<char> },
    Finished { backdrop: Backdrop, status: Seq<char>, players: Seq<char> },
}

impl View for Overlay {
    type V = OverlayView;

    open spec fn view(&self) -> OverlayView {
        match self {
            Overlay::Nothing => OverlayView::Nothing,
            Overlay::Lobby { text } => OverlayView::Lobby { text: text@ },
            Overlay::Finished { backdrop, status, players } => OverlayView::Finished {
                backdrop: *backdrop,
                status: status@,
                players: players@,
            },
        }
    }
}

/// The line that says whether `p` is ready.
pub open spec fn status_line(p: PlayerView) -> Seq<char> {
    "player "@ + p.name + ": "@ + (if p.state == PlayerState::NotReady {
        "not ready"@
    } else {
        "ready"@
    }) + "\n"@
}

/// One line per player, in name order.
pub open spec fn status_text(players: Seq<PlayerView>) -> Seq<char>
    decreases players.len(),
{
    if players.len() == 0 {
        Seq::empty()
    } else {
        status_text(players.drop_last()) + status_line(players.last())
    }
}

impl GameLocalView {
    /// What is shown over the field to the player who looks.
    ///
    /// Before the match and while it is paused: the list of players, under
    /// a notice for as long as a player is missing. After the match: how it
    /// ended, seen from this player, and the list of players. While the
    /// match is played: nothing.
    pub open spec fn overlay(self) -> OverlayView {
        match self.game_core.state {
            GameStateView::NotStarted | GameStateView::Paused => OverlayView::Lobby {
                text: (if self.game_core.players.len() != PLAYER_COUNT_MAX {
                    "Waiting for all players\n"@
                } else {
                    Seq::empty()
                }) + status_text(self.game_core.players),
            },
            GameStateView::Finished(details) => if details.draw {
                OverlayView::Finished {
                    backdrop: Backdrop::Draw,
                    status: "It's a draw!\n"@,
                    players: status_text(self.game_core.players),
                }
            } else if details.winner == self.player_name {
                OverlayView::Finished {
                    backdrop: Backdrop::Won,
                    status: "You win!\n"@,
                    players: status_text(self.game_core.players),
                }
            } else {
                OverlayView::Finished {
                    backdrop: Backdrop::Lost,
                    status: "Player "@ + details.winner + " won!\n"@,
                    players: status_text(self.game_core.players),
                }
            },
            GameStateView::Playing => OverlayView::Nothing,
        }
    }
}

impl GameLocal {
    /// A lobby with the one player called `player_name` in it, not ready.
    pub fn new(player_name: &str) -> (g: Self)
        ensures
            g@.game_core == GameCoreView::new(false).with_player(player_name@),
            g@.player_name == player_name@,
            g@.game_core.wf(),
            g@.game_core.has_player(player_name@),
    {
        let mut game_core = GameCore::new(false);
        game_core.add_player(player_name);
        proof {
            GameCoreView::new(false).lemma_with_player(player_name@);
        }
        Self { game_core, player_name: player_name.to_owned() }
    }

    /// The name of the player who looks at this copy.
    pub fn player_name(&self) -> (name: &String)
        ensures
            name@ == self@.player_name,
    {
        &self.player_name
    }

    /// Replaces the copy of the match by `game_core`, whole.
    pub fn replace(&mut self, game_core: GameCore)
        ensures
            final(self)@.game_core == game_core@,
            final(self)@.player_name == old(self)@.player_name,
    {
        self.game_core = game_core;
    }

    /// Advances the copy by one tick, as [`GameCore::update`] does.
    pub fn update(&mut self)
        requires
            old(self)@.game_core.wf(),
        ensures
            final(self)@.player_name == old(self)@.player_name,
            old(self)@.game_core.ticks_to(final(self)@.game_core),
            final(self)@.game_core.wf(),
    {
        self.game_core.update();
    }

    /// Lets the player who looks act on the command `c`.
    pub fn handle_input(&mut self, c: char)
        requires
            old(self)@.game_core.wf(),
            old(self)@.game_core.has_player(old(self)@.player_name),
        ensures
            final(self)@.player_name == old(self)@.player_name,
            final(self)@.game_core == old(self)@.game_core.input_applied(
                old(self)@.player_name,
                c,
            ),
            final(self)@.game_core.wf(),
    {
        self.game_core.handle_input(self.player_name.as_str(), c);
    }

    /// One line per player, in name order, that says whether the player is ready.
    pub fn get_players_status_text(&self) -> (text: String)
        ensures
            text@ == status_text(self@.game_core.players),
    {
        let mut text = String::new();
        let n = self.game_core.players.len();
        let mut i: usize = 0;
        while i < n
            invariant
                i <= n,
                n == self.game_core.players@.len(),
                text@ == status_text(self@.game_core.players.take(i as int)),
            decreases n - i,
        {
            let player = &self.game_core.players[i];
            text.append("player ");
            text.append(player.name.as_str());
            text.append(": ");
            if player.state == PlayerState::NotReady {
                text.append("not ready");
            } else {
                text.append("ready");
            }
            text.append("\n");
            proof {
                let upto = self@.game_core.players.take(i + 1);
                assert(upto.drop_last() =~= self@.game_core.players.take(i as int));
            }
            i += 1;
        }
        assert(self@.game_core.players.take(n as int) =~= self@.game_core.players);
        text
    }

    /// What is to be shown over the field.
    pub fn draw(&self) -> (r: Overlay)
        ensures
            r@ == self@.overlay(),
    {
        match &self.game_core.state {
            GameState::NotStarted | GameState::Paused => {
                let mut text = String::new();
                if self.game_core.players.len() != PLAYER_COUNT_MAX {
                    text = String::from_str("Waiting for all players\n");
                }
                let status = self.get_players_status_text();
                text.append(status.as_str());
                Overlay::Lobby { text }
            },
            GameState::Finished(finish_details) => {
                let players = self.get_players_status_text();
                if finish_details.draw {
                    Overlay::Finished {
                        backdrop: Backdrop::Draw,
                        status: String::from_str("It's a draw!\n"),
                        players,
                    }
                } else if same_name(finish_details.winner.as_str(), self.player_name.as_str()) {
                    Overlay::Finished {
                        backdrop: Backdrop::Won,
                        status: String::from_str("You win!\n"),
                        players,
                    }
                } else {
                    let mut status = String::from_str("Player ");
                    status.append(finish_details.winner.as_str());
                    status.append(" won!\n");
                    Overlay::Finished { backdrop: Backdrop::Lost, status, players }
                }
            },
            GameState::Playing => Overlay::Nothing,
        }
    }
}

} // verus!
