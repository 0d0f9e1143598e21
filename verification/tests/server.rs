use snake_net::comms::CommError;
use snake_net::game::game_core::{GameState, PlayerState};
use snake_net::game::snake::Direction;
use snake_net::ifc::Message;
use snake_net::server::{connection_lost, Server, ServerState};

fn join(server: &mut Server, name: &str) -> snake_net::server::JoinReply {
    server.handle_connection(Message::JoinLobby(name.to_string()))
}

fn full_server() -> Server {
    let mut server = Server::new();
    join(&mut server, "bob");
    join(&mut server, "alice");
    server
}

#[test]
fn new_server_waits_with_an_empty_lobby() {
    let server = Server::new();
    assert_eq!(server.state, ServerState::WaitingForPlayers);
    assert!(server.game.players.is_empty());
    assert!(server.game.is_server);
    assert!(server.accepts_connections());
    assert!(!server.polls_players());
    assert!(server.is_valid());
}

#[test]
fn duplicate_join_is_refused() {
    let mut server = Server::new();
    let first = join(&mut server, "alice");
    assert!(matches!(first.response, Message::Okay));
    assert_eq!(first.admitted, Some("alice".to_string()));
    assert_eq!(server.state, ServerState::WaitingForPlayers);
    assert!(server.accepts_connections());
    assert!(server.polls_players());

    let second = join(&mut server, "alice");
    assert!(matches!(
        &second.response,
        Message::Nok(reason) if reason == "Player 'alice' is already added"
    ));
    assert_eq!(second.admitted, None);
    assert_eq!(server.game.players.len(), 1);
    assert_eq!(server.game.players[0].name, "alice");
    assert_eq!(server.state, ServerState::WaitingForPlayers);
}

#[test]
fn any_other_first_message_is_refused() {
    let mut server = Server::new();
    for msg in [
        Message::Okay,
        Message::Nok("no".to_string()),
        Message::SendInput('w'),
        Message::GameUpdate(snake_net::game::game_core::GameCore::new(false)),
    ] {
        let reply = server.handle_connection(msg);
        assert!(matches!(
            &reply.response,
            Message::Nok(reason) if reason == "Invalid message, expected join lobby"
        ));
        assert_eq!(reply.admitted, None);
    }
    assert!(server.game.players.is_empty());
    assert_eq!(server.state, ServerState::WaitingForPlayers);
}

#[test]
fn server_runs_once_two_players_have_joined() {
    let mut server = Server::new();
    join(&mut server, "bob");
    assert_eq!(server.state, ServerState::WaitingForPlayers);
    let reply = join(&mut server, "alice");
    assert!(matches!(reply.response, Message::Okay));
    assert_eq!(server.state, ServerState::Running);
    assert!(!server.accepts_connections());
    assert!(server.polls_players());
    assert!(server.is_valid());
    assert_eq!(server.game.players[0].name, "alice");
    assert_eq!(server.game.players[1].name, "bob");
    assert_eq!(server.game.players[0].state, PlayerState::NotReady);
}

#[test]
fn disconnect_returns_everyone_to_the_lobby() {
    let mut server = full_server();
    server.receive_messages("alice", Ok(Message::SendInput('\r')));
    server.receive_messages("bob", Ok(Message::SendInput('\r')));
    server.update();
    assert!(matches!(server.game.state, GameState::Playing));
    server.remove_player("bob");
    assert_eq!(server.state, ServerState::WaitingForPlayers);
    assert!(matches!(server.game.state, GameState::NotStarted));
    assert!(server.game.snakes.is_empty());
    assert_eq!(server.game.players.len(), 1);
    assert_eq!(server.game.players[0].name, "alice");

    let reply = join(&mut server, "bob");
    assert!(matches!(reply.response, Message::Okay));
    assert_eq!(server.state, ServerState::Running);
}

#[test]
fn input_is_applied_and_other_messages_are_ignored() {
    let mut server = full_server();
    assert!(!server.receive_messages("alice", Ok(Message::SendInput('\r'))));
    assert_eq!(server.game.players[0].state, PlayerState::Ready);
    assert!(!server.receive_messages("alice", Ok(Message::Okay)));
    assert!(!server.receive_messages("alice", Ok(Message::JoinLobby("carol".to_string()))));
    assert_eq!(server.game.players.len(), 2);
    assert!(!server.receive_messages("bob", Ok(Message::SendInput('\r'))));
    server.update();
    assert!(matches!(server.game.state, GameState::Playing));
    assert!(!server.receive_messages("bob", Ok(Message::SendInput('s'))));
    assert_eq!(server.game.snakes[1].snake.direction(), Direction::Down);
    assert_eq!(server.game.snakes[0].snake.direction(), Direction::Left);
}

#[test]
fn only_would_block_keeps_a_connection() {
    let mut server = full_server();
    assert!(!server.receive_messages("alice", Err(CommError::WouldBlock)));
    assert!(server.receive_messages("alice", Err(CommError::Disconnected)));
    assert!(server.receive_messages("alice", Err(CommError::Unknown)));
    assert!(server.receive_messages("alice", Err(CommError::InvalidData)));
    assert!(server.receive_messages("alice", Err(CommError::WaitingForMoreData)));
    assert_eq!(server.game.players.len(), 2);
    assert_eq!(server.state, ServerState::Running);

    assert!(!connection_lost(&CommError::WouldBlock));
    assert!(connection_lost(&CommError::Disconnected));
    assert!(connection_lost(&CommError::Unknown));
    assert!(connection_lost(&CommError::InvalidData));
    assert!(connection_lost(&CommError::WaitingForMoreData));
}

#[test]
fn update_message_is_a_copy_of_the_match() {
    let mut server = full_server();
    server.receive_messages("alice", Ok(Message::SendInput('\r')));
    match server.send_update() {
        Message::GameUpdate(copy) => {
            assert!(matches!(copy.state, GameState::NotStarted));
            assert_eq!(copy.players.len(), 2);
            assert_eq!(copy.players[0].name, "alice");
            assert_eq!(copy.players[0].state, PlayerState::Ready);
            assert_eq!(copy.players[1].state, PlayerState::NotReady);
            assert!(copy.is_server);
        },
        _ => panic!("not an update"),
    }
}

#[test]
fn server_tick_places_the_fruit() {
    let mut server = full_server();
    server.receive_messages("alice", Ok(Message::SendInput('\r')));
    server.receive_messages("bob", Ok(Message::SendInput('\r')));
    server.update();
    server.update();
    assert!(server.game.fruit_pos.is_some());
    assert_eq!(server.state, ServerState::Running);
}
