use battleships::board::{FireResult, MyBoard};
use battleships::session::{Action, Event, Session, TurnState};
use battleships::wire::ProtocolError;

/// A click in the middle of the cell.
fn click_on(row: usize, col: usize) -> Event {
    Event::Click { x: col * 50 + 25, y: row * 50 + 25 }
}

fn board_with_ship_at(row: usize, col: usize) -> MyBoard {
    let mut squares = [[false; 10]; 10];
    squares[row][col] = true;
    MyBoard { squares }
}

/// Plays one shot of `shooter` at `target` through to its answer.
fn exchange(shooter: &mut Session, target: &mut Session, row: usize, col: usize) -> [u8; 2] {
    let shot = match shooter.step(click_on(row, col)) {
        Action::SendShot(bytes) => bytes,
        other => panic!("no shot was sent: {:?}", other),
    };
    let answer = match target.step(Event::PeerShot(shot)) {
        Action::SendResult(bytes) => bytes,
        other => panic!("no answer was sent: {:?}", other),
    };
    assert_eq!(shooter.step(Event::PeerResult(answer)), Action::Nothing);
    answer
}

#[test]
fn starting_player_may_fire_and_the_other_waits() {
    let first = Session::new(true);
    assert_eq!(first.state(), TurnState::LocalPlayerMayFire);
    assert_eq!(first.pending(), None);
    assert_eq!(first.failure(), None);
    let second = Session::new(false);
    assert_eq!(second.state(), TurnState::WaitingForOpponentShot);
    assert_eq!(second.pending(), None);
    assert_eq!(second.failure(), None);
}

#[test]
fn new_session_has_the_fleet_an_unknown_opponent_and_no_bombs() {
    let session = Session::new(true);
    assert_eq!(*session.board(), MyBoard::fleet());
    for row in 0..10 {
        for col in 0..10 {
            assert_eq!(session.opponent_view().squares[row][col], FireResult::Unknown);
        }
    }
    assert_eq!(session.incoming().bombs, vec![]);
    let board = board_with_ship_at(4, 5);
    let session = Session::with_board(board, false);
    assert_eq!(*session.board(), board);
}

#[test]
fn client_hits_the_ship_at_three_three() {
    let mut server = Session::with_board(board_with_ship_at(3, 3), true);
    let mut client = Session::new(false);
    // The server opens the game, after which the client holds the turn.
    exchange(&mut server, &mut client, 0, 0);
    assert_eq!(client.state(), TurnState::LocalPlayerMayFire);

    assert_eq!(client.step(click_on(3, 3)), Action::SendShot(*b"3,3\n"));
    assert_eq!(server.step(Event::PeerShot(*b"3,3\n")), Action::SendResult(*b"h\n"));
    assert_eq!(client.step(Event::PeerResult(*b"h\n")), Action::Nothing);
    assert_eq!(client.opponent_view().squares[3][3], FireResult::Hit);
    assert_eq!(client.state(), TurnState::WaitingForOpponentShot);
    assert_eq!(server.state(), TurnState::LocalPlayerMayFire);
    assert_eq!(server.incoming().bombs, vec![(3, 3)]);
}

#[test]
fn server_misses_at_zero_zero() {
    let mut server = Session::new(true);
    let mut squares = [[true; 10]; 10];
    squares[0][0] = false;
    let mut client = Session::with_board(MyBoard { squares }, false);
    assert_eq!(server.state(), TurnState::LocalPlayerMayFire);

    assert_eq!(server.step(click_on(0, 0)), Action::SendShot(*b"0,0\n"));
    assert_eq!(client.step(Event::PeerShot(*b"0,0\n")), Action::SendResult(*b"m\n"));
    assert_eq!(server.step(Event::PeerResult(*b"m\n")), Action::Nothing);
    assert_eq!(server.opponent_view().squares[0][0], FireResult::Miss);
    assert_eq!(client.incoming().bombs, vec![(0, 0)]);
    assert_eq!(server.state(), TurnState::WaitingForOpponentShot);
    assert_eq!(client.state(), TurnState::LocalPlayerMayFire);
}

#[test]
fn shot_is_answered_from_the_fixed_layout() {
    let mut session = Session::new(false);
    assert_eq!(session.step(Event::PeerShot(*b"2,3\n")), Action::SendResult(*b"h\n"));
    let mut session = Session::new(false);
    assert_eq!(session.step(Event::PeerShot(*b"3,3\n")), Action::SendResult(*b"m\n"));
    let mut session = Session::new(false);
    assert_eq!(session.step(Event::PeerShot(*b"7,1\n")), Action::SendResult(*b"h\n"));
    let mut session = Session::new(false);
    assert_eq!(session.step(Event::PeerShot(*b"1,7\n")), Action::SendResult(*b"m\n"));
}

#[test]
fn no_shot_is_taken_before_one_shot_and_one_result() {
    let mut session = Session::new(true);
    // Before anything was sent.
    assert_eq!(session.step(Event::PeerShot(*b"2,3\n")), Action::Nothing);
    assert_eq!(session.state(), TurnState::LocalPlayerMayFire);
    assert_eq!(session.incoming().bombs, vec![]);
    // After the shot was sent, before its result.
    assert_eq!(session.step(click_on(5, 5)), Action::SendShot(*b"5,5\n"));
    assert_eq!(session.pending(), Some((5, 5)));
    assert_eq!(session.step(Event::PeerShot(*b"2,3\n")), Action::Nothing);
    assert_eq!(session.state(), TurnState::LocalPlayerMayFire);
    assert_eq!(session.incoming().bombs, vec![]);
    // A second click sends no second shot.
    assert_eq!(session.step(click_on(6, 6)), Action::Nothing);
    assert_eq!(session.pending(), Some((5, 5)));
    // After the result the opponent's shot is taken.
    assert_eq!(session.step(Event::PeerResult(*b"m\n")), Action::Nothing);
    assert_eq!(session.state(), TurnState::WaitingForOpponentShot);
    assert_eq!(session.pending(), None);
    assert_eq!(session.step(Event::PeerShot(*b"2,3\n")), Action::SendResult(*b"h\n"));
    assert_eq!(session.incoming().bombs, vec![(2, 3)]);
}

#[test]
fn result_without_a_shot_in_flight_is_ignored() {
    let mut session = Session::new(true);
    assert_eq!(session.step(Event::PeerResult(*b"h\n")), Action::Nothing);
    assert_eq!(session.step(Event::PeerResult(*b"??")), Action::Nothing);
    assert_eq!(session.state(), TurnState::LocalPlayerMayFire);
    assert_eq!(session.failure(), None);
    let mut session = Session::new(false);
    assert_eq!(session.step(Event::PeerResult(*b"h\n")), Action::Nothing);
    assert_eq!(session.step(Event::PeerResult(*b"??")), Action::Nothing);
    assert_eq!(session.state(), TurnState::WaitingForOpponentShot);
    assert_eq!(session.failure(), None);
    assert_eq!(*session.opponent_view(), *Session::new(false).opponent_view());
}

#[test]
fn turn_alternates_over_several_rounds() {
    let mut server = Session::new(true);
    let mut client = Session::new(false);
    for round in 0..5 {
        assert_eq!(server.state(), TurnState::LocalPlayerMayFire);
        assert_eq!(client.state(), TurnState::WaitingForOpponentShot);
        exchange(&mut server, &mut client, round, round);
        assert_eq!(server.state(), TurnState::WaitingForOpponentShot);
        assert_eq!(client.state(), TurnState::LocalPlayerMayFire);
        exchange(&mut client, &mut server, 9 - round, round);
    }
    assert_eq!(client.incoming().bombs, vec![(0, 0), (1, 1), (2, 2), (3, 3), (4, 4)]);
    assert_eq!(server.incoming().bombs, vec![(9, 0), (8, 1), (7, 2), (6, 3), (5, 4)]);
}

#[test]
fn firing_again_overwrites_the_cell() {
    let mut shooter = Session::new(true);
    let mut hit_first = Session::with_board(board_with_ship_at(3, 3), false);
    assert_eq!(exchange(&mut shooter, &mut hit_first, 3, 3), *b"h\n");
    assert_eq!(shooter.opponent_view().squares[3][3], FireResult::Hit);
    // The opponent takes its turn, then the same cell is fired at again and
    // this time reported as a miss.
    assert_eq!(shooter.step(Event::PeerShot(*b"0,0\n")), Action::SendResult(*b"m\n"));
    assert_eq!(shooter.step(click_on(3, 3)), Action::SendShot(*b"3,3\n"));
    assert_eq!(shooter.step(Event::PeerResult(*b"m\n")), Action::Nothing);
    assert_eq!(shooter.opponent_view().squares[3][3], FireResult::Miss);
    // No other cell has changed.
    for row in 0..10 {
        for col in 0..10 {
            if (row, col) != (3, 3) {
                assert_eq!(shooter.opponent_view().squares[row][col], FireResult::Unknown);
            }
        }
    }
}

#[test]
fn resolved_cell_never_goes_back_to_unknown() {
    let mut shooter = Session::new(true);
    let mut target = Session::new(false);
    exchange(&mut shooter, &mut target, 2, 3);
    assert_eq!(shooter.opponent_view().squares[2][3], FireResult::Hit);
    exchange(&mut target, &mut shooter, 1, 1);
    // A malformed answer to a second shot at the cell ends the session and
    // leaves the cell as it was.
    assert_eq!(shooter.step(click_on(2, 3)), Action::SendShot(*b"2,3\n"));
    assert_eq!(shooter.step(Event::PeerResult(*b"?\n")), Action::Close);
    assert_eq!(shooter.opponent_view().squares[2][3], FireResult::Hit);
    assert_eq!(shooter.step(Event::PeerResult(*b"m\n")), Action::Nothing);
    assert_eq!(shooter.opponent_view().squares[2][3], FireResult::Hit);
}

#[test]
fn click_off_the_grid_is_ignored() {
    let mut session = Session::new(true);
    assert_eq!(session.step(Event::Click { x: 500, y: 10 }), Action::Nothing);
    assert_eq!(session.step(Event::Click { x: 10, y: 500 }), Action::Nothing);
    assert_eq!(session.step(Event::Click { x: usize::MAX, y: usize::MAX }), Action::Nothing);
    assert_eq!(session.state(), TurnState::LocalPlayerMayFire);
    assert_eq!(session.pending(), None);
    assert_eq!(session.failure(), None);
    // The next click on the grid still fires.
    assert_eq!(session.step(Event::Click { x: 499, y: 0 }), Action::SendShot(*b"0,9\n"));
}

#[test]
fn click_while_waiting_is_ignored() {
    let mut session = Session::new(false);
    assert_eq!(session.step(click_on(3, 3)), Action::Nothing);
    assert_eq!(session.state(), TurnState::WaitingForOpponentShot);
    assert_eq!(session.pending(), None);
    assert_eq!(*session.opponent_view(), *Session::new(false).opponent_view());
}

#[test]
fn click_is_mapped_to_row_from_y_and_column_from_x() {
    let mut session = Session::new(true);
    assert_eq!(session.step(Event::Click { x: 120, y: 380 }), Action::SendShot(*b"7,2\n"));
    assert_eq!(session.pending(), Some((7, 2)));
}

#[test]
fn quit_ends_the_session_from_every_state() {
    let mut session = Session::new(true);
    assert_eq!(session.step(Event::Quit), Action::Close);
    assert_eq!(session.state(), TurnState::Terminated);
    assert_eq!(session.failure(), None);

    let mut session = Session::new(false);
    assert_eq!(session.step(Event::Quit), Action::Close);
    assert_eq!(session.state(), TurnState::Terminated);
    assert_eq!(session.failure(), None);

    let mut session = Session::new(true);
    assert_eq!(session.step(click_on(1, 1)), Action::SendShot(*b"1,1\n"));
    assert_eq!(session.step(Event::Quit), Action::Close);
    assert_eq!(session.state(), TurnState::Terminated);
    assert_eq!(session.pending(), None);
    assert_eq!(session.failure(), None);
}

#[test]
fn ended_session_ignores_everything() {
    let mut session = Session::new(true);
    assert_eq!(session.step(Event::Quit), Action::Close);
    assert_eq!(session.step(Event::Quit), Action::Nothing);
    assert_eq!(session.step(click_on(3, 3)), Action::Nothing);
    assert_eq!(session.step(Event::PeerShot(*b"3,3\n")), Action::Nothing);
    assert_eq!(session.step(Event::PeerResult(*b"h\n")), Action::Nothing);
    assert_eq!(session.state(), TurnState::Terminated);
    assert_eq!(session.pending(), None);
    assert_eq!(session.incoming().bombs, vec![]);
    assert_eq!(*session.opponent_view(), *Session::new(true).opponent_view());
}

#[test]
fn malformed_shot_ends_the_session_with_its_cause() {
    let mut session = Session::new(false);
    assert_eq!(session.step(Event::PeerShot(*b"a,3\n")), Action::Close);
    assert_eq!(session.state(), TurnState::Terminated);
    assert_eq!(session.failure(), Some(ProtocolError::MalformedShot));
    assert_eq!(session.incoming().bombs, vec![]);

    let mut session = Session::new(false);
    assert_eq!(session.step(Event::PeerShot(*b"3;3\n")), Action::Close);
    assert_eq!(session.failure(), Some(ProtocolError::MalformedShot));

    let mut session = Session::new(false);
    assert_eq!(session.step(Event::PeerShot([0; 4])), Action::Close);
    assert_eq!(session.failure(), Some(ProtocolError::MalformedShot));
}

#[test]
fn malformed_result_ends_the_session_with_its_cause() {
    let mut session = Session::new(true);
    assert_eq!(session.step(click_on(4, 4)), Action::SendShot(*b"4,4\n"));
    assert_eq!(session.step(Event::PeerResult(*b"x\n")), Action::Close);
    assert_eq!(session.state(), TurnState::Terminated);
    assert_eq!(session.failure(), Some(ProtocolError::MalformedResult));
    assert_eq!(session.pending(), None);
    assert_eq!(session.opponent_view().squares[4][4], FireResult::Unknown);

    let mut session = Session::new(true);
    assert_eq!(session.step(click_on(4, 4)), Action::SendShot(*b"4,4\n"));
    assert_eq!(session.step(Event::PeerResult([0; 2])), Action::Close);
    assert_eq!(session.failure(), Some(ProtocolError::MalformedResult));
}

#[test]
fn own_board_never_changes() {
    let mut server = Session::new(true);
    let mut client = Session::new(false);
    for round in 0..10 {
        exchange(&mut server, &mut client, round, 6);
        exchange(&mut client, &mut server, 2, round);
    }
    assert_eq!(*server.board(), MyBoard::fleet());
    assert_eq!(*client.board(), MyBoard::fleet());
    let hits = (0..10).filter(|&row| server.opponent_view().squares[row][6] == FireResult::Hit);
    assert_eq!(hits.collect::<Vec<usize>>(), vec![5, 6, 7, 8]);
    let hits = (0..10).filter(|&col| client.opponent_view().squares[2][col] == FireResult::Hit);
    assert_eq!(hits.collect::<Vec<usize>>(), vec![3, 4, 5, 8]);
}

#[test]
fn session_is_drawn_from_its_three_parts() {
    let mut server = Session::new(true);
    let mut client = Session::new(false);
    exchange(&mut server, &mut client, 2, 3);
    exchange(&mut client, &mut server, 9, 9);
    assert_eq!(server.board().render(), MyBoard::fleet().render());
    let theirs = server.opponent_view().render();
    assert_eq!(theirs.paths.len(), 100);
    assert_eq!(theirs.paths[23].colour, battleships::model::Colour::HitYellow);
    let bombs = server.incoming().render();
    assert_eq!(bombs.paths.len(), 1);
    assert_eq!(bombs.paths[0].points[0].x, 450);
    assert_eq!(bombs.paths[0].points[0].y, 450);
    assert_eq!(bombs.paths[0].points[0].curve_bias, 50);
}
