//! What holds of a session over a whole game, whatever events reach it.
//!
//! The theorems here speak of the model of a session, [`SessionView`], and of
//! [`SessionView::step`]. [`Session::step`](crate::session::Session::step) is
//! proved to follow that model, so they hold of every session that runs.

use vstd::prelude::*;
use crate::SIZE;
use crate::board::FireResult;
use crate::model::cell_under;
use crate::session::{ActionView, EventView, SessionView, TurnState};
use crate::wire::{parse_result, parse_shot, result_message, shot_message, ProtocolError};

verus! {

impl SessionView {
    /// Whether `event` completes a shot of the local player: a shot is in
    /// flight and the event is the opponent's well-formed answer to it.
    pub open spec fn completes_local_shot(self, event: EventView) -> bool {
        &&& self.state != TurnState::Terminated
        &&& self.pending is Some
        &&& event matches EventView::PeerResult(bytes)
        &&& parse_result(bytes) is Some
    }

    /// Whether `event` completes a shot of the opponent: the session waits
    /// for one and the event is a well-formed Shot message.
    pub open spec fn completes_opponent_shot(self, event: EventView) -> bool {
        &&& self.state == TurnState::WaitingForOpponentShot
        &&& event matches EventView::PeerShot(bytes)
        &&& parse_shot(bytes) is Some
    }

    /// The session after all of `events`, in their order.
    pub open spec fn run(self, events: Seq<EventView>) -> SessionView
        decreases events.len(),
    {
        if events.len() == 0 {
            self
        } else {
            self.run(events.drop_last()).step(events.last())
        }
    }

    /// How many Shot messages the session sends in the course of `events`.
    pub open spec fn shots_sent(self, events: Seq<EventView>) -> nat
        decreases events.len(),
    {
        if events.len() == 0 {
            0
        } else {
            let before = self.run(events.drop_last());
            let now: nat = if before.reply(events.last()) is SendShot {
                1
            } else {
                0
            };
            self.shots_sent(events.drop_last()) + now
        }
    }

    /// How many Result messages the session takes in the course of `events`,
    /// each in answer to a shot of its own.
    pub open spec fn results_received(self, events: Seq<EventView>) -> nat
        decreases events.len(),
    {
        if events.len() == 0 {
            0
        } else {
            let before = self.run(events.drop_last());
            let now: nat = if before.completes_local_shot(events.last()) {
                1
            } else {
                0
            };
            self.results_received(events.drop_last()) + now
        }
    }

    /// How many shots of the opponent the session takes and answers in the
    /// course of `events`.
    pub open spec fn shots_answered(self, events: Seq<EventView>) -> nat
        decreases events.len(),
    {
        if events.len() == 0 {
            0
        } else {
            let before = self.run(events.drop_last());
            let now: nat = if before.completes_opponent_shot(events.last()) {
                1
            } else {
                0
            };
            self.shots_answered(events.drop_last()) + now
        }
    }
}

/// One if the opponent holds the turn in `state`, else zero.
pub open spec fn opponent_to_move(state: TurnState) -> nat {
    if state == TurnState::WaitingForOpponentShot {
        1
    } else {
        0
    }
}

/// A step keeps a session well formed.
pub proof fn step_keeps_wf(session: SessionView, event: EventView)
    requires
        session.wf(),
    ensures
        session.step(event).wf(),
{
}

/// A shot of the opponent is answered when it is taken, with the Result
/// message that says whether a ship lies in its cell, and is logged last.
pub proof fn opponent_shot_is_answered(session: SessionView, bytes: Seq<u8>)
    requires
        session.wf(),
        session.completes_opponent_shot(EventView::PeerShot(bytes)),
    ensures
        ({
            let (row, col) = parse_shot(bytes).unwrap();
            &&& row < SIZE && col < SIZE
            &&& session.reply(EventView::PeerShot(bytes)) == ActionView::SendResult(
                result_message(session.board[row as int][col as int]),
            )
            &&& session.step(EventView::PeerShot(bytes)).incoming == session.incoming.push(
                (row, col),
            )
        }),
{
}

/// The turn passes when a shot is completed, and only then: to the opponent
/// after a shot of the local player, to the local player after a shot of the
/// opponent.
pub proof fn turn_passes_on_completed_shots(session: SessionView, event: EventView)
    requires
        session.wf(),
    ensures
        session.completes_local_shot(event) ==> session.state == TurnState::LocalPlayerMayFire
            && session.step(event).state == TurnState::WaitingForOpponentShot,
        session.completes_opponent_shot(event) ==> session.step(event).state
            == TurnState::LocalPlayerMayFire,
        session.step(event).state == TurnState::WaitingForOpponentShot ==> session.state
            == TurnState::WaitingForOpponentShot || session.completes_local_shot(event),
        session.step(event).state == TurnState::LocalPlayerMayFire ==> session.state
            == TurnState::LocalPlayerMayFire || session.completes_opponent_shot(event),
{
}

/// An ended session stays as it is and asks for nothing.
pub proof fn terminated_is_final(session: SessionView, event: EventView)
    requires
        session.state == TurnState::Terminated,
    ensures
        session.step(event) == session,
        session.reply(event) == ActionView::Nothing,
{
}

/// A step changes at most one cell of the opponent's grid, the cell of the
/// shot in flight, and what it writes there is a hit or a miss. So a cell
/// that shows an outcome never shows `Unknown` again.
pub proof fn outcomes_are_kept(session: SessionView, event: EventView, row: int, col: int)
    requires
        session.wf(),
        0 <= row < SIZE,
        0 <= col < SIZE,
    ensures
        session.step(event).theirs[row][col] != session.theirs[row][col] ==> {
            &&& session.completes_local_shot(event)
            &&& session.pending == Some((row as usize, col as usize))
            &&& session.step(event).theirs[row][col] != FireResult::Unknown
        },
        session.theirs[row][col] != FireResult::Unknown ==> session.step(event).theirs[row][col]
            != FireResult::Unknown,
{
}

/// Firing again at a cell is allowed, and the new outcome replaces the old:
/// whatever the cell of the shot in flight showed, after the opponent's
/// answer it shows what the answer says, and no other cell has changed.
pub proof fn answer_overwrites_cell(session: SessionView, bytes: Seq<u8>, row: int, col: int)
    requires
        session.wf(),
        session.completes_local_shot(EventView::PeerResult(bytes)),
        0 <= row < SIZE,
        0 <= col < SIZE,
    ensures
        session.step(EventView::PeerResult(bytes)).theirs[row][col] == if session.pending == Some(
            (row as usize, col as usize),
        ) {
            parse_result(bytes).unwrap()
        } else {
            session.theirs[row][col]
        },
{
}

/// Whether a click fires does not depend on what the grid shows: while the
/// local player may fire, a click on any cell of the grid sends a shot at
/// that cell, also where an outcome is already known.
pub proof fn any_cell_may_be_fired_at(session: SessionView, x: usize, y: usize)
    requires
        session.may_fire(),
        cell_under(x, y) is Some,
    ensures
        ({
            let (row, col) = cell_under(x, y).unwrap();
            &&& session.reply(EventView::Click { x, y }) == ActionView::SendShot(
                shot_message(row as int, col as int),
            )
            &&& session.step(EventView::Click { x, y }).pending == Some((row, col))
        }),
{
}

/// A click that cannot fire is ignored: off the grid, or while the local
/// player may not fire, it changes nothing and asks for nothing.
pub proof fn stray_click_is_ignored(session: SessionView, x: usize, y: usize)
    requires
        !session.may_fire() || cell_under(x, y) is None,
    ensures
        session.step(EventView::Click { x, y }) == session,
        session.reply(EventView::Click { x, y }) == ActionView::Nothing,
{
}

/// A message that the session does not wait for is ignored: a Shot message
/// while the opponent does not hold the turn, a Result message while no shot
/// is in flight.
pub proof fn stray_message_is_ignored(session: SessionView, bytes: Seq<u8>)
    ensures
        session.state != TurnState::WaitingForOpponentShot ==> session.step(
            EventView::PeerShot(bytes),
        ) == session && session.reply(EventView::PeerShot(bytes)) == ActionView::Nothing,
        session.pending is None ==> session.step(EventView::PeerResult(bytes)) == session
            && session.reply(EventView::PeerResult(bytes)) == ActionView::Nothing,
{
}

/// A message that is awaited and malformed ends the session, with the kind
/// of message as the cause; nothing else of the session changes.
pub proof fn malformed_message_ends_session(session: SessionView, bytes: Seq<u8>)
    ensures
        session.state == TurnState::WaitingForOpponentShot && parse_shot(bytes) is None ==> {
            &&& session.step(EventView::PeerShot(bytes)) == session.ended(
                Some(ProtocolError::MalformedShot),
            )
            &&& session.reply(EventView::PeerShot(bytes)) == ActionView::Close
        },
        session.state != TurnState::Terminated && session.pending is Some && parse_result(bytes)
            is None ==> {
            &&& session.step(EventView::PeerResult(bytes)) == session.ended(
                Some(ProtocolError::MalformedResult),
            )
            &&& session.reply(EventView::PeerResult(bytes)) == ActionView::Close
        },
{
}

/// A run keeps a session well formed, never touches the player's own board,
/// and only ever appends to the log of incoming shots.
pub proof fn run_keeps_wf(session: SessionView, events: Seq<EventView>)
    requires
        session.wf(),
    ensures
        session.run(events).wf(),
        session.run(events).board == session.board,
        session.incoming.is_prefix_of(session.run(events).incoming),
        session.run(events).incoming.len() == session.incoming.len() + session.shots_answered(
            events,
        ),
    decreases events.len(),
{
    if events.len() > 0 {
        run_keeps_wf(session, events.drop_last());
        step_keeps_wf(session.run(events.drop_last()), events.last());
    }
}

/// Once a cell of the opponent's grid shows an outcome, it shows one for the
/// rest of the game: a cell leaves `Unknown` at most once.
pub proof fn known_cells_stay_known(
    session: SessionView,
    events: Seq<EventView>,
    row: int,
    col: int,
)
    requires
        session.wf(),
        0 <= row < SIZE,
        0 <= col < SIZE,
        session.theirs[row][col] != FireResult::Unknown,
    ensures
        session.run(events).theirs[row][col] != FireResult::Unknown,
    decreases events.len(),
{
    if events.len() > 0 {
        known_cells_stay_known(session, events.drop_last(), row, col);
        run_keeps_wf(session, events.drop_last());
        outcomes_are_kept(session.run(events.drop_last()), events.last(), row, col);
    }
}

/// The turns alternate strictly. Over any run of a session that begins with
/// no shot in flight:
/// - every Shot message sent has been answered, but for the one in flight;
/// - the completed shots of the two players are equal in number while the
///   turn is where it was at the start, and the player who had the turn at
///   the start is one ahead while the turn is with the other.
/// An ended session is where it was when it ended.
pub proof fn turns_alternate(session: SessionView, events: Seq<EventView>)
    requires
        session.wf(),
        session.pending is None,
        session.state != TurnState::Terminated,
    ensures
        ({
            let end = session.run(events);
            let sent = session.shots_sent(events);
            let received = session.results_received(events);
            let answered = session.shots_answered(events);
            &&& end.state != TurnState::Terminated ==> {
                &&& sent == received + if end.pending is Some {
                    1nat
                } else {
                    0nat
                }
                &&& received + opponent_to_move(session.state) == answered + opponent_to_move(
                    end.state,
                )
            }
            &&& end.state == TurnState::Terminated ==> {
                &&& received <= sent <= received + 1
                &&& answered <= received + opponent_to_move(session.state) <= answered + 1
            }
        }),
    decreases events.len(),
{
    if events.len() > 0 {
        turns_alternate(session, events.drop_last());
        run_keeps_wf(session, events.drop_last());
    }
}

/// A session that starts with the turn takes no shot of the opponent before
/// it has sent exactly one Shot message and received exactly one Result
/// message. At no time has it taken more shots than it has received results,
/// nor received more results than it has sent shots; and when it waits for
/// the opponent's shot and has taken none yet, it has sent one shot and
/// received one result.
pub proof fn first_shot_is_ours(session: SessionView, events: Seq<EventView>)
    requires
        session.wf(),
        session.state == TurnState::LocalPlayerMayFire,
        session.pending is None,
    ensures
        session.shots_answered(events) <= session.results_received(events) <= session.shots_sent(
            events,
        ),
        session.run(events).state == TurnState::WaitingForOpponentShot && session.shots_answered(
            events,
        ) == 0 ==> session.shots_sent(events) == 1 && session.results_received(events) == 1,
{
    turns_alternate(session, events);
    run_keeps_wf(session, events);
}

/// One shot played through between two sessions, with every message
/// delivered as it was sent. The player who may fire clicks on a cell; the
/// Shot message reaches the player who waits, who answers with a hit exactly
/// if a ship lies in that cell and logs the shot; the answer reaches the
/// shooter, whose grid then shows it in that cell. Before the shot the turn
/// is with the shooter alone, after it with the other player alone.
pub proof fn exchange_passes_turn(shooter: SessionView, target: SessionView, x: usize, y: usize)
    requires
        shooter.wf(),
        target.wf(),
        shooter.may_fire(),
        target.state == TurnState::WaitingForOpponentShot,
        cell_under(x, y) is Some,
    ensures
        ({
            let (row, col) = cell_under(x, y).unwrap();
            let click = EventView::Click { x, y };
            let shot = shot_message(row as int, col as int);
            let hit = target.board[row as int][col as int];
            let answer = result_message(hit);
            let shooter_after = shooter.step(click).step(EventView::PeerResult(answer));
            let target_after = target.step(EventView::PeerShot(shot));
            &&& shooter.reply(click) == ActionView::SendShot(shot)
            &&& target.reply(EventView::PeerShot(shot)) == ActionView::SendResult(answer)
            &&& shooter.step(click).reply(EventView::PeerResult(answer)) == ActionView::Nothing
            &&& shooter_after.theirs[row as int][col as int] == if hit {
                FireResult::Hit
            } else {
                FireResult::Miss
            }
            &&& target_after.incoming == target.incoming.push((row, col))
            &&& shooter_after.state == TurnState::WaitingForOpponentShot
            &&& target_after.may_fire()
            &&& shooter_after.wf() && target_after.wf()
        }),
{
}

} // verus!
