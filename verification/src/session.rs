//! The turn-taking state machine of one game session.
//!
//! A session never touches the network or the screen itself. Whoever drives it
//! hands it one [`Event`] at a time (a click, the bytes just read from the
//! peer, the request to quit) and carries out the [`Action`] that comes back.
//! What a step does is defined on the mathematical model of a session,
//! [`SessionView`], and [`Session::step`] is proved to follow it.

use vstd::prelude::*;
use crate::SIZE;
use crate::board::{Bombs, FireResult, MyBoard, TheirBoard};
use crate::model::{cell_at, cell_under};
use crate::wire::{
    decode_result, decode_shot, encode_result, parse_result, parse_shot, result_message,
    shot_bytes, shot_message, ProtocolError,
};

verus! {

/// Whose move it is.
#[derive(Clone, Copy, PartialEq, Eq, Debug, Structural)]
pub enum TurnState {
    /// The opponent holds the turn: the next message on the wire is its shot.
    WaitingForOpponentShot,
    /// The local player holds the turn, from the moment it may pick a cell
    /// until the opponent's answer to its shot has arrived.
    LocalPlayerMayFire,
    /// The session is over and ignores every further event.
    Terminated,
}

/// What happened outside the session.
#[derive(Clone, Copy, PartialEq, Eq, Debug)]
pub enum Event {
    /// The player asked to close the game.
    Quit,
    /// The player clicked at the point `x`, `y`, in drawing units from the
    /// corner of the opponent's grid nearest the origin. The point may lie
    /// off the grid.
    Click { x: usize, y: usize },
    /// Four bytes arrived from the peer while its shot was awaited.
    PeerShot([u8; 4]),
    /// Two bytes arrived from the peer in answer to a shot.
    PeerResult([u8; 2]),
}

/// An [`Event`] with its bytes as a sequence.
pub enum EventView {
    Quit,
    Click { x: usize, y: usize },
    PeerShot(Seq<u8>),
    PeerResult(Seq<u8>),
}

impl View for Event {
    type V = EventView;

    open spec fn view(&self) -> EventView {
        match *self {
            Event::Quit => EventView::Quit,
            Event::Click { x, y } => EventView::Click { x, y },
            Event::PeerShot(bytes) => EventView::PeerShot(bytes@),
            Event::PeerResult(bytes) => EventView::PeerResult(bytes@),
        }
    }
}

/// What the driver of a session has to do after a step.
#[derive(Clone, Copy, PartialEq, Eq, Debug)]
pub enum Action {
    /// Nothing: the event changed nothing that concerns the peer.
    Nothing,
    /// Write this Shot message to the peer, then read its two-byte answer and
    /// hand it back as [`Event::PeerResult`].
    SendShot([u8; 4]),
    /// Write this Result message to the peer.
    SendResult([u8; 2]),
    /// Close the connection: the session has ended.
    Close,
}

/// An [`Action`] with its bytes as a sequence.
pub enum ActionView {
    Nothing,
    SendShot(Seq<u8>),
    SendResult(Seq<u8>),
    Close,
}

impl View for Action {
    type V = ActionView;

    open spec fn view(&self) -> ActionView {
        match *self {
            Action::Nothing => ActionView::Nothing,
            Action::SendShot(bytes) => ActionView::SendShot(bytes@),
            Action::SendResult(bytes) => ActionView::SendResult(bytes@),
            Action::Close => ActionView::Close,
        }
    }
}

/// The mathematical model of a session.
#[verifier::ext_equal]
pub struct SessionView {
    /// The local player's ships, row by row.
    pub board: Seq<Seq<bool>>,
    /// What is known of the opponent's board, row by row.
    pub theirs: Seq<Seq<FireResult>>,
    /// The cells that the opponent has fired at, oldest first.
    pub incoming: Seq<(usize, usize)>,
    /// Whose move it is.
    pub state: TurnState,
    /// The cell of the shot that was sent and is not answered yet.
    pub pending: Option<(usize, usize)>,
    /// Why the session ended, where a malformed message ended it.
    pub failure: Option<ProtocolError>,
}

/// Whether `grid` has `SIZE` rows of `SIZE` cells.
pub open spec fn is_grid<T>(grid: Seq<Seq<T>>) -> bool {
    &&& grid.len() == SIZE
    &&& forall|row: int| 0 <= row < SIZE ==> (#[trigger] grid[row]).len() == SIZE
}

impl SessionView {
    /// What holds of every session: both grids are full size, every logged
    /// shot lies on the board, a shot is in flight only while the local player
    /// holds the turn, and only an ended session has a cause of failure.
    pub open spec fn wf(self) -> bool {
        &&& is_grid(self.board)
        &&& is_grid(self.theirs)
        &&& forall|k: int|
            0 <= k < self.incoming.len() ==> (#[trigger] self.incoming[k]).0 < SIZE
                && self.incoming[k].1 < SIZE
        &&& self.pending matches Some((row, col)) ==> self.state == TurnState::LocalPlayerMayFire
            && row < SIZE && col < SIZE
        &&& self.failure is Some ==> self.state == TurnState::Terminated
    }

    /// A session that has just begun on `board`: nothing is known of the
    /// opponent, no shot has come in, and the starting player holds the turn.
    pub open spec fn initial(board: Seq<Seq<bool>>, starting: bool) -> SessionView {
        SessionView {
            board,
            theirs: TheirBoard::unexplored(),
            incoming: Seq::empty(),
            state: if starting {
                TurnState::LocalPlayerMayFire
            } else {
                TurnState::WaitingForOpponentShot
            },
            pending: None,
            failure: None,
        }
    }

    /// Whether the local player may pick a cell: it holds the turn and no
    /// shot of its own is in flight.
    pub open spec fn may_fire(self) -> bool {
        self.state == TurnState::LocalPlayerMayFire && self.pending is None
    }

    /// The cell that a click at `x`, `y` fires at, if it fires at all: the
    /// local player may fire and the point lies in a cell of the grid.
    pub open spec fn target(self, x: usize, y: usize) -> Option<(usize, usize)> {
        if self.may_fire() {
            cell_under(x, y)
        } else {
            None
        }
    }

    /// The session after it ended, with the malformed message that ended it,
    /// if one did.
    pub open spec fn ended(self, cause: Option<ProtocolError>) -> SessionView {
        SessionView { state: TurnState::Terminated, pending: None, failure: cause, ..self }
    }

    /// The session after a shot at `row`, `col` has been sent.
    pub open spec fn fired(self, row: usize, col: usize) -> SessionView {
        SessionView { pending: Some((row, col)), ..self }
    }

    /// The session after the opponent answered the shot at `row`, `col`: the
    /// cell shows the outcome, whatever it showed before, and the turn passes
    /// to the opponent.
    pub open spec fn resolved(self, row: usize, col: usize, outcome: FireResult) -> SessionView {
        SessionView {
            theirs: self.theirs.update(
                row as int,
                self.theirs[row as int].update(col as int, outcome),
            ),
            pending: None,
            state: TurnState::WaitingForOpponentShot,
            ..self
        }
    }

    /// The session after the opponent's shot at `row`, `col` was answered: the
    /// shot is logged and the turn passes to the local player.
    pub open spec fn answered(self, row: usize, col: usize) -> SessionView {
        SessionView {
            incoming: self.incoming.push((row, col)),
            state: TurnState::LocalPlayerMayFire,
            ..self
        }
    }

    /// The session after `event`.
    pub open spec fn step(self, event: EventView) -> SessionView {
        if self.state == TurnState::Terminated {
            self
        } else {
            match event {
                EventView::Quit => self.ended(None),
                EventView::Click { x, y } => match self.target(x, y) {
                    Some((row, col)) => self.fired(row, col),
                    None => self,
                },
                EventView::PeerShot(bytes) => if self.state == TurnState::WaitingForOpponentShot {
                    match parse_shot(bytes) {
                        Some((row, col)) => self.answered(row, col),
                        None => self.ended(Some(ProtocolError::MalformedShot)),
                    }
                } else {
                    self
                },
                EventView::PeerResult(bytes) => match self.pending {
                    Some((row, col)) => match parse_result(bytes) {
                        Some(outcome) => self.resolved(row, col, outcome),
                        None => self.ended(Some(ProtocolError::MalformedResult)),
                    },
                    None => self,
                },
            }
        }
    }

    /// What the driver has to do after `event`.
    pub open spec fn reply(self, event: EventView) -> ActionView {
        if self.state == TurnState::Terminated {
            ActionView::Nothing
        } else {
            match event {
                EventView::Quit => ActionView::Close,
                EventView::Click { x, y } => match self.target(x, y) {
                    Some((row, col)) => ActionView::SendShot(shot_message(row as int, col as int)),
                    None => ActionView::Nothing,
                },
                EventView::PeerShot(bytes) => if self.state == TurnState::WaitingForOpponentShot {
                    match parse_shot(bytes) {
                        Some((row, col)) => ActionView::SendResult(
                            result_message(self.board[row as int][col as int]),
                        ),
                        None => ActionView::Close,
                    }
                } else {
                    ActionView::Nothing
                },
                EventView::PeerResult(bytes) => match self.pending {
                    Some(_) => match parse_result(bytes) {
                        Some(_) => ActionView::Nothing,
                        None => ActionView::Close,
                    },
                    None => ActionView::Nothing,
                },
            }
        }
    }
}

/// One player's side of a game: its own board, what it knows of the
/// opponent's, the shots it has taken, and whose move it is.
pub struct Session {
    mine: MyBoard,
    theirs: TheirBoard,
    bombs: Bombs,
    state: TurnState,
    pending: Option<(usize, usize)>,
    failure: Option<ProtocolError>,
}

impl View for Session {
    type V = SessionView;

    closed spec fn view(&self) -> SessionView {
        SessionView {
            board: self.mine@,
            theirs: self.theirs@,
            incoming: self.bombs@,
            state: self.state,
            pending: self.pending,
            failure: self.failure,
        }
    }
}

impl Session {
    #[verifier::type_invariant]
    spec fn inv(self) -> bool {
        self@.wf()
    }

    /// A session on the fixed ship layout. The starting player fires first;
    /// the other waits for its shot.
    pub fn new(starting: bool) -> (session: Session)
        ensures
            session@ == SessionView::initial(MyBoard::fleet_view(), starting),
            session@.wf(),
    {
        Session::with_board(MyBoard::fleet(), starting)
    }

    /// A session on the given ship layout.
    pub fn with_board(board: MyBoard, starting: bool) -> (session: Session)
        ensures
            session@ == SessionView::initial(board@, starting),
            session@.wf(),
    {
        Session {
            mine: board,
            theirs: TheirBoard::new(),
            bombs: Bombs::new(),
            state: if starting {
                TurnState::LocalPlayerMayFire
            } else {
                TurnState::WaitingForOpponentShot
            },
            pending: None,
            failure: None,
        }
    }

    /// Whose move it is.
    pub fn state(&self) -> (state: TurnState)
        ensures
            state == self@.state,
    {
        self.state
    }

    /// The malformed message that ended the session, if one did.
    pub fn failure(&self) -> (failure: Option<ProtocolError>)
        ensures
            failure == self@.failure,
    {
        self.failure
    }

    /// The cell of the shot that is waiting for its answer.
    pub fn pending(&self) -> (pending: Option<(usize, usize)>)
        ensures
            pending == self@.pending,
    {
        self.pending
    }

    /// The local player's own board.
    pub fn board(&self) -> (board: &MyBoard)
        ensures
            board@ == self@.board,
    {
        &self.mine
    }

    /// What is known of the opponent's board.
    pub fn opponent_view(&self) -> (theirs: &TheirBoard)
        ensures
            theirs@ == self@.theirs,
    {
        &self.theirs
    }

    /// The opponent's shots so far.
    pub fn incoming(&self) -> (bombs: &Bombs)
        ensures
            bombs@ == self@.incoming,
    {
        &self.bombs
    }

    /// Takes one event and says what to do about it.
    pub fn step(&mut self, event: Event) -> (action: Action)
        ensures
            final(self)@ == old(self)@.step(event@),
            action@ == old(self)@.reply(event@),
            final(self)@.wf(),
    {
        proof {
            use_type_invariant(&*self);
        }
        if self.state == TurnState::Terminated {
            return Action::Nothing;
        }
        match event {
            Event::Quit => {
                self.end(None);
                Action::Close
            },
            Event::Click { x, y } => {
                if self.state == TurnState::LocalPlayerMayFire && self.pending.is_none() {
                    match cell_at(x, y) {
                        Some((row, col)) => {
                            self.pending = Some((row, col));
                            Action::SendShot(shot_bytes(row, col))
                        },
                        None => Action::Nothing,
                    }
                } else {
                    Action::Nothing
                }
            },
            Event::PeerShot(bytes) => {
                if self.state == TurnState::WaitingForOpponentShot {
                    match decode_shot(&bytes) {
                        Ok((row, col)) => {
                            let message = encode_result(self.mine.squares[row][col]);
                            // `push` may unwind, and no field of a session may stay
                            // borrowed across such a call: the log is taken out,
                            // grown and put back.
                            let mut bombs = Bombs::new();
                            core::mem::swap(&mut self.bombs, &mut bombs);
                            bombs.push(row, col);
                            self.bombs = bombs;
                            self.state = TurnState::LocalPlayerMayFire;
                            Action::SendResult(message)
                        },
                        Err(cause) => {
                            self.end(Some(cause));
                            Action::Close
                        },
                    }
                } else {
                    Action::Nothing
                }
            },
            Event::PeerResult(bytes) => {
                match self.pending {
                    Some((row, col)) => match decode_result(&bytes) {
                        Ok(outcome) => {
                            self.pending = None;
                            self.theirs.squares[row][col] = outcome;
                            self.state = TurnState::WaitingForOpponentShot;
                            Action::Nothing
                        },
                        Err(cause) => {
                            self.end(Some(cause));
                            Action::Close
                        },
                    },
                    None => Action::Nothing,
                }
            },
        }
    }

    /// Ends the session.
    fn end(&mut self, cause: Option<ProtocolError>)
        requires
            old(self)@.wf(),
        ensures
            final(self)@ == old(self)@.ended(cause),
            final(self)@.wf(),
    {
        self.pending = None;
        self.state = TurnState::Terminated;
        self.failure = cause;
    }
}

} // verus!
