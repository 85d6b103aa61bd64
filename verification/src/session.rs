//! The decisions of a match: aiming, firing, answering the opponent's shots,
//! chat, idle timeout, game over and rematch. The front end performs the I/O
//! (keyboard, network, drawing) and hands each event to these functions.

use vstd::prelude::*;

use crate::game::{
    chat_after, empty_grid, fleet, grid_hit_count, grid_view, kind_name, read_cell, total_size,
    write_cell, Board, Cell, GameState, Phase, Ship, ShipKind, GRID_SIZE, IDLE_TIMEOUT_SECS,
};
use crate::keys::{is_char, key_is, Key};
use crate::model::{
    cell_of, on_grid, set_cell, step_down, step_left, step_right, step_up, Pos, ShipView,
};
use crate::protocol::Message;
use crate::text::{coord_label, push_coord_label};

verus! {

// ---------------------------------------------------------------------------
// Aiming cursor
// ---------------------------------------------------------------------------

/// Tracks the aiming cursor position on the tracking board.
pub struct AimCursor {
    x: u8,
    y: u8,
}

impl View for AimCursor {
    type V = Pos;

    closed spec fn view(&self) -> Pos {
        (self.x, self.y)
    }
}

impl AimCursor {
    /// The cursor never leaves the grid.
    #[verifier::type_invariant]
    closed spec fn on_board(&self) -> bool {
        (self.x as int) < GRID_SIZE && (self.y as int) < GRID_SIZE
    }

    /// A cursor in the top-left corner.
    pub fn new() -> (c: AimCursor)
        ensures
            c@ == (0u8, 0u8),
    {
        AimCursor { x: 0, y: 0 }
    }

    pub fn move_up(&mut self)
        ensures
            final(self)@ == step_up(old(self)@),
    {
        proof {
            use_type_invariant(&*self);
        }
        if self.y > 0 {
            self.y = self.y - 1;
        }
    }

    pub fn move_down(&mut self)
        ensures
            final(self)@ == step_down(old(self)@),
    {
        proof {
            use_type_invariant(&*self);
        }
        if self.y < (GRID_SIZE as u8 - 1) {
            self.y = self.y + 1;
        }
    }

    pub fn move_left(&mut self)
        ensures
            final(self)@ == step_left(old(self)@),
    {
        proof {
            use_type_invariant(&*self);
        }
        if self.x > 0 {
            self.x = self.x - 1;
        }
    }

    pub fn move_right(&mut self)
        ensures
            final(self)@ == step_right(old(self)@),
    {
        proof {
            use_type_invariant(&*self);
        }
        if self.x < (GRID_SIZE as u8 - 1) {
            self.x = self.x + 1;
        }
    }

    /// The cursor position `(column, row)`, always on the grid.
    pub fn pos(&self) -> (r: (u8, u8))
        ensures
            r == self@,
            on_grid(r),
    {
        proof {
            use_type_invariant(self);
        }
        (self.x, self.y)
    }
}

// ---------------------------------------------------------------------------
// Keyboard input during play
// ---------------------------------------------------------------------------

/// What a key press asks the game loop to do.
#[derive(Debug, Clone, Copy, PartialEq, Eq, Structural)]
pub enum TurnCommand {
    /// Nothing beyond what the key already did (a cursor move, or nothing).
    Stay,
    /// Fire at the cursor.
    Fire,
    /// Open the chat prompt.
    Chat,
    /// Leave the game (the peer is told with `Disconnect`).
    Forfeit,
}

/// Handle a key during our turn: WASD or the arrows move the aim, Enter or
/// Space fires, T opens the chat, Esc forfeits.
pub fn my_turn_input(key: Key, aim: &mut AimCursor) -> (r: TurnCommand)
    ensures
        final(aim)@ == if key == Key::Up || is_char(key, 'w', 'W') {
            step_up(old(aim)@)
        } else if key == Key::Down || is_char(key, 's', 'S') {
            step_down(old(aim)@)
        } else if key == Key::Left || is_char(key, 'a', 'A') {
            step_left(old(aim)@)
        } else if key == Key::Right || is_char(key, 'd', 'D') {
            step_right(old(aim)@)
        } else {
            old(aim)@
        },
        r == if key == Key::Enter || key == Key::Char(' ') {
            TurnCommand::Fire
        } else if is_char(key, 't', 'T') {
            TurnCommand::Chat
        } else if key == Key::Esc {
            TurnCommand::Forfeit
        } else {
            TurnCommand::Stay
        },
{
    if key == Key::Up || key_is(key, 'w', 'W') {
        aim.move_up();
        TurnCommand::Stay
    } else if key == Key::Down || key_is(key, 's', 'S') {
        aim.move_down();
        TurnCommand::Stay
    } else if key == Key::Left || key_is(key, 'a', 'A') {
        aim.move_left();
        TurnCommand::Stay
    } else if key == Key::Right || key_is(key, 'd', 'D') {
        aim.move_right();
        TurnCommand::Stay
    } else if key == Key::Enter || key == Key::Char(' ') {
        TurnCommand::Fire
    } else if key_is(key, 't', 'T') {
        TurnCommand::Chat
    } else if key == Key::Esc {
        TurnCommand::Forfeit
    } else {
        TurnCommand::Stay
    }
}

/// Handle a key during the opponent's turn: T opens the chat, Esc leaves.
pub fn opponent_turn_input(key: Key) -> (r: TurnCommand)
    ensures
        r == if is_char(key, 't', 'T') {
            TurnCommand::Chat
        } else if key == Key::Esc {
            TurnCommand::Forfeit
        } else {
            TurnCommand::Stay
        },
{
    if key_is(key, 't', 'T') {
        TurnCommand::Chat
    } else if key == Key::Esc {
        TurnCommand::Forfeit
    } else {
        TurnCommand::Stay
    }
}

/// The aiming cursor is drawn only during our turn.
pub fn aim_shown(phase: Phase) -> (r: bool)
    ensures
        r == (phase == Phase::MyTurn),
{
    phase == Phase::MyTurn
}

/// Whether our turn has been idle long enough to forfeit it.
pub fn idle_timed_out(phase: Phase, idle_secs: u64) -> (r: bool)
    ensures
        r == (phase == Phase::MyTurn && idle_secs >= IDLE_TIMEOUT_SECS),
{
    phase == Phase::MyTurn && idle_secs >= IDLE_TIMEOUT_SECS
}

/// Forfeit for idleness: the game is lost. Returns the status line and the
/// message to send to the opponent, `Disconnect`, which hands them the win.
pub fn forfeit_for_idleness(state: &mut GameState) -> (r: (String, Message))
    ensures
        final(state).phase == Phase::GameOver(false),
        final(state).my_board == old(state).my_board,
        final(state).tracking_board == old(state).tracking_board,
        final(state).chat_log == old(state).chat_log,
        final(state).my_name == old(state).my_name,
        final(state).opponent_name == old(state).opponent_name,
        r.0@ == "Idle timeout \u{2014} auto-forfeit!"@,
        r.1 == Message::Disconnect,
{
    state.phase = Phase::GameOver(false);
    (String::from_str("Idle timeout \u{2014} auto-forfeit!"), Message::Disconnect)
}


// ---------------------------------------------------------------------------
// Our shot
// ---------------------------------------------------------------------------

/// Decide what pressing fire does: a `Fire` message for the cursor cell, or
/// the status line `Already fired there!` when we already shot at it.
pub fn plan_shot(state: &GameState, aim: &AimCursor) -> (r: Result<Message, String>)
    ensures
        cell_of(grid_view(state.tracking_board), aim@) == Cell::Empty ==> r == Ok::<
            Message,
            String,
        >(Message::Fire { x: aim@.0, y: aim@.1 }),
        cell_of(grid_view(state.tracking_board), aim@) != Cell::Empty ==> (r matches Err(s) && s@
            == "Already fired there!"@),
{
    let (cx, cy) = aim.pos();
    if read_cell(&state.tracking_board, cx as usize, cy as usize) != Cell::Empty {
        return Err(String::from_str("Already fired there!"));
    }
    Ok(Message::Fire { x: cx, y: cy })
}

/// What the game loop does after the opponent answered our shot.
pub struct ShotOutcome {
    /// The new status line.
    pub status: String,
    /// A message to send back (our victory announcement), if any.
    pub send: Option<Message>,
    /// The tracking-board cell to flash, and whether it was a hit.
    pub flash: Option<(u8, u8, bool)>,
}

/// The status line for the answer to our shot.
pub open spec fn shot_status(hit: bool, sunk: Option<ShipKind>) -> Seq<char> {
    if hit {
        match sunk {
            Some(k) => "HIT! You sunk their "@ + kind_name(k) + "!"@,
            None => "HIT!"@,
        }
    } else {
        "Miss."@
    }
}

/// The fields of the state other than the tracking board, phase and chat
/// are unchanged.
pub open spec fn same_players(a: GameState, b: GameState) -> bool {
    &&& a.my_board == b.my_board
    &&& a.my_name == b.my_name
    &&& a.opponent_name == b.opponent_name
}

/// Apply the opponent's answer to our shot (`None` when the connection
/// closed): record a hit or a miss on the tracking board, and end the game
/// when every ship cell of the opponent has been hit. A disconnect wins the
/// game; any other message only changes the status line.
pub fn apply_shot_reply(state: &mut GameState, reply: Option<Message>) -> (out: ShotOutcome)
    requires
        reply matches Some(Message::FireResult { x, y, .. }) ==> (x as int) < GRID_SIZE && (y as int)
            < GRID_SIZE,
    ensures
        same_players(*final(state), *old(state)),
        final(state).chat_log == old(state).chat_log,
        match reply {
            Some(Message::FireResult { x, y, hit, sunk }) => {
                let tracking = set_cell(
                    grid_view(old(state).tracking_board),
                    (x, y),
                    if hit {
                        Cell::Hit
                    } else {
                        Cell::Miss
                    },
                );
                let won = grid_hit_count(tracking) >= total_size(fleet());
                &&& grid_view(final(state).tracking_board) == tracking
                &&& out.status@ == shot_status(hit, sunk)
                &&& out.flash == Some((x, y, hit))
                &&& final(state).phase == if won {
                    Phase::GameOver(true)
                } else {
                    Phase::OpponentTurn
                }
                &&& out.send == if won {
                    Some(Message::GameOver { winner: old(state).my_name })
                } else {
                    None
                }
            },
            Some(Message::Disconnect) | None => {
                &&& final(state).tracking_board == old(state).tracking_board
                &&& final(state).phase == Phase::GameOver(true)
                &&& out.status@ == "Opponent disconnected!"@
                &&& out.send is None
                &&& out.flash is None
            },
            _ => {
                &&& final(state).tracking_board == old(state).tracking_board
                &&& final(state).phase == old(state).phase
                &&& out.status@ == "Unexpected message from opponent."@
                &&& out.send is None
                &&& out.flash is None
            },
        },
{
    match reply {
        Some(Message::FireResult { x, y, hit, sunk }) => {
            let status;
            if hit {
                write_cell(&mut state.tracking_board, x as usize, y as usize, Cell::Hit);
                status = match sunk {
                    Some(kind) => {
                        let mut s = String::from_str("HIT! You sunk their ");
                        s.append(kind.name());
                        s.append("!");
                        s
                    },
                    None => String::from_str("HIT!"),
                };
            } else {
                write_cell(&mut state.tracking_board, x as usize, y as usize, Cell::Miss);
                status = String::from_str("Miss.");
            }
            let send;
            if state.has_won() {
                send = Some(Message::GameOver { winner: state.my_name.clone() });
                state.phase = Phase::GameOver(true);
            } else {
                send = None;
                state.phase = Phase::OpponentTurn;
            }
            ShotOutcome { status, send, flash: Some((x, y, hit)) }
        },
        Some(Message::Disconnect) | None => {
            state.phase = Phase::GameOver(true);
            ShotOutcome {
                status: String::from_str("Opponent disconnected!"),
                send: None,
                flash: None,
            }
        },
        _ => ShotOutcome {
            status: String::from_str("Unexpected message from opponent."),
            send: None,
            flash: None,
        },
    }
}


// ---------------------------------------------------------------------------
// The opponent's turn
// ---------------------------------------------------------------------------

/// `r` is the index of the first sunk ship of `kind`, or `None` if none is.
pub open spec fn is_first_sunk(ships: Seq<ShipView>, kind: ShipKind, r: Option<usize>) -> bool {
    match r {
        Some(i) => {
            &&& (i as int) < ships.len()
            &&& ships[i as int].kind == kind
            &&& ships[i as int].is_sunk()
            &&& forall|j: int| 0 <= j < i ==> !(#[trigger] ships[j].kind == kind && ships[j].is_sunk())
        },
        None => forall|j: int|
            0 <= j < ships.len() ==> !(#[trigger] ships[j].kind == kind && ships[j].is_sunk()),
    }
}

/// The index of the first sunk ship of `kind`.
fn first_sunk(ships: &Vec<Ship>, kind: ShipKind) -> (r: Option<usize>)
    ensures
        is_first_sunk(ships@.map_values(|s: Ship| s@), kind, r),
{
    let ghost v = ships@.map_values(|s: Ship| s@);
    let mut i: usize = 0;
    while i < ships.len()
        invariant
            i <= ships@.len(),
            v == ships@.map_values(|s: Ship| s@),
            forall|j: int| 0 <= j < i ==> !(#[trigger] v[j].kind == kind && v[j].is_sunk()),
        decreases ships.len() - i,
    {
        if ships[i].kind == kind && ships[i].is_sunk() {
            return Some(i);
        }
        i += 1;
    }
    None
}

/// What the game loop does after a message arrived during the opponent's turn.
pub struct OpponentOutcome {
    /// A message to send back (the answer to a shot), if any.
    pub send: Option<Message>,
    /// The cell of our board to flash, and whether it was a hit.
    pub flash: Option<(u8, u8, bool)>,
    /// The ship of our board that just sank, whose cells flash.
    pub sunk_ship: Option<usize>,
    /// The new status line, if it changes.
    pub status: Option<String>,
}

/// The status line for a shot the opponent fired at `(x, y)`.
pub open spec fn incoming_status(x: u8, y: u8, hit: bool, sunk: Option<ShipKind>) -> Seq<char> {
    if hit {
        match sunk {
            Some(k) => "Opponent hit and sunk your "@ + kind_name(k) + "!"@,
            None => "Opponent hit at "@ + coord_label(x, y) + "!"@,
        }
    } else {
        "Opponent missed at "@ + coord_label(x, y) + "."@
    }
}

/// Process one incoming message during the opponent's turn (`None` when no
/// message was waiting). A shot is resolved on our board and answered with
/// `FireResult`; losing our last ship ends the game as a defeat, otherwise
/// the turn passes to us. `GameOver` is a defeat, `Disconnect` a victory,
/// `Chat` joins the chat log under the opponent's name.
pub fn handle_opponent_message(state: &mut GameState, msg: Option<Message>) -> (out:
    OpponentOutcome)
    requires
        old(state).my_board.wf(),
        msg matches Some(Message::Fire { x, y }) ==> (x as int) < GRID_SIZE && (y as int)
            < GRID_SIZE,
    ensures
        final(state).my_board.wf(),
        final(state).tracking_board == old(state).tracking_board,
        final(state).my_name == old(state).my_name,
        final(state).opponent_name == old(state).opponent_name,
        match msg {
            Some(Message::Fire { x, y }) => {
                let (board, (hit, sunk)) = old(state).my_board@.fire((x, y));
                &&& final(state).my_board@ == board
                &&& out.send == Some(Message::FireResult { x, y, hit, sunk })
                &&& out.flash == Some((x, y, hit))
                &&& (hit && sunk is Some ==> is_first_sunk(board.ships, sunk->0, out.sunk_ship))
                &&& (!(hit && sunk is Some) ==> out.sunk_ship is None)
                &&& out.status matches Some(s) && s@ == incoming_status(x, y, hit, sunk)
                &&& final(state).phase == if board.all_sunk() {
                    Phase::GameOver(false)
                } else {
                    Phase::MyTurn
                }
                &&& final(state).chat_log == old(state).chat_log
            },
            Some(Message::GameOver { .. }) => {
                &&& final(state).my_board == old(state).my_board
                &&& final(state).phase == Phase::GameOver(false)
                &&& final(state).chat_log == old(state).chat_log
                &&& out.send is None && out.flash is None && out.sunk_ship is None
                &&& out.status is None
            },
            Some(Message::Chat { text }) => {
                &&& final(state).my_board == old(state).my_board
                &&& final(state).phase == old(state).phase
                &&& final(state).chat_log@ == chat_after(
                    old(state).chat_log@,
                    (old(state).opponent_name, text),
                )
                &&& out.send is None && out.flash is None && out.sunk_ship is None
                &&& out.status is None
            },
            Some(Message::Disconnect) => {
                &&& final(state).my_board == old(state).my_board
                &&& final(state).phase == Phase::GameOver(true)
                &&& final(state).chat_log == old(state).chat_log
                &&& out.send is None && out.flash is None && out.sunk_ship is None
                &&& out.status matches Some(s) && s@ == "Opponent disconnected!"@
            },
            _ => {
                &&& final(state).my_board == old(state).my_board
                &&& final(state).phase == old(state).phase
                &&& final(state).chat_log == old(state).chat_log
                &&& out.send is None && out.flash is None && out.sunk_ship is None
                &&& out.status is None
            },
        },
{
    let none = OpponentOutcome { send: None, flash: None, sunk_ship: None, status: None };
    match msg {
        Some(Message::Fire { x, y }) => {
            let (hit, sunk) = state.my_board.receive_fire(x, y);
            let mut sunk_ship = None;
            if hit {
                if let Some(kind) = sunk {
                    sunk_ship = first_sunk(&state.my_board.ships, kind);
                }
            }
            let status = if hit {
                match sunk {
                    Some(kind) => {
                        let mut s = String::from_str("Opponent hit and sunk your ");
                        s.append(kind.name());
                        s.append("!");
                        s
                    },
                    None => {
                        let mut s = String::from_str("Opponent hit at ");
                        push_coord_label(&mut s, x, y);
                        s.append("!");
                        s
                    },
                }
            } else {
                let mut s = String::from_str("Opponent missed at ");
                push_coord_label(&mut s, x, y);
                s.append(".");
                s
            };
            if state.my_board.all_sunk() {
                state.phase = Phase::GameOver(false);
            } else {
                state.phase = Phase::MyTurn;
            }
            OpponentOutcome {
                send: Some(Message::FireResult { x, y, hit, sunk }),
                flash: Some((x, y, hit)),
                sunk_ship,
                status: Some(status),
            }
        },
        Some(Message::GameOver { .. }) => {
            state.phase = Phase::GameOver(false);
            none
        },
        Some(Message::Chat { text }) => {
            let sender = state.opponent_name.clone();
            state.push_chat(sender, text);
            none
        },
        Some(Message::Disconnect) => {
            state.phase = Phase::GameOver(true);
            OpponentOutcome {
                send: None,
                flash: None,
                sunk_ship: None,
                status: Some(String::from_str("Opponent disconnected!")),
            }
        },
        _ => none,
    }
}

/// During our own turn only chat messages are taken from the connection;
/// they join the chat log under the opponent's name.
pub fn handle_message_during_my_turn(state: &mut GameState, msg: Option<Message>)
    ensures
        final(state).my_board == old(state).my_board,
        final(state).tracking_board == old(state).tracking_board,
        final(state).phase == old(state).phase,
        final(state).my_name == old(state).my_name,
        final(state).opponent_name == old(state).opponent_name,
        final(state).chat_log@ == match msg {
            Some(Message::Chat { text }) => chat_after(
                old(state).chat_log@,
                (old(state).opponent_name, text),
            ),
            _ => old(state).chat_log@,
        },
{
    if let Some(Message::Chat { text }) = msg {
        let sender = state.opponent_name.clone();
        state.push_chat(sender, text);
    }
}

/// The chat message to send for a line typed at the chat prompt; an empty
/// line sends nothing.
pub fn outgoing_chat(text: String) -> (r: Option<Message>)
    ensures
        r == if text@.len() == 0 {
            None
        } else {
            Some(Message::Chat { text })
        },
{
    if text.as_str().is_empty() {
        None
    } else {
        Some(Message::Chat { text })
    }
}

// ---------------------------------------------------------------------------
// Game over and rematch
// ---------------------------------------------------------------------------

/// The prompt shown on the game-over screen.
pub fn game_over_prompt(phase: Phase) -> (r: &'static str)
    ensures
        r@ == match phase {
            Phase::GameOver(true) => "VICTORY! Press R for rematch, Esc to quit."@,
            Phase::GameOver(false) => "DEFEAT. Press R for rematch, Esc to quit."@,
            _ => "Game over. Press Esc to quit."@,
        },
{
    match phase {
        Phase::GameOver(true) => "VICTORY! Press R for rematch, Esc to quit.",
        Phase::GameOver(false) => "DEFEAT. Press R for rematch, Esc to quit.",
        _ => "Game over. Press Esc to quit.",
    }
}

/// What a key does on the game-over screen.
#[derive(Debug, Clone, Copy, PartialEq, Eq, Structural)]
pub enum GameOverCommand {
    /// Ask the opponent for a rematch.
    Rematch,
    /// Leave (the peer is told with `Disconnect`).
    Quit,
    /// Keep waiting for a key.
    Wait,
}

/// R asks for a rematch, Esc quits, other keys are ignored.
pub fn game_over_input(key: Key) -> (r: GameOverCommand)
    ensures
        r == if is_char(key, 'r', 'R') {
            GameOverCommand::Rematch
        } else if key == Key::Esc {
            GameOverCommand::Quit
        } else {
            GameOverCommand::Wait
        },
{
    if key_is(key, 'r', 'R') {
        GameOverCommand::Rematch
    } else if key == Key::Esc {
        GameOverCommand::Quit
    } else {
        GameOverCommand::Wait
    }
}

/// What happens after the opponent answered our rematch request.
#[derive(Debug, Clone, Copy, PartialEq, Eq, Structural)]
pub enum RematchStep {
    /// Both agreed: the boards are reset and placement starts again.
    Restart,
    /// The opponent left: the session ends.
    Leave,
    /// Any other message: back to waiting for a key.
    Wait,
}

/// Apply the answer to our rematch request: on `Rematch` both boards are
/// cleared and the game goes back to placement, keeping names and chat.
pub fn rematch_answer(state: &mut GameState, reply: Option<Message>) -> (r: RematchStep)
    ensures
        final(state).my_name == old(state).my_name,
        final(state).opponent_name == old(state).opponent_name,
        final(state).chat_log == old(state).chat_log,
        match reply {
            Some(Message::Rematch) => {
                &&& r == RematchStep::Restart
                &&& final(state).phase == Phase::Placing
                &&& final(state).my_board.wf()
                &&& final(state).my_board@.ships.len() == 0
                &&& forall|p: Pos| on_grid(p) ==> #[trigger] final(state).my_board@.cell(p) == Cell::Empty
                &&& forall|p: Pos|
                    on_grid(p) ==> #[trigger] cell_of(grid_view(final(state).tracking_board), p)
                        == Cell::Empty
            },
            Some(Message::Disconnect) | None => r == RematchStep::Leave && *final(state) == *old(
                state,
            ),
            _ => r == RematchStep::Wait && *final(state) == *old(state),
        },
{
    match reply {
        Some(Message::Rematch) => {
            state.my_board = Board::new();
            state.tracking_board = empty_grid();
            state.phase = Phase::Placing;
            RematchStep::Restart
        },
        Some(Message::Disconnect) | None => RematchStep::Leave,
        _ => RematchStep::Wait,
    }
}

// ---------------------------------------------------------------------------
// Session start
// ---------------------------------------------------------------------------

/// The game state once both names are known: empty boards, placement phase.
pub fn start_session(my_name: String, opponent_name: String) -> (st: GameState)
    ensures
        st.my_board.wf(),
        st.my_board@.ships.len() == 0,
        forall|p: Pos| on_grid(p) ==> #[trigger] st.my_board@.cell(p) == Cell::Empty,
        forall|p: Pos|
            on_grid(p) ==> #[trigger] cell_of(grid_view(st.tracking_board), p) == Cell::Empty,
        st.phase == Phase::Placing,
        st.my_name == my_name,
        st.opponent_name == opponent_name,
        st.chat_log@.len() == 0,
{
    let mut state = GameState::new(my_name);
    state.opponent_name = opponent_name;
    state.phase = Phase::Placing;
    state
}

/// The first message of a session, sent before anything is received: our
/// name in a `Hello`.
pub fn greeting(my_name: String) -> (r: Message)
    ensures
        r == (Message::Hello { name: my_name }),
{
    Message::Hello { name: my_name }
}

/// What follows the placement screen.
#[derive(Debug, Clone, Copy, PartialEq, Eq, Structural)]
pub enum PlacedStep {
    /// The fleet is placed: tell the opponent we are `Ready` and wait for theirs.
    SendReady,
    /// Placement was cancelled: send `Disconnect` and end the session.
    SendDisconnectAndLeave,
}

impl PlacedStep {
    /// The message this step sends.
    pub fn message(self) -> (r: Message)
        ensures
            r == match self {
                PlacedStep::SendReady => Message::Ready,
                PlacedStep::SendDisconnectAndLeave => Message::Disconnect,
            },
    {
        match self {
            PlacedStep::SendReady => Message::Ready,
            PlacedStep::SendDisconnectAndLeave => Message::Disconnect,
        }
    }

    /// Whether the session ends after the message is sent.
    pub fn leaves(self) -> (r: bool)
        ensures
            r == (self == PlacedStep::SendDisconnectAndLeave),
    {
        match self {
            PlacedStep::SendReady => false,
            PlacedStep::SendDisconnectAndLeave => true,
        }
    }
}

/// `Ready` is sent only after a completed placement; a cancelled placement
/// sends `Disconnect` and leaves.
pub fn after_placement(placed: bool) -> (r: PlacedStep)
    ensures
        r == if placed {
            PlacedStep::SendReady
        } else {
            PlacedStep::SendDisconnectAndLeave
        },
{
    if placed {
        PlacedStep::SendReady
    } else {
        PlacedStep::SendDisconnectAndLeave
    }
}

/// What a message does while we wait for the opponent to finish placing.
#[derive(Debug, Clone, Copy, PartialEq, Eq, Structural)]
pub enum ReadyStep {
    /// The opponent is ready: the battle starts.
    Start,
    /// The opponent left.
    Leave,
    /// Anything else is ignored; keep waiting.
    Ignore,
}

/// `Ready` starts the battle, `Disconnect` or a closed connection ends the
/// session, any other message is ignored.
pub fn ready_answer(msg: Option<Message>) -> (r: ReadyStep)
    ensures
        r == match msg {
            Some(Message::Ready) => ReadyStep::Start,
            Some(Message::Disconnect) | None => ReadyStep::Leave,
            _ => ReadyStep::Ignore,
        },
{
    match msg {
        Some(Message::Ready) => ReadyStep::Start,
        Some(Message::Disconnect) => ReadyStep::Leave,
        None => ReadyStep::Leave,
        _ => ReadyStep::Ignore,
    }
}

/// The host fires first.
pub fn opening_phase(is_host: bool) -> (r: Phase)
    ensures
        r == if is_host {
            Phase::MyTurn
        } else {
            Phase::OpponentTurn
        },
{
    if is_host {
        Phase::MyTurn
    } else {
        Phase::OpponentTurn
    }
}

/// After the battle loop returns, another round of placement follows only
/// when a rematch was agreed (the phase is back to `Placing`).
pub fn rematch_agreed(phase: Phase) -> (r: bool)
    ensures
        r == (phase == Phase::Placing),
{
    phase == Phase::Placing
}

} // verus!
