use crate::apple::Apple;
use crate::board::Board;
use crate::position::Position;
use crate::snake::{direction_after_input, move_fits, unit_vector, Direction, Snake};
use vstd::prelude::*;

verus! {

/// The outcome of one discrete tick, surfaced to the caller: play on, or
/// one of the distinguished terminal conditions.
#[derive(Clone, Copy, PartialEq, Eq, Structural, Debug)]
pub enum TickOutcome {
    /// The game goes on; the caller renders and ticks again.
    Continue,
    /// The quit key arrived at the top of the tick.
    UserQuit,
    /// The new head coincides with an alive segment other than itself.
    SelfCollision,
    /// The new head left the board's coordinate range.
    OutOfBounds,
    /// An apple was eaten and no free cell is left to respawn one on.
    BoardFull,
}

/// A position is occupied by the snake when it equals one of the alive
/// body segments: the last `len` entries of the history.
pub open spec fn occupies(s: Snake, p: Position) -> bool {
    exists|i: int| s.body@.len() - s.len <= i < s.body@.len() && s.body@[i] == p
}

/// The head coincides with an alive segment other than itself.
pub open spec fn self_collides(s: Snake) -> bool {
    exists|i: int| s.body@.len() - s.len <= i < s.body@.len() - 1 && s.body@[i] == s.body@.last()
}

/// Some board cell is free of the snake's alive body.
pub open spec fn has_free_cell(s: Snake, b: Board) -> bool {
    exists|p: Position| b.in_bounds(p) && !occupies(s, p)
}

/// Whether one alive body segment sits at `p`. Dead history entries,
/// older than the alive window, never count.
pub fn occupied_by_snake(snake: &Snake, p: Position) -> (r: bool)
    requires
        snake.wf(),
    ensures
        r == occupies(*snake, p),
{
    let n = snake.body.len();
    let start = n - snake.len as usize;
    let mut i = start;
    while i < n
        invariant
            start <= i <= n,
            n == snake.body@.len(),
            start == n - snake.len,
            forall|j: int| start <= j < i ==> snake.body@[j] != p,
        decreases n - i,
    {
        if snake.body[i] == p {
            return true;
        }
        i = i + 1;
    }
    false
}

/// Whether the head equals any other alive segment.
pub fn check_self_collision(snake: &Snake) -> (r: bool)
    requires
        snake.wf(),
    ensures
        r == self_collides(*snake),
{
    let n = snake.body.len();
    let head = snake.body[n - 1];
    let start = n - snake.len as usize;
    let mut i = start;
    while i < n - 1
        invariant
            start <= i <= n - 1,
            n == snake.body@.len(),
            1 <= n,
            start == n - snake.len,
            head == snake.body@.last(),
            forall|j: int| start <= j < i ==> snake.body@[j] != head,
        decreases n - i,
    {
        if snake.body[i] == head {
            return true;
        }
        i = i + 1;
    }
    false
}

/// Every board cell not occupied by an alive body segment, enumerated
/// column by column. The extents must fit the signed coordinate type.
pub fn free_cells(snake: &Snake, board: &Board) -> (r: Vec<Position>)
    requires
        snake.wf(),
        board.width <= 128,
        board.height <= 128,
    ensures
        forall|p: Position| r@.contains(p) <==> board.in_bounds(p) && !occupies(*snake, p),
        forall|i: int, j: int| 0 <= i < j < r@.len() ==> r@[i] != r@[j],
{
    let mut cells: Vec<Position> = Vec::new();
    let mut x: u8 = 0;
    while x < board.width
        invariant
            snake.wf(),
            board.width <= 128,
            board.height <= 128,
            x <= board.width,
            forall|p: Position|
                cells@.contains(p) <==> (board.in_bounds(p) && !occupies(*snake, p) && p.x < x),
            forall|i: int, j: int| 0 <= i < j < cells@.len() ==> cells@[i] != cells@[j],
        decreases board.width - x,
    {
        let mut y: u8 = 0;
        while y < board.height
            invariant
                snake.wf(),
                board.width <= 128,
                board.height <= 128,
                x < board.width,
                y <= board.height,
                forall|p: Position|
                    cells@.contains(p) <==> (board.in_bounds(p) && !occupies(*snake, p) && (
                    p.x < x || (p.x == x && p.y < y))),
                forall|i: int, j: int| 0 <= i < j < cells@.len() ==> cells@[i] != cells@[j],
            decreases board.height - y,
        {
            let ghost prev = cells@;
            let p = Position::new(x as i8, y as i8);
            let free = !occupied_by_snake(snake, p);
            if free {
                cells.push(p);
            }
            proof {
                assert forall|q: Position|
                    cells@.contains(q) implies (board.in_bounds(q) && !occupies(*snake, q) && (
                q.x < x || (q.x == x && q.y < y + 1))) by {
                    let k = choose|k: int| 0 <= k < cells@.len() && cells@[k] == q;
                    if k < prev.len() {
                        assert(prev.contains(q));
                    } else {
                        assert(q == p);
                    }
                };
                assert forall|q: Position|
                    (board.in_bounds(q) && !occupies(*snake, q) && (q.x < x || (q.x == x && q.y
                        < y + 1))) implies cells@.contains(q) by {
                    if q.x < x || (q.x == x && q.y < y) {
                        assert(prev.contains(q));
                        let k = choose|k: int| 0 <= k < prev.len() && prev[k] == q;
                        assert(cells@[k] == q);
                    } else {
                        assert(q == p);
                        assert(cells@[cells@.len() - 1] == q);
                    }
                };
                assert forall|i: int, j: int|
                    0 <= i < j < cells@.len() implies cells@[i] != cells@[j] by {
                    if j == prev.len() && free {
                        assert(cells@[j] == p);
                        if cells@[i] == p {
                            assert(prev.contains(p));
                        }
                    }
                };
            }
            y = y + 1;
        }
        x = x + 1;
    }
    cells
}

/// The quit key ends the game at the top of a tick.
pub open spec fn is_quit(input: Option<char>) -> bool {
    input == Some('q')
}

/// The facing direction once the tick's input, if any, has been applied.
pub open spec fn dir_after(s: Snake, input: Option<char>) -> Direction {
    match input {
        Some(c) => direction_after_input(s.direction, c),
        None => s.direction,
    }
}

/// The position the head will occupy after this tick's input has been
/// applied and the snake has advanced.
pub open spec fn planned_head(s: Snake, input: Option<char>) -> Position {
    Position {
        x: (s.head_spec().x + unit_vector(dir_after(s, input)).x) as i8,
        y: (s.head_spec().y + unit_vector(dir_after(s, input)).y) as i8,
    }
}

/// Relies on rand::random_range over `0..n`: the sampled value lies in
/// the given range, which must not be empty.
#[verifier::external_body]
fn random_below(n: usize) -> (r: usize)
    requires
        n > 0,
    ensures
        r < n,
{
    rand::random_range(0..n)
}

/// A position for a fresh apple, chosen at random among the board cells
/// free of the snake's alive body. Returns a position exactly when some
/// free cell exists; a full board yields nothing.
pub fn random_apple_position(snake: &Snake, board: &Board) -> (r: Option<Position>)
    requires
        snake.wf(),
        board.width <= 128,
        board.height <= 128,
    ensures
        r is Some <==> has_free_cell(*snake, *board),
        r matches Some(p) ==> board.in_bounds(p) && !occupies(*snake, p),
{
    let cells = free_cells(snake, board);
    if cells.len() == 0 {
        assert(!has_free_cell(*snake, *board)) by {
            if has_free_cell(*snake, *board) {
                let p = choose|p: Position| board.in_bounds(p) && !occupies(*snake, p);
                assert(cells@.contains(p));
            }
        };
        None
    } else {
        let i = random_below(cells.len());
        let p = cells[i];
        assert(cells@.contains(p));
        assert(board.in_bounds(p) && !occupies(*snake, p));
        assert(has_free_cell(*snake, *board));
        Some(p)
    }
}

/// One discrete tick. At most one queued input is applied: the quit key
/// ends the game untouched; a direction key may turn the snake. The
/// snake then advances, an apple under the new head is consumed and a
/// fresh one spawned on a free cell (a full board is a distinguished
/// terminal outcome), and self-collision and bounds are checked, in
/// that order.
pub fn step(board: &Board, snake: &mut Snake, apple: &mut Apple, input: Option<char>) -> (r:
    TickOutcome)
    requires
        old(snake).wf(),
        !is_quit(input) ==> move_fits(old(snake).head_spec(), dir_after(*old(snake), input)),
        !is_quit(input) && old(snake).grows() ==> old(snake).len < u8::MAX,
        !is_quit(input) && planned_head(*old(snake), input) == old(apple).position
            ==> board.width <= 128 && board.height <= 128,
    ensures
        (r == TickOutcome::UserQuit) <==> is_quit(input),
        is_quit(input) ==> *final(snake) == *old(snake) && *final(apple) == *old(apple),
        !is_quit(input) ==> ({
            let nh = planned_head(*old(snake), input);
            let eats = (nh == old(apple).position);
            let grew = old(snake).grows();
            let st1 = if grew {
                old(snake).stomach@.drop_first()
            } else {
                old(snake).stomach@
            };
            &&& final(snake).wf()
            &&& final(snake).body@ == old(snake).body@.push(nh)
            &&& final(snake).direction == dir_after(*old(snake), input)
            &&& final(snake).stage == old(snake).stage
            &&& (grew ==> final(snake).len == old(snake).len + 1)
            &&& (!grew ==> final(snake).len == old(snake).len)
            &&& final(snake).stomach@ == (if eats {
                st1.push(old(apple).position)
            } else {
                st1
            })
            &&& (!eats ==> *final(apple) == *old(apple))
            &&& ((r == TickOutcome::BoardFull) <==> (eats && !has_free_cell(
                *final(snake),
                *board,
            )))
            &&& (r == TickOutcome::BoardFull ==> *final(apple) == *old(apple))
            &&& (eats && r != TickOutcome::BoardFull ==> board.in_bounds(final(apple).position)
                && !occupies(*final(snake), final(apple).position))
            &&& (r != TickOutcome::BoardFull ==> ((r == TickOutcome::SelfCollision)
                <==> self_collides(*final(snake))))
            &&& (r != TickOutcome::BoardFull && r != TickOutcome::SelfCollision ==> ((r
                == TickOutcome::OutOfBounds) <==> !board.in_bounds(nh)))
            &&& ((r == TickOutcome::Continue) <==> (!(eats && !has_free_cell(
                *final(snake),
                *board,
            )) && !self_collides(*final(snake)) && board.in_bounds(nh)))
        }),
{
    match input {
        Some(c) => {
            if c == 'q' {
                return TickOutcome::UserQuit;
            }
            snake.process_input(c);
        },
        None => {},
    }
    snake.tick();
    let head = snake.head();
    if head == apple.position {
        snake.consume_apple(*apple);
        match random_apple_position(snake, board) {
            Some(p) => {
                *apple = Apple::new(p);
            },
            None => {
                return TickOutcome::BoardFull;
            },
        }
    }
    if check_self_collision(snake) {
        return TickOutcome::SelfCollision;
    }
    if !board.contains(head) {
        return TickOutcome::OutOfBounds;
    }
    TickOutcome::Continue
}

} // verus!
