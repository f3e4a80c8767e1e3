use crate::apple::Apple;
use crate::board::Board;
use crate::position::Position;
use vstd::prelude::*;

verus! {

/// The axis-aligned direction the head will move on the next tick.
#[derive(Clone, Copy, PartialEq, Eq, Structural, Debug)]
pub enum Direction {
    Up,
    Down,
    Left,
    Right,
}

/// The direction exactly opposed to `d`.
pub open spec fn opposite(d: Direction) -> Direction {
    match d {
        Direction::Up => Direction::Down,
        Direction::Down => Direction::Up,
        Direction::Left => Direction::Right,
        Direction::Right => Direction::Left,
    }
}

pub open spec fn is_vertical(d: Direction) -> bool {
    d == Direction::Up || d == Direction::Down
}

/// Two directions are orthogonal when they lie on different axes. A turn
/// is legal only onto the orthogonal axis, so neither a repeat of the
/// current direction nor a reversal ever changes the facing.
pub open spec fn orthogonal(a: Direction, b: Direction) -> bool {
    is_vertical(a) != is_vertical(b)
}

/// The direction requested by one input character, if it requests one:
/// `w`, `a`, `s`, `d` request Up, Left, Down, Right; every other
/// character requests nothing.
pub open spec fn key_direction(input: char) -> Option<Direction> {
    if input == 'w' {
        Some(Direction::Up)
    } else if input == 'a' {
        Some(Direction::Left)
    } else if input == 's' {
        Some(Direction::Down)
    } else if input == 'd' {
        Some(Direction::Right)
    } else {
        None
    }
}

/// The facing direction after one input character is processed: the
/// requested direction if it is orthogonal to the current one, the
/// current direction otherwise.
pub open spec fn direction_after_input(d: Direction, input: char) -> Direction {
    match key_direction(input) {
        Some(nd) => if orthogonal(d, nd) {
            nd
        } else {
            d
        },
        None => d,
    }
}

/// The unit vector of a direction: Up = (0,+1), Down = (0,-1),
/// Left = (-1,0), Right = (+1,0).
pub open spec fn unit_vector(d: Direction) -> Position {
    match d {
        Direction::Up => Position { x: 0, y: 1 },
        Direction::Down => Position { x: 0, y: -1i8 },
        Direction::Left => Position { x: -1i8, y: 0 },
        Direction::Right => Position { x: 1, y: 0 },
    }
}

/// Moving `head` one step in direction `d` keeps both coordinates
/// representable in the coordinate type.
pub open spec fn move_fits(head: Position, d: Direction) -> bool {
    match d {
        Direction::Up => head.y < i8::MAX,
        Direction::Down => head.y > i8::MIN,
        Direction::Left => head.x > i8::MIN,
        Direction::Right => head.x < i8::MAX,
    }
}

/// The stateful actor: the append-only history of every position the
/// snake has ever occupied, the logical length (how many trailing
/// history entries are alive body segments), the facing direction, the
/// board it plays on, and the pending-growth queue of eaten apple
/// positions, oldest first.
pub struct Snake {
    pub body: Vec<Position>,
    pub len: u8,
    pub direction: Direction,
    pub stage: Board,
    pub stomach: Vec<Position>,
}

impl Snake {
    /// Well-formedness: the history is never empty and the alive window
    /// never exceeds it.
    pub open spec fn wf(self) -> bool {
        1 <= self.len <= self.body@.len()
    }

    /// The head: the most recently appended history entry.
    pub open spec fn head_spec(self) -> Position {
        self.body@.last()
    }

    /// The position the head will occupy after the next tick.
    pub open spec fn next_head(self) -> Position {
        Position {
            x: (self.head_spec().x + unit_vector(self.direction).x) as i8,
            y: (self.head_spec().y + unit_vector(self.direction).y) as i8,
        }
    }

    /// The next tick grows the snake: the pending-growth queue is
    /// non-empty and its oldest entry equals the history entry that the
    /// advancing alive window is about to leave behind.
    pub open spec fn grows(self) -> bool {
        &&& self.stomach@.len() > 0
        &&& self.stomach@[0] == self.body@[self.body@.len() - self.len]
    }

    pub fn new(stage: &Board) -> (r: Snake)
        ensures
            r.wf(),
            r.body@ =~= seq![
                Position { x: 5, y: 3 },
                Position { x: 5, y: 4 },
                Position { x: 5, y: 5 },
            ],
            r.len == 3,
            r.direction == Direction::Up,
            r.stage == *stage,
            r.stomach@ =~= Seq::<Position>::empty(),
    {
        Snake {
            body: vec![Position::new(5, 3), Position::new(5, 4), Position::new(5, 5)],
            len: 3,
            direction: Direction::Up,
            stage: *stage,
            stomach: Vec::new(),
        }
    }

    pub fn head(&self) -> (r: Position)
        requires
            self.wf(),
        ensures
            r == self.head_spec(),
    {
        self.body[self.body.len() - 1]
    }

    /// Applies a direction request to the facing direction iff the
    /// requested direction is orthogonal to the current one; any other
    /// request, a reversal included, is silently ignored. Nothing but
    /// the facing direction changes, and the facing never becomes the
    /// opposite of what it was.
    pub fn process_input(&mut self, input: char)
        ensures
            final(self).direction == direction_after_input(old(self).direction, input),
            final(self).direction != opposite(old(self).direction),
            final(self).body@ == old(self).body@,
            final(self).len == old(self).len,
            final(self).stage == old(self).stage,
            final(self).stomach@ == old(self).stomach@,
    {
        if input == 'w' {
            if matches!(self.direction, Direction::Left | Direction::Right) {
                self.direction = Direction::Up;
            }
        } else if input == 'a' {
            if matches!(self.direction, Direction::Up | Direction::Down) {
                self.direction = Direction::Left;
            }
        } else if input == 's' {
            if matches!(self.direction, Direction::Left | Direction::Right) {
                self.direction = Direction::Down;
            }
        } else if input == 'd' {
            if matches!(self.direction, Direction::Up | Direction::Down) {
                self.direction = Direction::Right;
            }
        }
    }

    /// One movement step: appends the next head position to the history
    /// (the history grows by exactly one entry, unconditionally), then
    /// runs the delayed-growth check. The logical length grows by one
    /// exactly when the oldest pending-growth entry equals the position
    /// vacating the alive window, and that entry is then dequeued;
    /// otherwise length and queue are unchanged.
    pub fn tick(&mut self)
        requires
            old(self).wf(),
            move_fits(old(self).head_spec(), old(self).direction),
            old(self).grows() ==> old(self).len < u8::MAX,
        ensures
            final(self).wf(),
            final(self).body@ == old(self).body@.push(old(self).next_head()),
            final(self).direction == old(self).direction,
            final(self).stage == old(self).stage,
            old(self).grows() ==> final(self).len == old(self).len + 1
                && final(self).stomach@ == old(self).stomach@.drop_first(),
            !old(self).grows() ==> final(self).len == old(self).len
                && final(self).stomach@ == old(self).stomach@,
    {
        let delta = match self.direction {
            Direction::Up => Position::new(0, 1),
            Direction::Down => Position::new(0, -1),
            Direction::Left => Position::new(-1, 0),
            Direction::Right => Position::new(1, 0),
        };
        let new_head = self.head().add(delta);
        self.body.push(new_head);
        self.grow_if_necessary();
    }

    /// Records an eaten apple at the back of the pending-growth queue.
    /// The logical length never changes here: growth happens lazily, on
    /// the later tick whose growth check matches this position.
    pub fn consume_apple(&mut self, apple: Apple)
        ensures
            final(self).stomach@ == old(self).stomach@.push(apple.position),
            final(self).body@ == old(self).body@,
            final(self).len == old(self).len,
            final(self).direction == old(self).direction,
            final(self).stage == old(self).stage,
    {
        self.stomach.push(apple.position);
    }

    /// The alive body, head first: the last `len` history entries, read
    /// in reverse order, as rendering and display iterate over them.
    pub fn alive_segments(&self) -> (r: Vec<Position>)
        requires
            self.wf(),
        ensures
            r@.len() == self.len,
            forall|k: int| 0 <= k < r@.len() ==> r@[k] == self.body@[self.body@.len() - 1 - k],
    {
        let mut segs: Vec<Position> = Vec::new();
        let n = self.body.len();
        let mut k: usize = 0;
        while k < self.len as usize
            invariant
                self.wf(),
                n == self.body@.len(),
                k <= self.len,
                segs@.len() == k,
                forall|j: int| 0 <= j < k ==> segs@[j] == self.body@[n - 1 - j],
            decreases self.len - k,
        {
            segs.push(self.body[n - 1 - k]);
            k = k + 1;
        }
        segs
    }

    /// The delayed-growth check, run once per tick after the head has
    /// been appended: compares the oldest pending-growth entry against
    /// the history entry just before the alive window.
    fn grow_if_necessary(&mut self)
        requires
            old(self).wf(),
            old(self).len < old(self).body@.len(),
            (old(self).stomach@.len() > 0 && old(self).stomach@[0] == old(self).body@[
                old(self).body@.len() - old(self).len - 1
            ]) ==> old(self).len < u8::MAX,
        ensures
            final(self).wf(),
            final(self).body@ == old(self).body@,
            final(self).direction == old(self).direction,
            final(self).stage == old(self).stage,
            (old(self).stomach@.len() > 0 && old(self).stomach@[0] == old(self).body@[
                old(self).body@.len() - old(self).len - 1
            ]) ==> final(self).len == old(self).len + 1
                && final(self).stomach@ == old(self).stomach@.drop_first(),
            !(old(self).stomach@.len() > 0 && old(self).stomach@[0] == old(self).body@[
                old(self).body@.len() - old(self).len - 1
            ]) ==> final(self).len == old(self).len
                && final(self).stomach@ == old(self).stomach@,
    {
        if self.stomach.len() > 0 {
            let pos = self.stomach[0];
            let after_tail = self.body[self.body.len() - self.len as usize - 1];
            if after_tail == pos {
                self.len = self.len + 1;
                self.stomach.remove(0);
            }
        }
    }
}

/// The facing direction never reverses in one step: whatever character
/// arrives, the direction after processing it is never the exact
/// opposite of the direction before.
pub proof fn lemma_no_reversal(d: Direction, input: char)
    ensures
        direction_after_input(d, input) != opposite(d),
{
}

} // verus!
