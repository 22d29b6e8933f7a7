use vstd::prelude::*;
use crate::door::{FULL, Openable, LateralOpening};
use crate::map::{LevelMap, Tile};

verus! {

/// Microseconds in one second.
pub const MICROSECONDS_PER_SECOND: u128 = 1_000_000;

/// How far a door moves, in millionths, at `speed` millionths per second
/// during `microseconds`.
pub open spec fn travel(speed: int, microseconds: int) -> int {
    speed * microseconds / (MICROSECONDS_PER_SECOND as int)
}

/// The opening after `microseconds`: it moves up while activated and down
/// otherwise, and is clamped to `[0, FULL]`.
pub open spec fn next_opening(opening: int, activated: bool, speed: int, microseconds: int) -> int {
    if activated {
        if opening + travel(speed, microseconds) > FULL {
            FULL as int
        } else {
            opening + travel(speed, microseconds)
        }
    } else {
        if opening - travel(speed, microseconds) < 0 {
            0
        } else {
            opening - travel(speed, microseconds)
        }
    }
}

/// State of a tile with no behaviour: never opens.
#[derive(Debug, Copy, Clone, PartialEq, Eq, Structural)]
pub struct NothingActionState {}

/// State of a door that opens and closes at a constant speed.
#[derive(Debug, Copy, Clone, PartialEq, Eq, Structural)]
pub struct LinearActionState {
    /// Millionths of a full opening per second.
    opening_speed: u64,
    activated: bool,
    /// Millionths of a full opening, at most `FULL`.
    opening_percentage: u32,
    openable: Openable,
}

/// The animated state of one tile.
#[derive(Debug, Copy, Clone, PartialEq, Eq, Structural)]
pub enum ActionState {
    Nothing(NothingActionState),
    Linear(LinearActionState),
}

impl NothingActionState {
    pub fn new() -> (r: Self) {
        Self {  }
    }
}

impl LinearActionState {
    pub closed spec fn spec_speed(&self) -> u64 {
        self.opening_speed
    }

    pub closed spec fn spec_activated(&self) -> bool {
        self.activated
    }

    pub closed spec fn spec_percentage(&self) -> u32 {
        self.opening_percentage
    }

    pub closed spec fn spec_openable(&self) -> Openable {
        self.openable
    }

    pub open spec fn wf(&self) -> bool {
        self.spec_percentage() <= FULL
    }

    /// A closed, inactive door; `opening_speed` is in millionths of a full
    /// opening per second.
    pub fn new(opening_speed: u64, openable: Openable) -> (r: Self)
        ensures
            r.wf(),
            r.spec_speed() == opening_speed,
            !r.spec_activated(),
            r.spec_percentage() == 0,
            r.spec_openable() == openable,
    {
        Self { activated: false, opening_percentage: 0, openable, opening_speed }
    }

    /// The state after `microseconds` have passed.
    pub fn elapsed(&self, microseconds: u128) -> (r: Self)
        requires
            self.wf(),
        ensures
            r.wf(),
            r.spec_speed() == self.spec_speed(),
            r.spec_activated() == self.spec_activated(),
            r.spec_openable() == self.spec_openable(),
            r.spec_percentage() == next_opening(
                self.spec_percentage() as int,
                self.spec_activated(),
                self.spec_speed() as int,
                microseconds as int,
            ),
    {
        let speed = self.opening_speed as u128;
        let step: u32 = if speed == 0 {
            0
        } else if microseconds > (FULL as u128) * MICROSECONDS_PER_SECOND {
            FULL
        } else {
            assert(speed * microseconds <= 0xffff_ffff_ffff_ffff * 1_000_000_000_000) by (nonlinear_arith)
                requires
                    speed <= 0xffff_ffff_ffff_ffff,
                    microseconds <= 1_000_000_000_000,
            ;
            let product: u128 = speed * microseconds;
            let moved: u128 = product / MICROSECONDS_PER_SECOND;
            if moved > FULL as u128 {
                FULL
            } else {
                moved as u32
            }
        };
        proof {
            lemma_step_matches_travel(speed as int, microseconds as int, step as int);
        }
        let opening = self.opening_percentage;
        let new_opening: u32 = if self.activated {
            if step > FULL - opening {
                FULL
            } else {
                opening + step
            }
        } else {
            if step > opening {
                0
            } else {
                opening - step
            }
        };
        Self {
            opening_speed: self.opening_speed,
            activated: self.activated,
            opening_percentage: new_opening,
            openable: self.openable,
        }
    }

    /// The state with the direction reversed; the opening is kept.
    pub fn trigger(&self) -> (r: Self)
        requires
            self.wf(),
        ensures
            r.wf(),
            r.spec_speed() == self.spec_speed(),
            r.spec_activated() == !self.spec_activated(),
            r.spec_openable() == self.spec_openable(),
            r.spec_percentage() == self.spec_percentage(),
    {
        Self {
            opening_speed: self.opening_speed,
            activated: !self.activated,
            opening_percentage: self.opening_percentage,
            openable: self.openable,
        }
    }

    pub fn openable(&self) -> (r: Openable)
        ensures
            r == self.spec_openable(),
    {
        self.openable
    }

    pub fn activated_percentage(&self) -> (r: u32)
        ensures
            r == self.spec_percentage(),
    {
        self.opening_percentage
    }
}

/// The capped step that `elapsed` computes clamps to the same opening as the
/// exact travel.
proof fn lemma_step_matches_travel(speed: int, microseconds: int, step: int)
    requires
        0 <= speed,
        0 <= microseconds,
        speed == 0 ==> step == 0,
        speed > 0 && microseconds > FULL * MICROSECONDS_PER_SECOND ==> step == FULL,
        speed > 0 && microseconds <= FULL * MICROSECONDS_PER_SECOND ==> step == if travel(
            speed,
            microseconds,
        ) > FULL {
            FULL as int
        } else {
            travel(speed, microseconds)
        },
    ensures
        0 <= step <= FULL,
        step <= travel(speed, microseconds),
        step < FULL ==> step == travel(speed, microseconds),
{
    let m = MICROSECONDS_PER_SECOND as int;
    assert(0 <= speed * microseconds) by (nonlinear_arith)
        requires
            0 <= speed,
            0 <= microseconds,
    ;
    if speed > 0 && microseconds > FULL * MICROSECONDS_PER_SECOND {
        assert(speed * microseconds >= microseconds) by (nonlinear_arith)
            requires
                speed >= 1,
                microseconds >= 0,
        ;
        assert(travel(speed, microseconds) >= FULL) by (nonlinear_arith)
            requires
                speed * microseconds >= microseconds,
                microseconds > FULL * m,
                m == 1_000_000,
                travel(speed, microseconds) == speed * microseconds / m,
        ;
    }
    if speed == 0 {
        assert(speed * microseconds == 0);
    }
}

impl ActionState {
    pub open spec fn wf(&self) -> bool {
        match self {
            ActionState::Nothing(_) => true,
            ActionState::Linear(state) => state.wf(),
        }
    }

    /// The opening in millionths: always zero for a tile with no behaviour.
    pub open spec fn spec_activated_percentage(&self) -> u32 {
        match self {
            ActionState::Nothing(_) => 0,
            ActionState::Linear(state) => state.spec_percentage(),
        }
    }

    pub open spec fn spec_openable(&self) -> Openable {
        match self {
            ActionState::Nothing(_) => Openable::Lateral(LateralOpening {  }),
            ActionState::Linear(state) => state.spec_openable(),
        }
    }

    /// Whether `next` is this state after `microseconds` have passed.
    pub open spec fn is_elapsed(&self, microseconds: u128, next: ActionState) -> bool {
        match self {
            ActionState::Nothing(_) => next is Nothing,
            ActionState::Linear(state) => {
                &&& next is Linear
                &&& next->Linear_0.spec_speed() == state.spec_speed()
                &&& next->Linear_0.spec_activated() == state.spec_activated()
                &&& next->Linear_0.spec_openable() == state.spec_openable()
                &&& next->Linear_0.spec_percentage() == next_opening(
                    state.spec_percentage() as int,
                    state.spec_activated(),
                    state.spec_speed() as int,
                    microseconds as int,
                )
            },
        }
    }

    /// Whether `next` is this state with its direction reversed.
    pub open spec fn is_triggered(&self, next: ActionState) -> bool {
        match self {
            ActionState::Nothing(_) => next is Nothing,
            ActionState::Linear(state) => {
                &&& next is Linear
                &&& next->Linear_0.spec_speed() == state.spec_speed()
                &&& next->Linear_0.spec_activated() == !state.spec_activated()
                &&& next->Linear_0.spec_openable() == state.spec_openable()
                &&& next->Linear_0.spec_percentage() == state.spec_percentage()
            },
        }
    }

    pub fn elapsed(&self, microseconds: u128) -> (r: ActionState)
        requires
            self.wf(),
        ensures
            r.wf(),
            self.is_elapsed(microseconds, r),
    {
        match self {
            ActionState::Nothing(_) => ActionState::Nothing(NothingActionState::new()),
            ActionState::Linear(state) => ActionState::Linear(state.elapsed(microseconds)),
        }
    }

    pub fn trigger(&self) -> (r: ActionState)
        requires
            self.wf(),
        ensures
            r.wf(),
            self.is_triggered(r),
    {
        match self {
            ActionState::Nothing(_) => ActionState::Nothing(NothingActionState::new()),
            ActionState::Linear(state) => ActionState::Linear(state.trigger()),
        }
    }

    /// The door shape; a tile with no behaviour reports a sliding one.
    pub fn openable(&self) -> (r: Openable)
        ensures
            r == self.spec_openable(),
    {
        match self {
            ActionState::Nothing(_) => Openable::Lateral(LateralOpening::new()),
            ActionState::Linear(state) => state.openable(),
        }
    }

    pub fn activated_percentage(&self) -> (r: u32)
        ensures
            r == self.spec_activated_percentage(),
    {
        match self {
            ActionState::Nothing(_) => 0,
            ActionState::Linear(state) => state.activated_percentage(),
        }
    }

    /// Whether the tile stops movement: it does unless it is fully open, with
    /// no tolerance for a door that is almost open.
    pub fn blocks_movement(&self) -> (r: bool)
        ensures
            r == (self.spec_activated_percentage() != FULL),
    {
        self.activated_percentage() != FULL
    }
}

/// Makes the initial state of each tile of one kind.
#[derive(Debug, Copy, Clone, PartialEq, Eq, Structural)]
pub struct ActionStateBuilder {
    default_state: ActionState,
}

impl ActionStateBuilder {
    pub closed spec fn spec_default_state(&self) -> ActionState {
        self.default_state
    }

    pub open spec fn wf(&self) -> bool {
        self.spec_default_state().wf()
    }

    pub fn new(default_state: ActionState) -> (r: Self)
        requires
            default_state.wf(),
        ensures
            r.wf(),
            r.spec_default_state() == default_state,
    {
        Self { default_state }
    }

    /// A fresh copy of the initial state.
    pub fn build(&self) -> (r: ActionState)
        requires
            self.wf(),
        ensures
            r.wf(),
            r == self.spec_default_state(),
    {
        self.default_state
    }
}

/// The state a tile starts with: its builder's for a dynamic tile, and
/// no behaviour for any other.
pub open spec fn initial_state(tile: Tile) -> ActionState {
    match tile {
        Tile::Dynamic(_, _, builder) => builder.spec_default_state(),
        _ => ActionState::Nothing(NothingActionState {  }),
    }
}

/// The animated state of every tile of a map, indexed `[x][y]` as the map.
#[derive(Debug)]
pub struct Actions {
    paving: Vec<Vec<ActionState>>,
    width: i16,
    height: i16,
}

/// Each column of states as a sequence.
pub open spec fn state_views(v: Seq<Vec<ActionState>>) -> Seq<Seq<ActionState>> {
    v.map_values(|column: Vec<ActionState>| column@)
}

fn copy_column(column: &Vec<ActionState>) -> (r: Vec<ActionState>)
    ensures
        r@ == column@,
{
    let mut out: Vec<ActionState> = Vec::new();
    let mut i: usize = 0;
    while i < column.len()
        invariant
            i <= column@.len(),
            out@ == column@.take(i as int),
        decreases column@.len() - i,
    {
        out.push(column[i]);
        assert(out@ =~= column@.take(i as int + 1));
        i = i + 1;
    }
    assert(column@.take(i as int) == column@);
    out
}

impl Actions {
    pub closed spec fn spec_states(&self) -> Seq<Seq<ActionState>> {
        state_views(self.paving@)
    }

    pub closed spec fn spec_width(&self) -> i16 {
        self.width
    }

    pub closed spec fn spec_height(&self) -> i16 {
        self.height
    }

    pub open spec fn in_bounds(&self, x: int, y: int) -> bool {
        0 <= x < self.spec_width() && 0 <= y < self.spec_height()
    }

    pub open spec fn wf(&self) -> bool {
        &&& 0 <= self.spec_width()
        &&& 0 <= self.spec_height()
        &&& self.spec_states().len() == self.spec_width()
        &&& forall|x: int|
            0 <= x < self.spec_width() ==> #[trigger] self.spec_states()[x].len() == self.spec_height()
        &&& forall|x: int, y: int|
            self.in_bounds(x, y) ==> (#[trigger] self.spec_states()[x][y]).wf()
    }

    /// One state per tile of `map`, as each tile starts.
    pub fn new(map: &LevelMap) -> (r: Self)
        requires
            map.wf(),
        ensures
            r.wf(),
            r.spec_width() == map.spec_width(),
            r.spec_height() == map.spec_height(),
            forall|x: int, y: int|
                r.in_bounds(x, y) ==> #[trigger] r.spec_states()[x][y] == initial_state(
                    map.spec_paving()[x][y],
                ),
    {
        let width = map.width();
        let height = map.height();
        let mut paving: Vec<Vec<ActionState>> = Vec::new();
        let mut x: i16 = 0;
        while x < width
            invariant
                map.wf(),
                width == map.spec_width(),
                height == map.spec_height(),
                0 <= x <= width,
                paving@.len() == x,
                forall|a: int| 0 <= a < x ==> #[trigger] paving@[a]@.len() == height,
                forall|a: int, b: int|
                    0 <= a < x && 0 <= b < height ==> #[trigger] paving@[a]@[b] == initial_state(
                        map.spec_paving()[a][b],
                    ) && paving@[a]@[b].wf(),
            decreases width - x,
        {
            let mut line: Vec<ActionState> = Vec::new();
            let mut y: i16 = 0;
            while y < height
                invariant
                    map.wf(),
                    width == map.spec_width(),
                    height == map.spec_height(),
                    0 <= x < width,
                    0 <= y <= height,
                    line@.len() == y,
                    forall|b: int|
                        0 <= b < y ==> #[trigger] line@[b] == initial_state(
                            map.spec_paving()[x as int][b],
                        ) && line@[b].wf(),
                decreases height - y,
            {
                let state = match map.paving_at(x, y) {
                    Some(Tile::Dynamic(_, _, builder)) => builder.build(),
                    _ => ActionState::Nothing(NothingActionState::new()),
                };
                line.push(state);
                y = y + 1;
            }
            paving.push(line);
            x = x + 1;
        }
        let r = Self { paving, width, height };
        assert(r.spec_states().len() == width);
        r
    }

    pub fn width(&self) -> (r: i16)
        ensures
            r == self.spec_width(),
    {
        self.width
    }

    pub fn height(&self) -> (r: i16)
        ensures
            r == self.spec_height(),
    {
        self.height
    }

    /// The state of tile `(x, y)`, or `None` outside the map.
    pub fn state_at(&self, x: i16, y: i16) -> (r: Option<&ActionState>)
        requires
            self.wf(),
        ensures
            r is Some == self.in_bounds(x as int, y as int),
            r matches Some(s) ==> *s == self.spec_states()[x as int][y as int] && s.wf(),
    {
        if x < 0 || y < 0 || x >= self.width || y >= self.height {
            return None;
        }
        Some(&self.paving[x as usize][y as usize])
    }

    /// Reverses the direction of tile `(x, y)`; does nothing outside the map.
    pub fn activate(&mut self, x: i16, y: i16)
        requires
            old(self).wf(),
        ensures
            final(self).wf(),
            final(self).spec_width() == old(self).spec_width(),
            final(self).spec_height() == old(self).spec_height(),
            forall|a: int, b: int|
                old(self).in_bounds(a, b) && (a != x || b != y)
                    ==> #[trigger] final(self).spec_states()[a][b] == old(self).spec_states()[a][b],
            old(self).in_bounds(x as int, y as int) ==> old(self).spec_states()[x as int][y as int].is_triggered(
                final(self).spec_states()[x as int][y as int],
            ),
            !old(self).in_bounds(x as int, y as int)
                ==> final(self).spec_states() == old(self).spec_states(),
    {
        if x < 0 || y < 0 || x >= self.width || y >= self.height {
            return;
        }
        let ghost before = self.spec_states();
        let xi = x as usize;
        let yi = y as usize;
        let mut column = copy_column(&self.paving[xi]);
        assert(column@ == before[xi as int]);
        let next = column[yi].trigger();
        column.set(yi, next);
        self.paving.set(xi, column);
        let ghost after = before.update(xi as int, before[xi as int].update(yi as int, next));
        assert(self.spec_states() =~= after);
        assert forall|a: int, b: int| self.in_bounds(a, b) implies (#[trigger] after[a][b]).wf() by {
            if a != xi || b != yi {
                assert(after[a][b] == before[a][b]);
            }
        }
    }

    /// Lets `microseconds` pass on every tile.
    pub fn notify_elapsed(&mut self, microseconds: u128)
        requires
            old(self).wf(),
        ensures
            final(self).wf(),
            final(self).spec_width() == old(self).spec_width(),
            final(self).spec_height() == old(self).spec_height(),
            forall|a: int, b: int|
                old(self).in_bounds(a, b) ==> old(self).spec_states()[a][b].is_elapsed(
                    microseconds,
                    #[trigger] final(self).spec_states()[a][b],
                ),
    {
        let ghost before = self.spec_states();
        let mut paving: Vec<Vec<ActionState>> = Vec::new();
        let mut x: usize = 0;
        let width = self.width as usize;
        let height = self.height as usize;
        while x < width
            invariant
                self.wf(),
                before == self.spec_states(),
                width == self.spec_width(),
                height == self.spec_height(),
                x <= width,
                paving@.len() == x,
                forall|a: int| 0 <= a < x ==> #[trigger] paving@[a]@.len() == height,
                forall|a: int, b: int|
                    0 <= a < x && 0 <= b < height ==> before[a][b].is_elapsed(
                        microseconds,
                        #[trigger] paving@[a]@[b],
                    ) && paving@[a]@[b].wf(),
            decreases width - x,
        {
            let mut line: Vec<ActionState> = Vec::new();
            let mut y: usize = 0;
            assert(self.paving@[x as int]@ == before[x as int]);
            while y < height
                invariant
                    self.wf(),
                    before == self.spec_states(),
                    width == self.spec_width(),
                    height == self.spec_height(),
                    x < width,
                    y <= height,
                    self.paving@[x as int]@ == before[x as int],
                    line@.len() == y,
                    forall|b: int|
                        0 <= b < y ==> before[x as int][b].is_elapsed(
                            microseconds,
                            #[trigger] line@[b],
                        ) && line@[b].wf(),
                decreases height - y,
            {
                assert(self.in_bounds(x as int, y as int));
                let next = self.paving[x][y].elapsed(microseconds);
                line.push(next);
                y = y + 1;
            }
            paving.push(line);
            x = x + 1;
        }
        self.paving = paving;
    }
}

/// Reversing the direction of a state never moves it: a closed door that is
/// triggered stays closed until time passes.
pub proof fn lemma_trigger_keeps_opening(state: ActionState, next: ActionState)
    requires
        state.wf(),
        state.is_triggered(next),
    ensures
        next.spec_activated_percentage() == state.spec_activated_percentage(),
{
}

/// Whatever time passes, the opening stays within `[0, FULL]`; and once at
/// least the time of a full travel has passed (any positive speed moves a
/// whole opening within `FULL` seconds), it is exactly fully open or fully
/// closed, following the direction.
pub proof fn lemma_elapsed_saturates(state: ActionState, microseconds: u128, next: ActionState)
    requires
        state.wf(),
        state.is_elapsed(microseconds, next),
    ensures
        next.wf(),
        0 <= next.spec_activated_percentage() <= FULL,
        state is Linear && state->Linear_0.spec_speed() > 0 && microseconds >= (FULL as int)
            * MICROSECONDS_PER_SECOND ==> next.spec_activated_percentage() == if state->Linear_0.spec_activated() {
            FULL
        } else {
            0
        },
{
    if state is Linear {
        let speed = state->Linear_0.spec_speed() as int;
        let m = MICROSECONDS_PER_SECOND as int;
        if speed > 0 && microseconds >= (FULL as int) * m {
            assert(speed * microseconds >= microseconds) by (nonlinear_arith)
                requires
                    speed >= 1,
                    microseconds >= 0,
            ;
            assert(travel(speed, microseconds as int) >= FULL) by (nonlinear_arith)
                requires
                    speed * microseconds >= microseconds,
                    microseconds >= FULL * m,
                    m == 1_000_000,
                    travel(speed, microseconds as int) == speed * microseconds / m,
            ;
        }
    }
}

} // verus!
