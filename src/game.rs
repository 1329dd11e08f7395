use vstd::prelude::*;
use std::collections::VecDeque;
use crate::geometry::{Point, Direction, opposite, ARENA_WIDTH, ARENA_HEIGHT};
use crate::cycle::{
    AiDifficulty, Binding, CycleModel, Key, LightCycle, PlayerType, Rgb, after_input,
    after_physics, cycle_wf, trails_view, MAX_BOOST_ENERGY,
};
use crate::ai::{AiRolls, after_ai, draw_rolls, rolls_ok};

verus! {

/// Distance of each starting position from its side wall.
pub const START_INSET: i32 = 400;

/// How a round ended.
#[derive(Clone, Copy, Debug, PartialEq, Eq, Structural)]
pub enum Outcome {
    /// No vehicle survived.
    Draw,
    /// The vehicle at roster slot `index`, driven by `player`, survived.
    Winner { index: usize, player: PlayerType },
}

/// The session's mode.
#[derive(Clone, Copy, Debug, PartialEq, Eq, Structural)]
pub enum GameMode {
    Menu,
    Playing,
    Paused,
    GameOver { winner: Outcome },
}

/// A session: the roster of vehicles, the mode and the round parameters.
pub struct GameState {
    pub cycles: Vec<LightCycle>,
    pub mode: GameMode,
    pub single_player: bool,
    pub ai_difficulty: AiDifficulty,
}

/// The trails of a roster, as sequences.
pub open spec fn roster_trails(cs: Seq<LightCycle>) -> Seq<Seq<Point>> {
    Seq::new(cs.len(), |i: int| cs[i].trail@)
}

/// Number of living vehicles among the first `n` of `cs`.
pub open spec fn alive_prefix(cs: Seq<LightCycle>, n: nat) -> nat
    decreases n,
{
    if n == 0 {
        0
    } else {
        alive_prefix(cs, (n - 1) as nat) + if cs[n - 1].alive { 1nat } else { 0nat }
    }
}

pub open spec fn alive_count(cs: Seq<LightCycle>) -> nat {
    alive_prefix(cs, cs.len())
}

/// The slot of the first living vehicle among the first `n` (or `n` when there is none).
pub open spec fn first_alive_prefix(cs: Seq<LightCycle>, n: nat) -> nat
    decreases n,
{
    if n == 0 {
        0
    } else if first_alive_prefix(cs, (n - 1) as nat) < n - 1 {
        first_alive_prefix(cs, (n - 1) as nat)
    } else if cs[n - 1].alive {
        (n - 1) as nat
    } else {
        n
    }
}

/// The outcome of a roster with at most one survivor.
pub open spec fn outcome_of(cs: Seq<LightCycle>) -> Outcome {
    if alive_count(cs) == 0 {
        Outcome::Draw
    } else {
        let i = first_alive_prefix(cs, cs.len());
        Outcome::Winner { index: i as usize, player: cs[i as int].player_type }
    }
}

/// The mode after the end-of-round test: over when at most one vehicle lives.
pub open spec fn mode_after_round(mode: GameMode, cs: Seq<LightCycle>) -> GameMode {
    if alive_count(cs) <= 1 {
        GameMode::GameOver { winner: outcome_of(cs) }
    } else {
        mode
    }
}

/// The first vehicle of a round: a human at the left, heading right.
pub open spec fn first_start() -> CycleModel {
    CycleModel {
        position: Point { x: START_INSET, y: (ARENA_HEIGHT / 2) as i32 },
        direction: Direction::Right,
        trail: Seq::empty(),
        color: Rgb { r: 0, g: 255, b: 255 },
        alive: true,
        player_type: PlayerType::Human,
        controls: Some(Binding { up: Key::W, down: Key::S, left: Key::A, right: Key::D }),
        boost_energy: MAX_BOOST_ENERGY,
        is_boosting: false,
        boost_key: Some(Key::LShift),
        ai_difficulty: AiDifficulty::Medium,
    }
}

/// The second vehicle of a round: at the right, heading left; the computer in a
/// solo round, else a second human on the arrow keys.
pub open spec fn second_start(single_player: bool, tier: AiDifficulty) -> CycleModel {
    CycleModel {
        position: Point {
            x: (ARENA_WIDTH - START_INSET) as i32,
            y: (ARENA_HEIGHT / 2) as i32,
        },
        direction: Direction::Left,
        trail: Seq::empty(),
        color: Rgb { r: 255, g: 165, b: 0 },
        alive: true,
        player_type: if single_player { PlayerType::Computer } else { PlayerType::Human },
        controls: if single_player {
            None
        } else {
            Some(Binding { up: Key::Up, down: Key::Down, left: Key::Left, right: Key::Right })
        },
        boost_energy: MAX_BOOST_ENERGY,
        is_boosting: false,
        boost_key: if single_player { None } else { Some(Key::RShift) },
        ai_difficulty: tier,
    }
}

/// The tier that follows `t` in the menu's cycle.
pub open spec fn next_tier(t: AiDifficulty) -> AiDifficulty {
    match t {
        AiDifficulty::Easy => AiDifficulty::Medium,
        AiDifficulty::Medium => AiDifficulty::Hard,
        AiDifficulty::Hard => AiDifficulty::Easy,
    }
}

impl GameState {
    /// The invariant of a session: every vehicle keeps its own invariant.
    pub open spec fn wf(&self) -> bool {
        forall|i: int| 0 <= i < self.cycles@.len() ==> cycle_wf(#[trigger] self.cycles@[i]@)
    }

    /// A session in the menu, with an empty roster.
    pub fn new() -> (r: GameState)
        ensures
            r.wf(),
            r.cycles@.len() == 0,
            r.mode == GameMode::Menu,
            r.single_player,
            r.ai_difficulty == AiDifficulty::Medium,
    {
        GameState {
            cycles: Vec::new(),
            mode: GameMode::Menu,
            single_player: true,
            ai_difficulty: AiDifficulty::Medium,
        }
    }

    /// Starts a round: exactly two fresh vehicles at mirrored positions with opposite
    /// headings and full energy, and the mode becomes `Playing`.
    pub fn start_game(&mut self, single_player: bool)
        ensures
            final(self).wf(),
            final(self).cycles@.len() == 2,
            final(self).cycles@[0]@ == first_start(),
            final(self).cycles@[1]@ == second_start(single_player, old(self).ai_difficulty),
            final(self).mode == GameMode::Playing,
            final(self).single_player == single_player,
            final(self).ai_difficulty == old(self).ai_difficulty,
            final(self).cycles@[0].position.x + final(self).cycles@[1].position.x == ARENA_WIDTH,
            final(self).cycles@[0].position.y == final(self).cycles@[1].position.y,
            opposite(final(self).cycles@[0].direction, final(self).cycles@[1].direction),
            final(self).cycles@[0].boost_energy == MAX_BOOST_ENERGY,
            final(self).cycles@[1].boost_energy == MAX_BOOST_ENERGY,
    {
        self.cycles = Vec::new();
        self.single_player = single_player;
        let first = LightCycle::new(
            START_INSET,
            ARENA_HEIGHT / 2,
            Direction::Right,
            Rgb { r: 0, g: 255, b: 255 },
            PlayerType::Human,
            Some(Binding { up: Key::W, down: Key::S, left: Key::A, right: Key::D }),
            Some(Key::LShift),
            AiDifficulty::Medium,
        );
        let second = LightCycle::new(
            ARENA_WIDTH - START_INSET,
            ARENA_HEIGHT / 2,
            Direction::Left,
            Rgb { r: 255, g: 165, b: 0 },
            if single_player { PlayerType::Computer } else { PlayerType::Human },
            if single_player {
                None
            } else {
                Some(Binding { up: Key::Up, down: Key::Down, left: Key::Left, right: Key::Right })
            },
            if single_player { None } else { Some(Key::RShift) },
            self.ai_difficulty,
        );
        self.cycles.push(first);
        self.cycles.push(second);
        self.mode = GameMode::Playing;
    }
}

/// `after` is the roster `before` one tick later: each vehicle decided with its draws
/// and moved, both against the trails of `before`.
pub open spec fn ticked(before: Seq<LightCycle>, after: Seq<LightCycle>, rolls: Seq<AiRolls>) -> bool {
    &&& after.len() == before.len()
    &&& forall|i: int|
        0 <= i < before.len() ==> (#[trigger] after[i])@ == after_physics(
            after_ai(before[i]@, roster_trails(before), rolls[i]),
            roster_trails(before),
            i,
        )
}

/// `g` holds a freshly started round.
pub open spec fn round_started(g: GameState, single_player: bool, tier: AiDifficulty) -> bool {
    &&& g.cycles@.len() == 2
    &&& g.cycles@[0]@ == first_start()
    &&& g.cycles@[1]@ == second_start(single_player, tier)
    &&& g.mode == GameMode::Playing
    &&& g.single_player == single_player
    &&& g.ai_difficulty == tier
}

/// `g` is back in the menu with an empty roster, its parameters kept from `prev`.
pub open spec fn back_to_menu(g: GameState, prev: GameState) -> bool {
    &&& g.cycles@.len() == 0
    &&& g.mode == GameMode::Menu
    &&& g.single_player == prev.single_player
    &&& g.ai_difficulty == prev.ai_difficulty
}

/// A copy of every trail of the roster, read by a whole pass of a tick.
pub fn snapshot(cycles: &Vec<LightCycle>) -> (r: Vec<VecDeque<Point>>)
    ensures
        trails_view(r@) == roster_trails(cycles@),
{
    let mut all: Vec<VecDeque<Point>> = Vec::new();
    let mut i: usize = 0;
    while i < cycles.len()
        invariant
            0 <= i <= cycles@.len(),
            all@.len() == i,
            forall|k: int| 0 <= k < i ==> (#[trigger] all@[k])@ == cycles@[k].trail@,
        decreases cycles@.len() - i,
    {
        let trail = &cycles[i].trail;
        let mut copy: VecDeque<Point> = VecDeque::new();
        let mut j: usize = 0;
        while j < trail.len()
            invariant
                0 <= j <= trail@.len(),
                copy@ == trail@.take(j as int),
            decreases trail@.len() - j,
        {
            copy.push_back(trail[j]);
            assert(trail@.take(j + 1) == trail@.take(j as int).push(trail@[j as int]));
            j = j + 1;
        }
        assert(trail@.take(j as int) == trail@);
        all.push(copy);
        i = i + 1;
    }
    assert(trails_view(all@) =~= roster_trails(cycles@));
    all
}

proof fn lemma_first_alive(cs: Seq<LightCycle>, n: nat)
    requires
        n <= cs.len(),
    ensures
        first_alive_prefix(cs, n) <= n,
        alive_prefix(cs, n) <= n,
        first_alive_prefix(cs, n) < n <==> alive_prefix(cs, n) > 0,
        first_alive_prefix(cs, n) < n ==> cs[first_alive_prefix(cs, n) as int].alive,
    decreases n,
{
    if n > 0 {
        lemma_first_alive(cs, (n - 1) as nat);
    }
}

impl GameState {
    /// Ends the round when at most one vehicle is alive: no survivor is a draw, one
    /// survivor wins under its slot and controller kind. Otherwise nothing changes.
    pub fn check_game_over(&mut self)
        ensures
            final(self).mode == mode_after_round(old(self).mode, old(self).cycles@),
            final(self).cycles == old(self).cycles,
            final(self).single_player == old(self).single_player,
            final(self).ai_difficulty == old(self).ai_difficulty,
    {
        let mut alive_count: usize = 0;
        let mut first: usize = 0;
        let mut i: usize = 0;
        while i < self.cycles.len()
            invariant
                0 <= i <= self.cycles@.len(),
                self.cycles == old(self).cycles,
                self.mode == old(self).mode,
                self.single_player == old(self).single_player,
                self.ai_difficulty == old(self).ai_difficulty,
                alive_count == alive_prefix(self.cycles@, i as nat),
                alive_count <= i,
                first == first_alive_prefix(self.cycles@, i as nat),
            decreases self.cycles@.len() - i,
        {
            proof {
                lemma_first_alive(self.cycles@, i as nat);
            }
            if first == i && self.cycles[i].alive {
                first = i;
            } else if first == i {
                first = i + 1;
            }
            if self.cycles[i].alive {
                alive_count = alive_count + 1;
            }
            i = i + 1;
        }
        proof {
            lemma_first_alive(self.cycles@, self.cycles@.len());
        }
        if alive_count <= 1 {
            let winner = if alive_count == 0 {
                Outcome::Draw
            } else {
                Outcome::Winner { index: first, player: self.cycles[first].player_type }
            };
            self.mode = GameMode::GameOver { winner };
        }
    }
}

impl GameState {
    /// Advances a round by one tick with the given random draws (`rolls[i]` for the
    /// vehicle at slot `i`): every driver decides against the trails as they stood
    /// before the tick, every vehicle then moves and is tested against those same
    /// trails, and the round ends when at most one vehicle lives. Outside `Playing`
    /// nothing changes. The result tells, slot by slot, which vehicles died this tick.
    pub fn update_with_rolls(&mut self, rolls: &Vec<AiRolls>) -> (died: Vec<bool>)
        requires
            old(self).wf(),
            rolls@.len() >= old(self).cycles@.len(),
        ensures
            final(self).wf(),
            final(self).single_player == old(self).single_player,
            final(self).ai_difficulty == old(self).ai_difficulty,
            old(self).mode != GameMode::Playing ==> final(self).cycles == old(self).cycles
                && final(self).mode == old(self).mode && died@.len() == 0,
            old(self).mode == GameMode::Playing ==> {
                &&& ticked(old(self).cycles@, final(self).cycles@, rolls@)
                &&& died@.len() == old(self).cycles@.len()
                &&& forall|i: int|
                    0 <= i < died@.len() ==> #[trigger] died@[i] == (old(self).cycles@[i].alive
                        && !final(self).cycles@[i].alive)
                &&& final(self).mode == mode_after_round(GameMode::Playing, final(self).cycles@)
            },
    {
        let mut died: Vec<bool> = Vec::new();
        if self.mode != GameMode::Playing {
            return died;
        }
        let ghost start = self.cycles@;
        let ghost snap = roster_trails(start);
        let decide_trails = snapshot(&self.cycles);
        let mut i: usize = 0;
        while i < self.cycles.len()
            invariant
                0 <= i <= self.cycles@.len(),
                self.cycles@.len() == start.len(),
                rolls@.len() >= start.len(),
                trails_view(decide_trails@) == snap,
                snap == roster_trails(start),
                self.mode == GameMode::Playing,
                self.single_player == old(self).single_player,
                self.ai_difficulty == old(self).ai_difficulty,
                forall|k: int| 0 <= k < start.len() ==> cycle_wf(#[trigger] start[k]@),
                forall|k: int| 0 <= k < i ==> (#[trigger] self.cycles@[k])@ == after_ai(start[k]@, snap, rolls@[k]),
                forall|k: int| i <= k < start.len() ==> #[trigger] self.cycles@[k] == start[k],
                forall|k: int| 0 <= k < i ==> cycle_wf(#[trigger] self.cycles@[k]@),
            decreases start.len() - i,
        {
            self.cycles[i].ai_step(decide_trails.as_slice(), rolls[i]);
            i = i + 1;
        }
        let ghost mid = self.cycles@;
        assert(roster_trails(mid) =~= snap);
        let move_trails = snapshot(&self.cycles);
        let mut i: usize = 0;
        while i < self.cycles.len()
            invariant
                0 <= i <= self.cycles@.len(),
                self.cycles@.len() == start.len(),
                mid.len() == start.len(),
                died@.len() == i,
                trails_view(move_trails@) == snap,
                self.mode == GameMode::Playing,
                self.single_player == old(self).single_player,
                self.ai_difficulty == old(self).ai_difficulty,
                forall|k: int| 0 <= k < start.len() ==> (#[trigger] mid[k])@ == after_ai(start[k]@, snap, rolls@[k]),
                forall|k: int| 0 <= k < start.len() ==> cycle_wf(#[trigger] mid[k]@),
                forall|k: int| 0 <= k < i ==> (#[trigger] self.cycles@[k])@ == after_physics(mid[k]@, snap, k),
                forall|k: int| i <= k < start.len() ==> #[trigger] self.cycles@[k] == mid[k],
                forall|k: int| 0 <= k < i ==> cycle_wf(#[trigger] self.cycles@[k]@),
                forall|k: int| 0 <= k < i ==> #[trigger] died@[k] == (start[k].alive && !self.cycles@[k].alive),
            decreases start.len() - i,
        {
            let was_alive = self.cycles[i].alive;
            self.cycles[i].update(move_trails.as_slice(), i);
            died.push(was_alive && !self.cycles[i].alive);
            i = i + 1;
        }
        self.check_game_over();
        died
    }

    /// Advances a round by one tick, drawing the drivers' random numbers afresh.
    pub fn update(&mut self) -> (died: Vec<bool>)
        requires
            old(self).wf(),
        ensures
            final(self).wf(),
            final(self).single_player == old(self).single_player,
            final(self).ai_difficulty == old(self).ai_difficulty,
            old(self).mode != GameMode::Playing ==> final(self).cycles == old(self).cycles
                && final(self).mode == old(self).mode && died@.len() == 0,
            old(self).mode == GameMode::Playing ==> {
                &&& final(self).cycles@.len() == old(self).cycles@.len()
                &&& died@.len() == old(self).cycles@.len()
                &&& exists|rolls: Seq<AiRolls>|
                    rolls.len() == old(self).cycles@.len() && (forall|i: int|
                        0 <= i < rolls.len() ==> rolls_ok(#[trigger] rolls[i])) && #[trigger] ticked(
                        old(self).cycles@,
                        final(self).cycles@,
                        rolls,
                    )
                &&& final(self).mode == mode_after_round(GameMode::Playing, final(self).cycles@)
            },
    {
        let mut rolls: Vec<AiRolls> = Vec::new();
        let mut i: usize = 0;
        while i < self.cycles.len()
            invariant
                0 <= i <= self.cycles@.len(),
                rolls@.len() == i,
                forall|k: int| 0 <= k < i ==> rolls_ok(#[trigger] rolls@[k]),
            decreases self.cycles@.len() - i,
        {
            rolls.push(draw_rolls());
            i = i + 1;
        }
        self.update_with_rolls(&rolls)
    }
}

impl GameState {
    /// Leaves the round for the menu and clears the roster.
    fn to_menu(&mut self)
        ensures
            back_to_menu(*final(self), *old(self)),
            final(self).wf(),
    {
        self.cycles = Vec::new();
        self.mode = GameMode::Menu;
    }

    /// Reacts to a key press. In the menu: `Key1` starts a solo round, `Key2` a
    /// two-player round, `D` cycles the tier. While playing: `P` pauses, `Escape`
    /// returns to the menu, any other key goes to every vehicle. While paused: `P`
    /// resumes, `Escape` returns to the menu. After a round: `Escape` returns to the
    /// menu. Any other key changes nothing.
    pub fn key_down_event(&mut self, key: Key)
        requires
            old(self).wf(),
        ensures
            final(self).wf(),
            old(self).mode == GameMode::Menu ==> {
                if key == Key::Key1 {
                    round_started(*final(self), true, old(self).ai_difficulty)
                } else if key == Key::Key2 {
                    round_started(*final(self), false, old(self).ai_difficulty)
                } else if key == Key::D {
                    *final(self) == (GameState {
                        ai_difficulty: next_tier(old(self).ai_difficulty),
                        ..*old(self)
                    })
                } else {
                    *final(self) == *old(self)
                }
            },
            old(self).mode == GameMode::Playing ==> {
                if key == Key::P {
                    *final(self) == (GameState { mode: GameMode::Paused, ..*old(self) })
                } else if key == Key::Escape {
                    back_to_menu(*final(self), *old(self))
                } else {
                    &&& final(self).mode == old(self).mode
                    &&& final(self).single_player == old(self).single_player
                    &&& final(self).ai_difficulty == old(self).ai_difficulty
                    &&& final(self).cycles@.len() == old(self).cycles@.len()
                    &&& forall|i: int|
                        0 <= i < old(self).cycles@.len() ==> (#[trigger] final(self).cycles@[i])@
                            == after_input(old(self).cycles@[i]@, key, true)
                }
            },
            old(self).mode == GameMode::Paused ==> {
                if key == Key::P {
                    *final(self) == (GameState { mode: GameMode::Playing, ..*old(self) })
                } else if key == Key::Escape {
                    back_to_menu(*final(self), *old(self))
                } else {
                    *final(self) == *old(self)
                }
            },
            old(self).mode is GameOver ==> {
                if key == Key::Escape {
                    back_to_menu(*final(self), *old(self))
                } else {
                    *final(self) == *old(self)
                }
            },
    {
        match self.mode {
            GameMode::Menu => {
                if key == Key::Key1 {
                    self.start_game(true);
                } else if key == Key::Key2 {
                    self.start_game(false);
                } else if key == Key::D {
                    self.ai_difficulty = match self.ai_difficulty {
                        AiDifficulty::Easy => AiDifficulty::Medium,
                        AiDifficulty::Medium => AiDifficulty::Hard,
                        AiDifficulty::Hard => AiDifficulty::Easy,
                    };
                }
            },
            GameMode::Playing => {
                if key == Key::P {
                    self.mode = GameMode::Paused;
                } else if key == Key::Escape {
                    self.to_menu();
                } else {
                    self.send_key(key, true);
                }
            },
            GameMode::Paused => {
                if key == Key::P {
                    self.mode = GameMode::Playing;
                } else if key == Key::Escape {
                    self.to_menu();
                }
            },
            GameMode::GameOver { .. } => {
                if key == Key::Escape {
                    self.to_menu();
                }
            },
        }
    }

    /// Reacts to a key release: while playing it goes to every vehicle (it ends a
    /// held boost); otherwise nothing changes.
    pub fn key_up_event(&mut self, key: Key)
        requires
            old(self).wf(),
        ensures
            final(self).wf(),
            old(self).mode != GameMode::Playing ==> *final(self) == *old(self),
            old(self).mode == GameMode::Playing ==> {
                &&& final(self).mode == old(self).mode
                &&& final(self).single_player == old(self).single_player
                &&& final(self).ai_difficulty == old(self).ai_difficulty
                &&& final(self).cycles@.len() == old(self).cycles@.len()
                &&& forall|i: int|
                    0 <= i < old(self).cycles@.len() ==> (#[trigger] final(self).cycles@[i])@
                        == after_input(old(self).cycles@[i]@, key, false)
            },
    {
        if self.mode == GameMode::Playing {
            self.send_key(key, false);
        }
    }

    /// Hands a key event to every vehicle of the roster.
    fn send_key(&mut self, key: Key, pressed: bool)
        requires
            old(self).wf(),
        ensures
            final(self).wf(),
            final(self).mode == old(self).mode,
            final(self).single_player == old(self).single_player,
            final(self).ai_difficulty == old(self).ai_difficulty,
            final(self).cycles@.len() == old(self).cycles@.len(),
            forall|i: int|
                0 <= i < old(self).cycles@.len() ==> (#[trigger] final(self).cycles@[i])@
                    == after_input(old(self).cycles@[i]@, key, pressed),
    {
        let ghost start = self.cycles@;
        let mut i: usize = 0;
        while i < self.cycles.len()
            invariant
                0 <= i <= self.cycles@.len(),
                self.cycles@.len() == start.len(),
                start == old(self).cycles@,
                self.mode == old(self).mode,
                self.single_player == old(self).single_player,
                self.ai_difficulty == old(self).ai_difficulty,
                forall|k: int| 0 <= k < start.len() ==> cycle_wf(#[trigger] start[k]@),
                forall|k: int| 0 <= k < i ==> (#[trigger] self.cycles@[k])@ == after_input(start[k]@, key, pressed),
                forall|k: int| i <= k < start.len() ==> #[trigger] self.cycles@[k] == start[k],
                forall|k: int| 0 <= k < i ==> cycle_wf(#[trigger] self.cycles@[k]@),
            decreases start.len() - i,
        {
            self.cycles[i].handle_input(key, pressed);
            i = i + 1;
        }
    }
}

} // verus!
