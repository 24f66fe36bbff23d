use vstd::prelude::*;

use crate::actions::{Action, Entity, GameAction, MoveDirection, PlayerAction};
use crate::baddies::Baddie;
use crate::constants::{HEIGHT, MAX_Y, SPAWN_FREQUENCY, WIDTH};
use crate::geometry::Vec2;
use crate::input::{
    button_down_input, button_up_input, decide_button_down, decide_button_up, decide_key_down,
    decide_key_up, key_down_input, key_up_input, Button, Input, Key,
};
use crate::player::Player;

verus! {

/// Integer handle of a game controller.
pub type ControllerId = i32;

/// Who controls a player: one of the two keyboard layouts, or a controller.
#[derive(Clone, Copy, Debug, PartialEq, Eq, Hash, Structural)]
pub enum PlayerId {
    Arrows,
    ZQSD,
    Controller(ControllerId),
}

impl From<ControllerId> for PlayerId {
    fn from(id: ControllerId) -> (r: PlayerId)
        ensures
            r == PlayerId::Controller(id),
    {
        PlayerId::Controller(id)
    }
}

impl vstd::std_specs::convert::FromSpecImpl<ControllerId> for PlayerId {
    open spec fn obeys_from_spec() -> bool {
        true
    }

    open spec fn from_spec(id: ControllerId) -> PlayerId {
        PlayerId::Controller(id)
    }
}

/// How many times each direction key of a player is held down.
pub type HeldKeys = (PlayerId, u32, u32);

/// The whole state of a game, without its graphical resources.
pub struct MainState {
    players: Vec<(PlayerId, Player)>,
    actions: Vec<Action>,
    baddies: Vec<Baddie>,
    paused: bool,
    input_stack: Vec<HeldKeys>,
    timer: u32,
}

/// What a game state holds, as mathematical values.
pub struct GameView {
    /// The players, in the order in which they joined.
    pub players: Seq<(PlayerId, Player)>,
    /// Actions waiting for the next step, oldest first.
    pub actions: Seq<Action>,
    pub baddies: Seq<Baddie>,
    pub paused: bool,
    /// Held direction keys, one entry per player that ever pressed one.
    pub input_stack: Seq<HeldKeys>,
    /// Frames simulated so far, modulo 2^32.
    pub timer: u32,
}

impl View for MainState {
    type V = GameView;

    closed spec fn view(&self) -> GameView {
        GameView {
            players: self.players@,
            actions: self.actions@,
            baddies: self.baddies@,
            paused: self.paused,
            input_stack: self.input_stack@,
            timer: self.timer,
        }
    }
}

/// Where a freshly spawned player stands: mid-field, on the ground.
pub open spec fn spawn_point() -> Vec2 {
    Vec2 { x: (WIDTH / 2) as i32, y: MAX_Y }
}

/// No two players share an id.
pub open spec fn unique_players(ps: Seq<(PlayerId, Player)>) -> bool {
    forall|i: int, j: int| 0 <= i < j < ps.len() ==> ps[i].0 != ps[j].0
}

/// No two entries of the held keys share an id.
pub open spec fn unique_held(s: Seq<HeldKeys>) -> bool {
    forall|i: int, j: int| 0 <= i < j < s.len() ==> s[i].0 != s[j].0
}

/// Some player has id `id`.
pub open spec fn has_player(ps: Seq<(PlayerId, Player)>, id: PlayerId) -> bool {
    exists|k: int| 0 <= k < ps.len() && ps[k].0 == id
}

/// The place of the player with id `id` (meaningful when there is one).
pub open spec fn player_index(ps: Seq<(PlayerId, Player)>, id: PlayerId) -> int {
    choose|k: int| 0 <= k < ps.len() && ps[k].0 == id
}

/// The players and pause flag after carrying out one action. A player
/// action waits out a pause, and one for an unknown player has no effect.
pub open spec fn apply_action(state: (Seq<(PlayerId, Player)>, bool), action: Action) -> (
    Seq<(PlayerId, Player)>,
    bool,
) {
    let (ps, paused) = state;
    match action {
        Action::Game(GameAction::Pause) => (ps, !paused),
        Action::Game(GameAction::Quit) => (ps, paused),
        Action::Game(GameAction::Spawn(id)) => if has_player(ps, id) {
            (ps, paused)
        } else {
            (ps.push((id, Player::fresh((ps.len() % 256) as u8, spawn_point()))), paused)
        },
        Action::Player(a, id) => if paused || !has_player(ps, id) {
            (ps, paused)
        } else {
            let k = player_index(ps, id);
            (ps.update(k, (id, ps[k].1.acted(a))), paused)
        },
    }
}

/// The players and pause flag after carrying out `actions` in order.
pub open spec fn apply_actions(state: (Seq<(PlayerId, Player)>, bool), actions: Seq<Action>) -> (
    Seq<(PlayerId, Player)>,
    bool,
)
    decreases actions.len(),
{
    if actions.len() == 0 {
        state
    } else {
        apply_action(apply_actions(state, actions.drop_last()), actions.last())
    }
}

/// `actions` asks to quit the game.
pub open spec fn asks_quit(actions: Seq<Action>) -> bool {
    exists|i: int| 0 <= i < actions.len() && actions[i] == Action::Game(GameAction::Quit)
}


/// Where a player steers given how often each direction key is held:
/// towards the one direction held, nowhere when both or none are.
pub open spec fn direction_of(left: u32, right: u32) -> Option<MoveDirection> {
    if left > 0 && right == 0 {
        Some(MoveDirection::Left)
    } else if right > 0 && left == 0 {
        Some(MoveDirection::Right)
    } else {
        None
    }
}

/// One move action per entry of the held keys, in their order.
pub open spec fn moves(s: Seq<HeldKeys>) -> Seq<Action> {
    Seq::new(
        s.len(),
        |i: int| Action::Player(PlayerAction::Move(direction_of(s[i].1, s[i].2)), s[i].0),
    )
}

/// A hold count after a press (`up`) or a release, saturating both ways.
pub open spec fn recount(n: u32, up: bool) -> u32 {
    if up {
        if n == u32::MAX {
            n
        } else {
            (n + 1) as u32
        }
    } else {
        if n == 0 {
            0
        } else {
            (n - 1) as u32
        }
    }
}

/// An entry of the held keys after a press or release of `dir`.
pub open spec fn recounted(e: HeldKeys, dir: MoveDirection, up: bool) -> HeldKeys {
    match dir {
        MoveDirection::Left => (e.0, recount(e.1, up), e.2),
        MoveDirection::Right => (e.0, e.1, recount(e.2, up)),
    }
}

/// The held keys after a press or release of `dir` by `id`; a player seen
/// for the first time gets an entry at the end.
pub open spec fn counted(s: Seq<HeldKeys>, dir: MoveDirection, id: PlayerId, up: bool) -> Seq<
    HeldKeys,
> {
    if exists|k: int| 0 <= k < s.len() && s[k].0 == id {
        let k = choose|k: int| 0 <= k < s.len() && s[k].0 == id;
        s.update(k, recounted(s[k], dir, up))
    } else {
        s.push(recounted((id, 0, 0), dir, up))
    }
}

/// Whether the player `id` plays and, if so, whether it is on the ground.
pub open spec fn presence(ps: Seq<(PlayerId, Player)>, id: PlayerId) -> Option<bool> {
    if has_player(ps, id) {
        Some(ps[player_index(ps, id)].1.body.grounded())
    } else {
        None
    }
}

/// The collision actions queued when the players at `i` and `j` overlap:
/// each is told of the other's body.
pub open spec fn bump_pair(ps: Seq<(PlayerId, Player)>, i: int, j: int) -> Seq<Action> {
    if ps[i].1.overlaps_player_spec(ps[j].1.body) {
        seq![
            Action::Player(PlayerAction::Collides(Entity::Player(ps[j].1.body)), ps[i].0),
            Action::Player(PlayerAction::Collides(Entity::Player(ps[i].1.body)), ps[j].0),
        ]
    } else {
        Seq::empty()
    }
}

/// Collision actions of the pairs `(i, j)` with `i < j < m`, by increasing `j`.
pub open spec fn bump_row(ps: Seq<(PlayerId, Player)>, i: int, m: int) -> Seq<Action>
    decreases m - i,
{
    if m <= i + 1 {
        Seq::empty()
    } else {
        bump_row(ps, i, m - 1) + bump_pair(ps, i, m - 1)
    }
}

/// Collision actions of all pairs `(i, j)` with `i < m` and `i < j`, by
/// increasing `i`, then `j`.
pub open spec fn bumps(ps: Seq<(PlayerId, Player)>, m: int) -> Seq<Action>
    decreases m,
{
    if m <= 0 {
        Seq::empty()
    } else {
        bumps(ps, m - 1) + bump_row(ps, m - 1, ps.len() as int)
    }
}

/// The baddies whose top is still above the bottom of the window, in order.
pub open spec fn on_screen(bs: Seq<Baddie>) -> Seq<Baddie>
    decreases bs.len(),
{
    if bs.len() == 0 {
        bs
    } else {
        let rest = on_screen(bs.drop_last());
        if bs.last().body.y < HEIGHT {
            rest.push(bs.last())
        } else {
            rest
        }
    }
}

/// The player at `k` touches baddie `b`.
pub open spec fn touches(ps: Seq<(PlayerId, Player)>, k: int, b: Baddie) -> bool {
    ps[k].1.overlaps_spec(b.body)
}

/// Some player touches baddie `b`.
pub open spec fn touched(ps: Seq<(PlayerId, Player)>, b: Baddie) -> bool {
    exists|k: int| 0 <= k < ps.len() && touches(ps, k, b)
}

/// The first player that touches `b` (meaningful when one does).
pub open spec fn first_toucher(ps: Seq<(PlayerId, Player)>, b: Baddie) -> int {
    choose|k: int|
        0 <= k < ps.len() && touches(ps, k, b) && forall|j: int| 0 <= j < k ==> !touches(ps, j, b)
}

/// Some baddie is touched by some player.
pub open spec fn any_caught(ps: Seq<(PlayerId, Player)>, bs: Seq<Baddie>) -> bool {
    exists|i: int| 0 <= i < bs.len() && touched(ps, bs[i])
}

/// The first baddie touched by a player (meaningful when there is one).
pub open spec fn first_caught(ps: Seq<(PlayerId, Player)>, bs: Seq<Baddie>) -> int {
    choose|i: int|
        0 <= i < bs.len() && touched(ps, bs[i]) && forall|j: int| 0 <= j < i ==> !touched(ps, bs[j])
}

/// The baddie after one frame of falling.
pub open spec fn fallen(b: Baddie) -> Baddie {
    Baddie { body: b.body.translated(b.speed), ..b }
}

impl GameView {
    pub open spec fn wf(self) -> bool {
        &&& unique_players(self.players)
        &&& unique_held(self.input_stack)
        &&& forall|i: int| 0 <= i < self.baddies.len() ==> (#[trigger] self.baddies[i]).wf()
    }

    /// The state once `input` has been taken into account: an action is
    /// queued, or the held keys are recounted and every player's steering is
    /// queued anew.
    pub open spec fn after_input(self, input: Input) -> GameView {
        match input {
            Input::Nothing => self,
            Input::Act(a) => GameView { actions: self.actions.push(a), ..self },
            Input::Press(dir, id) => {
                let held = counted(self.input_stack, dir, id, true);
                GameView { input_stack: held, actions: self.actions + moves(held), ..self }
            },
            Input::Release(dir, id) => {
                let held = counted(self.input_stack, dir, id, false);
                GameView { input_stack: held, actions: self.actions + moves(held), ..self }
            },
        }
    }

    /// The state after one frame of simulation, `spawned` being the baddie
    /// that appears in it, if any: every player moves; each pair of
    /// overlapping players is queued a collision; baddies below the window
    /// leave; the first baddie that a player touches is taken out of the game
    /// and queued as a collision for the first player that touches it; the
    /// other baddies fall; the frame counter advances.
    pub open spec fn advanced(self, spawned: Option<Baddie>) -> GameView {
        let ps = Seq::new(
            self.players.len(),
            |i: int| (self.players[i].0, self.players[i].1.moved()),
        );
        let acts = self.actions + bumps(ps, ps.len() as int);
        let bs = on_screen(
            match spawned {
                Some(b) => self.baddies.push(b),
                None => self.baddies,
            },
        );
        let left = if any_caught(ps, bs) {
            bs.remove(first_caught(ps, bs))
        } else {
            bs
        };
        let acts = if any_caught(ps, bs) {
            let b = bs[first_caught(ps, bs)];
            acts.push(Action::Player(PlayerAction::Collides(Entity::Baddie(b)), ps[first_toucher(ps, b)].0))
        } else {
            acts
        };
        GameView {
            players: ps,
            actions: acts,
            baddies: Seq::new(left.len(), |i: int| fallen(left[i])),
            timer: if self.timer == u32::MAX {
                0
            } else {
                (self.timer + 1) as u32
            },
            ..self
        }
    }

    /// The state once its waiting actions are carried out and dropped.
    pub open spec fn processed(self) -> GameView {
        let (players, paused) = apply_actions((self.players, self.paused), self.actions);
        GameView { players, paused, actions: Seq::empty(), ..self }
    }
}

proof fn lemma_apply_action_keeps_unique(state: (Seq<(PlayerId, Player)>, bool), action: Action)
    requires
        unique_players(state.0),
    ensures
        unique_players(apply_action(state, action).0),
        state.0.len() <= apply_action(state, action).0.len(),
        forall|k: int|
            0 <= k < state.0.len() ==> (#[trigger] apply_action(state, action).0[k]).0
                == state.0[k].0,
{
    let ps = state.0;
    match action {
        Action::Player(a, id) => {
            if !state.1 && has_player(ps, id) {
                let k = player_index(ps, id);
                assert(0 <= k < ps.len() && ps[k].0 == id);
            }
        },
        _ => {},
    }
}


fn recount_entry(e: HeldKeys, dir: MoveDirection, up: bool) -> (r: HeldKeys)
    ensures
        r == recounted(e, dir, up),
{
    let bump = |n: u32| -> (m: u32)
        ensures
            m == recount(n, up),
        {
            if up {
                n.saturating_add(1)
            } else {
                n.saturating_sub(1)
            }
        };
    match dir {
        MoveDirection::Left => (e.0, bump(e.1), e.2),
        MoveDirection::Right => (e.0, e.1, bump(e.2)),
    }
}

fn steering(left: u32, right: u32) -> (r: Option<MoveDirection>)
    ensures
        r == direction_of(left, right),
{
    if left > 0 && right == 0 {
        Some(MoveDirection::Left)
    } else if right > 0 && left == 0 {
        Some(MoveDirection::Right)
    } else {
        None
    }
}

/// A baddie that may appear at a frame numbered `timer`: one appears every
/// `SPAWN_FREQUENCY` frames, well formed and just above the window.
pub open spec fn fresh_spawn(spawned: Option<Baddie>, timer: u32) -> bool {
    &&& (spawned.is_some() <==> timer % SPAWN_FREQUENCY == 0)
    &&& (spawned matches Some(b) ==> b.wf() && b.body.y == -b.body.w)
}

proof fn lemma_on_screen(bs: Seq<Baddie>)
    requires
        forall|j: int| 0 <= j < bs.len() ==> (#[trigger] bs[j]).wf(),
    ensures
        forall|i: int|
            0 <= i < on_screen(bs).len() ==> (#[trigger] on_screen(bs)[i]).wf() && on_screen(
                bs,
            )[i].body.y < HEIGHT,
    decreases bs.len(),
{
    if bs.len() > 0 {
        let rest = bs.drop_last();
        assert forall|j: int| 0 <= j < rest.len() implies (#[trigger] rest[j]).wf() by {
            assert(rest[j] == bs[j]);
        }
        lemma_on_screen(rest);
        assert(bs.last() == bs[bs.len() - 1]);
    }
}

proof fn lemma_first_toucher(ps: Seq<(PlayerId, Player)>, b: Baddie, k: int)
    requires
        0 <= k < ps.len(),
        touches(ps, k, b),
        forall|j: int| 0 <= j < k ==> !touches(ps, j, b),
    ensures
        first_toucher(ps, b) == k,
{
    let c = first_toucher(ps, b);
    assert(0 <= c < ps.len() && touches(ps, c, b) && forall|j: int|
        0 <= j < c ==> !touches(ps, j, b));
    if c < k {
        assert(!touches(ps, c, b));
    } else if c > k {
        assert(!touches(ps, k, b));
    }
}

proof fn lemma_first_caught(ps: Seq<(PlayerId, Player)>, bs: Seq<Baddie>, i: int)
    requires
        0 <= i < bs.len(),
        touched(ps, bs[i]),
        forall|j: int| 0 <= j < i ==> !touched(ps, bs[j]),
    ensures
        first_caught(ps, bs) == i,
        any_caught(ps, bs),
{
    let c = first_caught(ps, bs);
    assert(0 <= c < bs.len() && touched(ps, bs[c]) && forall|j: int|
        0 <= j < c ==> !touched(ps, bs[j]));
    if c < i {
        assert(!touched(ps, bs[c]));
    } else if c > i {
        assert(!touched(ps, bs[i]));
    }
}

/// Carrying out actions never removes a player nor changes whose it is:
/// the players already there keep their places and ids, and ids stay unique.
pub proof fn lemma_players_stay(state: (Seq<(PlayerId, Player)>, bool), actions: Seq<Action>)
    requires
        unique_players(state.0),
    ensures
        unique_players(apply_actions(state, actions).0),
        state.0.len() <= apply_actions(state, actions).0.len(),
        forall|k: int|
            0 <= k < state.0.len() ==> (#[trigger] apply_actions(state, actions).0[k]).0
                == state.0[k].0,
    decreases actions.len(),
{
    if actions.len() > 0 {
        let before = apply_actions(state, actions.drop_last());
        lemma_players_stay(state, actions.drop_last());
        lemma_apply_action_keeps_unique(before, actions.last());
        assert forall|k: int| 0 <= k < state.0.len() implies (#[trigger] apply_actions(
            state,
            actions,
        ).0[k]).0 == state.0[k].0 by {
            assert(before.0[k].0 == state.0[k].0);
        }
    }
}

impl MainState {
    /// An empty game: no player, no baddie, nothing waiting.
    pub fn new() -> (r: MainState)
        ensures
            r@.wf(),
            r@.players.len() == 0,
            r@.actions.len() == 0,
            r@.baddies.len() == 0,
            !r@.paused,
            r@.input_stack.len() == 0,
            r@.timer == 0,
    {
        MainState {
            players: Vec::new(),
            actions: Vec::new(),
            baddies: Vec::new(),
            paused: false,
            input_stack: Vec::new(),
            timer: 0,
        }
    }

    /// The players, in the order in which they joined.
    pub fn players(&self) -> (r: &Vec<(PlayerId, Player)>)
        ensures
            r@ == self@.players,
    {
        &self.players
    }

    pub fn baddies(&self) -> (r: &Vec<Baddie>)
        ensures
            r@ == self@.baddies,
    {
        &self.baddies
    }

    /// Actions waiting for the next step, oldest first.
    pub fn actions(&self) -> (r: &Vec<Action>)
        ensures
            r@ == self@.actions,
    {
        &self.actions
    }

    pub fn paused(&self) -> (r: bool)
        ensures
            r == self@.paused,
    {
        self.paused
    }

    pub fn timer(&self) -> (r: u32)
        ensures
            r == self@.timer,
    {
        self.timer
    }

    /// The place of the player with id `id`, if there is one.
    pub fn find_player(&self, id: PlayerId) -> (r: Option<usize>)
        ensures
            r.is_none() <==> !has_player(self@.players, id),
            r matches Some(k) ==> k < self@.players.len() && self@.players[k as int].0 == id,
    {
        let mut k: usize = 0;
        while k < self.players.len()
            invariant
                k <= self.players@.len(),
                forall|j: int| 0 <= j < k ==> self.players@[j].0 != id,
            decreases self.players@.len() - k,
        {
            if self.players[k].0 == id {
                return Some(k);
            }
            k = k + 1;
        }
        None
    }

    /// Queues `action` for the next step.
    pub fn add_action(&mut self, action: Action)
        ensures
            final(self)@ == (GameView { actions: old(self)@.actions.push(action), ..old(self)@ }),
    {
        self.actions.push(action);
    }

    fn apply_one(&mut self, action: Action)
        requires
            unique_players(old(self)@.players),
        ensures
            (final(self)@.players, final(self)@.paused) == apply_action(
                (old(self)@.players, old(self)@.paused),
                action,
            ),
            final(self)@.actions == old(self)@.actions,
            final(self)@.baddies == old(self)@.baddies,
            final(self)@.input_stack == old(self)@.input_stack,
            final(self)@.timer == old(self)@.timer,
    {
        match action {
            Action::Game(GameAction::Pause) => self.paused = !self.paused,
            Action::Game(GameAction::Quit) => {},
            Action::Game(GameAction::Spawn(id)) => {
                if self.find_player(id).is_none() {
                    let index = (self.players.len() % 256) as u8;
                    let player = Player::new(index, Vec2::new(WIDTH / 2, MAX_Y));
                    self.players.push((id, player));
                }
            },
            Action::Player(a, id) => {
                if !self.paused {
                    match self.find_player(id) {
                        Some(k) => {
                            let mut player = self.players[k].1;
                            player.process_action(a);
                            self.players.set(k, (id, player));
                            proof {
                                let ps = old(self)@.players;
                                let j = player_index(ps, id);
                                assert(0 <= j < ps.len() && ps[j].0 == id);
                                assert(j == k);
                            }
                        },
                        None => {},
                    }
                }
            },
        }
    }

    /// Whether the player `id` plays and, if so, whether it is on the ground.
    fn presence_of(&self, id: PlayerId) -> (r: Option<bool>)
        requires
            unique_players(self@.players),
        ensures
            r == presence(self@.players, id),
    {
        match self.find_player(id) {
            Some(k) => {
                proof {
                    let j = player_index(self@.players, id);
                    assert(0 <= j < self@.players.len() && self@.players[j].0 == id);
                    assert(j == k);
                }
                Some(self.players[k].1.on_the_ground())
            },
            None => None,
        }
    }

    fn count_input(&mut self, dir: MoveDirection, id: PlayerId, up: bool)
        requires
            unique_held(old(self)@.input_stack),
        ensures
            final(self)@ == (GameView {
                input_stack: counted(old(self)@.input_stack, dir, id, up),
                ..old(self)@
            }),
            unique_held(final(self)@.input_stack),
    {
        let ghost held = self@.input_stack;
        let mut k: usize = 0;
        while k < self.input_stack.len()
            invariant
                self@ == old(self)@,
                held == old(self)@.input_stack,
                unique_held(held),
                k <= held.len(),
                forall|j: int| 0 <= j < k ==> held[j].0 != id,
            decreases held.len() - k,
        {
            if self.input_stack[k].0 == id {
                let e = recount_entry(self.input_stack[k], dir, up);
                self.input_stack.set(k, e);
                proof {
                    assert(0 <= k < held.len() && held[k as int].0 == id);
                    let c = choose|c: int| 0 <= c < held.len() && held[c].0 == id;
                    assert(c == k);
                    assert(self@.input_stack =~= counted(held, dir, id, up));
                }
                return;
            }
            k = k + 1;
        }
        self.input_stack.push(recount_entry((id, 0, 0), dir, up));
        assert(self@.input_stack =~= counted(held, dir, id, up));
    }

    /// Queues for every player with held keys the direction it now steers to.
    fn stack_to_action(&mut self)
        ensures
            final(self)@ == (GameView {
                actions: old(self)@.actions + moves(old(self)@.input_stack),
                ..old(self)@
            }),
    {
        let ghost held = self@.input_stack;
        let mut k: usize = 0;
        while k < self.input_stack.len()
            invariant
                self@.input_stack == held,
                self@.players == old(self)@.players,
                self@.baddies == old(self)@.baddies,
                self@.paused == old(self)@.paused,
                self@.timer == old(self)@.timer,
                k <= held.len(),
                self@.actions == old(self)@.actions + moves(held).take(k as int),
            decreases held.len() - k,
        {
            let (id, left, right) = self.input_stack[k];
            let action = Action::Player(PlayerAction::Move(steering(left, right)), id);
            self.actions.push(action);
            assert(moves(held).take(k + 1) =~= moves(held).take(k as int).push(action));
            k = k + 1;
        }
        assert(moves(held).take(k as int) =~= moves(held));
    }

    fn stack_input(&mut self, dir: MoveDirection, instance_id: PlayerId)
        requires
            old(self)@.wf(),
        ensures
            final(self)@ == old(self)@.after_input(Input::Press(dir, instance_id)),
            final(self)@.wf(),
    {
        self.count_input(dir, instance_id, true);
        self.stack_to_action();
    }

    fn unstack_input(&mut self, dir: MoveDirection, instance_id: PlayerId)
        requires
            old(self)@.wf(),
        ensures
            final(self)@ == old(self)@.after_input(Input::Release(dir, instance_id)),
            final(self)@.wf(),
    {
        self.count_input(dir, instance_id, false);
        self.stack_to_action();
    }

    /// Takes `input` into account.
    pub fn handle_input(&mut self, input: Input)
        requires
            old(self)@.wf(),
        ensures
            final(self)@ == old(self)@.after_input(input),
            final(self)@.wf(),
    {
        match input {
            Input::Nothing => {},
            Input::Act(a) => self.add_action(a),
            Input::Press(dir, id) => self.stack_input(dir, id),
            Input::Release(dir, id) => self.unstack_input(dir, id),
        }
    }

    /// A key went down; repeats of a held key are ignored.
    pub fn key_down_event(&mut self, key: Key, repeat: bool)
        requires
            old(self)@.wf(),
        ensures
            final(self)@.wf(),
            repeat ==> final(self)@ == old(self)@,
            !repeat ==> final(self)@ == old(self)@.after_input(
                key_down_input(
                    key,
                    presence(old(self)@.players, PlayerId::Arrows),
                    presence(old(self)@.players, PlayerId::ZQSD),
                ),
            ),
    {
        if repeat {
            return;
        }
        let arrows = self.presence_of(PlayerId::Arrows);
        let zqsd = self.presence_of(PlayerId::ZQSD);
        let input = decide_key_down(key, arrows, zqsd);
        self.handle_input(input);
    }

    /// A key went up.
    pub fn key_up_event(&mut self, key: Key)
        requires
            old(self)@.wf(),
        ensures
            final(self)@.wf(),
            final(self)@ == old(self)@.after_input(
                key_up_input(
                    key,
                    has_player(old(self)@.players, PlayerId::Arrows),
                    has_player(old(self)@.players, PlayerId::ZQSD),
                ),
            ),
    {
        let with_arrows = self.find_player(PlayerId::Arrows).is_some();
        let with_zqsd = self.find_player(PlayerId::ZQSD).is_some();
        let input = decide_key_up(key, with_arrows, with_zqsd);
        self.handle_input(input);
    }

    /// A button of controller `instance_id` went down.
    pub fn controller_button_down_event(&mut self, btn: Button, instance_id: ControllerId)
        requires
            old(self)@.wf(),
        ensures
            final(self)@.wf(),
            final(self)@ == old(self)@.after_input(
                button_down_input(
                    btn,
                    PlayerId::Controller(instance_id),
                    presence(old(self)@.players, PlayerId::Controller(instance_id)),
                ),
            ),
    {
        let id = PlayerId::from(instance_id);
        let present = self.presence_of(id);
        let input = decide_button_down(btn, id, present);
        self.handle_input(input);
    }

    /// A button of controller `instance_id` went up.
    pub fn controller_button_up_event(&mut self, btn: Button, instance_id: ControllerId)
        requires
            old(self)@.wf(),
        ensures
            final(self)@.wf(),
            final(self)@ == old(self)@.after_input(
                button_up_input(
                    btn,
                    PlayerId::Controller(instance_id),
                    has_player(old(self)@.players, PlayerId::Controller(instance_id)),
                ),
            ),
    {
        let id = PlayerId::from(instance_id);
        let with_player = self.find_player(id).is_some();
        let input = decide_button_up(btn, id, with_player);
        self.handle_input(input);
    }

    fn move_players(&mut self)
        requires
            old(self)@.wf(),
        ensures
            final(self)@ == (GameView {
                players: Seq::new(
                    old(self)@.players.len(),
                    |i: int| (old(self)@.players[i].0, old(self)@.players[i].1.moved()),
                ),
                ..old(self)@
            }),
            final(self)@.wf(),
    {
        let ghost ps = self@.players;
        let mut k: usize = 0;
        while k < self.players.len()
            invariant
                k <= ps.len(),
                self@.players.len() == ps.len(),
                forall|j: int| 0 <= j < k ==> self@.players[j] == (ps[j].0, ps[j].1.moved()),
                forall|j: int| k <= j < ps.len() ==> self@.players[j] == ps[j],
                ps == old(self)@.players,
                self@.actions == old(self)@.actions,
                self@.baddies == old(self)@.baddies,
                self@.paused == old(self)@.paused,
                self@.input_stack == old(self)@.input_stack,
                self@.timer == old(self)@.timer,
            decreases ps.len() - k,
        {
            let (id, mut player) = self.players[k];
            player.update();
            self.players.set(k, (id, player));
            k = k + 1;
        }
        assert(self@.players =~= Seq::new(ps.len(), |i: int| (ps[i].0, ps[i].1.moved())));
    }

    /// Queues a collision for each pair of overlapping players.
    fn queue_bumps(&mut self)
        ensures
            final(self)@ == (GameView {
                actions: old(self)@.actions + bumps(old(self)@.players, old(self)@.players.len() as int),
                ..old(self)@
            }),
    {
        let ghost ps = self@.players;
        let ghost a0 = self@.actions;
        let n = self.players.len();
        let mut i: usize = 0;
        while i < n
            invariant
                n == ps.len(),
                i <= n,
                self@.actions == a0 + bumps(ps, i as int),
                ps == old(self)@.players,
                a0 == old(self)@.actions,
                self@.players == old(self)@.players,
                self@.baddies == old(self)@.baddies,
                self@.paused == old(self)@.paused,
                self@.input_stack == old(self)@.input_stack,
                self@.timer == old(self)@.timer,
            decreases n - i,
        {
            let mut j: usize = i + 1;
            assert(self@.actions =~= a0 + bumps(ps, i as int) + bump_row(ps, i as int, j as int));
            while j < n
                invariant
                    n == ps.len(),
                    i < n,
                    i < j <= n,
                    self@.actions == a0 + bumps(ps, i as int) + bump_row(ps, i as int, j as int),
                    ps == old(self)@.players,
                    a0 == old(self)@.actions,
                    self@.players == old(self)@.players,
                    self@.baddies == old(self)@.baddies,
                    self@.paused == old(self)@.paused,
                    self@.input_stack == old(self)@.input_stack,
                    self@.timer == old(self)@.timer,
                decreases n - j,
            {
                let ghost before = self@.actions;
                let (id1, p1) = self.players[i];
                let (id2, p2) = self.players[j];
                if p1.overlaps_player(&p2.body) {
                    self.add_action(Action::Player(PlayerAction::Collides(Entity::Player(p2.body)), id1));
                    self.add_action(Action::Player(PlayerAction::Collides(Entity::Player(p1.body)), id2));
                }
                assert(self@.actions =~= before + bump_pair(ps, i as int, j as int));
                assert(self@.actions =~= a0 + bumps(ps, i as int) + bump_row(ps, i as int, j + 1));
                j = j + 1;
            }
            assert(self@.actions =~= a0 + bumps(ps, i + 1));
            i = i + 1;
        }
    }

    /// Drops the baddies that went below the window.
    fn keep_on_screen(&mut self)
        requires
            old(self)@.wf(),
        ensures
            final(self)@ == (GameView { baddies: on_screen(old(self)@.baddies), ..old(self)@ }),
            final(self)@.wf(),
            forall|i: int|
                0 <= i < final(self)@.baddies.len() ==> (#[trigger] final(self)@.baddies[i]).body.y
                    < HEIGHT,
    {
        let ghost bs = self@.baddies;
        let mut kept: Vec<Baddie> = Vec::new();
        let mut i: usize = 0;
        while i < self.baddies.len()
            invariant
                self@ == old(self)@,
                bs == old(self)@.baddies,
                i <= bs.len(),
                kept@ == on_screen(bs.take(i as int)),
            decreases bs.len() - i,
        {
            let b = self.baddies[i];
            proof {
                assert(bs.take(i + 1).drop_last() =~= bs.take(i as int));
                assert(bs.take(i + 1).last() == b);
            }
            if b.body.y < HEIGHT {
                kept.push(b);
            }
            i = i + 1;
        }
        assert(bs.take(i as int) =~= bs);
        self.baddies = kept;
        proof {
            lemma_on_screen(bs);
        }
    }

    /// The first player that touches `b`, if any.
    fn toucher(&self, b: &Baddie) -> (r: Option<usize>)
        ensures
            r.is_none() <==> !touched(self@.players, *b),
            r matches Some(k) ==> k < self@.players.len() && first_toucher(self@.players, *b) == k,
    {
        let mut k: usize = 0;
        while k < self.players.len()
            invariant
                k <= self@.players.len(),
                forall|j: int| 0 <= j < k ==> !touches(self@.players, j, *b),
            decreases self@.players.len() - k,
        {
            if self.players[k].1.overlaps(&b.body) {
                proof {
                    lemma_first_toucher(self@.players, *b, k as int);
                }
                return Some(k);
            }
            k = k + 1;
        }
        None
    }

    /// The first baddie touched by a player, with the first player touching it.
    fn first_catch(&self) -> (r: Option<(usize, usize)>)
        ensures
            r.is_none() <==> !any_caught(self@.players, self@.baddies),
            r matches Some((i, k)) ==> {
                &&& i < self@.baddies.len()
                &&& k < self@.players.len()
                &&& first_caught(self@.players, self@.baddies) == i
                &&& first_toucher(self@.players, self@.baddies[i as int]) == k
            },
    {
        let mut i: usize = 0;
        while i < self.baddies.len()
            invariant
                i <= self@.baddies.len(),
                forall|j: int| 0 <= j < i ==> !touched(self@.players, #[trigger] self@.baddies[j]),
            decreases self@.baddies.len() - i,
        {
            match self.toucher(&self.baddies[i]) {
                Some(k) => {
                    proof {
                        lemma_first_caught(self@.players, self@.baddies, i as int);
                    }
                    return Some((i, k));
                },
                None => {},
            }
            i = i + 1;
        }
        None
    }

    /// Every baddie falls by one frame of its speed.
    fn fall_baddies(&mut self)
        requires
            old(self)@.wf(),
            forall|i: int|
                0 <= i < old(self)@.baddies.len() ==> (#[trigger] old(self)@.baddies[i]).body.y
                    < HEIGHT,
        ensures
            final(self)@ == (GameView {
                baddies: Seq::new(
                    old(self)@.baddies.len(),
                    |i: int| fallen(old(self)@.baddies[i]),
                ),
                ..old(self)@
            }),
            final(self)@.wf(),
    {
        let ghost bs = self@.baddies;
        let mut k: usize = 0;
        while k < self.baddies.len()
            invariant
                k <= bs.len(),
                bs == old(self)@.baddies,
                self@.baddies.len() == bs.len(),
                forall|j: int| 0 <= j < k ==> self@.baddies[j] == fallen(bs[j]),
                forall|j: int| k <= j < bs.len() ==> self@.baddies[j] == bs[j],
                forall|j: int| 0 <= j < bs.len() ==> (#[trigger] bs[j]).wf(),
                forall|j: int| 0 <= j < bs.len() ==> (#[trigger] bs[j]).body.y < HEIGHT,
                self@.players == old(self)@.players,
                self@.actions == old(self)@.actions,
                self@.paused == old(self)@.paused,
                self@.input_stack == old(self)@.input_stack,
                self@.timer == old(self)@.timer,
            decreases bs.len() - k,
        {
            let mut b = self.baddies[k];
            assert(b == bs[k as int]);
            b.update();
            self.baddies.set(k, b);
            k = k + 1;
        }
        assert(self@.baddies =~= Seq::new(bs.len(), |i: int| fallen(bs[i])));
        assert forall|i: int| 0 <= i < self@.baddies.len() implies (
        #[trigger] self@.baddies[i]).wf() by {
            assert(bs[i].wf());
        }
    }

    /// One frame of simulation with `spawned` as the baddie that appears in
    /// it, if any.
    pub fn advance(&mut self, spawned: Option<Baddie>)
        requires
            old(self)@.wf(),
            spawned matches Some(b) ==> b.wf(),
        ensures
            final(self)@ == old(self)@.advanced(spawned),
            final(self)@.wf(),
    {
        let ghost start = self@;
        self.move_players();
        let ghost ps = self@.players;
        self.queue_bumps();
        let ghost acts = self@.actions;
        match spawned {
            Some(b) => self.baddies.push(b),
            None => {},
        }
        let ghost pushed = self@.baddies;
        assert(self@.wf());
        self.keep_on_screen();
        let ghost bs = self@.baddies;
        match self.first_catch() {
            Some((i, k)) => {
                let b = self.baddies.remove(i);
                let id = self.players[k].0;
                self.add_action(Action::Player(PlayerAction::Collides(Entity::Baddie(b)), id));
                assert forall|j: int| 0 <= j < self@.baddies.len() implies (
                #[trigger] self@.baddies[j]).body.y < HEIGHT && self@.baddies[j].wf() by {
                    if j < i {
                        assert(self@.baddies[j] == bs[j]);
                    } else {
                        assert(self@.baddies[j] == bs[j + 1]);
                    }
                }
            },
            None => {},
        }
        self.fall_baddies();
        self.timer = if self.timer == u32::MAX {
            0
        } else {
            self.timer + 1
        };
        proof {
            let target = start.advanced(spawned);
            assert(ps =~= target.players);
            assert(self@.actions =~= target.actions);
            assert(self@.baddies =~= target.baddies);
        }
    }

    /// One frame of the game: the waiting actions are carried out; then,
    /// unless there is no player or the game is paused, the world moves on
    /// by a frame, with a new random baddie every `SPAWN_FREQUENCY` frames.
    /// Returns whether an action asked to quit.
    pub fn update(&mut self) -> (quit: bool)
        requires
            old(self)@.wf(),
        ensures
            final(self)@.wf(),
            quit == asks_quit(old(self)@.actions),
            (old(self)@.processed().players.len() == 0 || old(self)@.processed().paused)
                ==> final(self)@ == old(self)@.processed(),
            !(old(self)@.processed().players.len() == 0 || old(self)@.processed().paused)
                ==> exists|s: Option<Baddie>|
                fresh_spawn(s, old(self)@.timer) && final(self)@ == old(self)@.processed().advanced(s),
    {
        let quit = self.process_actions();
        if self.players.len() == 0 || self.paused {
            return quit;
        }
        let spawned = if self.timer % SPAWN_FREQUENCY == 0 {
            Some(Baddie::new())
        } else {
            None
        };
        let ghost processed = self@;
        self.advance(spawned);
        assert(fresh_spawn(spawned, old(self)@.timer) && self@ == processed.advanced(spawned));
        quit
    }

    /// Carries out the waiting actions in order and drops them. Returns
    /// whether one of them asked to quit.
    pub fn process_actions(&mut self) -> (quit: bool)
        requires
            old(self)@.wf(),
        ensures
            final(self)@ == old(self)@.processed(),
            final(self)@.wf(),
            quit == asks_quit(old(self)@.actions),
    {
        let ghost start = (self@.players, self@.paused);
        let ghost acts = self@.actions;
        let mut actions: Vec<Action> = Vec::new();
        std::mem::swap(&mut actions, &mut self.actions);
        let mut quit = false;
        let mut i: usize = 0;
        while i < actions.len()
            invariant
                actions@ == acts,
                i <= acts.len(),
                (self@.players, self@.paused) == apply_actions(start, acts.take(i as int)),
                unique_players(self@.players),
                self@.actions.len() == 0,
                self@.baddies == old(self)@.baddies,
                self@.input_stack == old(self)@.input_stack,
                self@.timer == old(self)@.timer,
                quit <==> exists|j: int| 0 <= j < i && acts[j] == Action::Game(GameAction::Quit),
            decreases acts.len() - i,
        {
            let action = actions[i];
            proof {
                assert(acts.take(i + 1).drop_last() =~= acts.take(i as int));
                lemma_apply_action_keeps_unique((self@.players, self@.paused), action);
            }
            self.apply_one(action);
            if let Action::Game(GameAction::Quit) = action {
                quit = true;
            }
            i = i + 1;
        }
        assert(acts.take(i as int) =~= acts);
        assert(self@.actions =~= Seq::<Action>::empty());
        quit
    }
}

} // verus!
