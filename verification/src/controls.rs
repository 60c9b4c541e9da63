//! Keyboard movement: which way each axis is held, how a key press or release
//! changes that, and the detection of a double tap on a direction key.

use vstd::prelude::*;

verus! {

/// The state of one movement axis: pushed one way, the other way, or idle.
#[derive(Copy, Clone, Debug, PartialEq, Eq, Structural)]
pub enum DiscreteNotch {
    Pos,
    Neg,
    Zero,
}

impl DiscreteNotch {
    /// Returns the axis to idle.
    pub fn reset(&mut self)
        ensures
            *final(self) == DiscreteNotch::Zero,
    {
        *self = DiscreteNotch::Zero;
    }
}

/// One of the four movement directions.
#[derive(Copy, Clone, Debug, PartialEq, Eq, Structural)]
pub enum AxiomaticDirection {
    Up,
    Down,
    Left,
    Right,
}

/// How the character moves this tick.
#[derive(Copy, Clone, Debug, PartialEq, Eq, Structural)]
pub enum Movement {
    /// No axis is held.
    Still,
    /// Exactly one axis is held: the character moves at its base speed.
    Axial,
    /// Both axes are held: the character moves diagonally.
    Diagonal,
}

/// Which way each of the two movement axes is held.
#[derive(Copy, Clone, Debug, PartialEq, Eq, Structural)]
pub struct PressingState {
    /// `Neg` is up, `Pos` is down.
    pub vertical: DiscreteNotch,
    /// `Neg` is left, `Pos` is right.
    pub horizontal: DiscreteNotch,
}

/// The pressing state after the key for `dir` goes down: the key's axis
/// points in its direction, the other axis is kept.
pub open spec fn pressed(s: PressingState, dir: AxiomaticDirection) -> PressingState {
    match dir {
        AxiomaticDirection::Up => PressingState { vertical: DiscreteNotch::Neg, ..s },
        AxiomaticDirection::Down => PressingState { vertical: DiscreteNotch::Pos, ..s },
        AxiomaticDirection::Left => PressingState { horizontal: DiscreteNotch::Neg, ..s },
        AxiomaticDirection::Right => PressingState { horizontal: DiscreteNotch::Pos, ..s },
    }
}

/// The pressing state after the key for `dir` comes up: the key's axis goes
/// idle only if it still points in the key's direction (a later press of the
/// opposite key keeps its effect).
pub open spec fn released(s: PressingState, dir: AxiomaticDirection) -> PressingState {
    match dir {
        AxiomaticDirection::Up => if s.vertical == DiscreteNotch::Neg {
            PressingState { vertical: DiscreteNotch::Zero, ..s }
        } else {
            s
        },
        AxiomaticDirection::Down => if s.vertical == DiscreteNotch::Pos {
            PressingState { vertical: DiscreteNotch::Zero, ..s }
        } else {
            s
        },
        AxiomaticDirection::Left => if s.horizontal == DiscreteNotch::Neg {
            PressingState { horizontal: DiscreteNotch::Zero, ..s }
        } else {
            s
        },
        AxiomaticDirection::Right => if s.horizontal == DiscreteNotch::Pos {
            PressingState { horizontal: DiscreteNotch::Zero, ..s }
        } else {
            s
        },
    }
}

/// Whether the axis that `dir` moves along currently points toward `dir`.
pub open spec fn points_toward(s: PressingState, dir: AxiomaticDirection) -> bool {
    match dir {
        AxiomaticDirection::Up => s.vertical == DiscreteNotch::Neg,
        AxiomaticDirection::Down => s.vertical == DiscreteNotch::Pos,
        AxiomaticDirection::Left => s.horizontal == DiscreteNotch::Neg,
        AxiomaticDirection::Right => s.horizontal == DiscreteNotch::Pos,
    }
}

/// Whether `dir` moves along the vertical axis.
pub open spec fn is_vertical(dir: AxiomaticDirection) -> bool {
    dir == AxiomaticDirection::Up || dir == AxiomaticDirection::Down
}

/// A key release never sets an axis going: every axis afterwards is either
/// as it was or idle. The key's axis goes idle exactly when it pointed the
/// key's way; otherwise nothing changes, and the other axis never changes.
pub proof fn lemma_release_only_idles(s: PressingState, dir: AxiomaticDirection)
    ensures
        released(s, dir).vertical == s.vertical || released(s, dir).vertical == DiscreteNotch::Zero,
        released(s, dir).horizontal == s.horizontal || released(s, dir).horizontal == DiscreteNotch::Zero,
        !points_toward(s, dir) ==> released(s, dir) == s,
        points_toward(s, dir) && is_vertical(dir) ==> {
            &&& released(s, dir).vertical == DiscreteNotch::Zero
            &&& released(s, dir).horizontal == s.horizontal
        },
        points_toward(s, dir) && !is_vertical(dir) ==> {
            &&& released(s, dir).horizontal == DiscreteNotch::Zero
            &&& released(s, dir).vertical == s.vertical
        },
{
}

/// A key press makes its axis point the key's way and leaves the other axis.
pub proof fn lemma_press_points_toward(s: PressingState, dir: AxiomaticDirection)
    ensures
        points_toward(pressed(s, dir), dir),
        is_vertical(dir) ==> pressed(s, dir).horizontal == s.horizontal,
        !is_vertical(dir) ==> pressed(s, dir).vertical == s.vertical,
{
}

impl PressingState {
    /// Both axes idle.
    pub fn new() -> (r: Self)
        ensures
            r.vertical == DiscreteNotch::Zero,
            r.horizontal == DiscreteNotch::Zero,
    {
        PressingState { vertical: DiscreteNotch::Zero, horizontal: DiscreteNotch::Zero }
    }

    /// Whether neither axis is held.
    pub fn is_all_zero(&self) -> (r: bool)
        ensures
            r <==> (self.vertical == DiscreteNotch::Zero && self.horizontal == DiscreteNotch::Zero),
    {
        match (self.vertical, self.horizontal) {
            (DiscreteNotch::Zero, DiscreteNotch::Zero) => true,
            _ => false,
        }
    }

    /// How the character moves: not at all when no axis is held, at base
    /// speed along one axis, or diagonally when both are held.
    pub fn movement(&self) -> (r: Movement)
        ensures
            r == Movement::Still <==> (self.vertical == DiscreteNotch::Zero
                && self.horizontal == DiscreteNotch::Zero),
            r == Movement::Diagonal <==> (self.vertical != DiscreteNotch::Zero
                && self.horizontal != DiscreteNotch::Zero),
    {
        if self.is_all_zero() {
            Movement::Still
        } else if self.vertical == DiscreteNotch::Zero || self.horizontal == DiscreteNotch::Zero {
            Movement::Axial
        } else {
            Movement::Diagonal
        }
    }

    /// The key for `dir` went down.
    pub fn press(&mut self, dir: AxiomaticDirection)
        ensures
            *final(self) == pressed(*old(self), dir),
    {
        match dir {
            AxiomaticDirection::Up => self.vertical = DiscreteNotch::Neg,
            AxiomaticDirection::Down => self.vertical = DiscreteNotch::Pos,
            AxiomaticDirection::Left => self.horizontal = DiscreteNotch::Neg,
            AxiomaticDirection::Right => self.horizontal = DiscreteNotch::Pos,
        }
    }

    /// The key for `dir` came up.
    pub fn release(&mut self, dir: AxiomaticDirection)
        ensures
            *final(self) == released(*old(self), dir),
    {
        match dir {
            AxiomaticDirection::Up => {
                if let DiscreteNotch::Neg = self.vertical {
                    self.vertical.reset()
                }
            },
            AxiomaticDirection::Down => {
                if let DiscreteNotch::Pos = self.vertical {
                    self.vertical.reset()
                }
            },
            AxiomaticDirection::Left => {
                if let DiscreteNotch::Neg = self.horizontal {
                    self.horizontal.reset()
                }
            },
            AxiomaticDirection::Right => {
                if let DiscreteNotch::Pos = self.horizontal {
                    self.horizontal.reset()
                }
            },
        }
    }
}

/// Releasing the key that was pressed last on an axis idles that axis and
/// leaves the other axis as it was.
pub proof fn lemma_release_undoes_press(s: PressingState, dir: AxiomaticDirection)
    ensures
        released(pressed(s, dir), dir) == (match dir {
            AxiomaticDirection::Up | AxiomaticDirection::Down =>
                PressingState { vertical: DiscreteNotch::Zero, ..s },
            _ => PressingState { horizontal: DiscreteNotch::Zero, ..s },
        }),
{
}

/// Pressing the opposite key while one is held takes over the axis, and
/// releasing the first key afterwards does not stop the movement.
pub proof fn lemma_later_press_wins(s: PressingState, first: AxiomaticDirection, second: AxiomaticDirection)
    requires
        (first == AxiomaticDirection::Up && second == AxiomaticDirection::Down)
        || (first == AxiomaticDirection::Down && second == AxiomaticDirection::Up)
        || (first == AxiomaticDirection::Left && second == AxiomaticDirection::Right)
        || (first == AxiomaticDirection::Right && second == AxiomaticDirection::Left),
    ensures
        released(pressed(pressed(s, first), second), first) == pressed(s, second),
{
}

/// Presses and releases on one axis never change the other axis.
pub proof fn lemma_axes_independent(s: PressingState, dir: AxiomaticDirection)
    ensures
        (dir == AxiomaticDirection::Up || dir == AxiomaticDirection::Down) ==> {
            &&& pressed(s, dir).horizontal == s.horizontal
            &&& released(s, dir).horizontal == s.horizontal
        },
        (dir == AxiomaticDirection::Left || dir == AxiomaticDirection::Right) ==> {
            &&& pressed(s, dir).vertical == s.vertical
            &&& released(s, dir).vertical == s.vertical
        },
{
}


/// A key as the keyboard handlers see it: the two keys with a fixed meaning,
/// or any other key by its code.
#[derive(Copy, Clone, Debug, PartialEq, Eq, Structural)]
pub enum Key {
    Escape,
    F4,
    Code(u32),
}

/// Which keys move the character, and how close two taps of one direction
/// must follow each other to count as a double tap.
#[derive(Copy, Clone, Debug, PartialEq, Eq, Structural)]
pub struct InputConfig {
    pub up: Key,
    pub down: Key,
    pub left: Key,
    pub right: Key,
    /// In nanoseconds.
    pub double_tap_window: u64,
}

impl InputConfig {
    /// The direction a key is bound to; when several directions share a key,
    /// up wins over down, down over left, left over right.
    pub open spec fn spec_direction_of(self, key: Key) -> Option<AxiomaticDirection> {
        if key == self.up {
            Some(AxiomaticDirection::Up)
        } else if key == self.down {
            Some(AxiomaticDirection::Down)
        } else if key == self.left {
            Some(AxiomaticDirection::Left)
        } else if key == self.right {
            Some(AxiomaticDirection::Right)
        } else {
            None
        }
    }

    /// The direction a key is bound to, if any.
    pub fn direction_of(&self, key: Key) -> (r: Option<AxiomaticDirection>)
        ensures
            r == self.spec_direction_of(key),
    {
        if key == self.up {
            Some(AxiomaticDirection::Up)
        } else if key == self.down {
            Some(AxiomaticDirection::Down)
        } else if key == self.left {
            Some(AxiomaticDirection::Left)
        } else if key == self.right {
            Some(AxiomaticDirection::Right)
        } else {
            None
        }
    }
}

impl InputConfig {
    /// The key bound to `dir`.
    pub open spec fn binding(self, dir: AxiomaticDirection) -> Key {
        match dir {
            AxiomaticDirection::Up => self.up,
            AxiomaticDirection::Down => self.down,
            AxiomaticDirection::Left => self.left,
            AxiomaticDirection::Right => self.right,
        }
    }
}

/// Each binding maps to its own direction: a key found bound to a direction
/// is that direction's binding and is not bound to any direction that takes
/// precedence; a key bound to a direction and to none taking precedence maps
/// to that direction; a key bound to nothing maps to nothing.
pub proof fn lemma_direction_of_bindings(cfg: InputConfig, key: Key)
    ensures
        cfg.spec_direction_of(key) matches Some(d) ==> key == cfg.binding(d),
        cfg.spec_direction_of(key) == Some(AxiomaticDirection::Down) ==> key != cfg.up,
        cfg.spec_direction_of(key) == Some(AxiomaticDirection::Left) ==> key != cfg.up && key != cfg.down,
        cfg.spec_direction_of(key) == Some(AxiomaticDirection::Right)
            ==> key != cfg.up && key != cfg.down && key != cfg.left,
        key == cfg.up ==> cfg.spec_direction_of(key) == Some(AxiomaticDirection::Up),
        key == cfg.down && key != cfg.up ==> cfg.spec_direction_of(key) == Some(AxiomaticDirection::Down),
        key == cfg.left && key != cfg.up && key != cfg.down
            ==> cfg.spec_direction_of(key) == Some(AxiomaticDirection::Left),
        key == cfg.right && key != cfg.up && key != cfg.down && key != cfg.left
            ==> cfg.spec_direction_of(key) == Some(AxiomaticDirection::Right),
        (key != cfg.up && key != cfg.down && key != cfg.left && key != cfg.right)
            <==> cfg.spec_direction_of(key) is None,
{
}

/// What a key press asks of the game.
#[derive(Copy, Clone, Debug, PartialEq, Eq, Structural)]
pub enum KeyAction {
    /// An auto-repeated press: nothing happens.
    Repeat,
    /// Escape: leave the game.
    Quit,
    /// F4: switch between windowed and fullscreen.
    ToggleFullscreen,
    /// A movement key; `double_tap` tells whether it was tapped twice in a row.
    Move { dir: AxiomaticDirection, double_tap: bool },
    /// Any other key: nothing happens.
    Unbound,
}

/// Time elapsed from `then` to `now`, never negative.
pub open spec fn elapsed(now: u64, then: u64) -> nat {
    if now >= then {
        (now - then) as nat
    } else {
        0
    }
}

/// Whether a tap of `dir` at `now` doubles the previous tap `last`.
pub open spec fn is_double_tap(last: (u64, AxiomaticDirection), window: u64, now: u64, dir: AxiomaticDirection) -> bool {
    elapsed(now, last.0) <= window && last.1 == dir
}

/// A double tap needs the same direction as the last tap, and a tap at most
/// the window after the last one, with time never running backward; a tap of
/// the same direction within the window always is one.
pub proof fn lemma_double_tap_conditions(last: (u64, AxiomaticDirection), window: u64, now: u64, dir: AxiomaticDirection)
    ensures
        is_double_tap(last, window, now, dir) ==> last.1 == dir,
        is_double_tap(last, window, now, dir) ==> now <= last.0 + window,
        last.1 != dir ==> !is_double_tap(last, window, now, dir),
        now > last.0 + window ==> !is_double_tap(last, window, now, dir),
        last.1 == dir && now <= last.0 + window ==> is_double_tap(last, window, now, dir),
{
}

/// The keyboard side of the game: axis state, key bindings and the last
/// movement tap (time in nanoseconds, direction).
pub struct Controls {
    pub pressing_state: PressingState,
    pub input_config: InputConfig,
    pub last_move_tap: (u64, AxiomaticDirection),
}

impl Controls {
    /// The time and direction of the last movement tap.
    pub open spec fn last_tap(self) -> (u64, AxiomaticDirection) {
        self.last_move_tap
    }

    /// Controls at rest at time `now`; the last tap is taken to be an up tap
    /// at `now`.
    pub fn new(input_config: InputConfig, now: u64) -> (r: Self)
        ensures
            r.pressing_state == (PressingState { vertical: DiscreteNotch::Zero, horizontal: DiscreteNotch::Zero }),
            r.input_config == input_config,
            r.last_tap() == (now, AxiomaticDirection::Up),
    {
        Controls {
            pressing_state: PressingState::new(),
            input_config,
            last_move_tap: (now, AxiomaticDirection::Up),
        }
    }

    /// Records a tap of a direction key at `now` and tells whether it is a
    /// double tap: the same direction as the last tap, no later than the
    /// double-tap window after it.
    pub fn dir_tap(&mut self, now: u64, dir: AxiomaticDirection) -> (double_tapped: bool)
        ensures
            double_tapped == is_double_tap(
                old(self).last_tap(),
                old(self).input_config.double_tap_window,
                now,
                dir,
            ),
            final(self).last_tap() == (now, dir),
            final(self).pressing_state == old(self).pressing_state,
            final(self).input_config == old(self).input_config,
    {
        let since = now.saturating_sub(self.last_move_tap.0);
        let double_tapped = since <= self.input_config.double_tap_window
            && self.last_move_tap.1 == dir;
        self.last_move_tap = (now, dir);
        double_tapped
    }

    /// A key went down at `now`. Auto-repeats are ignored; Escape and F4
    /// take precedence over the movement bindings.
    pub fn key_down(&mut self, key: Key, repeat: bool, now: u64) -> (r: KeyAction)
        ensures
            repeat ==> r == KeyAction::Repeat,
            !repeat && key == Key::Escape ==> r == KeyAction::Quit,
            !repeat && key == Key::F4 ==> r == KeyAction::ToggleFullscreen,
            !repeat && key != Key::Escape && key != Key::F4 ==> match old(self).input_config.spec_direction_of(key) {
                Some(dir) => {
                    &&& r == (KeyAction::Move {
                        dir,
                        double_tap: is_double_tap(
                            old(self).last_tap(),
                            old(self).input_config.double_tap_window,
                            now,
                            dir,
                        ),
                    })
                    &&& final(self).pressing_state == pressed(old(self).pressing_state, dir)
                    &&& final(self).last_tap() == (now, dir)
                },
                None => r == KeyAction::Unbound,
            },
            !(r is Move) ==> *final(self) == *old(self),
            final(self).input_config == old(self).input_config,
    {
        if repeat {
            return KeyAction::Repeat;
        }
        match key {
            Key::Escape => KeyAction::Quit,
            Key::F4 => KeyAction::ToggleFullscreen,
            _ => match self.input_config.direction_of(key) {
                Some(dir) => {
                    self.pressing_state.press(dir);
                    let double_tap = self.dir_tap(now, dir);
                    KeyAction::Move { dir, double_tap }
                },
                None => KeyAction::Unbound,
            },
        }
    }

    /// A key came up; a movement key idles its axis if the axis still points
    /// its way.
    pub fn key_up(&mut self, key: Key)
        ensures
            final(self).pressing_state == match old(self).input_config.spec_direction_of(key) {
                Some(dir) => released(old(self).pressing_state, dir),
                None => old(self).pressing_state,
            },
            final(self).input_config == old(self).input_config,
            final(self).last_tap() == old(self).last_tap(),
    {
        if let Some(dir) = self.input_config.direction_of(key) {
            self.pressing_state.release(dir);
        }
    }
}

} // verus!
