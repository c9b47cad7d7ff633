//! The decoding state machines: a press classifier counting ticks against
//! thresholds, the decoder built on it, a variant that moves one threshold
//! per tick, and a driver that turns that variant's ticks into timer
//! commands.
use crate::morse::{advance, letter_at, MorseCode, TRANSMIT_INDEX};
use vstd::prelude::*;

verus! {

/// Dot lengths, counted from the press, that a press must last to become the
/// transmit gesture.
pub const VERY_LONG_DOTS: u32 = 3;

/// Dot lengths without a press, counted from the release, that end a letter.
pub const IDLE_DOTS: u32 = 3;

/// How long a pressed button has been held, measured in thresholds crossed.
#[derive(Clone, Copy, Debug, PartialEq, Eq, Structural)]
pub enum PressType {
    Short,
    Long,
    VeryLong,
}

/// The next longer kind of press; a very long press stays very long.
pub open spec fn lengthened(p: PressType) -> PressType {
    match p {
        PressType::Short => PressType::Long,
        PressType::Long => PressType::VeryLong,
        PressType::VeryLong => PressType::VeryLong,
    }
}

impl PressType {
    pub fn tick(&self) -> (r: PressType)
        ensures
            r == lengthened(*self),
    {
        match self {
            PressType::Short => PressType::Long,
            PressType::Long => PressType::VeryLong,
            PressType::VeryLong => PressType::VeryLong,
        }
    }
}

/// Classification of the button: held (with the kind of press so far),
/// released and waiting for the next press of the letter, or idle.
#[derive(Clone, Copy, Debug, PartialEq, Eq, Structural)]
pub enum State {
    Press(PressType),
    WaitingOnPress,
    Idle,
}

/// The state one threshold later.
pub open spec fn advanced(s: State) -> State {
    match s {
        State::WaitingOnPress => State::Idle,
        State::Press(p) => State::Press(lengthened(p)),
        State::Idle => State::Idle,
    }
}

impl State {
    pub fn release(&mut self) -> (r: State)
        ensures
            r == State::WaitingOnPress,
            *final(self) == *old(self),
    {
        State::WaitingOnPress
    }

    pub fn press(&mut self) -> (r: State)
        ensures
            r == State::Press(PressType::Short),
            *final(self) == *old(self),
    {
        State::Press(PressType::Short)
    }

    pub fn tick(&self) -> (r: State)
        ensures
            r == advanced(*self),
    {
        match self {
            State::WaitingOnPress => State::Idle,
            State::Press(p) => State::Press(p.tick()),
            State::Idle => State::Idle,
        }
    }
}

/// What a tick reports to the application.
#[derive(Clone, Copy, Debug, PartialEq, Eq, Structural)]
pub enum Transition {
    /// The held press has become a dash.
    Long,
    /// The held press has become the transmit gesture.
    VeryLong,
    /// A letter ended and decoded to this character (0 for no letter).
    Character(u8),
    /// A letter ended holding the transmit command.
    Transmit,
}

/// Whether moving from classification `previous` to `current` ends a letter.
pub open spec fn ends_letter(previous: State, current: State) -> bool {
    previous != current && current == State::Idle
}

/// The report for a tick that moved the classification from `previous` to
/// `current` while `code` was keyed.
pub open spec fn transition_for(previous: State, current: State, code: MorseCode) -> Option<
    Transition,
> {
    if previous == current {
        None
    } else {
        match current {
            State::Idle => Some(
                if code.0 == TRANSMIT_INDEX {
                    Transition::Transmit
                } else {
                    Transition::Character(letter_at(code.0))
                },
            ),
            State::Press(PressType::VeryLong) => Some(Transition::VeryLong),
            State::Press(PressType::Long) => Some(Transition::Long),
            _ => None,
        }
    }
}

/// Reports the move from `previous` to `current`, and empties `code` when
/// the move ends the letter.
fn take_transition(previous: State, current: State, code: &mut MorseCode) -> (r: Option<
    Transition,
>)
    ensures
        r == transition_for(previous, current, *old(code)),
        *final(code) == if ends_letter(previous, current) {
            MorseCode(0)
        } else {
            *old(code)
        },
{
    if previous == current {
        return None;
    }
    match current {
        State::Idle => {
            let character = *code;
            *code = MorseCode::empty();
            Some(
                if character.is_transmit() {
                    Transition::Transmit
                } else {
                    Transition::Character(character.lookup())
                },
            )
        },
        State::Press(PressType::VeryLong) => Some(Transition::VeryLong),
        State::Press(PressType::Long) => Some(Transition::Long),
        _ => None,
    }
}

/// The code after committing a press of kind `p` to `code`.
pub open spec fn committed(p: PressType, code: MorseCode) -> MorseCode {
    match p {
        PressType::Short => MorseCode(advance(code.0, false)),
        PressType::Long => MorseCode(advance(code.0, true)),
        PressType::VeryLong => MorseCode(TRANSMIT_INDEX),
    }
}

/// Press classifier: counts ticks since the last press or release edge.
/// `long_press`, `very_long_press` and `timeout` are tick counts that the
/// count must exceed to make a press long, a press very long, and a release
/// end the letter.
#[derive(Clone, Copy, Debug, PartialEq, Eq, Structural)]
pub struct Button {
    pub long_press: u32,
    pub very_long_press: u32,
    pub timeout: u32,
    pub count: u32,
    pub pressed: bool,
}

impl Button {
    /// The classification of this button; a press only becomes very long
    /// while no symbol of the letter has been keyed (`code_empty`).
    pub open spec fn classify(self, code_empty: bool) -> State {
        if !self.pressed {
            if self.count > self.timeout {
                State::Idle
            } else {
                State::WaitingOnPress
            }
        } else if self.count > self.very_long_press && code_empty {
            State::Press(PressType::VeryLong)
        } else if self.count > self.long_press {
            State::Press(PressType::Long)
        } else {
            State::Press(PressType::Short)
        }
    }

    pub fn new(long_press: u32, very_long_press: u32, timeout: u32) -> (r: Button)
        ensures
            r == (Button { long_press, very_long_press, timeout, count: 0, pressed: false }),
    {
        Button { long_press, very_long_press, timeout, count: 0, pressed: false }
    }

    pub fn release(&mut self)
        ensures
            *final(self) == (Button { count: 0, pressed: false, ..*old(self) }),
    {
        self.count = 0;
        self.pressed = false;
    }

    pub fn press(&mut self)
        ensures
            *final(self) == (Button { count: 0, pressed: true, ..*old(self) }),
    {
        self.count = 0;
        self.pressed = true;
    }

    pub fn state(&self, code_empty: bool) -> (r: State)
        ensures
            r == self.classify(code_empty),
    {
        if !self.pressed {
            if self.count > self.timeout {
                State::Idle
            } else {
                State::WaitingOnPress
            }
        } else {
            State::Press(
                if self.count > self.very_long_press && code_empty {
                    PressType::VeryLong
                } else if self.count > self.long_press {
                    PressType::Long
                } else {
                    PressType::Short
                },
            )
        }
    }

    /// Makes the next tick end the letter.
    pub fn timeout(&mut self)
        ensures
            *final(self) == (Button { count: old(self).timeout, ..*old(self) }),
    {
        self.count = self.timeout;
    }

    pub fn tick(&mut self)
        requires
            old(self).count < u32::MAX,
        ensures
            *final(self) == (Button { count: (old(self).count + 1) as u32, ..*old(self) }),
    {
        self.count = self.count + 1;
    }
}

/// What a `MorseMachine` holds: its press classifier and the code keyed so
/// far in the current letter.
pub struct MachineView {
    pub button: Button,
    pub code: MorseCode,
}

impl MachineView {
    /// The current classification.
    pub open spec fn state(self) -> State {
        self.button.classify(self.code.0 == 0)
    }

    /// The machine after a press edge.
    pub open spec fn pressed(self) -> MachineView {
        MachineView { button: Button { count: 0, pressed: true, ..self.button }, code: self.code }
    }

    /// The code after a release edge: a press in progress is committed.
    pub open spec fn released_code(self) -> MorseCode {
        match self.state() {
            State::Press(p) => committed(p, self.code),
            _ => self.code,
        }
    }

    /// The machine after a release edge; when the code now holds the
    /// transmit command the next tick ends the letter.
    pub open spec fn released(self) -> MachineView {
        let code = self.released_code();
        MachineView {
            button: Button {
                count: if code.0 == TRANSMIT_INDEX {
                    self.button.timeout
                } else {
                    0
                },
                pressed: false,
                ..self.button
            },
            code,
        }
    }

    /// The classification one tick later, judged with the current code.
    pub open spec fn next_state(self) -> State {
        Button { count: (self.button.count + 1) as u32, ..self.button }.classify(self.code.0 == 0)
    }

    /// What a tick reports.
    pub open spec fn tick_transition(self) -> Option<Transition> {
        transition_for(self.state(), self.next_state(), self.code)
    }

    /// The machine after a tick; the code is emptied when the letter ends.
    pub open spec fn ticked(self) -> MachineView {
        MachineView {
            button: Button { count: (self.button.count + 1) as u32, ..self.button },
            code: if ends_letter(self.state(), self.next_state()) {
                MorseCode(0)
            } else {
                self.code
            },
        }
    }
}

/// The Morse decoder: a press classifier that counts ticks, and the code of
/// the letter being keyed.
pub struct MorseMachine {
    button: Button,
    current: MorseCode,
}

impl View for MorseMachine {
    type V = MachineView;

    closed spec fn view(&self) -> MachineView {
        MachineView { button: self.button, code: self.current }
    }
}

impl MorseMachine {
    /// A decoder whose dot lasts `dot_ticks` ticks.
    pub fn new(dot_ticks: u32) -> (r: MorseMachine)
        requires
            VERY_LONG_DOTS * dot_ticks <= u32::MAX,
            IDLE_DOTS * dot_ticks <= u32::MAX,
        ensures
            r@ == (MachineView {
                button: Button {
                    long_press: dot_ticks,
                    very_long_press: (VERY_LONG_DOTS * dot_ticks) as u32,
                    timeout: (IDLE_DOTS * dot_ticks) as u32,
                    count: 0,
                    pressed: false,
                },
                code: MorseCode(0),
            }),
    {
        MorseMachine {
            button: Button::new(dot_ticks, VERY_LONG_DOTS * dot_ticks, IDLE_DOTS * dot_ticks),
            current: MorseCode::empty(),
        }
    }

    pub fn press(&mut self)
        ensures
            final(self)@ == old(self)@.pressed(),
    {
        self.button.press();
    }

    pub fn release(&mut self)
        ensures
            final(self)@ == old(self)@.released(),
    {
        if let State::Press(p) = self.button.state(self.current.is_empty()) {
            self.current = match p {
                PressType::Short => self.current.append_dot(),
                PressType::Long => self.current.append_dash(),
                PressType::VeryLong => MorseCode::transmit(),
            };
        }
        self.button.release();
        if self.current.is_transmit() {
            self.button.timeout();
        }
    }

    /// Advances the classifier by one tick and reports the change of
    /// classification, if any.
    pub fn tick(&mut self) -> (r: Option<Transition>)
        requires
            old(self)@.button.count < u32::MAX,
        ensures
            r == old(self)@.tick_transition(),
            final(self)@ == old(self)@.ticked(),
            r == Some(Transition::VeryLong) ==> old(self)@.code.0 == 0,
    {
        let is_empty = self.current.is_empty();
        let previous_state = self.button.state(is_empty);
        self.button.tick();
        let current_state = self.button.state(is_empty);
        take_transition(previous_state, current_state, &mut self.current)
    }
}

/// `v` after `k` ticks.
pub open spec fn ticked_times(v: MachineView, k: nat) -> MachineView
    decreases k,
{
    if k == 0 {
        v
    } else {
        ticked_times(v, (k - 1) as nat).ticked()
    }
}

/// While the button is held, ticks only count: the code stays as it was.
proof fn lemma_held_ticks(v: MachineView, k: nat)
    requires
        k <= u32::MAX,
    ensures
        ticked_times(v.pressed(), k) == (MachineView {
            button: Button { count: k as u32, pressed: true, ..v.button },
            code: v.code,
        }),
    decreases k,
{
    if k > 0 {
        lemma_held_ticks(v, (k - 1) as nat);
    }
}

/// With the long threshold no greater than the very long one, a press held
/// for `k` ticks and then released commits a dot when `k` is at most the long
/// threshold, and a dash when `k` exceeds it but not the very long threshold,
/// or exceeds it at all once the letter is under way; the code keyed before
/// the press is kept while the button is held.
pub proof fn lemma_press_length_decides_symbol(v: MachineView, k: nat)
    requires
        v.button.long_press <= v.button.very_long_press,
        k <= u32::MAX,
    ensures
        ticked_times(v.pressed(), k).code == v.code,
        k <= v.button.long_press ==> ticked_times(v.pressed(), k).released().code == MorseCode(
            advance(v.code.0, false),
        ),
        v.button.long_press < k && (k <= v.button.very_long_press || v.code.0 != 0) ==> ticked_times(
            v.pressed(),
            k,
        ).released().code == MorseCode(advance(v.code.0, true)),
{
    lemma_held_ticks(v, k);
}

/// What a `MorseTimelessMachine` holds: its classification and the code
/// keyed so far in the current letter.
pub struct TimelessView {
    pub state: State,
    pub code: MorseCode,
}

impl TimelessView {
    /// The machine after a press edge.
    pub open spec fn pressed(self) -> TimelessView {
        TimelessView { state: State::Press(PressType::Short), code: self.code }
    }

    /// The machine after a release edge: a press in progress is committed.
    pub open spec fn released(self) -> TimelessView {
        TimelessView {
            state: State::WaitingOnPress,
            code: match self.state {
                State::Press(p) => committed(p, self.code),
                _ => self.code,
            },
        }
    }

    /// The classification after crossing the next threshold; once a letter
    /// is under way a long press never becomes very long.
    pub open spec fn next_state(self) -> State {
        if self.code.0 != 0 && self.state == State::Press(PressType::Long) {
            self.state
        } else {
            advanced(self.state)
        }
    }

    /// What a tick reports.
    pub open spec fn tick_transition(self) -> Option<Transition> {
        transition_for(self.state, self.next_state(), self.code)
    }

    /// The machine after a tick; the code is emptied when the letter ends.
    pub open spec fn ticked(self) -> TimelessView {
        TimelessView {
            state: self.next_state(),
            code: if ends_letter(self.state, self.next_state()) {
                MorseCode(0)
            } else {
                self.code
            },
        }
    }
}

/// A Morse decoder in which every tick marks the crossing of the next
/// threshold, for a clock that fires only at thresholds.
pub struct MorseTimelessMachine {
    state: State,
    current: MorseCode,
}

impl View for MorseTimelessMachine {
    type V = TimelessView;

    closed spec fn view(&self) -> TimelessView {
        TimelessView { state: self.state, code: self.current }
    }
}

impl MorseTimelessMachine {
    pub fn new() -> (r: MorseTimelessMachine)
        ensures
            r@ == (TimelessView { state: State::Idle, code: MorseCode(0) }),
    {
        MorseTimelessMachine { state: State::Idle, current: MorseCode::empty() }
    }

    pub fn press(&mut self) -> (r: &mut MorseTimelessMachine)
        ensures
            (*r)@ == old(self)@.pressed(),
            *final(self) == *final(r),
    {
        self.state = self.state.press();
        self
    }

    pub fn release(&mut self) -> (r: &mut MorseTimelessMachine)
        ensures
            (*r)@ == old(self)@.released(),
            *final(self) == *final(r),
    {
        if let State::Press(p) = self.state {
            self.current = match p {
                PressType::Short => self.current.append_dot(),
                PressType::Long => self.current.append_dash(),
                PressType::VeryLong => MorseCode::transmit(),
            };
        }
        self.state = self.state.release();
        self
    }

    fn next_state(&self) -> (r: State)
        ensures
            r == self@.next_state(),
    {
        if !self.current.is_empty() && self.state == State::Press(PressType::Long) {
            self.state
        } else {
            self.state.tick()
        }
    }

    /// Moves to the next threshold and reports the change of classification,
    /// if any.
    pub fn tick(&mut self) -> (r: Option<Transition>)
        ensures
            r == old(self)@.tick_transition(),
            final(self)@ == old(self)@.ticked(),
            r == Some(Transition::VeryLong) ==> old(self)@.code.0 == 0,
    {
        let previous_state = self.state;
        self.state = self.next_state();
        take_transition(previous_state, self.state, &mut self.current)
    }
}

/// Delay, in microseconds, after which a release that commits the transmit
/// command ends the letter.
pub const TRANSMIT_DELAY_MICROS: u32 = 1_000;

/// What to do with the countdown timer that drives a `MorseTimingMachine`.
#[derive(Clone, Copy, Debug, PartialEq, Eq, Structural)]
pub enum TimerCommand {
    /// Clear a pending interrupt, count down this many microseconds and
    /// interrupt when done.
    Start(u32),
    /// Stop interrupting.
    Stop,
    /// Leave the timer as it is.
    Keep,
}

/// The timer command after a tick that reported `t`: the next boundary after
/// a long press is the very long one, and nothing follows the end of a letter
/// or the transmit gesture until the next edge.
pub open spec fn command_after(t: Option<Transition>, very_long_press: u32) -> TimerCommand {
    match t {
        None => TimerCommand::Keep,
        Some(Transition::Long) => TimerCommand::Start(very_long_press),
        Some(_) => TimerCommand::Stop,
    }
}

/// What a `MorseTimingMachine` holds: the intervals, in microseconds, from a
/// press to the long boundary, from the long to the very long boundary, and
/// from a release to the end of the letter; and the decoder.
pub struct TimingView {
    pub long_press: u32,
    pub very_long_press: u32,
    pub timeout: u32,
    pub machine: TimelessView,
}

/// A Morse decoder in real time: each edge and tick says when the timer must
/// fire next, so that it fires once per threshold crossed.
pub struct MorseTimingMachine {
    long_press: u32,
    very_long_press: u32,
    timeout: u32,
    machine: MorseTimelessMachine,
}

impl View for MorseTimingMachine {
    type V = TimingView;

    closed spec fn view(&self) -> TimingView {
        TimingView {
            long_press: self.long_press,
            very_long_press: self.very_long_press,
            timeout: self.timeout,
            machine: self.machine@,
        }
    }
}

impl MorseTimingMachine {
    /// A decoder whose dot lasts `dot_length` microseconds.
    pub fn new(dot_length: u32) -> (r: MorseTimingMachine)
        requires
            VERY_LONG_DOTS * dot_length <= u32::MAX,
            IDLE_DOTS * dot_length <= u32::MAX,
        ensures
            r@ == (TimingView {
                long_press: dot_length,
                very_long_press: ((VERY_LONG_DOTS - 1) * dot_length) as u32,
                timeout: (IDLE_DOTS * dot_length) as u32,
                machine: TimelessView { state: State::Idle, code: MorseCode(0) },
            }),
    {
        proof {
            assert((VERY_LONG_DOTS - 1) * dot_length <= VERY_LONG_DOTS * dot_length)
                by (nonlinear_arith);
        }
        MorseTimingMachine {
            long_press: dot_length,
            very_long_press: (VERY_LONG_DOTS - 1) * dot_length,
            timeout: IDLE_DOTS * dot_length,
            machine: MorseTimelessMachine::new(),
        }
    }

    /// A press edge: the timer must fire when the press becomes long.
    pub fn press(&mut self) -> (r: TimerCommand)
        ensures
            final(self)@ == (TimingView { machine: old(self)@.machine.pressed(), ..old(self)@ }),
            r == TimerCommand::Start(old(self)@.long_press),
    {
        self.machine.press();
        TimerCommand::Start(self.long_press)
    }

    /// A release edge: the timer must fire when the letter ends, at once if
    /// the release committed the transmit command.
    pub fn release(&mut self) -> (r: TimerCommand)
        ensures
            final(self)@ == (TimingView { machine: old(self)@.machine.released(), ..old(self)@ }),
            r == TimerCommand::Start(
                if final(self)@.machine.code.0 == TRANSMIT_INDEX {
                    TRANSMIT_DELAY_MICROS
                } else {
                    old(self)@.timeout
                },
            ),
    {
        self.machine.release();
        let interval = if self.machine.current.is_transmit() {
            TRANSMIT_DELAY_MICROS
        } else {
            self.timeout
        };
        TimerCommand::Start(interval)
    }

    /// The timer fired: advances the decoder and says what the timer must do
    /// until the next boundary.
    pub fn tick(&mut self) -> (r: (Option<Transition>, TimerCommand))
        ensures
            r.0 == old(self)@.machine.tick_transition(),
            r.1 == command_after(r.0, old(self)@.very_long_press),
            final(self)@ == (TimingView { machine: old(self)@.machine.ticked(), ..old(self)@ }),
    {
        let transition = self.machine.tick();
        let command = match transition {
            None => TimerCommand::Keep,
            Some(Transition::Long) => TimerCommand::Start(self.very_long_press),
            Some(_) => TimerCommand::Stop,
        };
        (transition, command)
    }
}

} // verus!
