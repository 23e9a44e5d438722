//! The interactive session: the grid's size and gamma as the user edits them,
//! the field that has the focus, and the text drawn last.
//!
//! The session is a state machine driven by key presses. Up and Down move the
//! focus in a cycle over the four fields; Left and Right change the value of the
//! field in focus; Enter ends the session when the focus is on Confirm. The
//! caller reads the keys, draws the frames and keeps the time; every decision is
//! taken here.

use vstd::prelude::*;
use crate::converter::{AsciiOptions, OptionsView, ImageConverter, ToAsciiArt};
use crate::sampling::{art_text, is_grid_text};
use crate::tone::ToneCurve;

verus! {

/// The field that Left and Right act on.
#[derive(Clone, Copy, Debug, PartialEq, Eq, Structural)]
pub enum Focus {
    Width,
    Height,
    Gamma,
    Confirm,
}

/// A key press, as far as the session tells keys apart.
#[derive(Clone, Copy, Debug, PartialEq, Eq, Structural)]
pub enum Key {
    Left,
    Right,
    Up,
    Down,
    Enter,
    Other,
}

/// What happened to a key: it went down, it is held down and repeats, or it
/// came up.
#[derive(Clone, Copy, Debug, PartialEq, Eq, Structural)]
pub enum KeyKind {
    Press,
    Repeat,
    Release,
}

/// What the caller does after a key: go on with the next frame, or stop and
/// hand out the text.
#[derive(Clone, Copy, Debug, PartialEq, Eq, Structural)]
pub enum Outcome {
    Continue,
    Finish,
}

/// Width of the grid when a session starts.
pub const INITIAL_WIDTH: u32 = 80;

/// Height of the grid when a session starts.
pub const INITIAL_HEIGHT: u32 = 50;

/// Gamma when a session starts, in tenths: 1.0.
pub const INITIAL_GAMMA_TENTHS: u32 = 10;

/// The state of a session as a mathematical value. Gamma is counted in tenths,
/// the step by which it is edited.
pub struct SessionState {
    pub width: nat,
    pub height: nat,
    pub gamma_tenths: nat,
    pub focus: Focus,
    pub art: Seq<char>,
}

/// The state in which every session starts.
pub open spec fn initial_state() -> SessionState {
    SessionState {
        width: 80,
        height: 50,
        gamma_tenths: 10,
        focus: Focus::Width,
        art: Seq::empty(),
    }
}

/// Whether the values of a state can be handed to the converter: width, height
/// and gamma are positive, and none is beyond what 32 bits hold.
pub open spec fn state_valid(s: SessionState) -> bool {
    &&& 1 <= s.width <= u32::MAX
    &&& 1 <= s.height <= u32::MAX
    &&& 1 <= s.gamma_tenths <= u32::MAX
}

/// The field below `focus`; below the last field comes the first.
pub open spec fn focus_below(focus: Focus) -> Focus {
    match focus {
        Focus::Width => Focus::Height,
        Focus::Height => Focus::Gamma,
        Focus::Gamma => Focus::Confirm,
        Focus::Confirm => Focus::Width,
    }
}

/// The field above `focus`; above the first field comes the last.
pub open spec fn focus_above(focus: Focus) -> Focus {
    match focus {
        Focus::Width => Focus::Confirm,
        Focus::Height => Focus::Width,
        Focus::Gamma => Focus::Height,
        Focus::Confirm => Focus::Gamma,
    }
}

/// A value after one step up: one more, unless it is the largest that 32 bits
/// hold, which stays.
pub open spec fn stepped_up(value: nat) -> nat {
    if value < u32::MAX {
        value + 1
    } else {
        value
    }
}

/// A value after one step down: one less, unless it is 1, which stays.
pub open spec fn stepped_down(value: nat) -> nat {
    if value > 1 {
        (value - 1) as nat
    } else {
        value
    }
}

/// The state after a key press.
pub open spec fn state_after(s: SessionState, key: Key) -> SessionState {
    match key {
        Key::Right => match s.focus {
            Focus::Width => SessionState { width: stepped_up(s.width), ..s },
            Focus::Height => SessionState { height: stepped_up(s.height), ..s },
            Focus::Gamma => SessionState { gamma_tenths: stepped_up(s.gamma_tenths), ..s },
            Focus::Confirm => s,
        },
        Key::Left => match s.focus {
            Focus::Width => SessionState { width: stepped_down(s.width), ..s },
            Focus::Height => SessionState { height: stepped_down(s.height), ..s },
            Focus::Gamma => SessionState { gamma_tenths: stepped_down(s.gamma_tenths), ..s },
            Focus::Confirm => s,
        },
        Key::Up => SessionState { focus: focus_above(s.focus), ..s },
        Key::Down => SessionState { focus: focus_below(s.focus), ..s },
        Key::Enter => s,
        Key::Other => s,
    }
}

/// Whether a key press ends the session: only Enter does, and only with the
/// focus on Confirm.
pub open spec fn ends_session(s: SessionState, key: Key) -> bool {
    key == Key::Enter && s.focus == Focus::Confirm
}

/// The key that an event counts as: its own key when the key went down, and a
/// key without effect when it repeats or came up.
pub open spec fn key_pressed(kind: KeyKind, key: Key) -> Key {
    if kind == KeyKind::Press {
        key
    } else {
        Key::Other
    }
}

/// The state after a sequence of key presses.
pub open spec fn state_after_keys(s: SessionState, keys: Seq<Key>) -> SessionState
    decreases keys.len(),
{
    if keys.len() == 0 {
        s
    } else {
        state_after(state_after_keys(s, keys.drop_last()), keys.last())
    }
}

/// A live session.
pub struct Session {
    art: String,
    width: u32,
    height: u32,
    gamma_tenths: u32,
    focus: Focus,
}

impl View for Session {
    type V = SessionState;

    closed spec fn view(&self) -> SessionState {
        SessionState {
            width: self.width as nat,
            height: self.height as nat,
            gamma_tenths: self.gamma_tenths as nat,
            focus: self.focus,
            art: self.art@,
        }
    }
}

/// The field below `focus`.
fn below(focus: Focus) -> (next: Focus)
    ensures
        next == focus_below(focus),
{
    match focus {
        Focus::Width => Focus::Height,
        Focus::Height => Focus::Gamma,
        Focus::Gamma => Focus::Confirm,
        Focus::Confirm => Focus::Width,
    }
}

/// The field above `focus`.
fn above(focus: Focus) -> (next: Focus)
    ensures
        next == focus_above(focus),
{
    match focus {
        Focus::Width => Focus::Confirm,
        Focus::Height => Focus::Width,
        Focus::Gamma => Focus::Height,
        Focus::Confirm => Focus::Gamma,
    }
}

/// One more than `value`, where 32 bits hold it.
fn step_up(value: u32) -> (next: u32)
    ensures
        next == stepped_up(value as nat),
{
    if value < u32::MAX {
        value + 1
    } else {
        value
    }
}

/// One less than `value`, but never less than 1.
fn step_down(value: u32) -> (next: u32)
    ensures
        next == stepped_down(value as nat),
{
    if value > 1 {
        value - 1
    } else {
        value
    }
}

impl Session {
    #[verifier::type_invariant]
    spec fn well_formed(&self) -> bool {
        &&& 1 <= self.width
        &&& 1 <= self.height
        &&& 1 <= self.gamma_tenths
    }

    /// A session at its start: 80 columns, 50 lines, gamma 1.0, the focus on
    /// Width, and nothing drawn yet.
    pub fn new() -> (session: Session)
        ensures
            session@ == initial_state(),
            state_valid(session@),
    {
        Session {
            art: String::new(),
            width: INITIAL_WIDTH,
            height: INITIAL_HEIGHT,
            gamma_tenths: INITIAL_GAMMA_TENTHS,
            focus: Focus::Width,
        }
    }

    /// Width of the grid in columns; at least 1.
    pub fn width(&self) -> (width: u32)
        ensures
            width == self@.width,
            1 <= width,
    {
        proof {
            use_type_invariant(self);
        }
        self.width
    }

    /// Height of the grid in lines; at least 1.
    pub fn height(&self) -> (height: u32)
        ensures
            height == self@.height,
            1 <= height,
    {
        proof {
            use_type_invariant(self);
        }
        self.height
    }

    /// Gamma in tenths; at least 1, that is 0.1.
    pub fn gamma_tenths(&self) -> (tenths: u32)
        ensures
            tenths == self@.gamma_tenths,
            1 <= tenths,
    {
        proof {
            use_type_invariant(self);
        }
        self.gamma_tenths
    }

    /// The field that has the focus.
    pub fn focus(&self) -> (focus: Focus)
        ensures
            focus == self@.focus,
    {
        self.focus
    }

    /// The text drawn last; empty before the first frame.
    pub fn art(&self) -> (art: &str)
        ensures
            art@ == self@.art,
    {
        self.art.as_str()
    }

    /// Applies a key press to the session and says whether the session ends.
    /// Right and Left change the field in focus by one step and never take
    /// width, height or gamma below 1; Up and Down move the focus; Enter ends
    /// the session with the focus on Confirm and does nothing elsewhere; any
    /// other key is ignored.
    pub fn handle_key(&mut self, key: Key) -> (outcome: Outcome)
        ensures
            final(self)@ == state_after(old(self)@, key),
            outcome == Outcome::Finish <==> ends_session(old(self)@, key),
            state_valid(final(self)@),
    {
        proof {
            use_type_invariant(&*self);
        }
        match key {
            Key::Right => {
                match self.focus {
                    Focus::Width => {
                        self.width = step_up(self.width);
                    },
                    Focus::Height => {
                        self.height = step_up(self.height);
                    },
                    Focus::Gamma => {
                        self.gamma_tenths = step_up(self.gamma_tenths);
                    },
                    Focus::Confirm => {},
                }
                Outcome::Continue
            },
            Key::Left => {
                match self.focus {
                    Focus::Width => {
                        self.width = step_down(self.width);
                    },
                    Focus::Height => {
                        self.height = step_down(self.height);
                    },
                    Focus::Gamma => {
                        self.gamma_tenths = step_down(self.gamma_tenths);
                    },
                    Focus::Confirm => {},
                }
                Outcome::Continue
            },
            Key::Up => {
                self.focus = above(self.focus);
                Outcome::Continue
            },
            Key::Down => {
                self.focus = below(self.focus);
                Outcome::Continue
            },
            Key::Enter => {
                match self.focus {
                    Focus::Confirm => Outcome::Finish,
                    _ => Outcome::Continue,
                }
            },
            Key::Other => Outcome::Continue,
        }
    }

    /// Applies a key event to the session: a key that went down acts as
    /// `handle_key` says, and one that repeats or came up changes nothing.
    pub fn handle_event(&mut self, kind: KeyKind, key: Key) -> (outcome: Outcome)
        ensures
            final(self)@ == state_after(old(self)@, key_pressed(kind, key)),
            outcome == Outcome::Finish <==> ends_session(old(self)@, key_pressed(kind, key)),
            state_valid(final(self)@),
    {
        match kind {
            KeyKind::Press => self.handle_key(key),
            _ => self.handle_key(Key::Other),
        }
    }

    /// The options of the next frame: the session's width and height, and
    /// `tone` as the curve of the session's gamma.
    pub fn options(&self, tone: ToneCurve) -> (options: AsciiOptions)
        ensures
            options@ == (OptionsView {
                columns: self@.width,
                lines: self@.height,
                table: tone@,
            }),
    {
        AsciiOptions::new(self.width, self.height).with_tone(tone)
    }

    /// Draws the next frame: converts the image under the session's width and
    /// height and the curve `tone`, and keeps the text in place of the one drawn
    /// before. Nothing else changes.
    pub fn refresh(&mut self, converter: &ImageConverter, tone: ToneCurve)
        requires
            converter.drawable(),
        ensures
            final(self)@ == (SessionState {
                art: art_text(converter@, old(self)@.width, old(self)@.height, tone@),
                ..old(self)@
            }),
            is_grid_text(final(self)@.art, old(self)@.width, old(self)@.height),
    {
        proof {
            use_type_invariant(&*self);
        }
        let options: AsciiOptions = self.options(tone);
        self.art = converter.to_ascii_art(Some(options));
    }

    /// What happens on a tick apart from the redrawing: nothing.
    pub fn on_tick(&mut self)
        ensures
            final(self)@ == old(self)@,
    {
    }

    /// Ends the session and hands out the text drawn last.
    pub fn into_art(self) -> (art: String)
        ensures
            art@ == self@.art,
    {
        self.art
    }
}

/// Four presses of Down bring the focus back to where it was, from any field,
/// and change nothing else.
pub proof fn lemma_four_downs_return(s: SessionState)
    ensures
        state_after_keys(s, seq![Key::Down, Key::Down, Key::Down, Key::Down]) == s,
        state_after(state_after(state_after(state_after(s, Key::Down), Key::Down), Key::Down), Key::Down)
            == s,
        s.focus == Focus::Width ==> state_after(s, Key::Down).focus == Focus::Height
            && state_after(state_after(s, Key::Down), Key::Down).focus == Focus::Gamma
            && state_after(state_after(state_after(s, Key::Down), Key::Down), Key::Down).focus
            == Focus::Confirm,
{
    lemma_four_keys(s, Key::Down);
}

/// Four presses of Up bring the focus back to where it was, from any field, and
/// change nothing else.
pub proof fn lemma_four_ups_return(s: SessionState)
    ensures
        state_after_keys(s, seq![Key::Up, Key::Up, Key::Up, Key::Up]) == s,
        state_after(state_after(state_after(state_after(s, Key::Up), Key::Up), Key::Up), Key::Up)
            == s,
        s.focus == Focus::Width ==> state_after(s, Key::Up).focus == Focus::Confirm
            && state_after(state_after(s, Key::Up), Key::Up).focus == Focus::Gamma
            && state_after(state_after(state_after(s, Key::Up), Key::Up), Key::Up).focus
            == Focus::Height,
{
    lemma_four_keys(s, Key::Up);
}

/// A sequence of four equal keys acts as four presses of that key.
proof fn lemma_four_keys(s: SessionState, key: Key)
    ensures
        state_after_keys(s, seq![key, key, key, key]) == state_after(
            state_after(state_after(state_after(s, key), key), key),
            key,
        ),
{
    let k4 = seq![key, key, key, key];
    let k3 = seq![key, key, key];
    let k2 = seq![key, key];
    let k1 = seq![key];
    assert(k4.drop_last() =~= k3);
    assert(k3.drop_last() =~= k2);
    assert(k2.drop_last() =~= k1);
    assert(k1.drop_last() =~= Seq::<Key>::empty());
    assert(state_after_keys(s, Seq::<Key>::empty()) == s);
    assert(state_after_keys(s, k1) == state_after(s, key));
    assert(state_after_keys(s, k2) == state_after(state_after(s, key), key));
    assert(state_after_keys(s, k3) == state_after(state_after(state_after(s, key), key), key));
}

/// Up undoes Down, and Down undoes Up.
pub proof fn lemma_up_and_down_cancel(s: SessionState)
    ensures
        state_after(state_after(s, Key::Down), Key::Up) == s,
        state_after(state_after(s, Key::Up), Key::Down) == s,
{
}

/// No key takes width, height or gamma below 1 or beyond 32 bits: a valid state
/// stays valid.
pub proof fn lemma_key_keeps_valid(s: SessionState, key: Key)
    requires
        state_valid(s),
    ensures
        state_valid(state_after(s, key)),
        1 <= state_after(s, key).width,
        1 <= state_after(s, key).height,
        1 <= state_after(s, key).gamma_tenths,
{
}

/// However many keys are pressed, and whichever, width, height and gamma stay
/// at 1 or above.
pub proof fn lemma_keys_keep_valid(s: SessionState, keys: Seq<Key>)
    requires
        state_valid(s),
    ensures
        state_valid(state_after_keys(s, keys)),
        1 <= state_after_keys(s, keys).width,
        1 <= state_after_keys(s, keys).height,
        1 <= state_after_keys(s, keys).gamma_tenths,
    decreases keys.len(),
{
    if keys.len() > 0 {
        lemma_keys_keep_valid(s, keys.drop_last());
        lemma_key_keeps_valid(state_after_keys(s, keys.drop_last()), keys.last());
    }
}

/// Left on Width takes one column away while more than one is left, and Left on
/// Gamma one tenth while more than one is left; at 1 both stay.
pub proof fn lemma_left_stops_at_one(s: SessionState)
    requires
        state_valid(s),
    ensures
        s.focus == Focus::Width ==> state_after(s, Key::Left).width == if s.width > 1 {
            s.width - 1
        } else {
            1
        },
        s.focus == Focus::Height ==> state_after(s, Key::Left).height == if s.height > 1 {
            s.height - 1
        } else {
            1
        },
        s.focus == Focus::Gamma ==> state_after(s, Key::Left).gamma_tenths == if s.gamma_tenths
            > 1 {
            s.gamma_tenths - 1
        } else {
            1
        },
{
}

/// Enter never changes the state, and it ends the session exactly when the
/// focus is on Confirm; no other key ends it.
pub proof fn lemma_enter_only_confirms(s: SessionState, key: Key)
    ensures
        state_after(s, Key::Enter) == s,
        ends_session(s, key) <==> (key == Key::Enter && s.focus == Focus::Confirm),
        s.focus != Focus::Confirm ==> !ends_session(s, key),
        key != Key::Enter ==> !ends_session(s, key),
{
}

/// Only a key that goes down has an effect: one that repeats or comes up leaves
/// the state as it is and never ends the session.
pub proof fn lemma_only_presses_count(s: SessionState, kind: KeyKind, key: Key)
    requires
        kind != KeyKind::Press,
    ensures
        state_after(s, key_pressed(kind, key)) == s,
        !ends_session(s, key_pressed(kind, key)),
{
}

/// Keys change the size, the gamma and the focus, never the text drawn last.
pub proof fn lemma_key_keeps_art(s: SessionState, key: Key)
    ensures
        state_after(s, key).art == s.art,
{
}

} // verus!
