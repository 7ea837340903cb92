//! Decoding of the single-byte input reports that AKP05 devices send.
//!
//! Each report is a code and a state byte. Button codes give a full
//! snapshot of the button row, rotation codes a delta per encoder, and
//! click codes a state per encoder. Codes that carry no meaning here give
//! an all-released snapshot, so that the host never sees a decode failure
//! for benign firmware noise.

use vstd::prelude::*;

use crate::mappings::{ENCODER_COUNT, KEY_COUNT};

verus! {

/// A decoded input event.
#[derive(Debug, Clone, PartialEq, Eq)]
pub enum InputEvent {
    /// State of every button, pressed or not.
    ButtonStateChange(Vec<bool>),
    /// Rotation of every encoder: -1 left, +1 right, 0 still.
    EncoderTwist(Vec<i8>),
    /// State of every encoder's push button.
    EncoderStateChange(Vec<bool>),
}

/// A report that violates the device protocol.
#[derive(Debug, Clone, Copy, PartialEq, Eq, Structural)]
pub enum InputError {
    /// The report names a button that the device does not have.
    BadData,
}

/// The mathematical content of an `InputEvent`.
pub enum EventView {
    ButtonStateChange(Seq<bool>),
    EncoderTwist(Seq<i8>),
    EncoderStateChange(Seq<bool>),
}

impl View for InputEvent {
    type V = EventView;

    open spec fn view(&self) -> EventView {
        match self {
            InputEvent::ButtonStateChange(v) => EventView::ButtonStateChange(v@),
            InputEvent::EncoderTwist(v) => EventView::EncoderTwist(v@),
            InputEvent::EncoderStateChange(v) => EventView::EncoderStateChange(v@),
        }
    }
}

/// `n` flags, all false but the one at `k`, which is `v`.
pub open spec fn flags(n: nat, k: int, v: bool) -> Seq<bool> {
    Seq::new(n, |i: int| i == k && v)
}

/// `n` deltas, all zero but the one at `k`, which is `d`.
pub open spec fn deltas(n: nat, k: int, d: i8) -> Seq<i8> {
    Seq::new(n, |i: int| if i == k { d } else { 0i8 })
}

/// The event for a report that carries nothing: every button released.
pub open spec fn neutral() -> EventView {
    EventView::ButtonStateChange(Seq::new(KEY_COUNT as nat, |i: int| false))
}

/// Whether `code` reports a button of the main grid (numbered from 1).
pub open spec fn is_button_code(code: u8) -> bool {
    1 <= code <= KEY_COUNT
}

/// Encoder and direction of the primary rotation codes.
pub open spec fn primary_twist(code: u8) -> Option<(int, i8)> {
    if code == 0x50 {
        Some((1, -1i8))
    } else if code == 0x51 {
        Some((1, 1i8))
    } else if code == 0x60 {
        Some((1, -1i8))
    } else if code == 0x61 {
        Some((1, 1i8))
    } else if code == 0x90 {
        Some((2, -1i8))
    } else if code == 0x91 {
        Some((2, 1i8))
    } else if code == 0x70 {
        Some((3, -1i8))
    } else if code == 0x71 {
        Some((3, 1i8))
    } else {
        None
    }
}

/// Encoder and direction of the alternate rotation codes of the first
/// encoder.
pub open spec fn alt_twist(code: u8) -> Option<(int, i8)> {
    if code == 0xA0 {
        Some((0, -1i8))
    } else if code == 0xA1 {
        Some((0, 1i8))
    } else {
        None
    }
}

/// Encoder and direction of any rotation code.
pub open spec fn twist_of(code: u8) -> Option<(int, i8)> {
    if primary_twist(code) is Some {
        primary_twist(code)
    } else {
        alt_twist(code)
    }
}

/// Encoder whose push button `code` reports.
pub open spec fn click_of(code: u8) -> Option<int> {
    if code == 0x37 {
        Some(0)
    } else if code == 0x35 {
        Some(1)
    } else if code == 0x33 {
        Some(2)
    } else if code == 0x36 {
        Some(3)
    } else {
        None
    }
}

/// Snapshot of the buttons when button `code` changes to `state`.
pub open spec fn button_event(code: u8, state: u8) -> EventView {
    EventView::ButtonStateChange(flags(KEY_COUNT as nat, code - 1, state != 0))
}

/// Event for a rotation code, or the neutral event for another code.
pub open spec fn twist_event(t: Option<(int, i8)>) -> EventView {
    match t {
        Some((k, d)) => EventView::EncoderTwist(deltas(ENCODER_COUNT as nat, k, d)),
        None => neutral(),
    }
}

/// Event for a click code, or the neutral event for another code.
pub open spec fn click_event(code: u8, state: u8) -> EventView {
    match click_of(code) {
        Some(k) => EventView::EncoderStateChange(flags(ENCODER_COUNT as nat, k, state != 0)),
        None => neutral(),
    }
}

/// The event that report `(code, state)` stands for.
pub open spec fn event_of(code: u8, state: u8) -> EventView {
    if is_button_code(code) {
        button_event(code, state)
    } else if twist_of(code) is Some {
        twist_event(twist_of(code))
    } else if 0x33 <= code <= 0x37 {
        click_event(code, state)
    } else {
        neutral()
    }
}

fn all_released() -> (r: InputEvent)
    ensures
        r@ == neutral(),
{
    let v = vec![false; KEY_COUNT];
    assert(v@ =~= Seq::new(KEY_COUNT as nat, |i: int| false));
    InputEvent::ButtonStateChange(v)
}

/// Decodes one input report.
pub fn process_input(input: u8, state: u8) -> (r: Result<InputEvent, InputError>)
    ensures
        r matches Ok(e) && e@ == event_of(input, state),
{
    process_akp05e_input(input, state)
}

fn process_akp05e_input(input: u8, state: u8) -> (r: Result<InputEvent, InputError>)
    ensures
        r matches Ok(e) && e@ == event_of(input, state),
{
    match input {
        0x01..=0x0A => read_akp05e_button_press(input, state),
        0x90 | 0x91 | 0x50 | 0x51 | 0x60 | 0x61 | 0x70 | 0x71 => read_akp05e_encoder_value(input),
        0xA0 | 0xA1 => read_akp05e_encoder_value_alt(input),
        0x33..=0x37 => read_akp05e_encoder_press(input, state),
        0x40..=0x4F => read_akp05e_touchscreen(input, state),
        _ => Ok(all_released()),
    }
}

/// Reads the button flags out of a state buffer whose first byte is a
/// header: flag `i` is set when byte `i + 1` is not zero.
pub fn read_button_states(states: &[u8]) -> (r: Vec<bool>)
    requires
        states@.len() > KEY_COUNT,
    ensures
        r@ == Seq::new(KEY_COUNT as nat, |i: int| states@[i + 1] != 0),
{
    let mut bools: Vec<bool> = Vec::new();
    for i in 0..KEY_COUNT
        invariant
            states@.len() > KEY_COUNT,
            bools@ == Seq::new(i as nat, |j: int| states@[j + 1] != 0),
    {
        bools.push(states[i + 1] != 0);
        assert(bools@ =~= Seq::new((i + 1) as nat, |j: int| states@[j + 1] != 0));
    }
    bools
}

/// Decodes a button report, whose code numbers the buttons from 1. A code
/// that names no button of the grid is malformed data.
pub fn read_akp05e_button_press(input: u8, state: u8) -> (r: Result<InputEvent, InputError>)
    ensures
        is_button_code(input) ==> (r matches Ok(e) && e@ == button_event(input, state)),
        !is_button_code(input) ==> r == Err::<InputEvent, InputError>(InputError::BadData),
{
    if input == 0 || (input - 1) as usize >= KEY_COUNT {
        return Err(InputError::BadData);
    }
    let physical_button = (input - 1) as usize;
    // Buttons keep their place: the physical index is the position shown.
    let ui_position = physical_button;

    let mut button_states: Vec<u8> = vec![0u8; KEY_COUNT + 2];
    button_states.set(0, 0x01);
    button_states.set(ui_position + 1, state);

    let bools = read_button_states(button_states.as_slice());
    assert(bools@ =~= flags(KEY_COUNT as nat, input - 1, state != 0));
    Ok(InputEvent::ButtonStateChange(bools))
}

/// Decodes a primary rotation code; any other code gives the neutral event.
fn read_akp05e_encoder_value(input: u8) -> (r: Result<InputEvent, InputError>)
    ensures
        r matches Ok(e) && e@ == twist_event(primary_twist(input)),
{
    let mut encoder_values = vec![0i8; ENCODER_COUNT];

    let (encoder, value): (usize, i8) = match input {
        0x50 => (1, -1),
        0x51 => (1, 1),
        0x60 => (1, -1),
        0x61 => (1, 1),
        0x90 => (2, -1),
        0x91 => (2, 1),
        0x70 => (3, -1),
        0x71 => (3, 1),
        _ => return Ok(all_released()),
    };

    encoder_values.set(encoder, value);
    assert(encoder_values@ =~= deltas(ENCODER_COUNT as nat, encoder as int, value));
    Ok(InputEvent::EncoderTwist(encoder_values))
}

/// Decodes an alternate rotation code of the first encoder; any other
/// code gives the neutral event.
fn read_akp05e_encoder_value_alt(input: u8) -> (r: Result<InputEvent, InputError>)
    ensures
        r matches Ok(e) && e@ == twist_event(alt_twist(input)),
{
    let mut encoder_values = vec![0i8; ENCODER_COUNT];

    let (encoder, value): (usize, i8) = match input {
        0xA0 => (0, -1),
        0xA1 => (0, 1),
        _ => return Ok(all_released()),
    };

    encoder_values.set(encoder, value);
    assert(encoder_values@ =~= deltas(ENCODER_COUNT as nat, encoder as int, value));
    Ok(InputEvent::EncoderTwist(encoder_values))
}

/// Touch-surface reports are not interpreted: they give the neutral event.
fn read_akp05e_touchscreen(_input: u8, _state: u8) -> (r: Result<InputEvent, InputError>)
    ensures
        r matches Ok(e) && e@ == neutral(),
{
    Ok(all_released())
}

/// Decodes an encoder click code; an unassigned code gives the neutral
/// event.
fn read_akp05e_encoder_press(input: u8, state: u8) -> (r: Result<InputEvent, InputError>)
    ensures
        r matches Ok(e) && e@ == click_event(input, state),
{
    let mut encoder_states = vec![false; ENCODER_COUNT];

    let encoder: usize = match input {
        0x37 => 0,
        0x35 => 1,
        0x33 => 2,
        0x36 => 3,
        _ => return Ok(all_released()),
    };

    encoder_states.set(encoder, state != 0);
    assert(encoder_states@ =~= flags(ENCODER_COUNT as nat, encoder as int, state != 0));
    Ok(InputEvent::EncoderStateChange(encoder_states))
}

/// A button code gives a snapshot of every button in which only the
/// button it names, counted from 0, may be pressed, and is pressed exactly
/// when the state byte is not zero.
pub proof fn lemma_button_code_snapshot(code: u8, state: u8)
    requires
        is_button_code(code),
    ensures
        event_of(code, state) matches EventView::ButtonStateChange(v) && v.len() == KEY_COUNT
            && v[code - 1] == (state != 0) && forall|i: int|
            0 <= i < v.len() && i != code - 1 ==> !#[trigger] v[i],
{
}

/// The two codes of a rotation pair move the same encoder, the first by -1
/// and the second by +1, and leave every other encoder at 0.
pub proof fn lemma_rotation_pair(left: u8, state: u8)
    requires
        left == 0x50 || left == 0x60 || left == 0x70 || left == 0x90 || left == 0xA0,
    ensures
        exists|k: int|
            0 <= k < ENCODER_COUNT && event_of(left, state) == EventView::EncoderTwist(
                deltas(ENCODER_COUNT as nat, k, -1i8),
            ) && event_of((left + 1) as u8, state) == EventView::EncoderTwist(
                deltas(ENCODER_COUNT as nat, k, 1i8),
            ),
{
    let k = twist_of(left)->Some_0.0;
    assert(0 <= k < ENCODER_COUNT && event_of(left, state) == EventView::EncoderTwist(
        deltas(ENCODER_COUNT as nat, k, -1i8),
    ) && event_of((left + 1) as u8, state) == EventView::EncoderTwist(
        deltas(ENCODER_COUNT as nat, k, 1i8),
    ));
}

/// A click code sets its encoder's flag to whether the state byte is not
/// zero and leaves every other encoder's flag false.
pub proof fn lemma_click_code(code: u8, state: u8)
    requires
        click_of(code) is Some,
    ensures
        0 <= click_of(code)->Some_0 < ENCODER_COUNT,
        event_of(code, state) == EventView::EncoderStateChange(
            flags(ENCODER_COUNT as nat, click_of(code)->Some_0, state != 0),
        ),
{
}

/// Distinct click codes belong to distinct encoders.
pub proof fn lemma_click_codes_distinct(a: u8, b: u8)
    requires
        click_of(a) is Some,
        click_of(b) is Some,
        a != b,
    ensures
        click_of(a)->Some_0 != click_of(b)->Some_0,
{
}

/// A code that is neither a button, a rotation nor a click code gives the
/// all-released snapshot of the buttons.
pub proof fn lemma_other_code_neutral(code: u8, state: u8)
    requires
        !is_button_code(code),
        twist_of(code) is None,
        click_of(code) is None,
    ensures
        event_of(code, state) == neutral(),
        neutral() matches EventView::ButtonStateChange(v) && v.len() == KEY_COUNT && forall|i: int|
            0 <= i < v.len() ==> !#[trigger] v[i],
{
}

} // verus!
