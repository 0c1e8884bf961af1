//! The arithmetic and key handling of the runtime console, a terminal view
//! that shows the load of each worker as a bar.
use vstd::prelude::*;

verus! {

/// The smallest refresh period, in milliseconds, that the `-` key lowers
/// the period from.
pub const MIN_PERIOD_MS: u64 = 5;

/// The lowest top of the bar chart.
pub const MIN_BAR_MAX_HEIGHT: u64 = 10;

/// The narrowest bar.
pub const MIN_BAR_WIDTH: u16 = 5;

/// How far one key press moves a refresh period of `period` milliseconds:
/// by 1 below 100, by 10 below 200, by 100 from there on.
pub open spec fn step_of(period: u64) -> u64 {
    if period < 100 {
        1
    } else if period < 200 {
        10
    } else {
        100
    }
}

/// The smallest multiple of 10 that is at least `v`.
pub open spec fn next_multiple_of_ten(v: u64) -> int {
    if v % 10 == 0 {
        v as int
    } else {
        v + (10 - v % 10)
    }
}

/// How many bars of `bar_width` columns, each followed by `bar_gap`, fit in
/// `area_width` columns; at least one.
pub fn bars_per_row(area_width: u16, bar_width: u16, bar_gap: u16) -> (r: usize)
    requires
        0 < bar_width + bar_gap <= u16::MAX,
    ensures
        r == (if area_width as int / (bar_width + bar_gap) > 1 {
            area_width as int / (bar_width + bar_gap)
        } else {
            1
        }),
{
    let unit: u16 = bar_width + bar_gap;
    let fit: u16 = area_width / unit;
    if fit > 1 {
        fit as usize
    } else {
        1
    }
}

/// How far one key press moves a refresh period of `period` milliseconds.
pub fn frequency_step_amt(period: u64) -> (r: u64)
    ensures
        r == step_of(period),
{
    if period < 100 {
        1
    } else if period < 200 {
        10
    } else {
        100
    }
}

/// The width of each bar when `workers` bars share `area_width` columns,
/// with `bar_gap` columns after each: never under [`MIN_BAR_WIDTH`].
pub fn bar_width(area_width: u16, workers: u16, bar_gap: u16) -> (r: u16)
    requires
        workers > 0,
        area_width as int / workers as int >= bar_gap,
    ensures
        r == (if area_width as int / workers as int - bar_gap > MIN_BAR_WIDTH {
            area_width as int / workers as int - bar_gap
        } else {
            MIN_BAR_WIDTH as int
        }),
{
    let share: u16 = area_width / workers;
    let width: u16 = share - bar_gap;
    if width > MIN_BAR_WIDTH {
        width
    } else {
        MIN_BAR_WIDTH
    }
}

/// The top of the bar chart for bars of heights `values`: each height
/// rounded up to a multiple of 10, and never under [`MIN_BAR_MAX_HEIGHT`].
pub fn bar_max_height(values: &[u64]) -> (r: u64)
    requires
        forall|i: int| 0 <= i < values@.len() ==> #[trigger] values@[i] <= u64::MAX - 5,
    ensures
        r >= MIN_BAR_MAX_HEIGHT,
        forall|i: int| 0 <= i < values@.len() ==> r >= next_multiple_of_ten(#[trigger] values@[i]),
        r == MIN_BAR_MAX_HEIGHT || exists|i: int|
            0 <= i < values@.len() && r == next_multiple_of_ten(#[trigger] values@[i]),
{
    let mut max: u64 = MIN_BAR_MAX_HEIGHT;
    let mut i: usize = 0;
    while i < values.len()
        invariant
            i <= values@.len(),
            forall|j: int| 0 <= j < values@.len() ==> #[trigger] values@[j] <= u64::MAX - 5,
            max >= MIN_BAR_MAX_HEIGHT,
            forall|j: int| 0 <= j < i ==> max >= next_multiple_of_ten(#[trigger] values@[j]),
            max == MIN_BAR_MAX_HEIGHT || exists|j: int|
                0 <= j < i && max == next_multiple_of_ten(#[trigger] values@[j]),
        decreases values@.len() - i,
    {
        let v = values[i];
        let rem = v % 10;
        let rounded: u64 = if rem == 0 {
            v
        } else {
            v + (10 - rem)
        };
        assert(rounded == next_multiple_of_ten(values@[i as int]));
        if rounded > max {
            max = rounded;
        }
        i = i + 1;
    }
    max
}

/// The frames per second shown for a refresh period of `period`
/// milliseconds.
pub fn frames_per_second(period: u64) -> (r: u64)
    requires
        period > 0,
    ensures
        r == 1000int / period as int,
{
    1000 / period
}

/// A key the console reacts to.
#[derive(Clone, Copy, PartialEq, Eq, Structural, Debug)]
pub enum KeyCode {
    Esc,
    Char(char),
    Other,
}

/// A key press: its code and whether Control, and no other modifier, was
/// held.
#[derive(Clone, Copy, PartialEq, Eq, Structural, Debug)]
pub struct KeyPress {
    pub code: KeyCode,
    pub control_only: bool,
}

/// What the console does on a key press.
#[derive(Clone, Copy, PartialEq, Eq, Structural, Debug)]
pub enum KeyAction {
    /// Stop the console.
    Quit,
    /// Refresh every so many milliseconds from now on.
    SetPeriod(u64),
    /// Nothing.
    Ignore,
}

/// Whether the key press stops the console: `Esc` or `q` with any
/// modifiers, or Control with `c` or `C`.
pub open spec fn quits(key: KeyPress) -> bool {
    ||| key.code == KeyCode::Esc
    ||| key.code == KeyCode::Char('q')
    ||| key.control_only && (key.code == KeyCode::Char('c') || key.code == KeyCode::Char('C'))
}

/// The action of `key` while the console refreshes every `period`
/// milliseconds.
pub open spec fn action_of(key: KeyPress, period: u64) -> KeyAction {
    if quits(key) {
        KeyAction::Quit
    } else if key.code == KeyCode::Char('+') {
        KeyAction::SetPeriod((period + step_of(period)) as u64)
    } else if key.code == KeyCode::Char('-') && period > MIN_PERIOD_MS {
        KeyAction::SetPeriod((period - step_of(period)) as u64)
    } else {
        KeyAction::Ignore
    }
}

/// Decides what a key press does while the console refreshes every
/// `period` milliseconds: `+` lengthens the period by one step, `-` shortens
/// it by one step unless it is already at most [`MIN_PERIOD_MS`], and the
/// quit keys stop the console.
pub fn on_key(key: KeyPress, period: u64) -> (r: KeyAction)
    requires
        key.code == KeyCode::Char('+') ==> period + step_of(period) <= u64::MAX,
    ensures
        r == action_of(key, period),
{
    let quit = match key.code {
        KeyCode::Esc => true,
        KeyCode::Char(c) => c == 'q' || (key.control_only && (c == 'c' || c == 'C')),
        KeyCode::Other => false,
    };
    if quit {
        return KeyAction::Quit;
    }
    match key.code {
        KeyCode::Char(c) => {
            if c == '+' {
                KeyAction::SetPeriod(period + frequency_step_amt(period))
            } else if c == '-' && period > MIN_PERIOD_MS {
                KeyAction::SetPeriod(period - frequency_step_amt(period))
            } else {
                KeyAction::Ignore
            }
        },
        _ => KeyAction::Ignore,
    }
}

/// `-` never takes the refresh period under [`MIN_PERIOD_MS`] from above
/// it, and leaves a period at or under it as it is: starting from a period
/// of at least one millisecond, the period stays positive, so the frame rate
/// shown is always defined.
pub proof fn law_minus_keeps_period_positive(period: u64)
    ensures
        action_of(KeyPress { code: KeyCode::Char('-'), control_only: false }, period) matches KeyAction::SetPeriod(
            p,
        ) ==> p >= MIN_PERIOD_MS && p < period,
        period <= MIN_PERIOD_MS ==> action_of(
            KeyPress { code: KeyCode::Char('-'), control_only: false },
            period,
        ) == KeyAction::Ignore,
{
}

} // verus!
