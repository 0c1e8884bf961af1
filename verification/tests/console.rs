use nio::console::{
    bar_max_height, bar_width, bars_per_row, frames_per_second, frequency_step_amt, on_key,
    KeyAction, KeyCode, KeyPress,
};

fn key(c: char) -> KeyPress {
    KeyPress {
        code: KeyCode::Char(c),
        control_only: false,
    }
}

#[test]
fn step_amounts() {
    assert_eq!(frequency_step_amt(0), 1);
    assert_eq!(frequency_step_amt(99), 1);
    assert_eq!(frequency_step_amt(100), 10);
    assert_eq!(frequency_step_amt(199), 10);
    assert_eq!(frequency_step_amt(200), 100);
    assert_eq!(frequency_step_amt(5000), 100);
}

#[test]
fn bar_layout() {
    assert_eq!(bars_per_row(80, 5, 1), 13);
    assert_eq!(bars_per_row(4, 5, 1), 1);
    assert_eq!(bars_per_row(12, 5, 1), 2);
    assert_eq!(bar_width(80, 4, 1), 19);
    assert_eq!(bar_width(20, 4, 1), 5);
    assert_eq!(bar_width(4, 4, 1), 5);
    assert_eq!(bar_max_height(&[]), 10);
    assert_eq!(bar_max_height(&[3, 0]), 10);
    assert_eq!(bar_max_height(&[3, 11, 20]), 20);
    assert_eq!(bar_max_height(&[21, 7]), 30);
    assert_eq!(bar_max_height(&[u64::MAX - 5]), u64::MAX - 5);
    assert_eq!(bar_max_height(&[u64::MAX - 14]), u64::MAX - 5);
    assert_eq!(frames_per_second(41), 24);
    assert_eq!(frames_per_second(5), 200);
}

#[test]
fn keys() {
    assert_eq!(on_key(key('q'), 41), KeyAction::Quit);
    let esc = KeyPress {
        code: KeyCode::Esc,
        control_only: false,
    };
    assert_eq!(on_key(esc, 41), KeyAction::Quit);
    let ctrl_c = KeyPress {
        code: KeyCode::Char('c'),
        control_only: true,
    };
    assert_eq!(on_key(ctrl_c, 41), KeyAction::Quit);
    assert_eq!(on_key(key('c'), 41), KeyAction::Ignore);
    assert_eq!(on_key(key('+'), 41), KeyAction::SetPeriod(42));
    assert_eq!(on_key(key('+'), 150), KeyAction::SetPeriod(160));
    assert_eq!(on_key(key('+'), 250), KeyAction::SetPeriod(350));
    assert_eq!(on_key(key('-'), 41), KeyAction::SetPeriod(40));
    assert_eq!(on_key(key('-'), 100), KeyAction::SetPeriod(90));
    assert_eq!(on_key(key('-'), 200), KeyAction::SetPeriod(100));
    // the period never drops under 5 ms
    assert_eq!(on_key(key('-'), 6), KeyAction::SetPeriod(5));
    assert_eq!(on_key(key('-'), 5), KeyAction::Ignore);
    let other = KeyPress {
        code: KeyCode::Other,
        control_only: true,
    };
    assert_eq!(on_key(other, 41), KeyAction::Ignore);
}
