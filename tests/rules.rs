use std::sync::mpsc;

use tetrs::driver::{idle, Step, TickClock, TICK_NANOS};
use tetrs::input::{End, Input, InputLoop, Key, KeyEvent, Loop};
use tetrs::level::Level;
use tetrs::logic::{Logic, TickResult};
use tetrs::phase::{Menu, Phase};
use tetrs::tetromino::{Kind, Tetromino};

fn press(key: Key) -> KeyEvent {
    KeyEvent { key, release: false, control: false }
}

#[test]
fn gravity_period_table() {
    assert_eq!(Level::new(0).required_ticks(), 48);
    assert_eq!(Level::new(9).required_ticks(), 6);
    assert_eq!(Level::new(10).required_ticks(), 5);
    assert_eq!(Level::new(29).required_ticks(), 1);
    assert_eq!(Level::new(u32::MAX).required_ticks(), 1);
    let mut previous = Level::new(0).required_ticks();
    for l in 1..40 {
        let t = Level::new(l).required_ticks();
        assert!(t <= previous && t >= 1);
        previous = t;
    }
}

#[test]
fn scoring_and_leveling() {
    let mut level = Level::new(0);
    level.up(1);
    assert_eq!(level, Level { current: 0, cleared_lines: 1, score: 40 });
    level.up(0);
    assert_eq!(level, Level { current: 0, cleared_lines: 1, score: 40 });
    let mut level = Level::new(2);
    level.up(4);
    assert_eq!(level, Level { current: 2, cleared_lines: 4, score: 3600 });
    level.up(3);
    level.up(3);
    assert_eq!(level, Level { current: 3, cleared_lines: 10, score: 3600 + 900 + 900 });
    level.up(2);
    assert_eq!(level.score, 3600 + 900 + 900 + 400);
    // One event of two lines earns more than two events of one.
    let mut once = Level::new(0);
    once.up(2);
    let mut twice = Level::new(0);
    twice.up(1);
    twice.up(1);
    assert!(once.score > twice.score);
    let mut big = Level { current: u32::MAX, cleared_lines: u32::MAX - 1, score: u32::MAX - 5 };
    big.up(4);
    assert_eq!(big, Level { current: u32::MAX, cleared_lines: u32::MAX, score: u32::MAX });
}

#[test]
fn keys_decode_to_commands() {
    assert_eq!(Input::from_key(&press(Key::Up)), Some(Input::Rotate));
    assert_eq!(Input::from_key(&press(Key::Left)), Some(Input::Left));
    assert_eq!(Input::from_key(&press(Key::Right)), Some(Input::Right));
    assert_eq!(Input::from_key(&press(Key::Down)), Some(Input::Down));
    assert_eq!(Input::from_key(&press(Key::Char('d'))), Some(Input::Drop));
    assert_eq!(Input::from_key(&press(Key::Char(' '))), Some(Input::Drop));
    assert_eq!(Input::from_key(&press(Key::Char('q'))), Some(Input::Quit));
    assert_eq!(Input::from_key(&press(Key::Char('r'))), Some(Input::Restart));
    assert_eq!(Input::from_key(&press(Key::Char('c'))), None);
    let ctrl_c = KeyEvent { key: Key::Char('c'), release: false, control: true };
    assert_eq!(Input::from_key(&ctrl_c), Some(Input::Quit));
    assert_eq!(Input::from_key(&press(Key::Char('0'))), Some(Input::Number(0)));
    assert_eq!(Input::from_key(&press(Key::Char('7'))), Some(Input::Number(7)));
    assert_eq!(Input::from_key(&press(Key::Char('x'))), None);
    assert_eq!(Input::from_key(&press(Key::Other)), None);
    let release = KeyEvent { key: Key::Up, release: true, control: false };
    assert_eq!(Input::from_key(&release), None);
}

#[test]
fn input_loop_forwards_until_an_end() {
    let (sender, receiver) = mpsc::channel();
    let input_loop = InputLoop::new(sender);
    assert_eq!(input_loop.forward(Some(Input::Left)), Loop::Continue);
    assert_eq!(input_loop.forward(None), Loop::Continue);
    assert_eq!(input_loop.forward(Some(Input::Restart)), Loop::Break);
    assert_eq!(input_loop.determine_result(&Some(Input::Quit)), Loop::Break);
    assert_eq!(input_loop.determine_result(&Some(Input::Number(3))), Loop::Continue);
    let got: Vec<Input> = receiver.try_iter().collect();
    assert_eq!(got, vec![Input::Left, Input::Restart]);
}

#[test]
fn clock_runs_one_tick_per_period() {
    let mut clock = TickClock::new();
    assert_eq!(clock.iterate(1_000_000), Step::Sleep(TICK_NANOS - 1_000_000 - 100_000));
    assert_eq!(clock.accumulated, 1_000_000);
    assert_eq!(clock.iterate(TICK_NANOS - 1_000_000), Step::Tick);
    assert_eq!(clock.accumulated, 0);
    // A stall counts as a single period.
    assert_eq!(clock.iterate(10 * TICK_NANOS), Step::Tick);
    assert_eq!(clock.accumulated, 0);
    assert_eq!(clock.iterate(TICK_NANOS - 400_000), Step::Spin);
    assert_eq!(idle(500_000), Step::Spin);
    assert_eq!(idle(500_001), Step::Sleep(400_001));
}

#[test]
fn rolls_pick_every_shape() {
    let kinds = [Kind::I, Kind::O, Kind::T, Kind::S, Kind::Z, Kind::J, Kind::L];
    for (i, k) in kinds.iter().enumerate() {
        assert_eq!(Kind::from_roll(i as u64), *k);
        assert_eq!(Kind::from_roll(i as u64 + 7 * 1000), *k);
    }
}

#[test]
fn rotation_wraps_around() {
    let mut i = Tetromino::new(Kind::I);
    i.rotate();
    assert_eq!(i.rotation, 1);
    i.rotate();
    assert_eq!(i.rotation, 0);
    let mut o = Tetromino::new(Kind::O);
    o.rotate();
    assert_eq!(o.rotation, 0);
    let mut t = Tetromino::new(Kind::T);
    for _ in 0..4 {
        t.rotate();
    }
    assert_eq!(t, Tetromino::new(Kind::T));
    assert_eq!(Tetromino::new(Kind::S).cells(), [(4, 0), (5, 0), (3, 1), (4, 1)]);
}

#[test]
fn menu_starts_a_game_at_the_chosen_level() {
    let menu = Menu {};
    assert!(menu.handle(&[Input::Left, Input::Number(12)], Kind::T, Kind::O).is_none());
    let run = menu.handle(&[Input::Down, Input::Number(4), Input::Number(2)], Kind::T, Kind::O).expect("a level");
    assert_eq!(run.state.level, Level::new(4));
    assert_eq!(run.state.current, Tetromino::new(Kind::T));
    assert_eq!(run.state.next, Tetromino::new(Kind::O));
}

#[test]
fn logic_ends_on_quit_or_restart() {
    let (sender, receiver) = mpsc::channel();
    let mut logic = Logic::new(receiver);
    match logic.step(&[Input::Number(1)], Kind::I, Kind::J) {
        TickResult::Phase(Phase::Running(run)) => assert_eq!(run.state.level.current, 1),
        other => panic!("expected a running game, got {:?}", other),
    }
    match logic.step(&[Input::Left, Input::Restart, Input::Quit], Kind::I, Kind::J) {
        TickResult::End(end) => assert_eq!(end, End::Restart),
        other => panic!("expected the end, got {:?}", other),
    }
    sender.send(Input::Quit).unwrap();
    match logic.update(Kind::I, Kind::J) {
        TickResult::End(end) => assert_eq!(end, End::Quit),
        other => panic!("expected the end, got {:?}", other),
    }
    match logic.update(Kind::I, Kind::J) {
        TickResult::Phase(Phase::Running(run)) => assert_eq!(run.state.current.kind, Kind::I),
        other => panic!("expected a running game, got {:?}", other),
    }
}

#[test]
fn only_quit_and_restart_end_a_run() {
    assert_eq!(Option::<End>::from(Input::Quit), Some(End::Quit));
    assert_eq!(Option::<End>::from(Input::Restart), Some(End::Restart));
    assert_eq!(Option::<End>::from(Input::Drop), None);
    assert_eq!(Option::<End>::from(Input::Number(0)), None);
}
