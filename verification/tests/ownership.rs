use pimoroni_badger2040::board::Board;
use pimoroni_badger2040::clocks::{ClockAction, ClockEvent};
use pimoroni_badger2040::peripherals::PeripheralToken;

#[test]
fn first_take_hands_out_the_bundle() {
    let mut token = PeripheralToken::new();
    assert!(token.is_available());
    assert!(token.take().is_some());
    assert!(!token.is_available());
}

#[test]
fn second_take_hands_out_nothing() {
    let mut token = PeripheralToken::new();
    let first = token.take();
    let second = token.take();
    assert!(first.is_some());
    assert!(second.is_none());
}

#[test]
fn only_the_first_of_many_takes_succeeds() {
    let mut token = PeripheralToken::new();
    let mut successes = 0;
    for attempt in 0..10 {
        let taken = token.take();
        assert_eq!(taken.is_some(), attempt == 0);
        if taken.is_some() {
            successes += 1;
        }
    }
    assert_eq!(successes, 1);
}

#[test]
fn board_can_be_taken_once() {
    let mut token = PeripheralToken::new();
    assert!(Board::take(&mut token, 8).is_some());
    assert!(Board::take(&mut token, 8).is_none());
    assert!(token.take().is_none());
}

#[test]
fn board_take_after_peripheral_take_fails() {
    let mut token = PeripheralToken::new();
    let _peripherals = token.take();
    assert!(Board::take(&mut token, 8).is_none());
}

#[test]
fn no_board_before_clocks_are_ready() {
    let mut token = PeripheralToken::new();
    let bring_up = Board::take(&mut token, 8).unwrap();
    assert_eq!(bring_up.pending(), Some(ClockAction::ArmWatchdogTick { cycles: 12 }));
    let bring_up = match bring_up.finish() {
        Ok(_) => panic!("a board was handed out before bring-up"),
        Err(bring_up) => bring_up,
    };
    assert_eq!(bring_up.failure(), None);
    assert_eq!(bring_up.pending(), Some(ClockAction::ArmWatchdogTick { cycles: 12 }));
}

#[test]
fn board_is_complete_after_bring_up() {
    let mut token = PeripheralToken::new();
    let mut bring_up = Board::take(&mut token, 8).unwrap();
    let mut steps = 0;
    while let Some(action) = bring_up.pending() {
        let event = match action {
            ClockAction::PollOscillator | ClockAction::PollPll { .. } => ClockEvent::Ready,
            _ => ClockEvent::Written,
        };
        bring_up.advance(event);
        steps += 1;
        assert!(steps <= 13);
    }
    assert_eq!(steps, 13);
    let board = match bring_up.finish() {
        Ok(board) => board,
        Err(_) => panic!("bring-up did not finish"),
    };
    assert_eq!(board.clocks.frequencies().system_hz, 125_000_000);
    assert_eq!(board.timer.tick_hz(), 1_000_000);
    assert_eq!(board.timer.get_counter(), 0);
    assert_eq!(board.pins.led.index(), 25);
}

#[test]
fn failed_bring_up_gives_no_board() {
    let mut token = PeripheralToken::new();
    let mut bring_up = Board::take(&mut token, 2).unwrap();
    bring_up.advance(ClockEvent::Written);
    bring_up.advance(ClockEvent::Written);
    bring_up.advance(ClockEvent::NotReady);
    bring_up.advance(ClockEvent::NotReady);
    assert_eq!(
        bring_up.failure(),
        Some(pimoroni_badger2040::clocks::ClockError::OscillatorTimeout)
    );
    assert!(bring_up.finish().is_err());
}
