use musicplayer_rs::rescan::next_rescan_step;
use musicplayer_rs::rescan::RescanAction;
use musicplayer_rs::rescan::RescanInput;
use musicplayer_rs::rescan::RescanState;
use musicplayer_rs::rescan::QUIET_MILLIS;

fn run(inputs: &[RescanInput]) -> Vec<RescanAction> {
    let mut state = RescanState::Listening;
    let mut actions = Vec::new();
    for &input in inputs {
        let (next, action) = next_rescan_step(state, input);
        state = next;
        actions.push(action);
    }
    actions
}

#[test]
fn a_burst_of_events_sends_one_rescan_after_the_quiet_wait() {
    assert_eq!(QUIET_MILLIS, 700);
    let actions = run(&[
        RescanInput::Event,
        RescanInput::Event,
        RescanInput::Event,
        RescanInput::Empty,
        RescanInput::Sent(true),
    ]);
    assert_eq!(
        actions,
        vec![
            RescanAction::DrainThenWait,
            RescanAction::DrainThenWait,
            RescanAction::DrainThenWait,
            RescanAction::SendRescan,
            RescanAction::AwaitEvent,
        ]
    );
}

#[test]
fn a_closed_channel_or_a_gone_window_stops_the_debouncer() {
    assert_eq!(run(&[RescanInput::Closed, RescanInput::Event]), vec![RescanAction::Stop, RescanAction::Stop]);
    assert_eq!(
        run(&[RescanInput::Event, RescanInput::Closed]),
        vec![RescanAction::DrainThenWait, RescanAction::Stop]
    );
    assert_eq!(
        run(&[RescanInput::Event, RescanInput::Empty, RescanInput::Sent(false), RescanInput::Event]),
        vec![RescanAction::DrainThenWait, RescanAction::SendRescan, RescanAction::Stop, RescanAction::Stop]
    );
}
