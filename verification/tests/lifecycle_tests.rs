use klv_overlay::error::PipelineError;
use klv_overlay::lifecycle::{
    handle_message, step_down, step_up, BusMessage, Controller, LoopVerdict, PipelineState,
};

#[test]
fn start_reaches_playing() {
    let mut controller = Controller::new();
    assert_eq!(controller.state, PipelineState::Null);
    controller.start();
    assert_eq!(controller.state, PipelineState::Playing);
}

#[test]
fn shutdown_returns_to_null() {
    let mut controller = Controller::new();
    controller.start();
    controller.shutdown();
    assert_eq!(controller.state, PipelineState::Null);
}

#[test]
fn climb_is_stepwise() {
    assert_eq!(step_up(PipelineState::Null), PipelineState::Ready);
    assert_eq!(step_up(PipelineState::Ready), PipelineState::Paused);
    assert_eq!(step_up(PipelineState::Paused), PipelineState::Playing);
    assert_eq!(step_up(PipelineState::Playing), PipelineState::Playing);
    assert_eq!(step_down(PipelineState::Playing), PipelineState::Paused);
    assert_eq!(step_down(PipelineState::Paused), PipelineState::Ready);
    assert_eq!(step_down(PipelineState::Ready), PipelineState::Null);
    assert_eq!(step_down(PipelineState::Null), PipelineState::Null);
}

#[test]
fn end_of_stream_stops_successfully() {
    match handle_message(BusMessage::Eos) {
        LoopVerdict::StopSuccess => {}
        other => panic!("expected a successful stop, got {:?}", other),
    }
}

#[test]
fn runtime_error_stops_with_fault_detail() {
    let msg = BusMessage::RuntimeError {
        source: String::from("demuxer"),
        message: String::from("bad stream"),
        debug_detail: Some(String::from("offset 42")),
    };
    match handle_message(msg) {
        LoopVerdict::StopFailure(PipelineError::RuntimeFault { source, message, debug_detail }) => {
            assert_eq!(source, "demuxer");
            assert_eq!(message, "bad stream");
            assert_eq!(debug_detail.as_deref(), Some("offset 42"));
        }
        other => panic!("expected a runtime fault, got {:?}", other),
    }
}

#[test]
fn state_change_notice_keeps_running() {
    let msg = BusMessage::StateChanged {
        old_state: PipelineState::Ready,
        new_state: PipelineState::Paused,
    };
    match handle_message(msg) {
        LoopVerdict::KeepRunning => {}
        other => panic!("expected to keep running, got {:?}", other),
    }
}

#[test]
fn other_messages_keep_running() {
    match handle_message(BusMessage::Other) {
        LoopVerdict::KeepRunning => {}
        other => panic!("expected to keep running, got {:?}", other),
    }
}
