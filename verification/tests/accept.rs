use pingpong::accept::{AcceptAction, AcceptEvent, AcceptLoop, AcceptState};
use pingpong::config::Model;

#[test]
fn accept_loop_starts_listening() {
    for model in [Model::ThreadPerConnection, Model::EventLoop] {
        let accept = AcceptLoop::new(model);
        assert_eq!(accept.state, AcceptState::Listening);
        assert_eq!(accept.model, model);
    }
}

#[test]
fn every_accepted_connection_is_served() {
    for model in [Model::ThreadPerConnection, Model::EventLoop] {
        let mut accept = AcceptLoop::new(model);
        for _ in 0..100 {
            assert_eq!(accept.handle(AcceptEvent::Accepted), AcceptAction::Serve);
            assert_eq!(accept.state, AcceptState::Listening);
        }
    }
}

#[test]
fn accept_failure_stops_a_threaded_server_which_joins_its_handlers() {
    let mut accept = AcceptLoop::new(Model::ThreadPerConnection);
    accept.handle(AcceptEvent::Accepted);
    assert_eq!(
        accept.handle(AcceptEvent::AcceptFailed),
        AcceptAction::Stop { join_handlers: true }
    );
    assert_eq!(accept.state, AcceptState::Stopped);
}

#[test]
fn accept_failure_stops_an_event_loop_server_at_once() {
    let mut accept = AcceptLoop::new(Model::EventLoop);
    accept.handle(AcceptEvent::Accepted);
    assert_eq!(
        accept.handle(AcceptEvent::AcceptFailed),
        AcceptAction::Stop { join_handlers: false }
    );
    assert_eq!(accept.state, AcceptState::Stopped);
}

#[test]
fn stopped_loop_is_not_started_again() {
    let mut accept = AcceptLoop::new(Model::EventLoop);
    accept.handle(AcceptEvent::AcceptFailed);
    assert_eq!(accept.handle(AcceptEvent::Accepted), AcceptAction::Stop { join_handlers: false });
    assert_eq!(accept.state, AcceptState::Stopped);
    assert_eq!(
        accept.handle(AcceptEvent::AcceptFailed),
        AcceptAction::Stop { join_handlers: false }
    );
    assert_eq!(accept.state, AcceptState::Stopped);
    assert_eq!(accept.model, Model::EventLoop);
}
