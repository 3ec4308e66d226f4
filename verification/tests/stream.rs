//! The stream of events of a connection.
use debug_mcp::callbacks::OutputKind;
use debug_mcp::event::BackendEvent;
use debug_mcp::stream::{
    category_for, connection_end, EndPoll, EventStream, OutputPoll, StreamStep,
};
use std::collections::VecDeque;

/// The two ends that a stream looks at.
struct Channels {
    lines: VecDeque<(OutputKind, String)>,
    sink_open: bool,
    term: Option<Option<i64>>,
    term_lost: bool,
    dropped: bool,
    stream: EventStream,
}

impl Channels {
    fn new() -> Channels {
        Channels {
            lines: VecDeque::new(),
            sink_open: true,
            term: None,
            term_lost: false,
            dropped: false,
            stream: EventStream::new(),
        }
    }

    fn send(&mut self, kind: OutputKind, text: &str) {
        self.lines.push_back((kind, text.to_string()));
    }

    fn step(&mut self) -> StreamStep {
        let output = match self.lines.pop_front() {
            Some((kind, text)) => OutputPoll::Line { kind, text },
            None if self.sink_open => OutputPoll::Pending,
            None => OutputPoll::Closed,
        };
        let engine = match self.term {
            Some(code) => EndPoll::Ended(code),
            None if self.term_lost => EndPoll::Lost,
            None => EndPoll::Pending,
        };
        self.stream.next(output, connection_end(engine, self.dropped))
    }

    fn next(&mut self) -> Option<BackendEvent> {
        match self.step() {
            StreamStep::Emit(event) => Some(event),
            StreamStep::End => None,
            StreamStep::Wait => panic!("the stream would wait"),
        }
    }
}

fn output(category: &str, text: &str) -> Option<BackendEvent> {
    Some(BackendEvent::Output { category: category.to_string(), text: text.to_string() })
}

#[test]
fn drop_signal_forces_synthetic_terminated_and_ends() {
    let mut events = Channels::new();
    events.dropped = true;
    assert_eq!(events.next(), Some(BackendEvent::Terminated { code: None }));
    assert!(events.next().is_none(), "the stream ends after the synthetic Terminated");
}

#[test]
fn term_rx_real_code_then_drop_does_not_double_terminate() {
    let mut events = Channels::new();
    events.term = Some(Some(0));
    assert_eq!(events.next(), Some(BackendEvent::Terminated { code: Some(0) }));
    events.dropped = true;
    assert!(events.next().is_none(), "a later drop yields no second Terminated");
}

#[test]
fn output_events_then_terminate() {
    let mut events = Channels::new();
    events.send(OutputKind::Normal, "hello\n");
    events.send(OutputKind::Error, "warn\n");
    assert_eq!(events.next(), output("stdout", "hello\n"));
    assert_eq!(events.next(), output("stderr", "warn\n"));
    assert!(matches!(events.step(), StreamStep::Wait), "nothing has happened yet");
    events.term = Some(Some(3));
    assert_eq!(events.next(), Some(BackendEvent::Terminated { code: Some(3) }));
    assert!(events.next().is_none(), "the stream ends after the single Terminated");
}

#[test]
fn buffered_output_drains_before_terminated_when_both_ready() {
    let mut events = Channels::new();
    events.send(OutputKind::Normal, "line1\n");
    events.send(OutputKind::Normal, "line2\n");
    events.term = Some(Some(7));
    assert_eq!(events.next(), output("stdout", "line1\n"));
    assert_eq!(events.next(), output("stdout", "line2\n"));
    assert_eq!(events.next(), Some(BackendEvent::Terminated { code: Some(7) }));
    assert!(events.next().is_none(), "the stream ends after the single Terminated");
}

#[test]
fn dropped_term_sender_and_closed_output_terminate_with_none() {
    let mut events = Channels::new();
    events.sink_open = false;
    events.term_lost = true;
    assert_eq!(events.next(), Some(BackendEvent::Terminated { code: None }));
    assert!(events.next().is_none(), "the stream ends after the single Terminated");
}

#[test]
fn closed_output_alone_does_not_end_the_stream() {
    let mut events = Channels::new();
    events.sink_open = false;
    assert!(matches!(events.step(), StreamStep::Wait));
    events.term = Some(None);
    assert_eq!(events.next(), Some(BackendEvent::Terminated { code: None }));
}

#[test]
fn the_engine_goes_before_the_drop() {
    assert_eq!(connection_end(EndPoll::Ended(Some(5)), true), Some(Some(5)));
    assert_eq!(connection_end(EndPoll::Pending, true), Some(None));
    assert_eq!(connection_end(EndPoll::Pending, false), None);
}

#[test]
fn output_has_a_category() {
    assert_eq!(category_for(OutputKind::Normal), "stdout");
    assert_eq!(category_for(OutputKind::Error), "stderr");
    assert_eq!(category_for(OutputKind::Warning), "stderr");
    assert_eq!(category_for(OutputKind::Prompt), "console");
    assert_eq!(category_for(OutputKind::Other(9)), "console");
}
