use gcodekit::engine::Directive;
use gcodekit::error::{StreamError, TransportError};
use gcodekit::machine::State;
use gcodekit::streamer_worker::StreamerWorker;
use gcodekit::transport::{Channel, Transport};
use std::sync::{Arc, Mutex};

struct MockTransport {
    written: Arc<Mutex<Vec<String>>>,
    will_ack: bool,
}

impl MockTransport {
    fn new(will_ack: bool) -> Self {
        MockTransport { written: Arc::new(Mutex::new(Vec::new())), will_ack }
    }
}

impl Transport for MockTransport {
    fn send_line(&mut self, line: &str) -> Result<(), TransportError> {
        self.written.lock().unwrap().push(line.to_string());
        Ok(())
    }

    fn emergency_stop(&mut self) -> Result<(), TransportError> {
        self.written.lock().unwrap().push("EMERGENCY".to_string());
        Ok(())
    }

    fn flush(&mut self) -> Result<(), TransportError> {
        Ok(())
    }

    fn disconnect(&mut self) -> Result<(), TransportError> {
        Ok(())
    }

    fn is_alive(&self) -> Result<bool, TransportError> {
        Ok(true)
    }

    fn read_line(&mut self) -> Result<String, TransportError> {
        if self.will_ack {
            Ok("ok".to_string())
        } else {
            Err(TransportError::Io("no ack".to_string()))
        }
    }
}

/// A device that answers every line with an error.
struct Grumpy(Arc<Mutex<Vec<String>>>);

impl Transport for Grumpy {
    fn send_line(&mut self, line: &str) -> Result<(), TransportError> {
        self.0.lock().unwrap().push(line.to_string());
        Ok(())
    }

    fn emergency_stop(&mut self) -> Result<(), TransportError> {
        Ok(())
    }

    fn flush(&mut self) -> Result<(), TransportError> {
        Ok(())
    }

    fn disconnect(&mut self) -> Result<(), TransportError> {
        Ok(())
    }

    fn is_alive(&self) -> Result<bool, TransportError> {
        Ok(true)
    }

    fn read_line(&mut self) -> Result<String, TransportError> {
        Ok("error: bad command".to_string())
    }
}

fn lines_of(lines: &[&str]) -> Vec<String> {
    lines.iter().map(|line| line.to_string()).collect()
}

#[test]
fn test_streamer_sends_lines_and_ack() {
    let m = MockTransport::new(true);
    let written = m.written.clone();
    let boxed: Box<dyn Transport> = Box::new(m);
    let mut channel = Channel::new(boxed);
    let mut sw = StreamerWorker::new();
    let lines = lines_of(&["G1 X1", "G1 X2"]);
    let res = sw.stream_lines(&mut channel, &lines);
    assert_eq!(res, Directive::Finish(Ok(())));
    assert_eq!(*written.lock().unwrap(), lines);
}

#[test]
fn test_emergency_stop() {
    let m = MockTransport::new(true);
    let written = m.written.clone();
    let boxed: Box<dyn Transport> = Box::new(m);
    let mut channel = Channel::new(boxed);
    let mut sw = StreamerWorker::new();
    let lines = lines_of(&["G1 X1", "G1 X2", "G1 X3"]);

    // one exchange, then the emergency stop
    sw.begin(lines.len());
    assert_eq!(sw.poll(), Directive::Send(0));
    assert_eq!(sw.line_sent(channel.send_line(&lines[0])), Directive::ReadAck);
    let _ = sw.emergency_stop(&mut channel);
    assert_eq!(sw.ack_received(channel.read_line()), Directive::Proceed);
    assert_eq!(sw.poll(), Directive::Finish(Ok(())));

    let wrote = written.lock().unwrap();
    assert!(wrote.iter().any(|s| s == "EMERGENCY"));
    assert_eq!(*wrote, lines_of(&["G1 X1", "EMERGENCY"]));
    assert_eq!(sw.state(), State::Stopped);
}

#[test]
fn the_worker_fails_when_no_ack_can_be_read() {
    let m = MockTransport::new(false);
    let written = m.written.clone();
    let mut channel = Channel::new(m);
    let mut sw = StreamerWorker::new();
    let res = sw.stream_lines(&mut channel, &lines_of(&["G1 X1", "G1 X2"]));
    assert_eq!(
        res,
        Directive::Finish(Err(StreamError::Transport(TransportError::Io("no ack".to_string()))))
    );
    assert_eq!(*written.lock().unwrap(), lines_of(&["G1 X1"]));
    assert!(!sw.is_stopped());
}

#[test]
fn the_worker_discards_what_the_device_answers() {
    let written = Arc::new(Mutex::new(Vec::new()));
    let mut channel = Channel::new(Grumpy(written.clone()));
    let mut sw = StreamerWorker::new();
    let lines = lines_of(&["G1 X1", "G1 X2", "G1 X3"]);
    assert_eq!(sw.stream_lines(&mut channel, &lines), Directive::Finish(Ok(())));
    assert_eq!(*written.lock().unwrap(), lines);
    assert_eq!(sw.transmitted(), 3);
    assert!(!sw.is_stopped());
}

#[test]
fn the_worker_has_no_window_to_wait_for() {
    let m = MockTransport::new(true);
    let mut channel = Channel::new(m);
    let mut sw = StreamerWorker::new();
    let lines: Vec<String> = (0..50).map(|i| format!("G1 X{}", i)).collect();
    assert_eq!(sw.stream_lines(&mut channel, &lines), Directive::Finish(Ok(())));
    assert_eq!(sw.transmitted(), 50);
    sw.begin(usize::MAX);
    assert_eq!(sw.poll(), Directive::Send(0));
    assert_eq!(sw.end_of_lines(), Directive::Finish(Ok(())));
}

#[test]
fn the_worker_streams_lines_that_come_one_by_one() {
    let written = Arc::new(Mutex::new(Vec::new()));
    let mut channel = Channel::new(Grumpy(written.clone()));
    let mut sw = StreamerWorker::new();
    sw.begin(usize::MAX);
    assert_eq!(sw.exchange(&mut channel, "G1 X1"), Directive::Proceed);
    assert_eq!(sw.exchange(&mut channel, "G1 X2"), Directive::Proceed);
    sw.stop();
    assert_eq!(sw.exchange(&mut channel, "G1 X3"), Directive::Finish(Ok(())));
    assert_eq!(*written.lock().unwrap(), lines_of(&["G1 X1", "G1 X2"]));
}

#[test]
fn the_worker_honors_pause_and_stop() {
    let m = MockTransport::new(true);
    let written = m.written.clone();
    let mut channel = Channel::new(m);
    let mut sw = StreamerWorker::new();
    let lines = lines_of(&["G1 X1"]);
    sw.pause();
    assert!(sw.is_paused());
    assert_eq!(sw.stream_lines(&mut channel, &lines), Directive::WaitResume);
    sw.resume();
    sw.stop();
    assert_eq!(sw.stream_lines(&mut channel, &lines), Directive::Finish(Ok(())));
    assert!(written.lock().unwrap().is_empty());
}
