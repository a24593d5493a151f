use rust_tools::relay::{RelayState, Stream};

fn relay(err: &[&str], out: &[&str]) -> Vec<(Stream, String)> {
    let mut err_left = err.iter();
    let mut out_left = out.iter();
    let mut written = Vec::new();
    let mut state = RelayState::start();
    let mut steps = 0;
    while let Some(source) = state.source() {
        let line = match source {
            Stream::Error => err_left.next(),
            Stream::Output => out_left.next(),
        };
        let text = line.map(|l| l.to_string()).unwrap_or_default();
        let (next, sink) = state.step(text.len());
        if let Some(sink) = sink {
            written.push((sink, text));
        }
        state = next;
        steps += 1;
        assert!(steps <= err.len() + out.len() + 2);
    }
    assert_eq!(state, RelayState::Done);
    written
}

#[test]
fn start_reads_the_error_stream() {
    assert_eq!(RelayState::start(), RelayState::DrainingError);
    assert_eq!(RelayState::start().source(), Some(Stream::Error));
    assert_eq!(RelayState::DrainingOutput.source(), Some(Stream::Output));
    assert_eq!(RelayState::Done.source(), None);
}

#[test]
fn every_step() {
    assert_eq!(RelayState::DrainingError.step(5), (RelayState::DrainingError, Some(Stream::Error)));
    assert_eq!(RelayState::DrainingError.step(1), (RelayState::DrainingError, Some(Stream::Error)));
    assert_eq!(RelayState::DrainingError.step(0), (RelayState::DrainingOutput, None));
    assert_eq!(RelayState::DrainingOutput.step(7), (RelayState::DrainingOutput, Some(Stream::Output)));
    assert_eq!(RelayState::DrainingOutput.step(0), (RelayState::Done, None));
    assert_eq!(RelayState::Done.step(0), (RelayState::Done, None));
    assert_eq!(RelayState::Done.step(3), (RelayState::Done, None));
    assert_eq!(
        RelayState::DrainingError.step(usize::MAX),
        (RelayState::DrainingError, Some(Stream::Error))
    );
}

#[test]
fn error_lines_come_before_output_lines() {
    let written = relay(&["e1\n", "e2\n", "e3\n"], &["o1\n", "o2\n"]);
    let expected = vec![
        (Stream::Error, "e1\n".to_string()),
        (Stream::Error, "e2\n".to_string()),
        (Stream::Error, "e3\n".to_string()),
        (Stream::Output, "o1\n".to_string()),
        (Stream::Output, "o2\n".to_string()),
    ];
    assert_eq!(written, expected);
}

#[test]
fn silent_streams() {
    assert_eq!(relay(&[], &[]), Vec::new());
    assert_eq!(relay(&["e\n"], &[]), vec![(Stream::Error, "e\n".to_string())]);
    assert_eq!(relay(&[], &["o"]), vec![(Stream::Output, "o".to_string())]);
}
