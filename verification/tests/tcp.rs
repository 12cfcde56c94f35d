use std::collections::VecDeque;
use std::io;
use std::time::Duration;

use plenum::transport::tcp::{is_retryable_io, TcpTransport, WriteProgress, WriteStep};
use plenum::transport::{IoError, IoErrorKind, TransportError};

/// What the operating system reports, as the library takes it.
fn observed(error: &io::Error) -> IoError {
    let kind = match error.kind() {
        io::ErrorKind::WouldBlock => IoErrorKind::WouldBlock,
        io::ErrorKind::Interrupted => IoErrorKind::Interrupted,
        io::ErrorKind::TimedOut => IoErrorKind::TimedOut,
        io::ErrorKind::BrokenPipe => IoErrorKind::BrokenPipe,
        io::ErrorKind::ConnectionReset => IoErrorKind::ConnectionReset,
        io::ErrorKind::NotConnected => IoErrorKind::NotConnected,
        _ => IoErrorKind::Uncategorized,
    };
    IoError { kind, message: error.to_string() }
}

struct ScriptedWriter {
    script: VecDeque<io::Result<usize>>,
    output: Vec<u8>,
    attempts: Vec<Vec<u8>>,
}

impl ScriptedWriter {
    fn new(script: Vec<io::Result<usize>>) -> Self {
        ScriptedWriter { script: script.into(), output: Vec::new(), attempts: Vec::new() }
    }

    fn write(&mut self, bytes: &[u8]) -> io::Result<usize> {
        self.attempts.push(bytes.to_vec());
        let result = self.script.pop_front().unwrap();
        if let Ok(written) = &result {
            self.output.extend_from_slice(&bytes[..*written]);
        }
        result
    }
}

/// Writes everything, as a driver does, on a clock that moves one millisecond a call.
fn write_all_nonblocking(
    writer: &mut ScriptedWriter,
    operation: &'static str,
    bytes: &[u8],
    timeout: Duration,
) -> Result<(), TransportError> {
    let mut progress = WriteProgress::new(operation, bytes.len(), timeout);
    let mut elapsed = Duration::ZERO;
    let mut step = progress.next();
    loop {
        let offset = match step {
            WriteStep::Done => return Ok(()),
            WriteStep::Failed(error) => return Err(error),
            WriteStep::Write { offset } => offset,
            WriteStep::WaitAndWrite { offset } => {
                elapsed += Duration::from_millis(1);
                offset
            }
        };
        let outcome = writer.write(&bytes[offset..]).map_err(|error| observed(&error));
        step = progress.on_write(outcome, elapsed >= timeout);
    }
}

#[test]
fn windows_io_pending_is_not_retryable() {
    let error = std::io::Error::from_raw_os_error(997);
    assert_eq!(error.raw_os_error(), Some(997));
    assert!(!is_retryable_io(&observed(&error)));
}

#[test]
fn scripted_partial_writes_preserve_exact_byte_stream() {
    let mut writer = ScriptedWriter::new(vec![
        Ok(2),
        Err(io::Error::from(io::ErrorKind::WouldBlock)),
        Err(io::Error::from(io::ErrorKind::Interrupted)),
        Ok(3),
    ]);

    assert!(
        write_all_nonblocking(&mut writer, "test write", b"abcde", Duration::from_secs(1)).is_ok(),
        "scripted write should complete"
    );
    assert_eq!(writer.output, b"abcde");
    assert_eq!(
        writer.attempts,
        [
            b"abcde".to_vec(),
            b"cde".to_vec(),
            b"cde".to_vec(),
            b"cde".to_vec()
        ]
    );
}

#[test]
fn scripted_zero_write_is_fatal() {
    let mut writer = ScriptedWriter::new(vec![Ok(0)]);
    let error = write_all_nonblocking(&mut writer, "test write", b"data", Duration::from_secs(1))
        .err()
        .unwrap();
    assert!(matches!(
        error,
        TransportError::Io { kind: IoErrorKind::WriteZero, .. }
    ));
}

#[test]
fn scripted_windows_997_error_is_not_retried() {
    let mut writer = ScriptedWriter::new(vec![Err(io::Error::from_raw_os_error(997))]);
    let error = write_all_nonblocking(&mut writer, "test write", b"data", Duration::from_secs(1))
        .err()
        .unwrap();
    assert!(matches!(error, TransportError::Io { .. }));
    assert!(error.message("1.000").contains("997"));
}

#[test]
fn scripted_would_block_obeys_deadline() {
    let mut writer =
        ScriptedWriter::new(vec![Err(io::Error::from(io::ErrorKind::WouldBlock))]);
    let error = write_all_nonblocking(&mut writer, "test write", b"data", Duration::ZERO)
        .err()
        .unwrap();
    match error {
        TransportError::WriteTimedOut { timeout, operation } => {
            assert_eq!(timeout, Duration::ZERO);
            assert_eq!(operation, "test write");
        }
        _ => panic!("expired deadline must fail"),
    }
}

#[test]
fn scripted_permanent_error_is_not_retried() {
    let mut writer =
        ScriptedWriter::new(vec![Err(io::Error::from(io::ErrorKind::BrokenPipe))]);
    let error = write_all_nonblocking(&mut writer, "test write", b"data", Duration::from_secs(1))
        .err()
        .unwrap();
    match error {
        TransportError::BrokenPipe { operation } => assert_eq!(operation, "test write"),
        _ => panic!("permanent error must fail"),
    }
}

fn framed(payload: &[u8]) -> Vec<u8> {
    let mut bytes = (payload.len() as u32).to_be_bytes().to_vec();
    bytes.extend_from_slice(payload);
    bytes
}

#[test]
fn frames_survive_any_segmentation() {
    let mut stream = framed(b"one");
    stream.extend(framed(b""));
    stream.extend(framed(b"three"));
    for size in 1..=stream.len() {
        let mut transport = TcpTransport::new();
        let mut frames = Vec::new();
        for part in stream.chunks(size) {
            assert!(matches!(transport.fill_from_socket(Ok(part.to_vec())), Some(Ok(()))));
            while let Some(frame) = transport.take_buffered_frame().ok().unwrap() {
                frames.push(frame);
            }
        }
        assert_eq!(frames, vec![b"one".to_vec(), b"".to_vec(), b"three".to_vec()]);
    }
}

#[test]
fn reading_ends_as_the_socket_says() {
    let failure = |kind| IoError { kind, message: "m".to_string() };
    let mut transport = TcpTransport::new();
    assert!(transport.fill_from_socket(Err(failure(IoErrorKind::Interrupted))).is_none());
    assert!(transport.fill_from_socket(Ok(vec![0; 65_536])).is_none());
    assert!(matches!(
        transport.fill_from_socket(Err(failure(IoErrorKind::WouldBlock))),
        Some(Ok(()))
    ));
    assert!(!transport.is_closed());
    assert!(matches!(
        transport.fill_from_socket(Ok(vec![])),
        Some(Err(TransportError::CleanEof { operation: "read" }))
    ));
    assert!(transport.is_closed());
    let mut transport = TcpTransport::new();
    assert!(matches!(
        transport.fill_from_socket(Err(failure(IoErrorKind::TimedOut))),
        Some(Err(TransportError::Io { operation: "read", kind: IoErrorKind::TimedOut, .. }))
    ));
    assert!(transport.is_closed());
}

#[test]
fn too_large_a_frame_is_refused() {
    let mut transport = TcpTransport::new();
    transport.set_max_frame_len(4);
    assert!(matches!(transport.fill_from_socket(Ok(framed(b"12345"))), Some(Ok(()))));
    match transport.take_buffered_frame() {
        Err(TransportError::FrameTooLarge { len, max }) => {
            assert_eq!(len, 5);
            assert_eq!(max, 4);
        }
        _ => panic!("must be refused"),
    }
}

#[test]
fn send_announces_the_length() {
    let mut transport = TcpTransport::new();
    assert_eq!(transport.send(b"abc").ok().unwrap(), vec![0, 0, 0, 3]);
    transport.set_max_frame_len(2);
    assert_eq!(transport.max_frame_len(), 2);
    assert!(transport.send(b"abc").is_err());
}

#[test]
fn closing_twice_is_no_error() {
    let mut transport = TcpTransport::new();
    let gone = IoError { kind: IoErrorKind::NotConnected, message: String::new() };
    assert!(transport.close(Err(gone)).is_ok());
    assert!(transport.is_closed());
    let denied = IoError { kind: IoErrorKind::PermissionDenied, message: "no".to_string() };
    assert!(transport.close(Err(denied)).is_err());
    assert!(matches!(transport.send(b"x"), Err(TransportError::Closed)));
}
