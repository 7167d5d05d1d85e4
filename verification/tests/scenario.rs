use nextion_flash::autodetect::Autodetect;
use nextion_flash::handshake::ConnectFailure;
use nextion_flash::handshake::Connection;
use nextion_flash::handshake::HandshakeAction;
use nextion_flash::handshake::HandshakeEvent;
use nextion_flash::upload::UploadAction;
use nextion_flash::upload::UploadEvent;
use nextion_flash::upload::UploadFailure;
use nextion_flash::upload::UploadSession;

/// A display sitting at one configured baud rate, with a file to receive.
struct Display {
    configured_baud: u32,
    /// Chunk acknowledgments it will send, by chunk index.
    chunk_acks: Vec<bool>,
    /// Chunk writes it has observed, as (offset, len).
    chunk_writes: Vec<(u64, u64)>,
}

fn scenario_autodetect(display: &Display, candidates: Vec<u32>) -> Result<Connection, ConnectFailure> {
    let mut det = Autodetect::new(candidates);
    let mut current: u32 = 0;
    loop {
        if det.is_done() {
            return match det.outcome().unwrap() {
                Ok(baud) => Ok(Connection::new(String::from("/dev/ttyUSB0"), baud)),
                Err(f) => Err(f),
            };
        }
        let event = match det.next_action() {
            HandshakeAction::OpenPort { baud } => {
                current = baud;
                HandshakeEvent::OpenResult { ok: true }
            }
            HandshakeAction::PurgeInput => HandshakeEvent::Purged,
            HandshakeAction::Send { .. } => HandshakeEvent::Sent,
            HandshakeAction::ReadReply { .. } => HandshakeEvent::Reply {
                reply: if current == display.configured_baud {
                    Some(b"comok".to_vec())
                } else {
                    None
                },
            },
        };
        det.step(event);
    }
}

fn scenario_upload(
    display: &mut Display,
    file_size: u64,
    transfer_baud: u32,
) -> Result<(), UploadFailure> {
    let mut session = UploadSession::new(transfer_baud);
    let mut polls: usize = 0;
    loop {
        if session.is_done() {
            return session.outcome().unwrap();
        }
        let event = match session.next_action() {
            UploadAction::PurgeInput => UploadEvent::Purged,
            UploadAction::QueryFileSize => UploadEvent::FileSize { size: Some(file_size) },
            UploadAction::Send { .. } => UploadEvent::Sent,
            UploadAction::Sleep { .. } => UploadEvent::Slept,
            UploadAction::ReopenPort { .. } => UploadEvent::ReopenResult { ok: true },
            UploadAction::PollAck { .. } => {
                let acked = if polls == 0 { true } else { display.chunk_acks[polls - 1] };
                polls += 1;
                UploadEvent::AckPolled { acked }
            }
            UploadAction::SendFileChunk { offset, len } => {
                display.chunk_writes.push((offset, len));
                UploadEvent::ChunkSent { complete: true }
            }
        };
        session.step(event);
    }
}

#[test]
fn device_at_unknown_baud_flashed_end_to_end() {
    // Device at an unknown rate; of the candidates only 9600 is alive.
    let mut display = Display {
        configured_baud: 9600,
        chunk_acks: vec![true, true, true],
        chunk_writes: Vec::new(),
    };
    let conn = scenario_autodetect(&display, vec![115200, 57600, 9600]).unwrap();
    assert_eq!(conn.baud_rate, 9600);

    // A 10000-byte file at transfer baud 921600: three chunk writes of
    // 4096, 4096 and 1808 bytes, each acknowledged, then success.
    let outcome = scenario_upload(&mut display, 10000, 921600);
    assert_eq!(outcome, Ok(()));
    assert_eq!(display.chunk_writes, vec![(0, 4096), (4096, 4096), (8192, 1808)]);
}

#[test]
fn second_chunk_ack_timeout_aborts_the_upload() {
    // Identical setup, but the second chunk's acknowledgment never comes.
    let mut display = Display {
        configured_baud: 9600,
        chunk_acks: vec![true, false, true],
        chunk_writes: Vec::new(),
    };
    let conn = scenario_autodetect(&display, vec![115200, 57600, 9600]).unwrap();
    assert_eq!(conn.baud_rate, 9600);

    let outcome = scenario_upload(&mut display, 10000, 921600);
    assert_eq!(outcome, Err(UploadFailure::ChunkNotAcknowledged { chunk_index: 1 }));
    // No chunk is written after the unacknowledged one.
    assert_eq!(display.chunk_writes, vec![(0, 4096), (4096, 4096)]);
}
