use nextion_flash::autodetect::autodetect_candidates;
use nextion_flash::autodetect::Autodetect;
use nextion_flash::handshake::ConnectFailure;
use nextion_flash::handshake::HandshakeAction;
use nextion_flash::handshake::HandshakeEvent;

/// Drive an autodetection run against a simulated display that is alive
/// (and answers `comok`) at exactly the rate in `alive`, if any; the port
/// itself always opens. Returns the outcome and every baud rate that was
/// probed, in order.
fn run_autodetect(
    candidates: Vec<u32>,
    alive: Option<u32>,
) -> (Result<u32, ConnectFailure>, Vec<u32>) {
    let mut det = Autodetect::new(candidates);
    let mut probed: Vec<u32> = Vec::new();
    let mut current: u32 = 0;
    loop {
        if det.is_done() {
            return (det.outcome().unwrap(), probed);
        }
        let action = det.next_action();
        let event = match action {
            HandshakeAction::OpenPort { baud } => {
                probed.push(baud);
                current = baud;
                HandshakeEvent::OpenResult { ok: true }
            }
            HandshakeAction::PurgeInput => HandshakeEvent::Purged,
            HandshakeAction::Send { .. } => HandshakeEvent::Sent,
            HandshakeAction::ReadReply { .. } => HandshakeEvent::Reply {
                reply: if alive == Some(current) {
                    Some(b"comok".to_vec())
                } else {
                    None
                },
            },
        };
        det.step(event);
    }
}

#[test]
fn probes_descend_and_stop_at_first_success() {
    // Only the slowest rate answers: all three are probed, fastest first.
    let (outcome, probed) = run_autodetect(vec![9600, 115200, 57600], Some(9600));
    assert_eq!(outcome, Ok(9600));
    assert_eq!(probed, vec![115200, 57600, 9600]);
}

#[test]
fn success_at_first_candidate_probes_nothing_further() {
    let (outcome, probed) = run_autodetect(vec![9600, 115200, 57600], Some(115200));
    assert_eq!(outcome, Ok(115200));
    assert_eq!(probed, vec![115200]);
}

#[test]
fn success_in_the_middle_skips_the_rest() {
    let (outcome, probed) = run_autodetect(vec![9600, 115200, 57600], Some(57600));
    assert_eq!(outcome, Ok(57600));
    assert_eq!(probed, vec![115200, 57600]);
}

#[test]
fn all_candidates_failing_is_no_baud_found() {
    let (outcome, probed) = run_autodetect(vec![9600, 115200, 57600], None);
    assert_eq!(outcome, Err(ConnectFailure::NoBaudFound));
    assert_eq!(probed, vec![115200, 57600, 9600]);
}

#[test]
fn candidate_list_is_the_common_rates_fastest_first() {
    let rates = autodetect_candidates();
    assert_eq!(
        rates,
        vec![
            2000000, 1500000, 1000000, 921600, 576000, 500000, 460800, 230400, 115200, 57600,
            38400, 19200, 9600, 4800
        ]
    );
    for w in rates.windows(2) {
        assert!(w[0] >= w[1]);
    }
    assert!(rates.iter().all(|&b| b > 0));
}
