use nextion_flash::frames::classify_response_byte;
use nextion_flash::frames::connect_command;
use nextion_flash::frames::contains_ack;
use nextion_flash::frames::decimal;
use nextion_flash::frames::frame_command;
use nextion_flash::frames::reply_is_comok;
use nextion_flash::frames::stop_marker;
use nextion_flash::frames::whmi_command;
use nextion_flash::frames::ResponseByte;
use nextion_flash::frames::ACK;

#[test]
fn connect_command_is_the_fixed_frame() {
    assert_eq!(
        connect_command(),
        vec![
            0x00, 0xff, 0xff, 0xff, 0x63, 0x6f, 0x6e, 0x6e, 0x65, 0x63, 0x74, 0xff, 0xff, 0xff
        ]
    );
    assert_eq!(connect_command(), b"\x00\xff\xff\xffconnect\xff\xff\xff".to_vec());
}

#[test]
fn stop_marker_is_three_ff() {
    assert_eq!(stop_marker(), vec![0xff, 0xff, 0xff]);
}

#[test]
fn frame_command_appends_stop_marker() {
    let framed = frame_command(&b"abc".to_vec());
    assert_eq!(framed, b"abc\xff\xff\xff".to_vec());
    let empty = frame_command(&Vec::new());
    assert_eq!(empty, vec![0xff, 0xff, 0xff]);
}

#[test]
fn decimal_renders_ascii() {
    assert_eq!(decimal(0), b"0".to_vec());
    assert_eq!(decimal(7), b"7".to_vec());
    assert_eq!(decimal(10), b"10".to_vec());
    assert_eq!(decimal(10000), b"10000".to_vec());
    assert_eq!(decimal(921600), b"921600".to_vec());
    assert_eq!(decimal(u64::MAX), b"18446744073709551615".to_vec());
}

#[test]
fn whmi_command_embeds_size_and_baud() {
    assert_eq!(whmi_command(10000, 921600), b"whmi-wri 10000,921600,0".to_vec());
    assert_eq!(whmi_command(0, 9600), b"whmi-wri 0,9600,0".to_vec());
}

#[test]
fn comok_reply_recognised_exactly() {
    assert!(reply_is_comok(&b"comok".to_vec()));
    assert!(!reply_is_comok(&b"comot".to_vec()));
    assert!(!reply_is_comok(&b"como".to_vec()));
    assert!(!reply_is_comok(&b"comokk".to_vec()));
    assert!(!reply_is_comok(&Vec::new()));
}

#[test]
fn response_bytes_classified() {
    assert!(matches!(classify_response_byte(0x00), ResponseByte::Filler));
    assert!(matches!(classify_response_byte(ACK), ResponseByte::Acknowledge));
    assert!(matches!(classify_response_byte(0x1a), ResponseByte::Chatter));
    assert!(matches!(classify_response_byte(0xff), ResponseByte::Chatter));
}

#[test]
fn ack_found_only_when_present() {
    assert!(contains_ack(&vec![0x00, 0x1a, ACK]));
    assert!(contains_ack(&vec![ACK]));
    assert!(!contains_ack(&vec![0x00, 0x1a, 0xff]));
    assert!(!contains_ack(&Vec::new()));
}
