use nextion_flash::timing::chunk_wait_ms;
use nextion_flash::timing::connect_timeout_ms;

#[test]
fn connect_timeout_formula() {
    // 30 ms margin plus 11_000_000 / baud ms.
    assert_eq!(connect_timeout_ms(9600), 30 + 1145);
    assert_eq!(connect_timeout_ms(115200), 30 + 95);
    assert_eq!(connect_timeout_ms(1), 30 + 11_000_000);
}

#[test]
fn chunk_wait_formula() {
    // Transmit time of one 4096-byte chunk plus 10 ms margin.
    assert_eq!(chunk_wait_ms(921600), 4 + 10);
    assert_eq!(chunk_wait_ms(9600), 426 + 10);
    assert_eq!(chunk_wait_ms(2_000_000), 2 + 10);
}

#[test]
fn timeouts_positive_and_never_grow_with_baud() {
    let bauds = [1u32, 300, 4800, 9600, 115200, 921600, 2_000_000, u32::MAX];
    for w in bauds.windows(2) {
        let (lo, hi) = (w[0], w[1]);
        assert!(connect_timeout_ms(lo) > 0);
        assert!(chunk_wait_ms(lo) > 0);
        assert!(connect_timeout_ms(hi) <= connect_timeout_ms(lo));
        assert!(chunk_wait_ms(hi) <= chunk_wait_ms(lo));
    }
    assert!(connect_timeout_ms(u32::MAX) > 0);
    assert!(chunk_wait_ms(u32::MAX) > 0);
}
