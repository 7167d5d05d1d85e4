//! Wire frames of the display's bootloader protocol, and the byte-level
//! decisions taken while reading its responses.
//!
//! Every command is a literal byte sequence followed by the three-byte stop
//! marker; the upload negotiation command embeds the file size and the
//! transfer baud rate in decimal ASCII.

use vstd::prelude::*;
use vstd::seq_lib::group_seq_properties;

verus! {

/// The display acknowledges a negotiation or a chunk with this byte.
pub const ACK: u8 = 0x05;

/// Frame terminator appended after every command.
pub open spec fn spec_stop_marker() -> Seq<u8> {
    seq![0xffu8, 0xffu8, 0xffu8]
}

/// The fixed handshake probe: a null byte, a stop marker, the ASCII word
/// `connect`, and a closing stop marker.
pub open spec fn spec_connect_command() -> Seq<u8> {
    seq![
        0x00u8,
        0xffu8,
        0xffu8,
        0xffu8,
        0x63u8,
        0x6fu8,
        0x6eu8,
        0x6eu8,
        0x65u8,
        0x63u8,
        0x74u8,
        0xffu8,
        0xffu8,
        0xffu8,
    ]
}

/// The only reply that establishes a handshake: the five ASCII bytes `comok`.
pub open spec fn spec_comok() -> Seq<u8> {
    seq![0x63u8, 0x6fu8, 0x6du8, 0x6fu8, 0x6bu8]
}

/// Decimal ASCII digits of `n`, most significant first, no leading zeros
/// (a single `0` for zero).
pub open spec fn spec_decimal(n: nat) -> Seq<u8>
    decreases n,
{
    if n < 10 {
        seq![(0x30 + n) as u8]
    } else {
        spec_decimal(n / 10).push((0x30 + n % 10) as u8)
    }
}

/// The upload negotiation command `whmi-wri {size},{baud},0` in ASCII,
/// without its stop marker.
pub open spec fn spec_whmi_command(size: u64, baud: u32) -> Seq<u8> {
    seq![0x77u8, 0x68u8, 0x6du8, 0x69u8, 0x2du8, 0x77u8, 0x72u8, 0x69u8, 0x20u8]
        + spec_decimal(size as nat) + seq![0x2cu8] + spec_decimal(baud as nat) + seq![
        0x2cu8,
        0x30u8,
    ]
}

/// The three-byte stop marker that closes every command frame.
pub fn stop_marker() -> (r: Vec<u8>)
    ensures
        r@ == spec_stop_marker(),
{
    let mut v: Vec<u8> = Vec::new();
    v.push(0xff);
    v.push(0xff);
    v.push(0xff);
    proof {
        assert(v@ =~= spec_stop_marker());
    }
    v
}

/// The complete 14-byte handshake probe frame.
pub fn connect_command() -> (r: Vec<u8>)
    ensures
        r@ == spec_connect_command(),
{
    let mut v: Vec<u8> = Vec::new();
    v.push(0x00);
    v.push(0xff);
    v.push(0xff);
    v.push(0xff);
    v.push(0x63);
    v.push(0x6f);
    v.push(0x6e);
    v.push(0x6e);
    v.push(0x65);
    v.push(0x63);
    v.push(0x74);
    v.push(0xff);
    v.push(0xff);
    v.push(0xff);
    proof {
        assert(v@ =~= spec_connect_command());
    }
    v
}

/// A command followed by the stop marker, as one frame ready to write.
pub fn frame_command(command: &Vec<u8>) -> (r: Vec<u8>)
    ensures
        r@ == command@ + spec_stop_marker(),
{
    let mut v: Vec<u8> = Vec::new();
    let mut i: usize = 0;
    while i < command.len()
        invariant
            0 <= i <= command@.len(),
            v@ == command@.subrange(0, i as int),
        decreases command@.len() - i,
    {
        v.push(command[i]);
        i = i + 1;
        proof {
            assert(v@ =~= command@.subrange(0, i as int));
        }
    }
    proof {
        assert(command@.subrange(0, command@.len() as int) =~= command@);
    }
    v.push(0xff);
    v.push(0xff);
    v.push(0xff);
    proof {
        assert(v@ =~= command@ + spec_stop_marker());
    }
    v
}

/// Decimal ASCII rendering of `n`, most significant digit first.
pub fn decimal(n: u64) -> (r: Vec<u8>)
    ensures
        r@ == spec_decimal(n as nat),
{
    if n < 10 {
        let mut v: Vec<u8> = Vec::new();
        v.push(0x30 + (n as u8));
        proof {
            assert(v@ =~= spec_decimal(n as nat));
        }
        return v;
    }
    let mut rev: Vec<u8> = Vec::new();
    let mut m: u64 = n;
    while m > 0
        invariant
            m > 0 ==> spec_decimal(n as nat) == spec_decimal(m as nat) + rev@.reverse(),
            m == 0 ==> spec_decimal(n as nat) == rev@.reverse(),
        decreases m,
    {
        let d: u8 = 0x30 + ((m % 10) as u8);
        let ghost old_rev: Seq<u8> = rev@;
        let ghost old_m: u64 = m;
        rev.push(d);
        m = m / 10;
        proof {
            assert(rev@.reverse() =~= seq![d] + old_rev.reverse());
            if old_m >= 10 {
                assert(spec_decimal(old_m as nat) == spec_decimal((old_m / 10) as nat).push(d));
                assert(spec_decimal((old_m / 10) as nat).push(d) + old_rev.reverse()
                    =~= spec_decimal((old_m / 10) as nat) + (seq![d] + old_rev.reverse()));
            } else {
                assert(spec_decimal(old_m as nat) =~= seq![d]);
                assert(seq![d] + old_rev.reverse() =~= rev@.reverse());
            }
        }
    }
    let mut out: Vec<u8> = Vec::new();
    let mut i: usize = rev.len();
    while i > 0
        invariant
            0 <= i <= rev@.len(),
            out@ == rev@.subrange(i as int, rev@.len() as int).reverse(),
        decreases i,
    {
        let ghost old_out: Seq<u8> = out@;
        let ghost old_i: usize = i;
        out.push(rev[i - 1]);
        i = i - 1;
        proof {
            let s = rev@.subrange(i as int, rev@.len() as int).reverse();
            assert forall|k: int| 0 <= k < s.len() implies s[k] == out@[k] by {
                broadcast use group_seq_properties;

            }
            assert(out@ =~= s);
        }
    }
    proof {
        assert(rev@.subrange(0, rev@.len() as int) =~= rev@);
    }
    out
}

/// The upload negotiation command `whmi-wri {size},{baud},0`, announcing
/// the byte count about to be streamed and the baud rate it will be
/// streamed at. The stop marker is not included.
pub fn whmi_command(size: u64, baud: u32) -> (r: Vec<u8>)
    ensures
        r@ == spec_whmi_command(size, baud),
{
    let mut v: Vec<u8> = Vec::new();
    v.push(0x77);
    v.push(0x68);
    v.push(0x6d);
    v.push(0x69);
    v.push(0x2d);
    v.push(0x77);
    v.push(0x72);
    v.push(0x69);
    v.push(0x20);
    let ghost prefix: Seq<u8> = v@;
    proof {
        assert(prefix =~= seq![
            0x77u8,
            0x68u8,
            0x6du8,
            0x69u8,
            0x2du8,
            0x77u8,
            0x72u8,
            0x69u8,
            0x20u8,
        ]);
    }
    let mut size_digits = decimal(size);
    v.append(&mut size_digits);
    v.push(0x2c);
    let mut baud_digits = decimal(baud as u64);
    v.append(&mut baud_digits);
    v.push(0x2c);
    v.push(0x30);
    proof {
        assert(v@ =~= spec_whmi_command(size, baud));
    }
    v
}

/// True exactly when the handshake reply is the five bytes `comok`.
pub fn reply_is_comok(reply: &Vec<u8>) -> (r: bool)
    ensures
        r == (reply@ == spec_comok()),
{
    if reply.len() != 5 {
        return false;
    }
    let ok = reply[0] == 0x63 && reply[1] == 0x6f && reply[2] == 0x6d && reply[3] == 0x6f
        && reply[4] == 0x6b;
    proof {
        if ok {
            assert(reply@ =~= spec_comok());
        }
    }
    ok
}

/// What to do with one byte read while waiting for an acknowledgment.
pub enum ResponseByte {
    /// A zero byte: line filler, skipped silently.
    Filler,
    /// The acknowledgment byte: the wait is over, the write was accepted.
    Acknowledge,
    /// Any other byte: diagnostic chatter, noted but never an error.
    Chatter,
}

/// Classify one byte of a response stream: `0x00` is filler, [`ACK`] ends
/// the wait successfully, and everything else is harmless chatter.
pub fn classify_response_byte(b: u8) -> (r: ResponseByte)
    ensures
        b == 0 ==> r is Filler,
        b == ACK ==> r is Acknowledge,
        b != 0 && b != ACK ==> r is Chatter,
{
    if b == 0 {
        ResponseByte::Filler
    } else if b == ACK {
        ResponseByte::Acknowledge
    } else {
        ResponseByte::Chatter
    }
}

/// True exactly when the acknowledgment byte occurs in `bytes`.
pub fn contains_ack(bytes: &Vec<u8>) -> (r: bool)
    ensures
        r == bytes@.contains(ACK),
{
    let mut i: usize = 0;
    while i < bytes.len()
        invariant
            0 <= i <= bytes@.len(),
            forall|j: int| 0 <= j < i ==> bytes@[j] != ACK,
        decreases bytes@.len() - i,
    {
        if bytes[i] == ACK {
            proof {
                assert(bytes@[i as int] == ACK);
            }
            return true;
        }
        i = i + 1;
    }
    false
}

} // verus!
