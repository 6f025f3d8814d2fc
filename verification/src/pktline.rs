use vstd::prelude::*;

use crate::error::{AppError, ErrorKind};

verus! {

/// Largest payload whose framed length (payload + four header bytes) still
/// fits in the four-digit hexadecimal length header.
pub const MAX_PKT_PAYLOAD: usize = 65531;

/// The ASCII code of the lowercase hexadecimal digit for `n`.
pub open spec fn hex_digit(n: int) -> u8
    recommends
        0 <= n < 16,
{
    if n < 10 {
        (48 + n) as u8
    } else {
        (87 + n) as u8
    }
}

/// The numeric value of an ASCII byte read as a lowercase hexadecimal digit.
pub open spec fn hex_val(b: u8) -> Option<int> {
    if 48 <= b && b <= 57 {
        Some((b - 48) as int)
    } else if 97 <= b && b <= 102 {
        Some((b - 97 + 10) as int)
    } else {
        None
    }
}

/// The four-byte length header of a frame whose total length is `n`.
pub open spec fn len_header(n: int) -> Seq<u8> {
    seq![
        hex_digit(n / 4096 % 16),
        hex_digit(n / 256 % 16),
        hex_digit(n / 16 % 16),
        hex_digit(n % 16),
    ]
}

/// The value announced by a four-byte length header, if all four bytes are
/// lowercase hexadecimal digits.
pub open spec fn header_value(h: Seq<u8>) -> Option<int>
    recommends
        h.len() == 4,
{
    if hex_val(h[0]) is Some && hex_val(h[1]) is Some && hex_val(h[2]) is Some && hex_val(h[3]) is Some {
        Some(
            hex_val(h[0]).unwrap() * 4096 + hex_val(h[1]).unwrap() * 256 + hex_val(h[2]).unwrap() * 16
                + hex_val(h[3]).unwrap(),
        )
    } else {
        None
    }
}

/// A data frame: the length header followed by the payload.
pub open spec fn pkt_encoded(payload: Seq<u8>) -> Seq<u8> {
    len_header(payload.len() + 4 as int) + payload
}

/// The flush frame, the literal four bytes `"0000"`.
pub open spec fn flush_frame() -> Seq<u8> {
    seq![48u8, 48u8, 48u8, 48u8]
}

/// The payload of a well-formed data frame; `None` if `f` is not one.
/// The flush frame announces length zero, so it is never a data frame.
pub open spec fn data_payload(f: Seq<u8>) -> Option<Seq<u8>> {
    if f.len() < 4 {
        None
    } else {
        match header_value(f.subrange(0, 4)) {
            Some(n) => if 4 <= n && f.len() == n {
                Some(f.subrange(4, f.len() as int))
            } else {
                None
            },
            None => None,
        }
    }
}

/// One frame of a packet-line stream.
#[derive(Debug)]
pub enum Frame {
    /// A length-prefixed byte string.
    Data(Vec<u8>),
    /// The zero-length flush marker.
    Flush,
}

fn hex_digit_exec(n: u8) -> (r: u8)
    requires
        n < 16,
    ensures
        r == hex_digit(n as int),
{
    if n < 10 {
        48 + n
    } else {
        87 + n
    }
}

fn hex_val_exec(b: u8) -> (r: Option<u8>)
    ensures
        match r {
            Some(v) => hex_val(b) == Some(v as int),
            None => hex_val(b) is None,
        },
{
    if 48 <= b && b <= 57 {
        Some(b - 48)
    } else if 97 <= b && b <= 102 {
        Some(b - 97 + 10)
    } else {
        None
    }
}

/// Frames `data` as one pkt-line: a four-digit lowercase-hex length header
/// (payload length plus four, zero-padded) followed by the payload. Payloads
/// whose framed length does not fit in four hexadecimal digits are a fatal
/// encoding error, never silently widened.
pub fn packet_write(data: &[u8]) -> (r: Result<Vec<u8>, AppError>)
    ensures
        data@.len() <= MAX_PKT_PAYLOAD ==> (r matches Ok(v) && v@ == pkt_encoded(data@)),
        data@.len() > MAX_PKT_PAYLOAD ==> (r matches Err(e) && e.kind == ErrorKind::UpstreamFailure
            && e.status == 500),
{
    if data.len() > MAX_PKT_PAYLOAD {
        return Err(AppError::upstream("pkt-line payload does not fit in a four-digit length header".to_owned()));
    }
    let n: usize = data.len() + 4;
    let mut out: Vec<u8> = Vec::new();
    out.push(hex_digit_exec(((n / 4096) % 16) as u8));
    out.push(hex_digit_exec(((n / 256) % 16) as u8));
    out.push(hex_digit_exec(((n / 16) % 16) as u8));
    out.push(hex_digit_exec((n % 16) as u8));
    assert(out@ =~= len_header(data@.len() + 4 as int));
    out.extend_from_slice(data);
    assert(out@ =~= pkt_encoded(data@));
    Ok(out)
}

/// Reads back one frame: the flush marker, or a data frame whose announced
/// length matches the frame exactly. Anything else is rejected.
pub fn packet_read(frame: &[u8]) -> (r: Result<Frame, AppError>)
    ensures
        (frame@ == flush_frame()) <==> (r matches Ok(f) && f is Flush),
        (data_payload(frame@) is Some) <==> (r matches Ok(f) && f matches Frame::Data(d)
            && d@ == data_payload(frame@).unwrap()),
        (frame@ != flush_frame() && data_payload(frame@) is None) ==> (r matches Err(e)
            && e.kind == ErrorKind::InvalidRequest),
{
    if frame.len() < 4 {
        assert(frame@ != flush_frame());
        return Err(AppError::invalid_request(400, "pkt-line frame is shorter than its length header"));
    }
    let d0 = hex_val_exec(frame[0]);
    let d1 = hex_val_exec(frame[1]);
    let d2 = hex_val_exec(frame[2]);
    let d3 = hex_val_exec(frame[3]);
    let (v0, v1, v2, v3) = match (d0, d1, d2, d3) {
        (Some(v0), Some(v1), Some(v2), Some(v3)) => (v0, v1, v2, v3),
        _ => {
            assert(header_value(frame@.subrange(0, 4)) is None) by {
                assert(frame@.subrange(0, 4)[0] == frame@[0]);
                assert(frame@.subrange(0, 4)[1] == frame@[1]);
                assert(frame@.subrange(0, 4)[2] == frame@[2]);
                assert(frame@.subrange(0, 4)[3] == frame@[3]);
            }
            assert(frame@ != flush_frame()) by {
                if frame@ == flush_frame() {
                    assert(hex_val(frame@[0]) is Some);
                }
            }
            return Err(AppError::invalid_request(400, "pkt-line length header is not hexadecimal"));
        },
    };
    let announced: usize = (v0 as usize) * 4096 + (v1 as usize) * 256 + (v2 as usize) * 16 + (v3 as usize);
    proof {
        assert(frame@.subrange(0, 4)[0] == frame@[0]);
        assert(frame@.subrange(0, 4)[1] == frame@[1]);
        assert(frame@.subrange(0, 4)[2] == frame@[2]);
        assert(frame@.subrange(0, 4)[3] == frame@[3]);
        assert(header_value(frame@.subrange(0, 4)) == Some(announced as int));
    }
    if announced == 0 {
        if frame.len() == 4 {
            proof {
                assert(hex_val(frame@[0]) == Some(0int) ==> frame@[0] == 48);
                assert(frame@ =~= flush_frame());
            }
            return Ok(Frame::Flush);
        }
        assert(frame@ != flush_frame());
        return Err(AppError::invalid_request(400, "bytes follow a flush frame"));
    }
    proof {
        assert(frame@ != flush_frame()) by {
            if frame@ == flush_frame() {
                assert(frame@[0] == 48 && frame@[1] == 48 && frame@[2] == 48 && frame@[3] == 48);
                assert(announced == 0);
            }
        }
    }
    if announced < 4 {
        return Err(AppError::invalid_request(400, "pkt-line length header is below the header size"));
    }
    if frame.len() != announced {
        return Err(AppError::invalid_request(400, "pkt-line frame length does not match its header"));
    }
    let mut payload: Vec<u8> = Vec::new();
    let mut i: usize = 4;
    while i < frame.len()
        invariant
            4 <= i <= frame@.len(),
            payload@ == frame@.subrange(4, i as int),
        decreases frame@.len() - i,
    {
        payload.push(frame[i]);
        i += 1;
        assert(payload@ =~= frame@.subrange(4, i as int));
    }
    assert(payload@ =~= frame@.subrange(4, frame@.len() as int));
    Ok(Frame::Data(payload))
}

/// Reading back an encoded frame recovers the payload exactly, for every
/// payload the encoder accepts.
pub proof fn lemma_packet_round_trip(payload: Seq<u8>)
    requires
        payload.len() <= MAX_PKT_PAYLOAD,
    ensures
        data_payload(pkt_encoded(payload)) == Some(payload),
{
    let n = payload.len() + 4;
    let f = pkt_encoded(payload);
    let h = f.subrange(0, 4);
    assert(h =~= len_header(n as int));
    lemma_header_round_trip(n as int);
    assert(header_value(h) == Some(n as int));
    assert(f.subrange(4, f.len() as int) =~= payload);
}

/// The flush frame is never read as a data frame: it announces length zero,
/// below the four bytes a data frame's header occupies.
pub proof fn lemma_flush_is_not_data()
    ensures
        data_payload(flush_frame()) is None,
{
    assert(flush_frame().subrange(0, 4) =~= flush_frame());
    assert(header_value(flush_frame()) == Some(0int));
}

/// A four-digit header writes back the value it was built from, for every
/// value the four digits can hold.
pub proof fn lemma_header_round_trip(n: int)
    requires
        0 <= n <= 65535,
    ensures
        header_value(len_header(n)) == Some(n),
{
    let h = len_header(n);
    lemma_hex_digit_round_trip(n / 4096 % 16);
    lemma_hex_digit_round_trip(n / 256 % 16);
    lemma_hex_digit_round_trip(n / 16 % 16);
    lemma_hex_digit_round_trip(n % 16);
    assert(n / 4096 % 16 * 4096 + n / 256 % 16 * 256 + n / 16 % 16 * 16 + n % 16 == n) by (nonlinear_arith)
        requires
            0 <= n <= 65535,
    ;
}

proof fn lemma_hex_digit_round_trip(d: int)
    requires
        0 <= d < 16,
    ensures
        hex_val(hex_digit(d)) == Some(d),
{
}

} // verus!
