//! From the bytes of one readout of the meter to a reading.
//!
//! The decoding itself is the work of the `dsmr5` crate. What stands here is
//! the test that a readout must pass before it is handed over: the decoder
//! cuts the text at byte positions that it computes, and panics where a
//! position falls inside a character of several bytes or behind the end of
//! the text.

use crate::error::DecodeError;
use vstd::prelude::*;

verus! {

/// The number of bytes of a readout.
pub const READOUT_LEN: usize = 2048;

/// The position of the first `byte` in `bytes` at or after `from`; the length
/// of `bytes` where there is none.
pub open spec fn first_from(bytes: Seq<u8>, from: int, byte: u8) -> int
    decreases bytes.len() - from,
{
    if from < 0 || from >= bytes.len() {
        bytes.len() as int
    } else if bytes[from] == byte {
        from
    } else {
        first_from(bytes, from + 1, byte)
    }
}

/// The text `24.2.1(`: the end of the reference of a slave meter's reading,
/// and the bracket that opens its timestamp.
pub open spec fn slave_reading_mark() -> Seq<u8> {
    seq![0x32u8, 0x34u8, 0x2eu8, 0x32u8, 0x2eu8, 0x31u8, 0x28u8]
}

/// Whether the mark of a slave meter's reading stands at `at`.
pub open spec fn marked_at(bytes: Seq<u8>, at: int) -> bool {
    0 <= at && at + 7 <= bytes.len() && bytes.subrange(at, at + 7) == slave_reading_mark()
}

/// Whether the value that follows the mark at `at` has its decimal point at
/// most nine bytes behind its opening bracket, the next `(` after the mark.
/// A mark that no bracket or no point follows has nothing to misplace.
pub open spec fn value_fits(bytes: Seq<u8>, at: int) -> bool {
    let open = first_from(bytes, at + 7, 0x28u8);
    let point = first_from(bytes, open + 1, 0x2eu8);
    point >= bytes.len() || point - open <= 9
}

/// Whether the decoder can be handed `bytes`: they are ASCII throughout, and
/// the value of every slave meter's reading has its decimal point in reach.
pub open spec fn is_decodable(bytes: Seq<u8>) -> bool {
    &&& forall|i: int| 0 <= i < bytes.len() ==> bytes[i] < 0x80
    &&& forall|at: int| #[trigger] marked_at(bytes, at) ==> value_fits(bytes, at)
}

/// What `dsmr5` makes of a readout: the reading, or why there is none.
pub uninterp spec fn decoded(readout: Seq<u8>) -> Result<dsmr5::state::State, DecodeError>;

/// `dsmr5::Readout::to_telegram` and then `dsmr5::state::State::try_from` on
/// the telegram, with the error of either given by its variant.
///
/// Both read nothing but the readout, so the outcome has the name
/// [`decoded`]. What [`is_decodable`] asks is what keeps the two from
/// panicking. They slice the text at byte offsets, which needs every offset
/// to be the boundary of a character: on ASCII text each is. The offsets are
/// kept inside the text by `get` or by a test of the length, but for one
/// place: for a reference `0-n:24.2.1`, `OBIS::parse` computes
/// `9 - period as u8`, where `period` is the offset of the first `.` from the
/// `(` that opens the value, and `UFixedDouble::parse` then splits the value
/// at `8` less that number. Both go wrong where `period` is above 9.
#[verifier::external_body]
fn decode(readout: &[u8; READOUT_LEN]) -> (r: Result<dsmr5::state::State, DecodeError>)
    requires
        is_decodable(readout@),
    ensures
        r == decoded(readout@),
{
    let readout = dsmr5::Readout { buffer: *readout };
    let outcome = match readout.to_telegram() {
        Ok(telegram) => dsmr5::state::State::try_from(&telegram),
        Err(e) => Err(e),
    };
    match outcome {
        Ok(state) => Ok(state),
        Err(dsmr5::Error::InvalidFormat) => Err(DecodeError::InvalidFormat),
        Err(dsmr5::Error::InvalidChecksum) => Err(DecodeError::InvalidChecksum),
        Err(dsmr5::Error::UnknownObis) => Err(DecodeError::UnknownObis),
    }
}

/// The position of the first `byte` at or after `from`.
fn find_from(readout: &[u8; READOUT_LEN], from: usize, byte: u8) -> (r: usize)
    ensures
        r == first_from(readout@, from as int, byte),
        r <= READOUT_LEN,
        from <= READOUT_LEN ==> from <= r,
{
    let mut i: usize = from;
    while i < READOUT_LEN
        invariant
            from <= i,
            first_from(readout@, from as int, byte) == first_from(readout@, i as int, byte),
        decreases READOUT_LEN - i,
    {
        if readout[i] == byte {
            return i;
        }
        i += 1;
    }
    READOUT_LEN
}

/// Whether the mark of a slave meter's reading stands at `at`.
fn has_mark_at(readout: &[u8; READOUT_LEN], at: usize) -> (r: bool)
    requires
        at + 7 <= READOUT_LEN,
    ensures
        r == marked_at(readout@, at as int),
{
    let r = readout[at] == 0x32 && readout[at + 1] == 0x34 && readout[at + 2] == 0x2e && readout[at
        + 3] == 0x32 && readout[at + 4] == 0x2e && readout[at + 5] == 0x31 && readout[at + 6]
        == 0x28;
    proof {
        let part = readout@.subrange(at as int, at + 7);
        let mark = slave_reading_mark();
        if r {
            assert(part =~= mark);
        } else {
            assert(part[0] == readout@[at as int]);
            assert(part[1] == readout@[at + 1]);
            assert(part[2] == readout@[at + 2]);
            assert(part[3] == readout@[at + 3]);
            assert(part[4] == readout@[at + 4]);
            assert(part[5] == readout@[at + 5]);
            assert(part[6] == readout@[at + 6]);
        }
    }
    r
}

/// Whether the decoder can be handed the readout.
pub fn can_decode(readout: &[u8; READOUT_LEN]) -> (r: bool)
    ensures
        r == is_decodable(readout@),
{
    let mut i: usize = 0;
    while i < READOUT_LEN
        invariant
            i <= READOUT_LEN,
            forall|j: int| 0 <= j < i ==> readout@[j] < 0x80,
        decreases READOUT_LEN - i,
    {
        if readout[i] >= 0x80 {
            return false;
        }
        i += 1;
    }
    let mut at: usize = 0;
    while at + 7 <= READOUT_LEN
        invariant
            at + 7 <= READOUT_LEN + 1,
            forall|j: int| 0 <= j < at && #[trigger] marked_at(readout@, j) ==> value_fits(readout@, j),
        decreases READOUT_LEN + 1 - at,
    {
        if has_mark_at(readout, at) {
            let open = find_from(readout, at + 7, 0x28);
            let point = if open < READOUT_LEN {
                find_from(readout, open + 1, 0x2e)
            } else {
                READOUT_LEN
            };
            if point < READOUT_LEN && point - open > 9 {
                return false;
            }
        }
        at += 1;
    }
    true
}

/// Decodes one readout of the meter. A readout that the decoder cannot be
/// handed is no telegram, and is answered as one of invalid format.
pub fn decode_readout(readout: &[u8; READOUT_LEN]) -> (r: Result<dsmr5::state::State, DecodeError>)
    ensures
        r == if is_decodable(readout@) {
            decoded(readout@)
        } else {
            Err(DecodeError::InvalidFormat)
        },
{
    if can_decode(readout) {
        decode(readout)
    } else {
        Err(DecodeError::InvalidFormat)
    }
}

} // verus!
