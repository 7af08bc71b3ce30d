//! The NEC infrared protocol: an address and a command become one frame of
//! mark/space durations in microseconds.
use vstd::prelude::*;

verus! {

/// Carrier frequency of every transmission, in hertz.
pub const FREQ_HZ: i32 = 38000;

/// Header mark, in microseconds.
pub const HDR_MARK: i32 = 9000;

/// Header space.
pub const HDR_SPACE: i32 = 4500;

/// Mark that opens every data bit.
pub const BIT_MARK: i32 = 560;

/// Space after the mark of a set bit.
pub const ONE_SPACE: i32 = 1690;

/// Space after the mark of a clear bit.
pub const ZERO_SPACE: i32 = 560;

/// Mark that closes the frame.
pub const TRAIL_MARK: i32 = 560;

/// Number of durations in one frame: header pair, 32 bit pairs, trailer.
pub const FRAME_LEN: usize = 67;

/// Bit `i` of an address, counted from the least significant.
pub open spec fn address_bit(address: u16, i: int) -> bool {
    (address >> (i as u16)) & 1u16 == 1u16
}

/// Bit `i` of a command byte, counted from the least significant.
pub open spec fn command_bit(command: u8, i: int) -> bool {
    (command >> (i as u8)) & 1u8 == 1u8
}

/// The space that follows a bit mark.
pub open spec fn bit_space(set: bool) -> i32 {
    if set {
        ONE_SPACE
    } else {
        ZERO_SPACE
    }
}

/// The `p`-th of the 32 data bits of a frame: 16 address bits, then 8
/// command bits, then the 8 bits of the complemented command, each group
/// least significant bit first.
pub open spec fn frame_bit(address: u16, command: u8, p: int) -> bool {
    if p < 16 {
        address_bit(address, p)
    } else if p < 24 {
        command_bit(command, p - 16)
    } else {
        command_bit(!command, p - 24)
    }
}

/// Duration at position `k` of the frame for `(address, command)`.
pub open spec fn nec_element(address: u16, command: u8, k: int) -> i32 {
    if k == 0 {
        HDR_MARK
    } else if k == 1 {
        HDR_SPACE
    } else if k == 66 {
        TRAIL_MARK
    } else if (k - 2) % 2 == 0 {
        BIT_MARK
    } else {
        bit_space(frame_bit(address, command, (k - 2) / 2))
    }
}

/// The whole frame for `(address, command)`.
pub open spec fn nec_waveform(address: u16, command: u8) -> Seq<i32> {
    Seq::new(FRAME_LEN as nat, |k: int| nec_element(address, command, k))
}

/// Appends a bit mark and the space that encodes `set`.
fn push_bit(pattern: &mut Vec<i32>, set: bool)
    ensures
        final(pattern)@ == old(pattern)@.push(BIT_MARK).push(bit_space(set)),
{
    pattern.push(BIT_MARK);
    if set {
        pattern.push(ONE_SPACE);
    } else {
        pattern.push(ZERO_SPACE);
    }
}

/// Encodes one NEC frame: header, the 16 address bits, the 8 command bits,
/// the 8 bits of the complemented command, and a trailing mark.
pub fn nec_encode_extended(address: u16, command: u8) -> (r: Vec<i32>)
    ensures
        r@ == nec_waveform(address, command),
{
    let mut pattern: Vec<i32> = Vec::with_capacity(68);
    pattern.push(HDR_MARK);
    pattern.push(HDR_SPACE);
    let mut i: u16 = 0;
    while i < 16
        invariant
            0 <= i <= 16,
            pattern@.len() == 2 + 2 * i,
            forall|k: int| 0 <= k < pattern@.len() ==> pattern@[k] == nec_element(address, command, k),
        decreases 16 - i,
    {
        let set = (address >> i) & 1 != 0;
        assert(set == address_bit(address, i as int)) by {
            assert(((address >> i) & 1u16 != 0u16) == ((address >> i) & 1u16 == 1u16)) by (bit_vector);
        }
        push_bit(&mut pattern, set);
        i = i + 1;
    }
    let mut j: u8 = 0;
    while j < 8
        invariant
            0 <= j <= 8,
            pattern@.len() == 34 + 2 * j,
            forall|k: int| 0 <= k < pattern@.len() ==> pattern@[k] == nec_element(address, command, k),
        decreases 8 - j,
    {
        let set = (command >> j) & 1 != 0;
        assert(set == command_bit(command, j as int)) by {
            assert(((command >> j) & 1u8 != 0u8) == ((command >> j) & 1u8 == 1u8)) by (bit_vector);
        }
        push_bit(&mut pattern, set);
        j = j + 1;
    }
    let inv_cmd: u8 = !command;
    let mut j: u8 = 0;
    while j < 8
        invariant
            0 <= j <= 8,
            inv_cmd == !command,
            pattern@.len() == 50 + 2 * j,
            forall|k: int| 0 <= k < pattern@.len() ==> pattern@[k] == nec_element(address, command, k),
        decreases 8 - j,
    {
        let set = (inv_cmd >> j) & 1 != 0;
        assert(set == command_bit(inv_cmd, j as int)) by {
            assert(((inv_cmd >> j) & 1u8 != 0u8) == ((inv_cmd >> j) & 1u8 == 1u8)) by (bit_vector);
        }
        push_bit(&mut pattern, set);
        j = j + 1;
    }
    pattern.push(TRAIL_MARK);
    assert(pattern@ =~= nec_waveform(address, command));
    pattern
}

/// A bit of the complemented command is the negation of the command's bit.
pub proof fn lemma_inverted_bit(command: u8, i: int)
    requires
        0 <= i < 8,
    ensures
        command_bit(!command, i) == !command_bit(command, i),
{
    let b = i as u8;
    assert(((!command) >> b) & 1u8 == 1u8 <==> !((command >> b) & 1u8 == 1u8)) by (bit_vector)
        requires
            b < 8u8,
    ;
}

/// Layout of every frame: 67 durations; a 9000/4500 header; a 560 trailer;
/// each address bit `i` as the pair at 2 + 2i, each command bit at 34 + 2i and
/// the negation of each command bit at 50 + 2i, where a pair is a 560 mark
/// followed by a 1690 space for a set bit and a 560 space for a clear one.
pub proof fn lemma_nec_layout(address: u16, command: u8)
    ensures
        nec_waveform(address, command).len() == 67,
        nec_waveform(address, command)[0] == 9000,
        nec_waveform(address, command)[1] == 4500,
        nec_waveform(address, command)[66] == 560,
        forall|i: int|
            0 <= i < 16 ==> {
                &&& #[trigger] nec_waveform(address, command)[2 + 2 * i] == 560
                &&& nec_waveform(address, command)[3 + 2 * i] == if address_bit(address, i) {
                    1690i32
                } else {
                    560i32
                }
            },
        forall|i: int|
            0 <= i < 8 ==> {
                &&& #[trigger] nec_waveform(address, command)[34 + 2 * i] == 560
                &&& nec_waveform(address, command)[35 + 2 * i] == if command_bit(command, i) {
                    1690i32
                } else {
                    560i32
                }
            },
        forall|i: int|
            0 <= i < 8 ==> {
                &&& #[trigger] nec_waveform(address, command)[50 + 2 * i] == 560
                &&& nec_waveform(address, command)[51 + 2 * i] == if !command_bit(command, i) {
                    1690i32
                } else {
                    560i32
                }
            },
{
    assert forall|i: int| 0 <= i < 8 implies nec_waveform(address, command)[51 + 2 * i] == if !command_bit(
        command,
        i,
    ) {
        1690i32
    } else {
        560i32
    } by {
        lemma_inverted_bit(command, i);
    }
}

/// The encoder is a function of its inputs: equal inputs give equal frames.
pub proof fn lemma_nec_deterministic(address1: u16, command1: u8, address2: u16, command2: u8)
    requires
        address1 == address2,
        command1 == command2,
    ensures
        nec_waveform(address1, command1) == nec_waveform(address2, command2),
{
}

} // verus!
