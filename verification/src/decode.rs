//! The frame decoder: a pure function from a raw byte buffer plus a
//! valid-length count to an optional [`Command`].
//!
//! Frame shape, all offsets fixed: byte 0 and byte 1 are a two-byte magic
//! marker, byte 2 the opcode, byte 3 an argument byte, bytes 4 and on a
//! command-specific payload. A frame that is too short, lacks the marker,
//! carries an unrecognized opcode or sub-selector, or cannot supply the
//! payload its opcode requires yields no command at all: rejection is
//! silent, and no byte at or beyond the valid length is ever read.

use vstd::prelude::*;
use vstd::slice::slice_index_get;

use crate::command::{Command, CommandModel, PatternVals};

verus! {

/// First byte of the magic marker that opens every frame.
pub const MAGIC0: u8 = 0x32;

/// Second byte of the magic marker.
pub const MAGIC1: u8 = 0xAC;

/// The pattern generator selected by the sub-selector byte of a pattern
/// frame, or `None` for a sub-selector outside the published table
/// (`0x00`, the percentage bar, is not a generator and is handled by the
/// decoder itself).
pub open spec fn spec_pattern(arg: u8) -> Option<PatternVals> {
    if arg == 0x01 {
        Some(PatternVals::Gradient)
    } else if arg == 0x02 {
        Some(PatternVals::DoubleGradient)
    } else if arg == 0x03 {
        Some(PatternVals::DisplayLotus)
    } else if arg == 0x04 {
        Some(PatternVals::ZigZag)
    } else if arg == 0x05 {
        Some(PatternVals::FullBrightness)
    } else if arg == 0x06 {
        Some(PatternVals::DisplayPanic)
    } else if arg == 0x07 {
        Some(PatternVals::DisplayLotus2)
    } else {
        None
    }
}

/// The sub-selector byte that selects pattern `k` in a pattern frame: the
/// inverse of [`spec_pattern`] on the published table.
pub open spec fn spec_pattern_code(k: PatternVals) -> u8 {
    match k {
        PatternVals::Gradient => 0x01,
        PatternVals::DoubleGradient => 0x02,
        PatternVals::DisplayLotus => 0x03,
        PatternVals::ZigZag => 0x04,
        PatternVals::FullBrightness => 0x05,
        PatternVals::DisplayPanic => 0x06,
        PatternVals::DisplayLotus2 => 0x07,
    }
}

/// What a buffer holding `count` valid bytes decodes to: the mathematical
/// definition of the frame format. `buf` is the whole buffer; only its
/// first `count` elements are meaningful, and the definition never reads
/// an index at or beyond `count`.
pub open spec fn spec_decode(count: int, buf: Seq<u8>) -> Option<CommandModel> {
    if count < 4 || buf[0] != MAGIC0 || buf[1] != MAGIC1 {
        None
    } else {
        let op = buf[2];
        let arg = buf[3];
        if op == 0x00 {
            Some(CommandModel::Brightness(arg))
        } else if op == 0x01 {
            if arg == 0x00 {
                if count >= 5 {
                    Some(CommandModel::Percentage(buf[4]))
                } else {
                    None
                }
            } else {
                match spec_pattern(arg) {
                    Some(k) => Some(CommandModel::Pattern(k)),
                    None => None,
                }
            }
        } else if op == 0x02 {
            Some(CommandModel::BootloaderReset)
        } else if op == 0x03 {
            Some(CommandModel::Sleep(arg == 1))
        } else if op == 0x04 {
            Some(CommandModel::Animate(arg == 1))
        } else if op == 0x05 {
            Some(CommandModel::Panic)
        } else if op == 0x06 {
            if count >= 42 {
                Some(CommandModel::Draw(buf.subrange(3, 42)))
            } else {
                None
            }
        } else {
            None
        }
    }
}

/// The model of an optional decoded command, for relating the decoder's
/// result to [`spec_decode`].
pub open spec fn model_of(r: Option<Command>) -> Option<CommandModel> {
    match r {
        Some(c) => Some(c@),
        None => None,
    }
}

/// Decode one received frame.
///
/// `buf` is the receive buffer and `count` how many of its leading bytes
/// the transport filled; the transport never reports more valid bytes than
/// the buffer holds. The result is exactly what the frame format
/// prescribes: a command for a well-formed frame, `None` for anything
/// malformed, truncated or unrecognized.
pub fn parse_command(count: usize, buf: &[u8]) -> (r: Option<Command>)
    requires
        count <= buf@.len(),
    ensures
        model_of(r) == spec_decode(count as int, buf@),
{
    if count >= 4 && *slice_index_get(buf, 0) == MAGIC0 && *slice_index_get(buf, 1) == MAGIC1 {
        let command = *slice_index_get(buf, 2);
        let arg = *slice_index_get(buf, 3);
        match command {
            0x00 => Some(Command::Brightness(arg)),
            0x01 => match arg {
                0x00 => {
                    if count >= 5 {
                        Some(Command::Percentage(*slice_index_get(buf, 4)))
                    } else {
                        None
                    }
                },
                0x01 => Some(Command::Pattern(PatternVals::Gradient)),
                0x02 => Some(Command::Pattern(PatternVals::DoubleGradient)),
                0x03 => Some(Command::Pattern(PatternVals::DisplayLotus)),
                0x04 => Some(Command::Pattern(PatternVals::ZigZag)),
                0x05 => Some(Command::Pattern(PatternVals::FullBrightness)),
                0x06 => Some(Command::Pattern(PatternVals::DisplayPanic)),
                0x07 => Some(Command::Pattern(PatternVals::DisplayLotus2)),
                _ => None,
            },
            0x02 => Some(Command::BootloaderReset),
            0x03 => Some(Command::Sleep(arg == 1)),
            0x04 => Some(Command::Animate(arg == 1)),
            0x05 => Some(Command::Panic),
            0x06 => {
                if count >= 42 {
                    let mut bytes: [u8; 39] = [0; 39];
                    let mut i: usize = 0;
                    while i < 39
                        invariant
                            i <= 39,
                            42 <= count <= buf@.len(),
                            forall|j: int| 0 <= j < i ==> bytes@[j] == buf@[3 + j],
                        decreases 39 - i,
                    {
                        bytes[i] = *slice_index_get(buf, 3 + i);
                        i += 1;
                    }
                    proof {
                        assert(bytes@ =~= buf@.subrange(3, 42));
                    }
                    Some(Command::Draw(bytes))
                } else {
                    None
                }
            },
            _ => None,
        }
    } else {
        None
    }
}

/// The frame that encodes a command, following the documented frame shape:
/// magic marker, opcode, argument byte, then any command-specific payload.
/// For a draw command the 39 payload bytes begin at offset 3, where the
/// argument byte of the other frames sits.
pub open spec fn spec_encode(c: CommandModel) -> Seq<u8> {
    match c {
        CommandModel::Brightness(b) => seq![MAGIC0, MAGIC1, 0x00u8, b],
        CommandModel::Pattern(k) => seq![MAGIC0, MAGIC1, 0x01u8, spec_pattern_code(k)],
        CommandModel::BootloaderReset => seq![MAGIC0, MAGIC1, 0x02u8, 0x00u8],
        CommandModel::Percentage(p) => seq![MAGIC0, MAGIC1, 0x01u8, 0x00u8, p],
        CommandModel::Sleep(f) => seq![MAGIC0, MAGIC1, 0x03u8, if f { 1u8 } else { 0u8 }],
        CommandModel::Animate(f) => seq![MAGIC0, MAGIC1, 0x04u8, if f { 1u8 } else { 0u8 }],
        CommandModel::Panic => seq![MAGIC0, MAGIC1, 0x05u8, 0x00u8],
        CommandModel::Draw(p) => seq![MAGIC0, MAGIC1, 0x06u8] + p,
    }
}

/// Build the byte frame that encodes `c`, so a host-side caller (or a test)
/// can construct exactly the frames the decoder accepts.
pub fn encode_command(c: &Command) -> (r: Vec<u8>)
    ensures
        r@ == spec_encode(c@),
{
    let mut v: Vec<u8> = Vec::new();
    v.push(MAGIC0);
    v.push(MAGIC1);
    match c {
        Command::Brightness(b) => {
            v.push(0x00);
            v.push(*b);
        },
        Command::Pattern(k) => {
            v.push(0x01);
            match k {
                PatternVals::Gradient => v.push(0x01),
                PatternVals::DoubleGradient => v.push(0x02),
                PatternVals::DisplayLotus => v.push(0x03),
                PatternVals::ZigZag => v.push(0x04),
                PatternVals::FullBrightness => v.push(0x05),
                PatternVals::DisplayPanic => v.push(0x06),
                PatternVals::DisplayLotus2 => v.push(0x07),
            }
        },
        Command::BootloaderReset => {
            v.push(0x02);
            v.push(0x00);
        },
        Command::Percentage(p) => {
            v.push(0x01);
            v.push(0x00);
            v.push(*p);
        },
        Command::Sleep(f) => {
            v.push(0x03);
            v.push(if *f { 1 } else { 0 });
        },
        Command::Animate(f) => {
            v.push(0x04);
            v.push(if *f { 1 } else { 0 });
        },
        Command::Panic => {
            v.push(0x05);
            v.push(0x00);
        },
        Command::Draw(p) => {
            v.push(0x06);
            let mut i: usize = 0;
            while i < 39
                invariant
                    i <= 39,
                    v@.len() == 3 + i,
                    v@[0] == MAGIC0,
                    v@[1] == MAGIC1,
                    v@[2] == 0x06u8,
                    forall|j: int| 0 <= j < i ==> v@[3 + j] == p@[j],
                decreases 39 - i,
            {
                v.push(*vstd::array::array_index_get(p, i));
                i += 1;
            }
        },
    }
    proof {
        assert(v@ =~= spec_encode(c@));
    }
    v
}

/// A frame shorter than four valid bytes, or one whose first two bytes are
/// not the magic marker, never decodes to a command.
pub proof fn lemma_decode_rejects_bad_header(count: int, buf: Seq<u8>)
    requires
        count < 4 || buf[0] != MAGIC0 || buf[1] != MAGIC1,
    ensures
        spec_decode(count, buf) is None,
{
}

/// A brightness frame decodes to a brightness command carrying its
/// argument byte, whatever that byte is.
pub proof fn lemma_decode_brightness(count: int, buf: Seq<u8>)
    requires
        count >= 4,
        buf[0] == MAGIC0,
        buf[1] == MAGIC1,
        buf[2] == 0x00,
    ensures
        spec_decode(count, buf) == Some(CommandModel::Brightness(buf[3])),
{
}

/// A percentage frame (pattern opcode, sub-selector zero) needs one more
/// valid byte, the percentage value at offset 4: with only four valid
/// bytes it decodes to nothing, with five or more to a percentage command
/// carrying that byte.
pub proof fn lemma_decode_percentage(count: int, buf: Seq<u8>)
    requires
        count >= 4,
        buf[0] == MAGIC0,
        buf[1] == MAGIC1,
        buf[2] == 0x01,
        buf[3] == 0x00,
    ensures
        count < 5 ==> spec_decode(count, buf) is None,
        count >= 5 ==> spec_decode(count, buf) == Some(CommandModel::Percentage(buf[4])),
{
}

/// A pattern frame with a sub-selector in the published table decodes to
/// the corresponding pattern command; any sub-selector beyond the table
/// decodes to nothing.
pub proof fn lemma_decode_pattern(count: int, buf: Seq<u8>)
    requires
        count >= 4,
        buf[0] == MAGIC0,
        buf[1] == MAGIC1,
        buf[2] == 0x01,
    ensures
        0x01 <= buf[3] <= 0x07 ==> spec_decode(count, buf) == Some(
            CommandModel::Pattern(spec_pattern(buf[3])->Some_0),
        ),
        buf[3] >= 0x08 ==> spec_decode(count, buf) is None,
{
}

/// A draw frame needs 42 valid bytes: with fewer it decodes to nothing,
/// with 42 or more to a draw command whose payload is exactly bytes
/// [3, 42) of the buffer.
pub proof fn lemma_decode_draw(count: int, buf: Seq<u8>)
    requires
        count >= 4,
        buf[0] == MAGIC0,
        buf[1] == MAGIC1,
        buf[2] == 0x06,
    ensures
        count < 42 ==> spec_decode(count, buf) is None,
        count >= 42 ==> spec_decode(count, buf) == Some(
            CommandModel::Draw(buf.subrange(3, 42)),
        ),
{
}

/// A decoded draw payload always carries exactly 39 bytes, the pixel count
/// the display surface expects: no frame ever produces a payload of
/// another length. The transport never reports more valid bytes than the
/// buffer holds, so `count` is bounded by the buffer's length.
pub proof fn lemma_draw_payload_len(count: int, buf: Seq<u8>)
    requires
        count <= buf.len(),
    ensures
        spec_decode(count, buf) matches Some(CommandModel::Draw(p)) ==> p.len() == 39,
{
}

/// Decoding depends only on the first 42 bytes of the buffer: two buffers
/// that agree there decode identically for every count, so bytes at and
/// beyond offset 42 never influence the result.
pub proof fn lemma_decode_ignores_tail(count: int, buf1: Seq<u8>, buf2: Seq<u8>)
    requires
        buf1.len() >= 42,
        buf2.len() >= 42,
        buf1.subrange(0, 42) == buf2.subrange(0, 42),
    ensures
        spec_decode(count, buf1) == spec_decode(count, buf2),
{
    assert forall|j: int| 0 <= j < 42 implies buf1[j] == buf2[j] by {
        assert(buf1[j] == buf1.subrange(0, 42)[j]);
        assert(buf2[j] == buf2.subrange(0, 42)[j]);
    }
    assert(buf1.subrange(3, 42) =~= buf2.subrange(3, 42));
}

/// Round trip through the frame format: the frame built for any command,
/// handed to the decoder with every one of its bytes valid, decodes back
/// to exactly that command.
pub proof fn lemma_encode_decode(c: Command)
    ensures
        spec_decode(spec_encode(c@).len() as int, spec_encode(c@)) == Some(c@),
{
    let bytes = spec_encode(c@);
    match c {
        Command::Pattern(k) => {
            match k {
                PatternVals::Gradient => {},
                PatternVals::DoubleGradient => {},
                PatternVals::DisplayLotus => {},
                PatternVals::ZigZag => {},
                PatternVals::FullBrightness => {},
                PatternVals::DisplayPanic => {},
                PatternVals::DisplayLotus2 => {},
            }
        },
        Command::Draw(p) => {
            assert(p@.len() == 39);
            assert(bytes.subrange(3, 42) =~= p@);
        },
        _ => {},
    }
}

} // verus!
