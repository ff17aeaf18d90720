//! Normalization of codec private data into the canonical forms Vivid sources carry, and the
//! conversion of length-prefixed H.264/HEVC access units to Annex B.

use vstd::prelude::*;
use crate::bytes::{append_range, append_start_code, be16_at, be_value, has_prefix, pow256, start_code};
use crate::error::MediaError;

verus! {

/// Result of splitting one length-prefixed NAL off `data` at `offset`: the offset after it and
/// the NAL preceded by a start code.
pub open spec fn spec_annex_b_from(data: Seq<u8>, offset: int, length_size: int) -> Result<Seq<u8>, MediaError>
    decreases data.len() - offset,
    when length_size >= 1
{
    if offset >= data.len() {
        Ok(Seq::empty())
    } else if offset + length_size > data.len() {
        Err(MediaError::AccessUnitLengthTruncated)
    } else {
        let start = offset + length_size;
        let end = start + be_value(data.subrange(offset, start));
        if end > data.len() {
            Err(MediaError::AccessUnitNalExceedsPacket)
        } else {
            match spec_annex_b_from(data, end, length_size) {
                Ok(rest) => Ok(start_code() + data.subrange(start, end) + rest),
                Err(error) => Err(error),
            }
        }
    }
}

/// The Annex B form of a length-prefixed access unit whose NAL lengths take `length_size` bytes.
pub open spec fn spec_length_prefixed_to_annex_b(data: Seq<u8>, length_size: int) -> Result<Seq<u8>, MediaError> {
    if !(1 <= length_size <= 4) {
        Err(MediaError::InvalidNalLengthSize)
    } else {
        spec_annex_b_from(data, 0, length_size)
    }
}

/// The byte vector of an exec result, for comparison with a spec result.
pub open spec fn bytes_result(result: Result<Vec<u8>, MediaError>) -> Result<Seq<u8>, MediaError> {
    match result {
        Ok(bytes) => Ok(bytes@),
        Err(error) => Err(error),
    }
}

/// Reads the big-endian value of `data[offset..offset + size]`.
fn read_be(data: &[u8], offset: usize, size: usize) -> (value: u64)
    requires
        offset + size <= data@.len(),
        size <= 4,
    ensures
        value == be_value(data@.subrange(offset as int, offset + size)),
        value < pow256(size as nat),
{
    let total = data.len();
    let mut value: u64 = 0;
    let mut index: usize = 0;
    while index < size
        invariant
            total == data@.len(),
            index <= size <= 4,
            offset + size <= data@.len(),
            value == be_value(data@.subrange(offset as int, offset + index)),
            value < pow256(index as nat),
        decreases size - index,
    {
        proof {
            reveal_with_fuel(pow256, 5);
        }
        let byte = data[offset + index];
        let ghost previous = data@.subrange(offset as int, offset + index);
        assert(data@.subrange(offset as int, offset + index + 1).drop_last() == previous);
        assert(pow256(index as nat) <= 16777216) by {
            reveal_with_fuel(pow256, 5);
        };
        let ghost p = pow256(index as nat);
        assert(value * 256 + byte < 256 * p) by (nonlinear_arith)
            requires
                value < p,
                byte < 256,
        ;
        value = value * 256 + byte as u64;
        index = index + 1;
    }
    value
}

/// Converts an access unit of length-prefixed NAL units into Annex B: each NAL is preceded
/// by `00 00 00 01` instead of its length.
pub fn length_prefixed_to_annex_b(data: &[u8], length_size: usize) -> (result: Result<Vec<u8>, MediaError>)
    ensures
        bytes_result(result) == spec_length_prefixed_to_annex_b(data@, length_size as int),
{
    if !(1 <= length_size && length_size <= 4) {
        return Err(MediaError::InvalidNalLengthSize);
    }
    let mut output: Vec<u8> = Vec::new();
    let mut offset: usize = 0;
    while offset < data.len()
        invariant
            1 <= length_size <= 4,
            offset <= data@.len(),
            spec_annex_b_from(data@, 0, length_size as int) == match spec_annex_b_from(
                data@,
                offset as int,
                length_size as int,
            ) {
                Ok(rest) => Ok(output@ + rest),
                Err(error) => Err(error),
            },
        decreases data@.len() - offset,
    {
        if length_size > data.len() - offset {
            return Err(MediaError::AccessUnitLengthTruncated);
        }
        let length = read_be(data, offset, length_size);
        let start = offset + length_size;
        if length > (data.len() - start) as u64 {
            return Err(MediaError::AccessUnitNalExceedsPacket);
        }
        let end = start + length as usize;
        let ghost before = output@;
        append_start_code(&mut output);
        append_range(&mut output, data, start, end);
        proof {
            let nal = data@.subrange(start as int, end as int);
            match spec_annex_b_from(data@, end as int, length_size as int) {
                Ok(rest) => {
                    assert(before + (start_code() + nal + rest) == output@ + rest);
                },
                Err(_) => {},
            }
        }
        offset = end;
    }
    assert(spec_annex_b_from(data@, offset as int, length_size as int) == Ok::<Seq<u8>, MediaError>(Seq::empty()));
    assert(output@ + Seq::<u8>::empty() == output@);
    Ok(output)
}


/// One parameter set stored as a two-byte big-endian length and its bytes at `offset`: the
/// offset just past it and the parameter set preceded by a start code.
pub open spec fn spec_config_nal(data: Seq<u8>, offset: int) -> Result<(int, Seq<u8>), MediaError> {
    if offset + 2 > data.len() {
        Err(MediaError::NalLengthTruncated)
    } else {
        let start = offset + 2;
        let end = start + be16_at(data, offset);
        if end > data.len() {
            Err(MediaError::NalExceedsExtradata)
        } else {
            Ok((end, start_code() + data.subrange(start, end)))
        }
    }
}

/// `count` consecutive parameter sets starting at `offset`, read one after the other.
pub open spec fn spec_config_nals(data: Seq<u8>, offset: int, count: nat) -> Result<(int, Seq<u8>), MediaError>
    decreases count,
{
    if count == 0 {
        Ok((offset, Seq::empty()))
    } else {
        match spec_config_nals(data, offset, (count - 1) as nat) {
            Err(error) => Err(error),
            Ok((next, done)) => match spec_config_nal(data, next) {
                Err(error) => Err(error),
                Ok((end, nal)) => Ok((end, done + nal)),
            },
        }
    }
}

/// The first `count` parameter-set arrays of an hvcC record, which start at byte 23.
pub open spec fn spec_hvcc_arrays(data: Seq<u8>, count: nat) -> Result<(int, Seq<u8>), MediaError>
    decreases count,
{
    if count == 0 {
        Ok((23, Seq::empty()))
    } else {
        match spec_hvcc_arrays(data, (count - 1) as nat) {
            Err(error) => Err(error),
            Ok((next, done)) => if next + 3 > data.len() {
                Err(MediaError::HvccArrayTruncated)
            } else {
                match spec_config_nals(data, next + 3, be16_at(data, next + 1) as nat) {
                    Err(error) => Err(error),
                    Ok((end, nals)) => Ok((end, done + nals)),
                }
            },
        }
    }
}

/// The canonical form of H.264 (`hevc` false) or HEVC (`hevc` true) private data: Annex B
/// data is kept as it is; an avcC or hvcC record becomes its parameter sets in Annex B,
/// together with the size of the NAL length fields its access units use.
pub open spec fn spec_normalize_h26x(data: Seq<u8>, hevc: bool) -> Result<(Seq<u8>, Option<usize>), MediaError> {
    if data.len() == 0 || has_prefix(data, seq![0u8, 0u8, 1u8]) || has_prefix(data, start_code()) {
        Ok((data, None))
    } else if data[0] != 1 {
        Err(MediaError::H26xUnsupported)
    } else if hevc {
        if data.len() < 23 {
            Err(MediaError::HvccTruncated)
        } else {
            match spec_hvcc_arrays(data, data[22] as nat) {
                Err(error) => Err(error),
                Ok((end, nals)) => if end != data.len() {
                    Err(MediaError::HvccTrailing)
                } else {
                    Ok((nals, Some((data[21] % 4 + 1) as usize)))
                },
            }
        }
    } else if data.len() < 7 {
        Err(MediaError::AvccTruncated)
    } else {
        match spec_config_nals(data, 6, (data[5] % 32) as nat) {
            Err(error) => Err(error),
            Ok((next, sps)) => if next >= data.len() {
                Err(MediaError::AvccMissingPpsCount)
            } else {
                match spec_config_nals(data, next + 1, data[next] as nat) {
                    Err(error) => Err(error),
                    Ok((_, pps)) => Ok((sps + pps, Some((data[4] % 4 + 1) as usize))),
                }
            },
        }
    }
}

/// The byte vector of an exec normalization result, for comparison with a spec result.
pub open spec fn h26x_result(result: Result<(Vec<u8>, Option<usize>), MediaError>) -> Result<(Seq<u8>, Option<usize>), MediaError> {
    match result {
        Ok((bytes, length_size)) => Ok((bytes@, length_size)),
        Err(error) => Err(error),
    }
}

/// Once reading parameter sets fails, reading more of them fails the same way.
proof fn lemma_config_nals_error_persists(data: Seq<u8>, offset: int, failed: nat, count: nat)
    requires
        failed <= count,
        spec_config_nals(data, offset, failed) is Err,
    ensures
        spec_config_nals(data, offset, count) == spec_config_nals(data, offset, failed),
    decreases count,
{
    if failed < count {
        lemma_config_nals_error_persists(data, offset, failed, (count - 1) as nat);
    }
}

/// Once reading hvcC arrays fails, reading more of them fails the same way.
proof fn lemma_hvcc_arrays_error_persists(data: Seq<u8>, failed: nat, count: nat)
    requires
        failed <= count,
        spec_hvcc_arrays(data, failed) is Err,
    ensures
        spec_hvcc_arrays(data, count) == spec_hvcc_arrays(data, failed),
    decreases count,
{
    if failed < count {
        lemma_hvcc_arrays_error_persists(data, failed, (count - 1) as nat);
    }
}

/// Reads the two-byte length at `*offset` and appends the parameter set that follows it,
/// preceded by a start code, to `output`.
fn append_config_nal(data: &[u8], offset: &mut usize, output: &mut Vec<u8>) -> (result: Result<(), MediaError>)
    requires
        *old(offset) <= data@.len(),
    ensures
        match spec_config_nal(data@, *old(offset) as int) {
            Ok((end, nal)) => result is Ok && *final(offset) == end && final(output)@ == old(output)@ + nal,
            Err(error) => result == Err::<(), MediaError>(error),
        },
{
    if data.len() - *offset < 2 {
        return Err(MediaError::NalLengthTruncated);
    }
    let length = data[*offset] as usize * 256 + data[*offset + 1] as usize;
    let start = *offset + 2;
    if length > data.len() - start {
        return Err(MediaError::NalExceedsExtradata);
    }
    let end = start + length;
    let ghost before = output@;
    append_start_code(output);
    append_range(output, data, start, end);
    assert(output@ == before + (start_code() + data@.subrange(start as int, end as int)));
    *offset = end;
    Ok(())
}

/// Appends `count` consecutive parameter sets read from `*offset`.
fn append_config_nals(data: &[u8], offset: &mut usize, count: usize, output: &mut Vec<u8>) -> (result: Result<(), MediaError>)
    requires
        *old(offset) <= data@.len(),
    ensures
        match spec_config_nals(data@, *old(offset) as int, count as nat) {
            Ok((end, nals)) => result is Ok && *final(offset) == end && final(output)@ == old(output)@ + nals,
            Err(error) => result == Err::<(), MediaError>(error),
        },
{
    let ghost first = *offset as int;
    let ghost base = output@;
    let ghost mut done: Seq<u8> = Seq::empty();
    let mut index: usize = 0;
    while index < count
        invariant
            index <= count,
            first == *old(offset) as int,
            *offset <= data@.len(),
            output@ == base + done,
            spec_config_nals(data@, first, index as nat) == Ok::<(int, Seq<u8>), MediaError>((*offset as int, done)),
        decreases count - index,
    {
        let ghost before = output@;
        let ghost previous = *offset as int;
        let step = append_config_nal(data, offset, output);
        assert(spec_config_nals(data@, first, (index + 1) as nat) == match spec_config_nal(data@, previous) {
            Err(error) => Err(error),
            Ok((end, nal)) => Ok((end, done + nal)),
        });
        if step.is_err() {
            proof {
                lemma_config_nals_error_persists(data@, first, (index + 1) as nat, count as nat);
            }
            assert(spec_config_nal(data@, previous) == Err::<(int, Seq<u8>), MediaError>(step.unwrap_err()));
            assert(spec_config_nals(data@, first, (index + 1) as nat) == Err::<(int, Seq<u8>), MediaError>(step.unwrap_err()));
            assert(spec_config_nals(data@, first, count as nat) == Err::<(int, Seq<u8>), MediaError>(step.unwrap_err()));
            return step;
        }
        proof {
            match spec_config_nal(data@, previous) {
                Ok((end, nal)) => {
                    assert(output@ == before + nal);
                    done = done + nal;
                    assert(output@ == base + done);
                },
                Err(_) => {},
            }
        }
        index = index + 1;
    }
    Ok(())
}

/// Normalizes H.264 (`hevc` false) or HEVC (`hevc` true) private data: Annex B data is kept;
/// an avcC or hvcC record is replaced by its parameter sets in Annex B, and the size of the NAL
/// length fields of the stream's access units is returned with it.
pub fn normalize_h26x_extradata(data: &[u8], hevc: bool) -> (result: Result<(Vec<u8>, Option<usize>), MediaError>)
    ensures
        h26x_result(result) == spec_normalize_h26x(data@, hevc),
{
    let len = data.len();
    if len == 0 || (len >= 3 && data[0] == 0 && data[1] == 0 && data[2] == 1) || (len >= 4 && data[0] == 0
        && data[1] == 0 && data[2] == 0 && data[3] == 1) {
        proof {
            if len >= 3 && data[0] == 0 && data[1] == 0 && data[2] == 1 {
                assert(data@.subrange(0, 3) == seq![0u8, 0u8, 1u8]);
            }
            if len >= 4 && data[0] == 0 && data[1] == 0 && data[2] == 0 && data[3] == 1 {
                assert(data@.subrange(0, 4) == start_code());
            }
        }
        return Ok((crate::bytes::copy_bytes(data), None));
    }
    proof {
        if len >= 3 {
            if data@.subrange(0, 3) == seq![0u8, 0u8, 1u8] {
                assert(data@[0] == data@.subrange(0, 3)[0]);
                assert(data@[1] == data@.subrange(0, 3)[1]);
                assert(data@[2] == data@.subrange(0, 3)[2]);
            }
        }
        if len >= 4 {
            if data@.subrange(0, 4) == start_code() {
                assert(data@[0] == data@.subrange(0, 4)[0]);
                assert(data@[1] == data@.subrange(0, 4)[1]);
                assert(data@[2] == data@.subrange(0, 4)[2]);
                assert(data@[3] == data@.subrange(0, 4)[3]);
            }
        }
    }
    if data[0] != 1 {
        return Err(MediaError::H26xUnsupported);
    }
    let mut output: Vec<u8> = Vec::new();
    if hevc {
        if len < 23 {
            return Err(MediaError::HvccTruncated);
        }
        let length_size = (data[21] % 4 + 1) as usize;
        let arrays = data[22] as usize;
        let mut offset: usize = 23;
        let ghost mut done: Seq<u8> = Seq::empty();
        let mut index: usize = 0;
        assert(spec_normalize_h26x(data@, hevc) == match spec_hvcc_arrays(data@, arrays as nat) {
            Err(error) => Err(error),
            Ok((end, nals)) => if end != len {
                Err(MediaError::HvccTrailing)
            } else {
                Ok((nals, Some(length_size)))
            },
        });
        while index < arrays
            invariant
                spec_normalize_h26x(data@, hevc) == match spec_hvcc_arrays(data@, arrays as nat) {
                    Err(error) => Err(error),
                    Ok((end, nals)) => if end != len {
                        Err(MediaError::HvccTrailing)
                    } else {
                        Ok((nals, Some(length_size)))
                    },
                },
                len == data@.len(),
                len >= 23,
                index <= arrays,
                arrays == data@[22],
                offset <= len,
                output@ == done,
                spec_hvcc_arrays(data@, index as nat) == Ok::<(int, Seq<u8>), MediaError>((offset as int, done)),
            decreases arrays - index,
        {
            if len - offset < 3 {
                assert(spec_hvcc_arrays(data@, (index + 1) as nat) is Err);
                proof {
                    lemma_hvcc_arrays_error_persists(data@, (index + 1) as nat, arrays as nat);
                }
                return Err(MediaError::HvccArrayTruncated);
            }
            let ghost array_start = offset as int;
            offset = offset + 1;
            let count = data[offset] as usize * 256 + data[offset + 1] as usize;
            offset = offset + 2;
            let ghost before = output@;
            let step = append_config_nals(data, &mut offset, count, &mut output);
            assert(spec_hvcc_arrays(data@, (index + 1) as nat) == match spec_config_nals(
                data@,
                array_start + 3,
                count as nat,
            ) {
                Err(error) => Err(error),
                Ok((end, nals)) => Ok((end, done + nals)),
            });
            if step.is_err() {
                proof {
                    lemma_hvcc_arrays_error_persists(data@, (index + 1) as nat, arrays as nat);
                }
                return Err(step.unwrap_err());
            }
            proof {
                match spec_config_nals(data@, array_start + 3, count as nat) {
                    Ok((end, nals)) => {
                        assert(output@ == before + nals);
                        done = done + nals;
                    },
                    Err(_) => {},
                }
            }
            index = index + 1;
        }
        if offset != len {
            return Err(MediaError::HvccTrailing);
        }
        Ok((output, Some(length_size)))
    } else {
        if len < 7 {
            return Err(MediaError::AvccTruncated);
        }
        let length_size = (data[4] % 4 + 1) as usize;
        let mut offset: usize = 6;
        let sps = (data[5] % 32) as usize;
        let step = append_config_nals(data, &mut offset, sps, &mut output);
        if step.is_err() {
            return Err(step.unwrap_err());
        }
        let ghost sps_bytes = output@;
        if offset >= len {
            return Err(MediaError::AvccMissingPpsCount);
        }
        let pps = data[offset] as usize;
        offset = offset + 1;
        let step = append_config_nals(data, &mut offset, pps, &mut output);
        if step.is_err() {
            return Err(step.unwrap_err());
        }
        Ok((output, Some(length_size)))
    }
}


/// The magic bytes `OpusHead` that open a canonical Opus identification header.
pub open spec fn opus_head_magic() -> Seq<u8> {
    seq![79u8, 112u8, 117u8, 115u8, 72u8, 101u8, 97u8, 100u8]
}

/// The magic bytes `fLaC` that open a native FLAC stream.
pub open spec fn flac_magic() -> Seq<u8> {
    seq![102u8, 76u8, 97u8, 67u8]
}

/// Xiph lacing of `length`: one 255 byte for every full 255, then the remainder.
pub open spec fn xiph_lacing(length: nat) -> Seq<u8>
    decreases length,
{
    if length >= 255 {
        seq![255u8] + xiph_lacing((length - 255) as nat)
    } else {
        seq![length as u8]
    }
}

/// The sum of the bytes of `bytes`.
pub open spec fn byte_sum(bytes: Seq<u8>) -> nat
    decreases bytes.len(),
{
    if bytes.len() == 0 {
        0
    } else {
        bytes[0] as nat + byte_sum(bytes.drop_first())
    }
}

/// The canonical Vorbis private data: one block of three Xiph-laced headers, marked by a
/// leading 2. A block already in that form is kept; the legacy form of three big-endian
/// 16-bit lengths followed by the three headers is repacked.
pub open spec fn spec_normalize_vorbis(data: Seq<u8>) -> Result<Seq<u8>, MediaError> {
    if data.len() > 0 && data[0] == 2 {
        Ok(data)
    } else if data.len() < 6 {
        Err(MediaError::VorbisTruncated)
    } else {
        let first = be16_at(data, 0);
        let second = be16_at(data, 2);
        let third = be16_at(data, 4);
        if 6 + first + second + third != data.len() || first == 0 || second == 0 || third == 0 {
            Err(MediaError::VorbisPacking)
        } else {
            Ok(seq![2u8] + xiph_lacing(first as nat) + xiph_lacing(second as nat) + data.subrange(6, data.len() as int))
        }
    }
}

/// The canonical FLAC private data: the 34-byte STREAMINFO payload, taken from a bare
/// payload, a 38-byte metadata block, or a 42-byte `fLaC` stream header.
pub open spec fn spec_normalize_flac(data: Seq<u8>) -> Result<Seq<u8>, MediaError> {
    if data.len() == 34 {
        Ok(data)
    } else if !(data.len() == 42 && has_prefix(data, flac_magic())) && data.len() != 38 {
        Err(MediaError::FlacNoStreamInfo)
    } else {
        let block = if data.len() == 42 { data.subrange(4, 42) } else { data };
        let block_length = block[1] as int * 65536 + block[2] as int * 256 + block[3] as int;
        if block[0] % 128 != 0 || block_length != 34 {
            Err(MediaError::FlacNotStreamInfo)
        } else {
            Ok(block.subrange(4, block.len() as int))
        }
    }
}

/// The canonical private data of an audio codec: Opus must already begin with `OpusHead`,
/// Vorbis and FLAC are repacked, and every other codec's data is kept as it is.
pub open spec fn spec_normalize_audio(codec: Seq<char>, data: Seq<u8>) -> Result<Seq<u8>, MediaError> {
    if codec == "opus"@ {
        if has_prefix(data, opus_head_magic()) {
            Ok(data)
        } else {
            Err(MediaError::OpusHeadMissing)
        }
    } else if codec == "vorbis"@ {
        spec_normalize_vorbis(data)
    } else if codec == "flac"@ {
        spec_normalize_flac(data)
    } else {
        Ok(data)
    }
}

/// Appends the Xiph lacing of `length` to `output`.
pub fn append_xiph_length(output: &mut Vec<u8>, length: usize)
    ensures
        final(output)@ == old(output)@ + xiph_lacing(length as nat),
{
    let mut remaining = length;
    while remaining >= 255
        invariant
            old(output)@ + xiph_lacing(length as nat) == output@ + xiph_lacing(remaining as nat),
        decreases remaining,
    {
        let ghost before = output@;
        output.push(255);
        assert(xiph_lacing(remaining as nat) == seq![255u8] + xiph_lacing((remaining - 255) as nat));
        assert(before + xiph_lacing(remaining as nat) == output@ + xiph_lacing((remaining - 255) as nat));
        remaining = remaining - 255;
    }
    let ghost before = output@;
    output.push(remaining as u8);
    assert(before + xiph_lacing(remaining as nat) == output@);
}

/// Normalizes Vorbis private data to one Xiph-laced block of its three headers.
pub fn normalize_vorbis_extradata(data: &[u8]) -> (result: Result<Vec<u8>, MediaError>)
    ensures
        bytes_result(result) == spec_normalize_vorbis(data@),
{
    let len = data.len();
    if len > 0 && data[0] == 2 {
        return Ok(crate::bytes::copy_bytes(data));
    }
    if len < 6 {
        return Err(MediaError::VorbisTruncated);
    }
    let first = data[0] as usize * 256 + data[1] as usize;
    let second = data[2] as usize * 256 + data[3] as usize;
    let third = data[4] as usize * 256 + data[5] as usize;
    let total = 6 + first + second + third;
    if total != len || first == 0 || second == 0 || third == 0 {
        return Err(MediaError::VorbisPacking);
    }
    let mut output: Vec<u8> = Vec::new();
    output.push(2);
    append_xiph_length(&mut output, first);
    append_xiph_length(&mut output, second);
    append_range(&mut output, data, 6, len);
    Ok(output)
}

/// Normalizes FLAC private data to its 34-byte STREAMINFO payload.
pub fn normalize_flac_extradata(data: &[u8]) -> (result: Result<Vec<u8>, MediaError>)
    ensures
        bytes_result(result) == spec_normalize_flac(data@),
{
    let len = data.len();
    if len == 34 {
        return Ok(crate::bytes::copy_bytes(data));
    }
    let native = len == 42 && data[0] == 102 && data[1] == 76 && data[2] == 97 && data[3] == 67;
    proof {
        if len == 42 {
            if has_prefix(data@, flac_magic()) {
                assert(data@[0] == data@.subrange(0, 4)[0]);
                assert(data@[1] == data@.subrange(0, 4)[1]);
                assert(data@[2] == data@.subrange(0, 4)[2]);
                assert(data@[3] == data@.subrange(0, 4)[3]);
            }
            if native {
                assert(data@.subrange(0, 4) == flac_magic());
            }
        }
    }
    if !native && len != 38 {
        return Err(MediaError::FlacNoStreamInfo);
    }
    let start: usize = if len == 42 { 4 } else { 0 };
    let ghost block = if len == 42 { data@.subrange(4, 42) } else { data@ };
    assert(block == data@.subrange(start as int, len as int));
    let block_length = data[start + 1] as usize * 65536 + data[start + 2] as usize * 256 + data[start + 3] as usize;
    if data[start] % 128 != 0 || block_length != 34 {
        return Err(MediaError::FlacNotStreamInfo);
    }
    let mut output: Vec<u8> = Vec::new();
    append_range(&mut output, data, start + 4, len);
    assert(block.subrange(4, block.len() as int) == data@.subrange(start + 4, len as int));
    Ok(output)
}

/// Normalizes the private data of an audio codec named `codec`.
pub fn normalize_audio_extradata(codec: &str, data: &[u8]) -> (result: Result<Vec<u8>, MediaError>)
    ensures
        bytes_result(result) == spec_normalize_audio(codec@, data@),
{
    if crate::text::str_equal(codec, "opus") {
        let magic: [u8; 8] = [79, 112, 117, 115, 72, 101, 97, 100];
        if data.len() >= 8 && crate::bytes::slices_equal(&data[0..8], &magic) {
            return Ok(crate::bytes::copy_bytes(data));
        }
        proof {
            if has_prefix(data@, opus_head_magic()) {
                assert(data@.subrange(0, 8) == magic@);
            }
        }
        Err(MediaError::OpusHeadMissing)
    } else if crate::text::str_equal(codec, "vorbis") {
        normalize_vorbis_extradata(data)
    } else if crate::text::str_equal(codec, "flac") {
        normalize_flac_extradata(data)
    } else {
        Ok(crate::bytes::copy_bytes(data))
    }
}


/// Xiph lacing is decodable: its bytes sum to the laced length, it has one byte per full 255
/// plus one, every byte but the last is 255, and the last is below 255.
pub proof fn law_xiph_lacing_decodes(length: nat)
    ensures
        byte_sum(xiph_lacing(length)) == length,
        xiph_lacing(length).len() == length / 255 + 1,
        forall|i: int| 0 <= i < xiph_lacing(length).len() - 1 ==> #[trigger] xiph_lacing(length)[i] == 255,
        xiph_lacing(length).last() < 255,
    decreases length,
{
    if length >= 255 {
        let rest = xiph_lacing((length - 255) as nat);
        law_xiph_lacing_decodes((length - 255) as nat);
        assert((seq![255u8] + rest).drop_first() == rest);
        assert(byte_sum(seq![255u8] + rest) == 255 + byte_sum(rest));
        assert forall|i: int| 0 <= i < xiph_lacing(length).len() - 1 implies #[trigger] xiph_lacing(length)[i] == 255 by {
            if i > 0 {
                assert(xiph_lacing(length)[i] == rest[i - 1]);
            }
        }
    } else {
        assert(seq![length as u8].drop_first() == Seq::<u8>::empty());
        assert(byte_sum(seq![length as u8]) == length as u8 + byte_sum(Seq::<u8>::empty()));
    }
}

/// Normalized Vorbis private data is already canonical: normalizing it again keeps it.
pub proof fn law_vorbis_normalization_is_idempotent(data: Seq<u8>)
    requires
        spec_normalize_vorbis(data) is Ok,
    ensures
        spec_normalize_vorbis(spec_normalize_vorbis(data)->Ok_0) == spec_normalize_vorbis(data),
{
}

/// Normalized FLAC private data is already canonical: normalizing it again keeps it.
pub proof fn law_flac_normalization_is_idempotent(data: Seq<u8>)
    requires
        spec_normalize_flac(data) is Ok,
    ensures
        spec_normalize_flac(data)->Ok_0.len() == 34,
        spec_normalize_flac(spec_normalize_flac(data)->Ok_0) == spec_normalize_flac(data),
{
}

/// Normalized audio private data of any codec is already canonical.
pub proof fn law_audio_normalization_is_idempotent(codec: Seq<char>, data: Seq<u8>)
    requires
        spec_normalize_audio(codec, data) is Ok,
    ensures
        spec_normalize_audio(codec, spec_normalize_audio(codec, data)->Ok_0) == spec_normalize_audio(codec, data),
{
    reveal_strlit("opus");
    reveal_strlit("vorbis");
    reveal_strlit("flac");
    assert("opus"@.len() == 4 && "vorbis"@.len() == 6 && "flac"@.len() == 4);
    assert("opus"@[0] != "flac"@[0]);
    if codec == "vorbis"@ {
        law_vorbis_normalization_is_idempotent(data);
    } else if codec == "flac"@ {
        law_flac_normalization_is_idempotent(data);
    }
}

/// Parameter sets read from a record are empty or begin with a start code.
proof fn lemma_config_nals_start_with_start_code(data: Seq<u8>, offset: int, count: nat)
    ensures
        spec_config_nals(data, offset, count) matches Ok((_, nals)) ==> nals.len() == 0 || has_prefix(nals, start_code()),
    decreases count,
{
    if count > 0 {
        lemma_config_nals_start_with_start_code(data, offset, (count - 1) as nat);
        match spec_config_nals(data, offset, (count - 1) as nat) {
            Ok((next, done)) => match spec_config_nal(data, next) {
                Ok((_, nal)) => {
                    assert(nal.subrange(0, 4) == start_code());
                    lemma_concat_keeps_start_code(done, nal);
                },
                Err(_) => {},
            },
            Err(_) => {},
        }
    }
}

/// Parameter sets read from hvcC arrays are empty or begin with a start code.
proof fn lemma_hvcc_arrays_start_with_start_code(data: Seq<u8>, count: nat)
    ensures
        spec_hvcc_arrays(data, count) matches Ok((_, nals)) ==> nals.len() == 0 || has_prefix(nals, start_code()),
    decreases count,
{
    if count > 0 {
        lemma_hvcc_arrays_start_with_start_code(data, (count - 1) as nat);
        match spec_hvcc_arrays(data, (count - 1) as nat) {
            Ok((next, done)) => if next + 3 <= data.len() {
                let count_here = be16_at(data, next + 1) as nat;
                lemma_config_nals_start_with_start_code(data, next + 3, count_here);
                match spec_config_nals(data, next + 3, count_here) {
                    Ok((_, nals)) => lemma_concat_keeps_start_code(done, nals),
                    Err(_) => {},
                }
            },
            Err(_) => {},
        }
    }
}

/// Two byte strings that are each empty or begin with a start code concatenate to one that is
/// empty or begins with a start code.
proof fn lemma_concat_keeps_start_code(first: Seq<u8>, second: Seq<u8>)
    requires
        first.len() == 0 || has_prefix(first, start_code()),
        second.len() == 0 || has_prefix(second, start_code()),
    ensures
        (first + second).len() == 0 || has_prefix(first + second, start_code()),
{
    if first.len() == 0 {
        assert(first + second == second);
    } else {
        assert((first + second).subrange(0, 4) == first.subrange(0, 4));
    }
}

/// Normalized H.264/HEVC private data is Annex B: normalizing it again keeps it and reports
/// no NAL length size.
pub proof fn law_h26x_normalization_is_idempotent(data: Seq<u8>, hevc: bool)
    requires
        spec_normalize_h26x(data, hevc) is Ok,
    ensures
        spec_normalize_h26x(spec_normalize_h26x(data, hevc)->Ok_0.0, hevc)
            == Ok::<(Seq<u8>, Option<usize>), MediaError>((spec_normalize_h26x(data, hevc)->Ok_0.0, None)),
{
    if data.len() == 0 || has_prefix(data, seq![0u8, 0u8, 1u8]) || has_prefix(data, start_code()) {
    } else if hevc {
        lemma_hvcc_arrays_start_with_start_code(data, data[22] as nat);
    } else {
        lemma_config_nals_start_with_start_code(data, 6, (data[5] % 32) as nat);
        match spec_config_nals(data, 6, (data[5] % 32) as nat) {
            Ok((next, sps)) => {
                lemma_config_nals_start_with_start_code(data, next + 1, data[next] as nat);
                match spec_config_nals(data, next + 1, data[next] as nat) {
                    Ok((_, pps)) => lemma_concat_keeps_start_code(sps, pps),
                    Err(_) => {},
                }
            },
            Err(_) => {},
        }
    }
}

/// The `size`-byte big-endian encoding of `value`.
pub open spec fn be_bytes(value: nat, size: nat) -> Seq<u8>
    decreases size,
{
    if size == 0 {
        Seq::empty()
    } else {
        be_bytes(value / 256, (size - 1) as nat).push((value % 256) as u8)
    }
}

/// NAL units serialized as an access unit with `size`-byte big-endian length fields.
pub open spec fn length_prefixed(nals: Seq<Seq<u8>>, size: nat) -> Seq<u8>
    decreases nals.len(),
{
    if nals.len() == 0 {
        Seq::empty()
    } else {
        be_bytes(nals[0].len(), size) + nals[0] + length_prefixed(nals.drop_first(), size)
    }
}

/// NAL units serialized in Annex B.
pub open spec fn annex_b(nals: Seq<Seq<u8>>) -> Seq<u8>
    decreases nals.len(),
{
    if nals.len() == 0 {
        Seq::empty()
    } else {
        start_code() + nals[0] + annex_b(nals.drop_first())
    }
}

/// Decoding a big-endian encoding gives back the value when it fits.
proof fn lemma_be_bytes_roundtrip(value: nat, size: nat)
    requires
        value < pow256(size),
    ensures
        be_bytes(value, size).len() == size,
        be_value(be_bytes(value, size)) == value,
    decreases size,
{
    if size > 0 {
        let high = value / 256;
        assert(high < pow256((size - 1) as nat)) by (nonlinear_arith)
            requires
                value < 256 * pow256((size - 1) as nat),
                high == value / 256,
        ;
        lemma_be_bytes_roundtrip(high, (size - 1) as nat);
        let bytes = be_bytes(value, size);
        assert(bytes.drop_last() == be_bytes(high, (size - 1) as nat));
    }
}

/// Splitting a serialized access unit at a later offset: conversion from `offset` only reads
/// bytes of the suffix.
proof fn lemma_annex_b_suffix(prefix: Seq<u8>, suffix: Seq<u8>, size: int)
    requires
        1 <= size <= 4,
    ensures
        spec_annex_b_from(prefix + suffix, prefix.len() as int, size) == spec_annex_b_from(suffix, 0, size),
    decreases suffix.len(),
{
    let data = prefix + suffix;
    let offset = prefix.len() as int;
    if offset < data.len() && offset + size <= data.len() {
        let start = offset + size;
        assert(data.subrange(offset, start) == suffix.subrange(0, size));
        let end = start + be_value(data.subrange(offset, start));
        if end <= data.len() {
            let consumed = suffix.subrange(0, end - offset);
            let rest = suffix.subrange(end - offset, suffix.len() as int);
            assert(suffix == consumed + rest);
            assert(data == (prefix + consumed) + rest);
            lemma_annex_b_suffix(prefix + consumed, rest, size);
            lemma_annex_b_suffix(consumed, rest, size);
            assert(data.subrange(start, end) == suffix.subrange(size, end - offset));
        }
    }
}

/// Converting an access unit of NAL units with `size`-byte length fields to Annex B replaces
/// every length field by a start code and keeps every NAL unit, in order.
pub proof fn law_annex_b_conversion_keeps_nal_units(nals: Seq<Seq<u8>>, size: nat)
    requires
        1 <= size <= 4,
        forall|i: int| 0 <= i < nals.len() ==> #[trigger] nals[i].len() < pow256(size),
    ensures
        spec_length_prefixed_to_annex_b(length_prefixed(nals, size), size as int) == Ok::<Seq<u8>, MediaError>(annex_b(nals)),
    decreases nals.len(),
{
    if nals.len() > 0 {
        let header = be_bytes(nals[0].len(), size);
        let rest = nals.drop_first();
        assert forall|i: int| 0 <= i < rest.len() implies #[trigger] rest[i].len() < pow256(size) by {
            assert(rest[i] == nals[i + 1]);
        }
        law_annex_b_conversion_keeps_nal_units(rest, size);
        lemma_be_bytes_roundtrip(nals[0].len(), size);
        let data = length_prefixed(nals, size);
        let tail = length_prefixed(rest, size);
        assert(data == (header + nals[0]) + tail);
        lemma_annex_b_suffix(header + nals[0], tail, size as int);
        assert(data.subrange(0, size as int) == header);
        assert(data.subrange(size as int, (size + nals[0].len()) as int) == nals[0]);
    } else {
        assert(length_prefixed(nals, size) == Seq::<u8>::empty());
    }
}

/// Reading one parameter set looks only at bytes before its end: what follows the record
/// does not change it.
proof fn lemma_config_nal_ignores_suffix(data: Seq<u8>, tail: Seq<u8>, offset: int)
    requires
        offset >= 0,
        spec_config_nal(data, offset) is Ok,
    ensures
        spec_config_nal(data + tail, offset) == spec_config_nal(data, offset),
        spec_config_nal(data, offset)->Ok_0.0 <= data.len(),
{
    let extended = data + tail;
    assert(extended[offset] == data[offset]);
    assert(extended[offset + 1] == data[offset + 1]);
    let start = offset + 2;
    let end = start + be16_at(data, offset);
    assert(extended.subrange(start, end) == data.subrange(start, end));
}

/// Reading a run of parameter sets looks only at bytes before its end.
proof fn lemma_config_nals_ignore_suffix(data: Seq<u8>, tail: Seq<u8>, offset: int, count: nat)
    requires
        offset >= 0,
        spec_config_nals(data, offset, count) is Ok,
    ensures
        spec_config_nals(data + tail, offset, count) == spec_config_nals(data, offset, count),
        offset <= spec_config_nals(data, offset, count)->Ok_0.0 <= data.len() || count == 0,
        spec_config_nals(data, offset, count)->Ok_0.0 >= offset,
    decreases count,
{
    if count > 0 {
        lemma_config_nals_ignore_suffix(data, tail, offset, (count - 1) as nat);
        let next = spec_config_nals(data, offset, (count - 1) as nat)->Ok_0.0;
        lemma_config_nal_ignores_suffix(data, tail, next);
    }
}

/// Bytes after the PPS list of an avcC record do not change its normalization: whatever
/// follows a record that normalizes, the extended record normalizes to the same parameter
/// sets and NAL length size.
pub proof fn law_avcc_ignores_bytes_after_pps(data: Seq<u8>, tail: Seq<u8>)
    requires
        data.len() > 0,
        data[0] == 1,
        spec_normalize_h26x(data, false) is Ok,
    ensures
        spec_normalize_h26x(data + tail, false) == spec_normalize_h26x(data, false),
{
    let extended = data + tail;
    assert(extended[0] == 1);
    assert(!has_prefix(extended, seq![0u8, 0u8, 1u8])) by {
        if has_prefix(extended, seq![0u8, 0u8, 1u8]) {
            assert(extended.subrange(0, 3)[0] == extended[0]);
        }
    }
    assert(!has_prefix(extended, start_code())) by {
        if has_prefix(extended, start_code()) {
            assert(extended.subrange(0, 4)[0] == extended[0]);
        }
    }
    assert(!has_prefix(data, seq![0u8, 0u8, 1u8])) by {
        if has_prefix(data, seq![0u8, 0u8, 1u8]) {
            assert(data.subrange(0, 3)[0] == data[0]);
        }
    }
    assert(!has_prefix(data, start_code())) by {
        if has_prefix(data, start_code()) {
            assert(data.subrange(0, 4)[0] == data[0]);
        }
    }
    assert(data.len() >= 7);
    assert(extended[4] == data[4]);
    assert(extended[5] == data[5]);
    let sps_count = (data[5] % 32) as nat;
    lemma_config_nals_ignore_suffix(data, tail, 6, sps_count);
    let next = spec_config_nals(data, 6, sps_count)->Ok_0.0;
    assert(next < data.len());
    assert(extended[next] == data[next]);
    lemma_config_nals_ignore_suffix(data, tail, next + 1, data[next] as nat);
}

/// Normalized FLAC private data is the 34-byte STREAMINFO payload: whenever FLAC private data
/// normalizes, the result is its last 34 bytes, from a bare payload, a metadata block or a
/// `fLaC` stream header.
pub proof fn law_flac_normalization_keeps_streaminfo(data: Seq<u8>)
    requires
        spec_normalize_audio("flac"@, data) is Ok,
    ensures
        ({
            let out = spec_normalize_audio("flac"@, data)->Ok_0;
            &&& out.len() == 34
            &&& out == data.subrange(data.len() - 34, data.len() as int)
            &&& data.len() == 34 || data.len() == 38 || data.len() == 42
        }),
{
    reveal_strlit("opus");
    reveal_strlit("vorbis");
    reveal_strlit("flac");
    assert("opus"@.len() == 4 && "vorbis"@.len() == 6 && "flac"@.len() == 4);
    assert("opus"@[0] != "flac"@[0]);
    if data.len() == 34 {
        assert(data.subrange(0, 34) == data);
    } else if data.len() == 42 {
        assert(data.subrange(4, 42).subrange(4, 38) == data.subrange(8, 42));
    }
}

} // verus!
