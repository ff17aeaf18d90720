use vivi::error::{ErrorKind, MediaError};
use vivi::extradata::{
    append_xiph_length, length_prefixed_to_annex_b, normalize_audio_extradata, normalize_flac_extradata,
    normalize_h26x_extradata, normalize_vorbis_extradata,
};

#[test]
fn portable_audio_private_data_is_canonicalized() {
    let mut legacy_vorbis = Vec::new();
    legacy_vorbis.extend_from_slice(&3_u16.to_be_bytes());
    legacy_vorbis.extend_from_slice(&4_u16.to_be_bytes());
    legacy_vorbis.extend_from_slice(&5_u16.to_be_bytes());
    legacy_vorbis.extend_from_slice(b"abcdefghijkl");
    assert_eq!(
        normalize_vorbis_extradata(&legacy_vorbis).unwrap(),
        [vec![2, 3, 4], b"abcdefghijkl".to_vec()].concat()
    );

    let streaminfo = [0x5a; 34];
    let mut flac = b"fLaC".to_vec();
    flac.extend_from_slice(&[0x80, 0, 0, 34]);
    flac.extend_from_slice(&streaminfo);
    assert_eq!(normalize_flac_extradata(&flac).unwrap(), streaminfo);

    assert!(normalize_audio_extradata("opus", b"not-an-opus-head").is_err());
}

#[test]
fn xiph_lacing_splits_lengths_into_255s() {
    let mut output = Vec::new();
    append_xiph_length(&mut output, 600);
    assert_eq!(output, vec![255, 255, 90]);
    let mut exact = vec![7];
    append_xiph_length(&mut exact, 255);
    assert_eq!(exact, vec![7, 255, 0]);
}

#[test]
fn vorbis_normalization_is_idempotent_and_checks_packing() {
    let mut legacy = vec![0, 1, 1, 44, 0, 2];
    legacy.extend(std::iter::repeat(9).take(1 + 300 + 2));
    let canonical = normalize_vorbis_extradata(&legacy).unwrap();
    assert_eq!(&canonical[..4], &[2, 1, 255, 45]);
    assert_eq!(normalize_vorbis_extradata(&canonical).unwrap(), canonical);
    assert_eq!(normalize_vorbis_extradata(&[0, 1, 0]), Err(MediaError::VorbisTruncated));
    assert_eq!(normalize_vorbis_extradata(&[0, 0, 0, 1, 0, 1, 5, 5]), Err(MediaError::VorbisPacking));
    assert_eq!(normalize_vorbis_extradata(&[0, 1, 0, 1, 0, 1, 5, 5]), Err(MediaError::VorbisPacking));
}

#[test]
fn flac_normalization_accepts_three_layouts() {
    let payload: Vec<u8> = (0..34).collect();
    assert_eq!(normalize_flac_extradata(&payload).unwrap(), payload);
    let mut block = vec![0x00, 0, 0, 34];
    block.extend_from_slice(&payload);
    assert_eq!(normalize_flac_extradata(&block).unwrap(), payload);
    let mut wrong_type = vec![0x04, 0, 0, 34];
    wrong_type.extend_from_slice(&payload);
    assert_eq!(normalize_flac_extradata(&wrong_type), Err(MediaError::FlacNotStreamInfo));
    let mut wrong_magic = b"fLaX".to_vec();
    wrong_magic.extend_from_slice(&block);
    assert_eq!(normalize_flac_extradata(&wrong_magic), Err(MediaError::FlacNoStreamInfo));
    assert_eq!(normalize_flac_extradata(&[1, 2, 3]), Err(MediaError::FlacNoStreamInfo));
}

#[test]
fn opus_head_is_kept_and_other_codecs_pass_through() {
    let head = b"OpusHead\x01\x02\x38\x01".to_vec();
    assert_eq!(normalize_audio_extradata("opus", &head).unwrap(), head);
    assert_eq!(normalize_audio_extradata("opus", b"Opus"), Err(MediaError::OpusHeadMissing));
    assert_eq!(normalize_audio_extradata("aac", &[0x12, 0x10]).unwrap(), vec![0x12, 0x10]);
    assert_eq!(MediaError::OpusHeadMissing.kind(), ErrorKind::InvalidData);
}

#[test]
fn length_prefixed_access_units_become_annex_b() {
    let data = [0, 0, 0, 2, 0xaa, 0xbb, 0, 0, 0, 1, 0xcc];
    assert_eq!(
        length_prefixed_to_annex_b(&data, 4).unwrap(),
        vec![0, 0, 0, 1, 0xaa, 0xbb, 0, 0, 0, 1, 0xcc]
    );
    assert_eq!(
        length_prefixed_to_annex_b(&[1, 7, 0, 0], 1).unwrap(),
        vec![0, 0, 0, 1, 7, 0, 0, 0, 1, 0, 0, 0, 1]
    );
    assert_eq!(length_prefixed_to_annex_b(&[], 2).unwrap(), Vec::<u8>::new());
    assert_eq!(length_prefixed_to_annex_b(&[0, 0, 1], 5), Err(MediaError::InvalidNalLengthSize));
    assert_eq!(length_prefixed_to_annex_b(&[0, 0, 1], 0), Err(MediaError::InvalidNalLengthSize));
    assert_eq!(length_prefixed_to_annex_b(&[0, 0, 0], 4), Err(MediaError::AccessUnitLengthTruncated));
    assert_eq!(length_prefixed_to_annex_b(&[0, 3, 1], 2), Err(MediaError::AccessUnitNalExceedsPacket));
}

#[test]
fn avcc_becomes_annex_b_parameter_sets() {
    let avcc = [1, 0x64, 0, 0x1f, 0xff, 0xe1, 0, 2, 0x67, 0x64, 1, 0, 1, 0x68];
    assert_eq!(
        normalize_h26x_extradata(&avcc, false).unwrap(),
        (vec![0, 0, 0, 1, 0x67, 0x64, 0, 0, 0, 1, 0x68], Some(4))
    );
    let (annex_b, _) = normalize_h26x_extradata(&avcc, false).unwrap();
    assert_eq!(normalize_h26x_extradata(&annex_b, false).unwrap(), (annex_b.clone(), None));
    assert_eq!(normalize_h26x_extradata(&[1, 2, 3], false), Err(MediaError::AvccTruncated));
    assert_eq!(normalize_h26x_extradata(&[1, 0, 0, 0, 0xff, 0xe0, 0], false).unwrap(), (vec![], Some(4)));
    assert_eq!(
        normalize_h26x_extradata(&[1, 0, 0, 0, 0xff, 0xe0], false),
        Err(MediaError::AvccTruncated)
    );
    assert_eq!(
        normalize_h26x_extradata(&[1, 0, 0, 0, 0xfc, 0xe1, 0, 5, 1, 2], false),
        Err(MediaError::NalExceedsExtradata)
    );
    assert_eq!(
        normalize_h26x_extradata(&[1, 0, 0, 0, 0xfc, 0xe1, 0, 1, 1], false),
        Err(MediaError::AvccMissingPpsCount)
    );
    assert_eq!(normalize_h26x_extradata(&[2, 0, 0, 0, 0, 0, 0], false), Err(MediaError::H26xUnsupported));
    assert_eq!(normalize_h26x_extradata(&[0, 0, 1, 9], false).unwrap(), (vec![0, 0, 1, 9], None));
    assert_eq!(normalize_h26x_extradata(&[], true).unwrap(), (vec![], None));
}

#[test]
fn hvcc_becomes_annex_b_parameter_sets() {
    let mut hvcc = vec![1];
    hvcc.extend_from_slice(&[0; 20]);
    hvcc.push(0x0f);
    hvcc.push(2);
    hvcc.extend_from_slice(&[0x20, 0, 1, 0, 2, 0x40, 0x01]);
    hvcc.extend_from_slice(&[0x21, 0, 2, 0, 1, 0x42, 0, 1, 0x43]);
    assert_eq!(
        normalize_h26x_extradata(&hvcc, true).unwrap(),
        (vec![0, 0, 0, 1, 0x40, 0x01, 0, 0, 0, 1, 0x42, 0, 0, 0, 1, 0x43], Some(4))
    );
    let mut trailing = hvcc.clone();
    trailing.push(0);
    assert_eq!(normalize_h26x_extradata(&trailing, true), Err(MediaError::HvccTrailing));
    assert_eq!(normalize_h26x_extradata(&hvcc[..22], true), Err(MediaError::HvccTruncated));
    let mut truncated_array = hvcc[..23].to_vec();
    truncated_array[22] = 1;
    truncated_array.extend_from_slice(&[0x20, 0]);
    assert_eq!(normalize_h26x_extradata(&truncated_array, true), Err(MediaError::HvccArrayTruncated));
    let mut truncated_length = hvcc[..23].to_vec();
    truncated_length[22] = 1;
    truncated_length.extend_from_slice(&[0x20, 0, 1, 0]);
    assert_eq!(normalize_h26x_extradata(&truncated_length, true), Err(MediaError::NalLengthTruncated));
}
