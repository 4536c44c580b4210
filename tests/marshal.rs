use bls_snark::epoch::{build_epoch_block, pubkeys_byte_len, EpochDescriptor};
use bls_snark::error::VerifyError;
use bls_snark::marshal::{copy_range, read_slice};
use bls_snark::KEY_ENCODING_SIZE;

fn packed(count: usize) -> Vec<u8> {
    (0..count * KEY_ENCODING_SIZE).map(|i| (i % 251) as u8).collect()
}

#[test]
fn read_slice_copies_exactly() {
    let data = vec![7u8, 0, 255, 3];
    assert_eq!(read_slice(Some(&data)), Ok(vec![7u8, 0, 255, 3]));
    assert_eq!(read_slice(Some(&data[1..3])), Ok(vec![0u8, 255]));
}

#[test]
fn read_slice_refuses_absent_and_empty() {
    let empty: &[u8] = &[];
    assert_eq!(read_slice(None), Err(VerifyError::InvalidInput));
    assert_eq!(read_slice(Some(empty)), Err(VerifyError::InvalidInput));
}

#[test]
fn copy_range_takes_the_window() {
    let data = vec![1u8, 2, 3, 4, 5];
    assert_eq!(copy_range(&data, 1, 4), vec![2u8, 3, 4]);
    assert_eq!(copy_range(&data, 2, 2), Vec::<u8>::new());
    assert_eq!(copy_range(&data, 0, 5), data);
}

#[test]
fn byte_length_of_key_arrays() {
    assert_eq!(pubkeys_byte_len(0), 0);
    assert_eq!(pubkeys_byte_len(1), 96);
    assert_eq!(pubkeys_byte_len(4), 384);
    assert_eq!(pubkeys_byte_len(u32::MAX), 4294967295u64 * 96);
}

#[test]
fn epoch_block_splits_in_buffer_order() {
    let buf = packed(3);
    let desc = EpochDescriptor { index: 9, maximum_non_signers: 2, pubkeys_count: 3 };
    let b = build_epoch_block(&desc, Some(&buf)).unwrap();
    assert_eq!(b.index, 9);
    assert_eq!(b.maximum_non_signers, 2);
    assert_eq!(b.pubkeys_count(), 3);
    assert_eq!(b.pubkeys[0], buf[0..96].to_vec());
    assert_eq!(b.pubkeys[1], buf[96..192].to_vec());
    assert_eq!(b.pubkeys[2], buf[192..288].to_vec());
}

#[test]
fn epoch_block_round_trips_its_bytes() {
    for count in 1..6u32 {
        let buf = packed(count as usize);
        let desc = EpochDescriptor { index: 1, maximum_non_signers: 0, pubkeys_count: count };
        let b = build_epoch_block(&desc, Some(&buf)).unwrap();
        let back = b.key_bytes();
        assert_eq!(back.len() as u64, pubkeys_byte_len(count));
        assert_eq!(back, buf);
    }
}

#[test]
fn epoch_block_keeps_threshold_unchecked() {
    let buf = packed(1);
    let desc = EpochDescriptor { index: 0, maximum_non_signers: 50, pubkeys_count: 1 };
    let b = build_epoch_block(&desc, Some(&buf)).unwrap();
    assert_eq!(b.maximum_non_signers, 50);
}

#[test]
fn epoch_block_refuses_wrong_sizes() {
    let buf = packed(2);
    let short = EpochDescriptor { index: 0, maximum_non_signers: 0, pubkeys_count: 1 };
    let long = EpochDescriptor { index: 0, maximum_non_signers: 0, pubkeys_count: 3 };
    let none = EpochDescriptor { index: 0, maximum_non_signers: 0, pubkeys_count: 0 };
    let empty: &[u8] = &[];
    assert_eq!(build_epoch_block(&short, Some(&buf)).unwrap_err(), VerifyError::InvalidInput);
    assert_eq!(build_epoch_block(&long, Some(&buf)).unwrap_err(), VerifyError::InvalidInput);
    assert_eq!(build_epoch_block(&none, Some(empty)).unwrap_err(), VerifyError::InvalidInput);
    assert_eq!(build_epoch_block(&none, None).unwrap_err(), VerifyError::InvalidInput);
    assert_eq!(build_epoch_block(&short, Some(&buf[..95])).unwrap_err(), VerifyError::InvalidInput);
}
