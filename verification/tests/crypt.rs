use shakenc::crypt::{crypt_bytes, Crypt};
use shakenc::progress::{Fault, Step};
use shakenc::rng::rng_bytes;

const EMPTY_DIGEST: &str = "735c7a0fdac280c2ce30f8d5149169c6754426491c8fcaf6f2fa65c6bb24a5d7";

#[test]
fn ten_zero_bytes_under_abc_become_the_keystream_and_come_back() {
    let (cipher, _) = crypt_bytes(b"abc", &[0u8; 10], 4, false, false);
    assert_eq!(cipher.len(), 10);
    assert_eq!(cipher, vec![5, 92, 175, 228, 62, 34, 88, 129, 76, 233]);
    assert_eq!(cipher, rng_bytes(b"abc", 10, 4));
    assert!(cipher.iter().any(|b| *b != 0));
    let (plain, _) = crypt_bytes(b"abc", &cipher, 4, false, false);
    assert_eq!(plain, vec![0u8; 10]);
}

#[test]
fn an_empty_stream_gives_no_bytes_and_the_digest_of_nothing() {
    let (cipher, digests) = crypt_bytes(b"abc", &[], 4, true, true);
    assert_eq!(cipher.len(), 0);
    assert_eq!(hex::encode(digests.ihash.unwrap()), EMPTY_DIGEST);
    assert_eq!(hex::encode(digests.ohash.unwrap()), EMPTY_DIGEST);
}

#[test]
fn ciphertext_is_as_long_as_plaintext() {
    for len in [0usize, 1, 135, 136, 137, 1000] {
        let plain = vec![0x5au8; len];
        let (cipher, _) = crypt_bytes(b"length", &plain, 64, false, false);
        assert_eq!(cipher.len(), len);
    }
}

#[test]
fn capacity_has_no_part_in_the_ciphertext_or_the_digests() {
    let plain: Vec<u8> = (0..1000u32).map(|i| (i * 31 + 7) as u8).collect();
    let (expected, expected_digests) = crypt_bytes(b"chunks", &plain, 1000, true, true);
    for capacity in [1usize, 2, 3, 7, 135, 136, 137, 999, 1001, 1 << 20] {
        let (cipher, digests) = crypt_bytes(b"chunks", &plain, capacity, true, true);
        assert_eq!(cipher, expected);
        assert_eq!(digests.ihash, expected_digests.ihash);
        assert_eq!(digests.ohash, expected_digests.ohash);
    }
}

#[test]
fn round_trip_gives_the_plaintext_back_for_any_two_capacities() {
    let plain: Vec<u8> = (0..777u32).map(|i| (i * 17 + 5) as u8).collect();
    for (first, second) in [(1usize, 777usize), (5, 3), (136, 100), (4096, 1)] {
        let (cipher, _) = crypt_bytes(b"there and back", &plain, first, false, false);
        assert_ne!(cipher, plain);
        let (back, _) = crypt_bytes(b"there and back", &cipher, second, false, false);
        assert_eq!(back, plain);
    }
}

#[test]
fn a_wrong_key_does_not_give_the_plaintext_back() {
    let plain = b"attack at dawn".to_vec();
    let (cipher, _) = crypt_bytes(b"secret", &plain, 4, false, false);
    let (back, _) = crypt_bytes(b"secres", &cipher, 4, false, false);
    assert_ne!(back, plain);
}

#[test]
fn digests_are_of_the_plaintext_and_of_the_ciphertext() {
    let (cipher, digests) = crypt_bytes(b"secret", b"attack at dawn", 5, true, true);
    assert_eq!(hex::encode(&cipher), "bcf44432fbaa1c9e9ba86af61e16");
    assert_eq!(
        hex::encode(digests.ihash.unwrap()),
        "779cffe6a70f577001ea530402fd035172c4652091640560824754c5c0498015"
    );
    assert_eq!(
        hex::encode(digests.ohash.unwrap()),
        "6053f467dab0b229ddc06f9603eb17af7508c243ea96da8613346b96e9bb7b48"
    );
    assert_eq!(
        digests.to_text(),
        "input  hash: 779cffe6a70f577001ea530402fd035172c4652091640560824754c5c0498015\n\
         output hash: 6053f467dab0b229ddc06f9603eb17af7508c243ea96da8613346b96e9bb7b48\n"
    );
}

#[test]
fn digests_that_were_not_asked_for_are_absent() {
    let (_, digests) = crypt_bytes(b"secret", b"attack at dawn", 5, false, false);
    assert_eq!(digests.ihash, None);
    assert_eq!(digests.ohash, None);
    assert_eq!(digests.to_text(), "");
    let (_, digests) = crypt_bytes(b"secret", b"attack at dawn", 5, true, false);
    assert!(digests.ihash.is_some());
    assert_eq!(digests.ohash, None);
}

#[test]
fn a_run_counts_its_chunks_and_finishes_at_the_declared_length() {
    let mut run = Crypt::new(b"abc", 10, true, true);
    let mut buf = [0u8; 4];
    assert_eq!(run.done(), 0);
    assert_eq!(run.step(&mut buf), Ok(Step::Continue));
    assert_eq!(buf, [5, 92, 175, 228]);
    assert_eq!(run.done(), 4);
    buf = [0u8; 4];
    assert_eq!(run.step(&mut buf), Ok(Step::Continue));
    assert_eq!(buf, [62, 34, 88, 129]);
    assert_eq!(run.done(), 8);
    let mut last = [0u8; 2];
    assert_eq!(run.step(&mut last), Ok(Step::Continue));
    assert_eq!(last, [76, 233]);
    assert_eq!(run.done(), 10);
    assert_eq!(run.step(&mut []), Ok(Step::Finished));
    assert_eq!(run.done(), 10);
    let digests = run.finish();
    assert_eq!(
        hex::encode(digests.ihash.unwrap()),
        "2b7d3bb6f01a388f8493547e18aaf3e24a3b2d5281576202ae6ef8c8a153313d"
    );
    assert_eq!(
        hex::encode(digests.ohash.unwrap()),
        "f3560eec9538f662a6b760ebdf3d15ac9dc3677b8d6e9716e296a7d616c310f5"
    );
}

#[test]
fn a_stream_that_ends_early_is_a_length_mismatch() {
    let mut run = Crypt::new(b"abc", 10, false, false);
    let mut buf = [0u8; 4];
    assert_eq!(run.step(&mut buf), Ok(Step::Continue));
    assert_eq!(
        run.step(&mut []),
        Err(Fault::LengthMismatch { expected: 10, actual: 4 })
    );
    assert_eq!(run.done(), 4);
}

#[test]
fn a_stream_that_runs_long_is_a_length_mismatch_at_its_end() {
    let mut run = Crypt::new(b"abc", 3, false, false);
    let mut buf = [0u8; 4];
    assert_eq!(run.step(&mut buf), Ok(Step::Continue));
    assert_eq!(buf, [5, 92, 175, 228]);
    assert_eq!(
        run.step(&mut []),
        Err(Fault::LengthMismatch { expected: 3, actual: 4 })
    );
}

#[test]
fn an_empty_stream_of_declared_length_zero_finishes_at_once() {
    let mut run = Crypt::new(b"abc", 0, true, true);
    assert_eq!(run.step(&mut []), Ok(Step::Finished));
    let digests = run.finish();
    assert_eq!(hex::encode(digests.ihash.unwrap()), EMPTY_DIGEST);
    assert_eq!(hex::encode(digests.ohash.unwrap()), EMPTY_DIGEST);
}

#[test]
fn a_run_in_steps_equals_the_stream_in_memory() {
    let plain: Vec<u8> = (0..100u32).map(|i| (i * 3) as u8).collect();
    let (expected, expected_digests) = crypt_bytes(b"steps", &plain, 100, true, true);
    let mut run = Crypt::new(b"steps", 100, true, true);
    let mut out = Vec::new();
    let mut sum = 0u64;
    for piece in plain.chunks(7) {
        let mut chunk = piece.to_vec();
        assert_eq!(run.step(&mut chunk), Ok(Step::Continue));
        sum += chunk.len() as u64;
        assert_eq!(run.done(), sum);
        assert!(run.done() <= 100);
        out.extend_from_slice(&chunk);
    }
    assert_eq!(run.step(&mut []), Ok(Step::Finished));
    let digests = run.finish();
    assert_eq!(out, expected);
    assert_eq!(digests.ihash, expected_digests.ihash);
    assert_eq!(digests.ohash, expected_digests.ohash);
}
