use shakenc::context::{Context, HashResult};

#[test]
fn context_without_digests_only_applies_the_cipher() {
    let mut ctx = Context::init(b"abc", false, false);
    let mut buf = [0u8; 10];
    ctx.next(&mut buf);
    assert_eq!(buf, [5, 92, 175, 228, 62, 34, 88, 129, 76, 233]);
    let result = ctx.finish::<32>();
    assert_eq!(result.ihash, None);
    assert_eq!(result.ohash, None);
}

#[test]
fn context_digests_the_stream_before_and_after_the_cipher() {
    let mut ctx = Context::init(b"secret", true, true);
    let mut buf = *b"attack at dawn";
    ctx.next(&mut buf);
    assert_eq!(hex::encode(buf), "bcf44432fbaa1c9e9ba86af61e16");
    let result = ctx.finish::<32>();
    assert_eq!(
        hex::encode(result.ihash.unwrap()),
        "779cffe6a70f577001ea530402fd035172c4652091640560824754c5c0498015"
    );
    assert_eq!(
        hex::encode(result.ohash.unwrap()),
        "6053f467dab0b229ddc06f9603eb17af7508c243ea96da8613346b96e9bb7b48"
    );
}

#[test]
fn context_keeps_only_the_digest_that_was_asked_for() {
    let mut input_only = Context::init(b"secret", true, false);
    let mut buf = *b"attack at dawn";
    input_only.next(&mut buf);
    let result = input_only.finish::<32>();
    assert_eq!(
        hex::encode(result.ihash.unwrap()),
        "779cffe6a70f577001ea530402fd035172c4652091640560824754c5c0498015"
    );
    assert_eq!(result.ohash, None);

    let mut output_only = Context::init(b"secret", false, true);
    let mut buf = *b"attack at dawn";
    output_only.next(&mut buf);
    let result = output_only.finish::<32>();
    assert_eq!(result.ihash, None);
    assert_eq!(
        hex::encode(result.ohash.unwrap()),
        "6053f467dab0b229ddc06f9603eb17af7508c243ea96da8613346b96e9bb7b48"
    );
}

#[test]
fn context_gives_the_same_result_however_the_stream_is_cut() {
    let mut whole = *b"attack at dawn";
    let mut ctx = Context::init(b"secret", true, true);
    ctx.next(&mut whole);
    let expected = ctx.finish::<32>();

    let mut cut = *b"attack at dawn";
    let mut ctx = Context::init(b"secret", true, true);
    let (a, rest) = cut.split_at_mut(6);
    let (b, c) = rest.split_at_mut(1);
    ctx.next(a);
    ctx.next(b);
    ctx.next(c);
    let result = ctx.finish::<32>();
    assert_eq!(cut, whole);
    assert_eq!(result.ihash, expected.ihash);
    assert_eq!(result.ohash, expected.ohash);
}

#[test]
fn decrypting_swaps_the_two_digests() {
    let mut buf = *b"attack at dawn";
    let mut ctx = Context::init(b"secret", true, true);
    ctx.next(&mut buf);
    let forth = ctx.finish::<32>();
    let mut ctx = Context::init(b"secret", true, true);
    ctx.next(&mut buf);
    let back = ctx.finish::<32>();
    assert_eq!(&buf, b"attack at dawn");
    assert_eq!(back.ihash, forth.ohash);
    assert_eq!(back.ohash, forth.ihash);
}

#[test]
fn context_with_no_data_gives_the_digest_of_nothing() {
    let result = Context::init(b"any", true, true).finish::<32>();
    let empty = "735c7a0fdac280c2ce30f8d5149169c6754426491c8fcaf6f2fa65c6bb24a5d7";
    assert_eq!(hex::encode(result.ihash.unwrap()), empty);
    assert_eq!(hex::encode(result.ohash.unwrap()), empty);
}

#[test]
fn report_has_a_line_for_each_digest() {
    let result = HashResult::<4> {
        ihash: Some([0x00, 0x0f, 0xa5, 0xff]),
        ohash: Some([0x12, 0x34, 0xab, 0xcd]),
    };
    assert_eq!(
        result.to_text(),
        "input  hash: 000fa5ff\noutput hash: 1234abcd\n"
    );
}

#[test]
fn report_leaves_out_a_digest_that_is_not_there() {
    let input_only = HashResult::<2> { ihash: Some([1, 2]), ohash: None };
    assert_eq!(input_only.to_text(), "input  hash: 0102\n");
    let output_only = HashResult::<2> { ihash: None, ohash: Some([254, 16]) };
    assert_eq!(output_only.to_text(), "output hash: fe10\n");
    let neither = HashResult::<2> { ihash: None, ohash: None };
    assert_eq!(neither.to_text(), "");
}

#[test]
fn report_of_a_run_is_in_lowercase_hexadecimal() {
    let mut ctx = Context::init(b"secret", true, true);
    let mut buf = *b"attack at dawn";
    ctx.next(&mut buf);
    assert_eq!(
        ctx.finish::<32>().to_text(),
        "input  hash: 779cffe6a70f577001ea530402fd035172c4652091640560824754c5c0498015\n\
         output hash: 6053f467dab0b229ddc06f9603eb17af7508c243ea96da8613346b96e9bb7b48\n"
    );
}
