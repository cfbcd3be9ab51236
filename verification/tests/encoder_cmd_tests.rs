use recorder::encoder_cmd::{encoder_args, size_arg, u32_decimal};

#[test]
fn decimal_of_zero() {
    assert_eq!(u32_decimal(0), "0");
}

#[test]
fn decimal_of_one_digit() {
    assert_eq!(u32_decimal(7), "7");
}

#[test]
fn decimal_of_many_digits() {
    assert_eq!(u32_decimal(1080), "1080");
    assert_eq!(u32_decimal(u32::MAX), "4294967295");
}

#[test]
fn size_arg_joins_dimensions() {
    assert_eq!(size_arg(1920, 1080), "1920x1080");
}

#[test]
fn encoder_args_exact_invocation() {
    let args = encoder_args(640, 480, 24);
    let expected = [
        "-r", "24", "-f", "rawvideo", "-vcodec", "rawvideo", "-pix_fmt", "bgra", "-s", "640x480",
        "-i", "-", "-c:v", "libvpx-vp9", "-pix_fmt", "yuva420p", "-y", "output.webm",
    ];
    assert_eq!(args.len(), expected.len());
    for (got, want) in args.iter().zip(expected.iter()) {
        assert_eq!(got, want);
    }
}

#[test]
fn encoder_input_rate_follows_the_configured_framerate() {
    // The session's configured framerate is what reaches the encoder; it
    // is not pinned to any constant rate.
    let args = encoder_args(8, 8, 144);
    assert_eq!(args[0], "-r");
    assert_eq!(args[1], "144");
}
