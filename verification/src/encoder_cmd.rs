//! The encoder subprocess's invocation: the exact argument list that
//! configures it for raw blue-green-red-alpha input of the session's
//! dimensions and framerate, read from its standard input, encoded to the
//! fixed output container.  The caller spawns the subprocess with these
//! arguments and owns its input stream.

use vstd::prelude::*;

verus! {

/// The character for one decimal digit.
pub open spec fn digit_char(d: nat) -> char
    recommends
        d < 10,
{
    if d == 0 {
        '0'
    } else if d == 1 {
        '1'
    } else if d == 2 {
        '2'
    } else if d == 3 {
        '3'
    } else if d == 4 {
        '4'
    } else if d == 5 {
        '5'
    } else if d == 6 {
        '6'
    } else if d == 7 {
        '7'
    } else if d == 8 {
        '8'
    } else {
        '9'
    }
}

/// The decimal notation of `n`: most significant digit first, no sign, no
/// leading zero except for zero itself.
pub open spec fn decimal_digits(n: nat) -> Seq<char>
    decreases n,
{
    if n < 10 {
        seq![digit_char(n)]
    } else {
        decimal_digits(n / 10).push(digit_char(n % 10))
    }
}

fn digit_str(d: u32) -> (r: &'static str)
    requires
        d < 10,
    ensures
        r@ == seq![digit_char(d as nat)],
{
    if d == 0 {
        proof {
            reveal_strlit("0");
            assert("0"@ =~= seq![digit_char(0)]);
        }
        "0"
    } else if d == 1 {
        proof {
            reveal_strlit("1");
            assert("1"@ =~= seq![digit_char(1)]);
        }
        "1"
    } else if d == 2 {
        proof {
            reveal_strlit("2");
            assert("2"@ =~= seq![digit_char(2)]);
        }
        "2"
    } else if d == 3 {
        proof {
            reveal_strlit("3");
            assert("3"@ =~= seq![digit_char(3)]);
        }
        "3"
    } else if d == 4 {
        proof {
            reveal_strlit("4");
            assert("4"@ =~= seq![digit_char(4)]);
        }
        "4"
    } else if d == 5 {
        proof {
            reveal_strlit("5");
            assert("5"@ =~= seq![digit_char(5)]);
        }
        "5"
    } else if d == 6 {
        proof {
            reveal_strlit("6");
            assert("6"@ =~= seq![digit_char(6)]);
        }
        "6"
    } else if d == 7 {
        proof {
            reveal_strlit("7");
            assert("7"@ =~= seq![digit_char(7)]);
        }
        "7"
    } else if d == 8 {
        proof {
            reveal_strlit("8");
            assert("8"@ =~= seq![digit_char(8)]);
        }
        "8"
    } else {
        proof {
            reveal_strlit("9");
            assert("9"@ =~= seq![digit_char(9)]);
        }
        "9"
    }
}

/// Writes `n` in decimal notation.
pub fn u32_decimal(n: u32) -> (r: String)
    ensures
        r@ == decimal_digits(n as nat),
    decreases n,
{
    if n < 10 {
        String::from_str(digit_str(n))
    } else {
        let mut s = u32_decimal(n / 10);
        s.append(digit_str(n % 10));
        proof {
            assert(s@ =~= decimal_digits(n as nat));
        }
        s
    }
}

/// The size argument the encoder expects: width and height in decimal,
/// joined by an `x`.
pub fn size_arg(width: u32, height: u32) -> (r: String)
    ensures
        r@ == decimal_digits(width as nat) + "x"@ + decimal_digits(height as nat),
{
    let mut s = u32_decimal(width);
    s.append("x");
    let h = u32_decimal(height);
    s.append(h.as_str());
    s
}

/// The argument list of one encoder invocation: raw video frames in
/// blue-green-red-alpha order at the session's dimensions and framerate,
/// read from standard input, encoded with the fixed codec and pixel format
/// into the fixed output file, which is overwritten.  The input rate is the
/// session's configured framerate, not a constant.
pub open spec fn encoder_args_spec(width: nat, height: nat, framerate: nat) -> Seq<Seq<char>> {
    seq![
        "-r"@,
        decimal_digits(framerate),
        "-f"@,
        "rawvideo"@,
        "-vcodec"@,
        "rawvideo"@,
        "-pix_fmt"@,
        "bgra"@,
        "-s"@,
        decimal_digits(width) + "x"@ + decimal_digits(height),
        "-i"@,
        "-"@,
        "-c:v"@,
        "libvpx-vp9"@,
        "-pix_fmt"@,
        "yuva420p"@,
        "-y"@,
        "output.webm"@,
    ]
}

/// Builds the encoder's argument list for one session.
pub fn encoder_args(width: u32, height: u32, framerate: u32) -> (r: Vec<String>)
    ensures
        r@.map_values(|s: String| s@) == encoder_args_spec(
            width as nat,
            height as nat,
            framerate as nat,
        ),
{
    let mut args: Vec<String> = Vec::new();
    args.push(String::from_str("-r"));
    args.push(u32_decimal(framerate));
    args.push(String::from_str("-f"));
    args.push(String::from_str("rawvideo"));
    args.push(String::from_str("-vcodec"));
    args.push(String::from_str("rawvideo"));
    args.push(String::from_str("-pix_fmt"));
    args.push(String::from_str("bgra"));
    args.push(String::from_str("-s"));
    args.push(size_arg(width, height));
    args.push(String::from_str("-i"));
    args.push(String::from_str("-"));
    args.push(String::from_str("-c:v"));
    args.push(String::from_str("libvpx-vp9"));
    args.push(String::from_str("-pix_fmt"));
    args.push(String::from_str("yuva420p"));
    args.push(String::from_str("-y"));
    args.push(String::from_str("output.webm"));
    proof {
        assert(args@.map_values(|s: String| s@) =~~= encoder_args_spec(
            width as nat,
            height as nat,
            framerate as nat,
        ));
    }
    args
}

} // verus!
