//! Address reporter: renders a pair of opaque code addresses (an image base
//! and a program counter) as a single diagnostic line of the form
//! `describe_code_address(0x<image>, 0x<pc>)`, with each address in lowercase
//! hexadecimal and no leading zeros. The addresses are never dereferenced:
//! they are carried as plain machine words.

use vstd::prelude::*;

verus! {

/// The lowercase hexadecimal digit character for a value below sixteen.
pub open spec fn hex_digit(d: nat) -> char {
    if d == 0 {
        '0'
    } else if d == 1 {
        '1'
    } else if d == 2 {
        '2'
    } else if d == 3 {
        '3'
    } else if d == 4 {
        '4'
    } else if d == 5 {
        '5'
    } else if d == 6 {
        '6'
    } else if d == 7 {
        '7'
    } else if d == 8 {
        '8'
    } else if d == 9 {
        '9'
    } else if d == 10 {
        'a'
    } else if d == 11 {
        'b'
    } else if d == 12 {
        'c'
    } else if d == 13 {
        'd'
    } else if d == 14 {
        'e'
    } else {
        'f'
    }
}

/// The hexadecimal digits of `n`, most significant first, with no leading
/// zeros; zero itself is rendered as the single digit `0`.
pub open spec fn hex_rep(n: nat) -> Seq<char>
    decreases n,
{
    if n < 16 {
        seq![hex_digit(n)]
    } else {
        hex_rep(n / 16) + seq![hex_digit(n % 16)]
    }
}

/// How one address is rendered: `0x` followed by its hexadecimal digits.
pub open spec fn addr_rep(a: nat) -> Seq<char> {
    "0x"@ + hex_rep(a)
}

/// The whole diagnostic line for an address pair: the entry point's name,
/// then both renderings in the order given, parenthesised and
/// comma-separated.
pub open spec fn describe_line(image: nat, pc: nat) -> Seq<char> {
    "describe_code_address("@ + addr_rep(image) + ", "@ + addr_rep(pc) + ")"@
}

/// One hexadecimal digit as a string slice.
fn hex_digit_str(d: usize) -> (r: &'static str)
    requires
        d < 16,
    ensures
        r@ == seq![hex_digit(d as nat)],
{
    let r: &'static str = if d == 0 {
        "0"
    } else if d == 1 {
        "1"
    } else if d == 2 {
        "2"
    } else if d == 3 {
        "3"
    } else if d == 4 {
        "4"
    } else if d == 5 {
        "5"
    } else if d == 6 {
        "6"
    } else if d == 7 {
        "7"
    } else if d == 8 {
        "8"
    } else if d == 9 {
        "9"
    } else if d == 10 {
        "a"
    } else if d == 11 {
        "b"
    } else if d == 12 {
        "c"
    } else if d == 13 {
        "d"
    } else if d == 14 {
        "e"
    } else {
        "f"
    };
    proof {
        reveal_strlit("0");
        reveal_strlit("1");
        reveal_strlit("2");
        reveal_strlit("3");
        reveal_strlit("4");
        reveal_strlit("5");
        reveal_strlit("6");
        reveal_strlit("7");
        reveal_strlit("8");
        reveal_strlit("9");
        reveal_strlit("a");
        reveal_strlit("b");
        reveal_strlit("c");
        reveal_strlit("d");
        reveal_strlit("e");
        reveal_strlit("f");
        assert(r@ =~= seq![hex_digit(d as nat)]);
    }
    r
}

/// Appends the hexadecimal digits of `n` to `out`, most significant first.
fn append_hex(n: usize, out: &mut String)
    ensures
        final(out)@ == old(out)@ + hex_rep(n as nat),
    decreases n,
{
    if n >= 16 {
        append_hex(n / 16, out);
    }
    let d = hex_digit_str(n % 16);
    out.append(d);
    proof {
        assert(out@ =~= old(out)@ + hex_rep(n as nat));
    }
}

/// Renders the diagnostic line for an image base address and a program
/// counter. Any pair of machine words is accepted, zero included: the
/// addresses are opaque bit patterns, read only as numbers. The result is
/// exactly the line `describe_line` gives, so equal inputs always yield
/// identical lines.
pub fn describe_code_address(image: usize, pc: usize) -> (line: String)
    ensures
        line@ == describe_line(image as nat, pc as nat),
{
    let mut line = String::from_str("describe_code_address(");
    line.append("0x");
    append_hex(image, &mut line);
    line.append(", ");
    line.append("0x");
    append_hex(pc, &mut line);
    line.append(")");
    proof {
        assert(line@ =~= describe_line(image as nat, pc as nat));
    }
    line
}

/// The line shows both addresses in the order given: the rendering of
/// `image` stands right after the opening parenthesis, the rendering of
/// `pc` follows it after the separator, and the first ends before the
/// second begins.
pub proof fn lemma_line_shows_both_addresses(image: nat, pc: nat)
    ensures
        ({
            let line = describe_line(image, pc);
            let first = addr_rep(image);
            let second = addr_rep(pc);
            let i = "describe_code_address("@.len() as int;
            let j = i + first.len() + ", "@.len();
            &&& line.subrange(i, i + first.len() as int) == first
            &&& line.subrange(j, j + second.len() as int) == second
            &&& i + first.len() <= j
            &&& j + second.len() <= line.len()
        }),
{
    let line = describe_line(image, pc);
    let first = addr_rep(image);
    let second = addr_rep(pc);
    let i = "describe_code_address("@.len() as int;
    let j = i + first.len() + ", "@.len();
    assert(line.subrange(i, i + first.len() as int) =~= first);
    assert(line.subrange(j, j + second.len() as int) =~= second);
}

/// Rendering is a function of the address pair alone: two lines produced
/// from the same inputs hold identical address representations, however
/// often and wherever the rendering runs.
pub proof fn lemma_same_inputs_same_line(
    one: Seq<char>,
    other: Seq<char>,
    image: nat,
    pc: nat,
)
    requires
        one == describe_line(image, pc),
        other == describe_line(image, pc),
    ensures
        one == other,
{
}

} // verus!
