use linux_loader::cmdline::{Cmdline, Error as CmdlineError};
use vstd::prelude::*;

verus! {

/// The guest kernel command-line builder.
#[verifier::external_type_specification]
#[verifier::external_body]
pub struct ExCmdline(Cmdline);

/// Error reported by the command-line builder.
#[verifier::external_type_specification]
#[verifier::external_body]
pub struct ExCmdlineError(CmdlineError);

/// The boot arguments that a command-line builder holds so far.
pub uninterp spec fn boot_args(c: Cmdline) -> Seq<char>;

/// How many more bytes the command line can take: its capacity less the size
/// of its null-terminated text.
pub uninterp spec fn cmdline_room(c: Cmdline) -> int;

/// The bytes that separate a new argument from `args`.
pub open spec fn separator_len(args: Seq<char>) -> int {
    if args.len() == 0 {
        0
    } else {
        1
    }
}

/// Whether the command line `c` has room for the plain argument `arg`.
pub open spec fn has_room_for(c: Cmdline, arg: Seq<char>) -> bool {
    separator_len(boot_args(c)) + arg.len() <= cmdline_room(c)
}

/// The boot arguments after `arg` is appended to `args`: arguments are
/// separated by one space.
pub open spec fn appended(args: Seq<char>, arg: Seq<char>) -> Seq<char> {
    if args.len() == 0 {
        arg
    } else {
        args + seq![' '] + arg
    }
}

/// A boot argument that the builder takes as it is: printable ASCII, with no
/// space at either end.
pub open spec fn plain_arg(s: Seq<char>) -> bool {
    &&& forall|i: int| 0 <= i < s.len() ==> ' ' <= #[trigger] s[i] <= '~'
    &&& s.len() > 0 ==> s[0] != ' ' && s.last() != ' '
}

/// The lowercase hexadecimal digit or decimal digit of value `d`.
pub open spec fn digit(d: nat) -> char {
    seq!['0', '1', '2', '3', '4', '5', '6', '7', '8', '9', 'a', 'b', 'c', 'd', 'e', 'f'][d as int]
}

/// `n` in decimal, with no leading zeros.
pub open spec fn decimal(n: nat) -> Seq<char>
    decreases n,
{
    if n < 10 {
        seq![digit(n)]
    } else {
        decimal(n / 10).push(digit(n % 10))
    }
}

/// `n` in lowercase hexadecimal, with no leading zeros.
pub open spec fn hex(n: nat) -> Seq<char>
    decreases n,
{
    if n < 16 {
        seq![digit(n)]
    } else {
        hex(n / 16).push(digit(n % 16))
    }
}

/// A size as the discovery argument writes it: in KiB with a `K` suffix where
/// it is a whole number of KiB, else in bytes with no suffix (the unit the
/// kernel assumes when none is given).
pub open spec fn size_text(size: nat) -> Seq<char> {
    if size % 1024 == 0 {
        decimal(size / 1024).push('K')
    } else {
        decimal(size)
    }
}

/// The virtio-over-MMIO discovery argument for a device of `size` bytes at
/// `base` with interrupt line `irq`: `virtio_mmio.device=<size>@0x<base>:<irq>`.
pub open spec fn virtio_mmio_arg(size: u64, base: u64, irq: u32) -> Seq<char> {
    "virtio_mmio.device="@ + size_text(size as nat) + "@0x"@ + hex(base as nat) + ":"@
        + decimal(irq as nat)
}

/// Whether `c` is a digit as `digit` writes them.
pub open spec fn is_digit_char(c: char) -> bool {
    ('0' <= c && c <= '9') || ('a' <= c && c <= 'f')
}

/// Whether every character of `s` is a digit.
pub open spec fn all_digits(s: Seq<char>) -> bool {
    forall|i: int| 0 <= i < s.len() ==> is_digit_char(#[trigger] s[i])
}

/// A control character that is neither printable nor trimmed as white space.
pub open spec fn stray_char(c: char) -> bool {
    c < '\t' || ('\x0e' <= c && c < '\x1c') || c == '\x7f'
}

proof fn lemma_digit(d: nat)
    requires
        d < 16,
    ensures
        is_digit_char(digit(d)),
{
}

proof fn lemma_decimal_digits(n: nat)
    ensures
        all_digits(decimal(n)),
        decimal(n).len() > 0,
    decreases n,
{
    lemma_digit(n % 10);
    if n >= 10 {
        lemma_decimal_digits(n / 10);
    }
}

proof fn lemma_hex_digits(n: nat)
    ensures
        all_digits(hex(n)),
        hex(n).len() > 0,
    decreases n,
{
    lemma_digit(n % 16);
    if n >= 16 {
        lemma_hex_digits(n / 16);
    }
}

/// The discovery argument is plain: the command line takes it as it is.
pub proof fn lemma_virtio_mmio_arg_plain(size: u64, base: u64, irq: u32)
    ensures
        plain_arg(virtio_mmio_arg(size, base, irq)),
{
    reveal_strlit("virtio_mmio.device=");
    reveal_strlit("@0x");
    reveal_strlit(":");
    lemma_decimal_digits(size as nat);
    lemma_decimal_digits(size as nat / 1024);
    lemma_hex_digits(base as nat);
    lemma_decimal_digits(irq as nat);
    let st = size_text(size as nat);
    assert forall|i: int| 0 <= i < st.len() implies ' ' <= #[trigger] st[i] <= '~' by {
        if size as nat % 1024 == 0 && i == st.len() - 1 {
        } else {
            assert(is_digit_char(st[i]));
        }
    }
    let arg = virtio_mmio_arg(size, base, irq);
    let d = decimal(irq as nat);
    assert(arg.last() == d.last());
    assert(is_digit_char(d[d.len() - 1]));
    assert forall|i: int| 0 <= i < arg.len() implies ' ' <= #[trigger] arg[i] <= '~' by {
        let p1 = "virtio_mmio.device="@.len() as int;
        let p2 = p1 + st.len();
        let p3 = p2 + 3;
        let h = hex(base as nat);
        let p4 = p3 + h.len();
        let p5 = p4 + 1;
        if i < p1 {
        } else if i < p2 {
            assert(arg[i] == st[i - p1]);
        } else if i < p3 {
        } else if i < p4 {
            assert(arg[i] == h[i - p3]);
            assert(is_digit_char(h[i - p3]));
        } else if i < p5 {
        } else {
            assert(arg[i] == d[i - p5]);
            assert(is_digit_char(d[i - p5]));
        }
    }
}

/// The one-character text of digit `d`.
fn digit_text(d: u64) -> (r: &'static str)
    requires
        d < 16,
    ensures
        r@ == seq![digit(d as nat)],
{
    let r = if d == 0 {
        proof { reveal_strlit("0"); }
        "0"
    } else if d == 1 {
        proof { reveal_strlit("1"); }
        "1"
    } else if d == 2 {
        proof { reveal_strlit("2"); }
        "2"
    } else if d == 3 {
        proof { reveal_strlit("3"); }
        "3"
    } else if d == 4 {
        proof { reveal_strlit("4"); }
        "4"
    } else if d == 5 {
        proof { reveal_strlit("5"); }
        "5"
    } else if d == 6 {
        proof { reveal_strlit("6"); }
        "6"
    } else if d == 7 {
        proof { reveal_strlit("7"); }
        "7"
    } else if d == 8 {
        proof { reveal_strlit("8"); }
        "8"
    } else if d == 9 {
        proof { reveal_strlit("9"); }
        "9"
    } else if d == 10 {
        proof { reveal_strlit("a"); }
        "a"
    } else if d == 11 {
        proof { reveal_strlit("b"); }
        "b"
    } else if d == 12 {
        proof { reveal_strlit("c"); }
        "c"
    } else if d == 13 {
        proof { reveal_strlit("d"); }
        "d"
    } else if d == 14 {
        proof { reveal_strlit("e"); }
        "e"
    } else {
        proof { reveal_strlit("f"); }
        "f"
    };
    assert(r@ =~= seq![digit(d as nat)]);
    r
}

/// Appends `n` in decimal to `out`.
fn append_decimal(out: &mut String, n: u64)
    ensures
        final(out)@ == old(out)@ + decimal(n as nat),
    decreases n,
{
    if n >= 10 {
        append_decimal(out, n / 10);
    }
    out.append(digit_text(n % 10));
    assert(final(out)@ =~= old(out)@ + decimal(n as nat));
}

/// Appends `n` in lowercase hexadecimal to `out`.
fn append_hex(out: &mut String, n: u64)
    ensures
        final(out)@ == old(out)@ + hex(n as nat),
    decreases n,
{
    if n >= 16 {
        append_hex(out, n / 16);
    }
    out.append(digit_text(n % 16));
    assert(final(out)@ =~= old(out)@ + hex(n as nat));
}

/// The discovery argument of a device of `size` bytes at `base` with
/// interrupt line `irq`.
pub fn virtio_mmio_arg_text(size: u64, base: u64, irq: u32) -> (r: String)
    ensures
        r@ == virtio_mmio_arg(size, base, irq),
{
    let mut out = String::from_str("virtio_mmio.device=");
    if size % 1024 == 0 {
        append_decimal(&mut out, size / 1024);
        out.append("K");
        proof { reveal_strlit("K"); }
    } else {
        append_decimal(&mut out, size);
    }
    out.append("@0x");
    append_hex(&mut out, base);
    out.append(":");
    append_decimal(&mut out, irq as u64);
    assert(out@ =~= virtio_mmio_arg(size, base, irq));
    out
}

/// Relies on linux_loader's `Cmdline::insert_str`: the argument, trimmed, is
/// appended after a space unless it is the first one, when it is printable
/// ASCII and fits; a control character that trimming keeps is refused;
/// nothing changes on error.
#[verifier::external_body]
pub(crate) fn cmdline_insert(c: &mut Cmdline, s: &str) -> (r: Result<(), CmdlineError>)
    ensures
        plain_arg(s@) ==> (r.is_ok() <==> has_room_for(*old(c), s@)),
        (exists|i: int| 0 <= i < s@.len() && stray_char(#[trigger] s@[i])) ==> r.is_err(),
        r.is_ok() && plain_arg(s@) ==> boot_args(*final(c)) == appended(boot_args(*old(c)), s@),
        r.is_ok() && plain_arg(s@) ==> cmdline_room(*final(c)) == cmdline_room(*old(c)) - separator_len(
            boot_args(*old(c)),
        ) - s@.len(),
        r.is_err() ==> boot_args(*final(c)) == boot_args(*old(c)) && cmdline_room(*final(c)) == cmdline_room(*old(c)),
{
    c.insert_str(s)
}

} // verus!
