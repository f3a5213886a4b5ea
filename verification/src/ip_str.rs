use vstd::prelude::*;
use vstd::string::StringExecFns;
use crate::error::{ErrorKind, NisporError};
use crate::num_str::{dec_str, push_dec};

verus! {

/// The lowercase hexadecimal digit character for a value below sixteen.
pub open spec fn hex_digit(d: nat) -> char {
    if d == 0 {
        '0'
    } else if d == 1 {
        '1'
    } else if d == 2 {
        '2'
    } else if d == 3 {
        '3'
    } else if d == 4 {
        '4'
    } else if d == 5 {
        '5'
    } else if d == 6 {
        '6'
    } else if d == 7 {
        '7'
    } else if d == 8 {
        '8'
    } else if d == 9 {
        '9'
    } else if d == 10 {
        'a'
    } else if d == 11 {
        'b'
    } else if d == 12 {
        'c'
    } else if d == 13 {
        'd'
    } else if d == 14 {
        'e'
    } else {
        'f'
    }
}

/// The lowercase hexadecimal rendering of a natural number, most significant
/// digit first, with no leading zeros (a lone zero renders as "0").
pub open spec fn hex_str(n: nat) -> Seq<char>
    decreases n,
{
    if n < 16 {
        seq![hex_digit(n)]
    } else {
        hex_str(n / 16).push(hex_digit(n % 16))
    }
}

/// The canonical dotted-decimal rendering of a 4-byte IPv4 address.
pub open spec fn ipv4_str(b: Seq<u8>) -> Seq<char>
    recommends
        b.len() == 4,
{
    dec_str(b[0] as nat) + seq!['.'] + dec_str(b[1] as nat) + seq!['.'] + dec_str(b[2] as nat)
        + seq!['.'] + dec_str(b[3] as nat)
}

/// The eight 16-bit groups of a 16-byte IPv6 address, in network byte order.
pub open spec fn ipv6_groups(b: Seq<u8>) -> Seq<u16>
    recommends
        b.len() == 16,
{
    Seq::new(8, |i: int| (b[2 * i] as int * 256 + b[2 * i + 1] as int) as u16)
}

/// Length of the run of zero groups starting at position `i`.
pub open spec fn zero_run(g: Seq<u16>, i: int) -> int
    decreases g.len() - i,
{
    if i < 0 || i >= g.len() || g[i] != 0 {
        0
    } else {
        1 + zero_run(g, i + 1)
    }
}

/// Start of the leftmost longest run of zero groups at or after `i`; `g.len()`
/// when every position from `i` on starts a run no longer than zero.
pub open spec fn best_zero_run_from(g: Seq<u16>, i: int) -> int
    decreases g.len() - i,
{
    if i >= g.len() {
        i
    } else {
        let b = best_zero_run_from(g, i + 1);
        if zero_run(g, i) >= zero_run(g, b) {
            i
        } else {
            b
        }
    }
}

/// Hexadecimal group renderings joined by single colons.
pub open spec fn hex_join(g: Seq<u16>) -> Seq<char>
    decreases g.len(),
{
    if g.len() == 0 {
        Seq::empty()
    } else if g.len() == 1 {
        hex_str(g[0] as nat)
    } else {
        hex_join(g.drop_last()) + seq![':'] + hex_str(g.last() as nat)
    }
}

/// Whether the eight groups form an IPv4-mapped IPv6 address: five zero
/// groups followed by an all-ones group, with the IPv4 address in the tail.
pub open spec fn is_ipv4_mapped(g: Seq<u16>) -> bool {
    g.len() == 8 && g[0] == 0 && g[1] == 0 && g[2] == 0 && g[3] == 0 && g[4] == 0 && g[5] == 0xffff
}

/// The canonical colon-hex rendering of a 16-byte IPv6 address: lowercase
/// hex groups without leading zeros, with the leftmost longest run of two or
/// more zero groups compressed to "::". An IPv4-mapped address renders in the
/// mixed notation, its last four bytes in dotted-decimal form.
pub open spec fn ipv6_str(b: Seq<u8>) -> Seq<char>
    recommends
        b.len() == 16,
{
    let g = ipv6_groups(b);
    if is_ipv4_mapped(g) {
        seq![':', ':', 'f', 'f', 'f', 'f', ':'] + ipv4_str(b.subrange(12, 16))
    } else {
        let s = best_zero_run_from(g, 0);
        if zero_run(g, s) < 2 {
            hex_join(g)
        } else {
            hex_join(g.subrange(0, s)) + seq![':', ':'] + hex_join(
                g.subrange(s + zero_run(g, s), 8),
            )
        }
    }
}

/// A run of zero groups never extends past the end of the sequence.
pub proof fn lemma_zero_run_bound(g: Seq<u16>, i: int)
    ensures
        0 <= zero_run(g, i),
        0 <= i <= g.len() ==> i + zero_run(g, i) <= g.len(),
    decreases g.len() - i,
{
    if !(i < 0 || i >= g.len() || g[i] != 0) {
        lemma_zero_run_bound(g, i + 1);
    }
}

proof fn lemma_best_run_from_spec(g: Seq<u16>, i: int)
    requires
        0 <= i <= g.len(),
    ensures
        i <= best_zero_run_from(g, i) <= g.len(),
        forall|k: int|
            i <= k < g.len() ==> #[trigger] zero_run(g, k) <= zero_run(g, best_zero_run_from(g, i)),
        forall|k: int|
            i <= k < best_zero_run_from(g, i) ==> #[trigger] zero_run(g, k) < zero_run(
                g,
                best_zero_run_from(g, i),
            ),
    decreases g.len() - i,
{
    if i < g.len() {
        lemma_best_run_from_spec(g, i + 1);
    }
}

/// Law: the run that "::" compresses is the leftmost longest run of zero
/// groups — no position starts a longer run, and every position to its left
/// starts a strictly shorter one.
pub proof fn lemma_best_zero_run_is_leftmost_longest(g: Seq<u16>)
    ensures
        0 <= best_zero_run_from(g, 0) <= g.len(),
        forall|k: int|
            0 <= k < g.len() ==> #[trigger] zero_run(g, k) <= zero_run(g, best_zero_run_from(g, 0)),
        forall|k: int|
            0 <= k < best_zero_run_from(g, 0) ==> #[trigger] zero_run(g, k) < zero_run(
                g,
                best_zero_run_from(g, 0),
            ),
{
    lemma_best_run_from_spec(g, 0);
}

/// Appends the lowercase hexadecimal rendering of `n` to `out`.
pub fn push_hex(n: u16, out: &mut String)
    ensures
        final(out)@ == old(out)@ + hex_str(n as nat),
    decreases n,
{
    if n >= 16 {
        push_hex(n / 16, out);
    }
    let d: u16 = n % 16;
    let ds: &str = if d == 0 {
        "0"
    } else if d == 1 {
        "1"
    } else if d == 2 {
        "2"
    } else if d == 3 {
        "3"
    } else if d == 4 {
        "4"
    } else if d == 5 {
        "5"
    } else if d == 6 {
        "6"
    } else if d == 7 {
        "7"
    } else if d == 8 {
        "8"
    } else if d == 9 {
        "9"
    } else if d == 10 {
        "a"
    } else if d == 11 {
        "b"
    } else if d == 12 {
        "c"
    } else if d == 13 {
        "d"
    } else if d == 14 {
        "e"
    } else {
        "f"
    };
    proof {
        reveal_strlit("0");
        reveal_strlit("1");
        reveal_strlit("2");
        reveal_strlit("3");
        reveal_strlit("4");
        reveal_strlit("5");
        reveal_strlit("6");
        reveal_strlit("7");
        reveal_strlit("8");
        reveal_strlit("9");
        reveal_strlit("a");
        reveal_strlit("b");
        reveal_strlit("c");
        reveal_strlit("d");
        reveal_strlit("e");
        reveal_strlit("f");
        assert(ds@ =~= seq![hex_digit(d as nat)]);
    }
    out.append(ds);
    proof {
        assert(d as nat == (n as nat) % 16);
        assert(out@ =~= old(out)@ + hex_str(n as nat));
    }
}

/// Renders a 4-byte IPv4 address payload in dotted-decimal form; any other
/// payload length is a bug-class error.
pub fn ipv4_bytes_to_string(b: &[u8]) -> (r: Result<String, NisporError>)
    ensures
        b@.len() == 4 ==> (r matches Ok(s) && s@ == ipv4_str(b@)),
        b@.len() != 4 ==> (r matches Err(e) && e.kind == ErrorKind::Bug),
{
    if b.len() != 4 {
        return Err(NisporError::bug("invalid IPv4 address payload length, expected 4 bytes"));
    }
    let mut s = String::new();
    push_dec(b[0] as u32, &mut s);
    s.append(".");
    push_dec(b[1] as u32, &mut s);
    s.append(".");
    push_dec(b[2] as u32, &mut s);
    s.append(".");
    push_dec(b[3] as u32, &mut s);
    proof {
        reveal_strlit(".");
        assert("."@ =~= seq!['.']);
        assert(s@ =~= ipv4_str(b@));
    }
    Ok(s)
}

/// Length of the run of zero groups starting at `i`, computed by scanning.
fn run_len(g: &Vec<u16>, i: usize) -> (r: usize)
    requires
        i <= g@.len(),
    ensures
        r as int == zero_run(g@, i as int),
        r + i <= g@.len(),
    decreases g@.len() - i,
{
    proof {
        lemma_zero_run_bound(g@, i as int);
    }
    if i >= g.len() || g[i] != 0 {
        0
    } else {
        1 + run_len(g, i + 1)
    }
}

/// Start of the leftmost longest zero run at or after `i`.
fn best_run_from(g: &Vec<u16>, i: usize) -> (r: usize)
    requires
        i <= g@.len(),
    ensures
        r as int == best_zero_run_from(g@, i as int),
        i <= r <= g@.len(),
    decreases g@.len() - i,
{
    if i >= g.len() {
        i
    } else {
        let b = best_run_from(g, i + 1);
        let run_i = run_len(g, i);
        let run_b = run_len(g, b);
        if run_i >= run_b {
            i
        } else {
            b
        }
    }
}

/// Appends the hexadecimal groups `g[from..to]`, joined by single colons.
fn push_hex_join(g: &Vec<u16>, from: usize, to: usize, out: &mut String)
    requires
        from <= to <= g@.len(),
    ensures
        final(out)@ == old(out)@ + hex_join(g@.subrange(from as int, to as int)),
{
    let mut k: usize = from;
    while k < to
        invariant
            from <= k <= to <= g@.len(),
            out@ == old(out)@ + hex_join(g@.subrange(from as int, k as int)),
        decreases to - k,
    {
        if k > from {
            out.append(":");
        }
        push_hex(g[k], out);
        proof {
            reveal_strlit(":");
            assert(":"@ =~= seq![':']);
            let pre = g@.subrange(from as int, k as int);
            let post = g@.subrange(from as int, k + 1 as int);
            assert(post.drop_last() =~= pre);
            assert(post.last() == g@[k as int]);
            if k == from {
                assert(post.len() == 1);
                assert(hex_join(post) == hex_str(g@[k as int] as nat));
            } else {
                assert(hex_join(post) == hex_join(pre) + seq![':'] + hex_str(g@[k as int] as nat));
            }
            assert(out@ =~= old(out)@ + hex_join(post));
        }
        k = k + 1;
    }
    proof {
        if from == to {
            assert(g@.subrange(from as int, to as int).len() == 0);
            assert(out@ =~= old(out)@ + hex_join(g@.subrange(from as int, to as int)));
        }
    }
}

/// Renders a 16-byte IPv6 address payload in canonical colon-hex form; any
/// other payload length is a bug-class error.
pub fn ipv6_bytes_to_string(b: &[u8]) -> (r: Result<String, NisporError>)
    ensures
        b@.len() == 16 ==> (r matches Ok(s) && s@ == ipv6_str(b@)),
        b@.len() != 16 ==> (r matches Err(e) && e.kind == ErrorKind::Bug),
{
    if b.len() != 16 {
        return Err(NisporError::bug("invalid IPv6 address payload length, expected 16 bytes"));
    }
    let mut g: Vec<u16> = Vec::new();
    let mut i: usize = 0;
    while i < 8
        invariant
            i <= 8,
            b@.len() == 16,
            g@.len() == i,
            forall|k: int| 0 <= k < i ==> g@[k] == ipv6_groups(b@)[k],
        decreases 8 - i,
    {
        let hi = b[2 * i];
        let lo = b[2 * i + 1];
        let group: u16 = (hi as u16) * 256 + (lo as u16);
        g.push(group);
        i = i + 1;
    }
    proof {
        assert(g@ =~= ipv6_groups(b@));
    }
    if g[0] == 0 && g[1] == 0 && g[2] == 0 && g[3] == 0 && g[4] == 0 && g[5] == 0xffff {
        let mut s = String::new();
        s.append("::ffff:");
        push_dec(b[12] as u32, &mut s);
        s.append(".");
        push_dec(b[13] as u32, &mut s);
        s.append(".");
        push_dec(b[14] as u32, &mut s);
        s.append(".");
        push_dec(b[15] as u32, &mut s);
        proof {
            reveal_strlit("::ffff:");
            reveal_strlit(".");
            assert("::ffff:"@ =~= seq![':', ':', 'f', 'f', 'f', 'f', ':']);
            assert("."@ =~= seq!['.']);
            let t = b@.subrange(12, 16);
            assert(t[0] == b@[12] && t[1] == b@[13] && t[2] == b@[14] && t[3] == b@[15]);
            assert(s@ =~= ipv6_str(b@));
        }
        return Ok(s);
    }
    let best = best_run_from(&g, 0);
    let blen = run_len(&g, best);
    let mut s = String::new();
    if blen < 2 {
        push_hex_join(&g, 0, 8, &mut s);
        proof {
            assert(g@.subrange(0, 8) =~= g@);
            assert(s@ =~= ipv6_str(b@));
        }
    } else {
        push_hex_join(&g, 0, best, &mut s);
        s.append("::");
        push_hex_join(&g, best + blen, 8, &mut s);
        proof {
            reveal_strlit("::");
            assert("::"@ =~= seq![':', ':']);
            assert(s@ =~= ipv6_str(b@));
        }
    }
    Ok(s)
}

} // verus!
