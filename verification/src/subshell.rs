//! Byte-level logic of the toggle shell: spotting the return-to-panels keys (Ctrl+O, or Ctrl+X
//! then `o`) in what the user types while the shell owns the terminal, deciding what reaches the
//! shell, recognising `sudo` password prompts, and quoting paths for the shell line.
use vstd::prelude::*;

use crate::strutil::{str_trim, string_push, trim_of};

verus! {

/// Ctrl+O as a plain control byte.
pub const CTRL_O: u8 = 0x0F;

/// Ctrl+X as a plain control byte.
pub const CTRL_X: u8 = 0x18;

/// Ctrl+O in the Kitty keyboard protocol: `ESC [ 1 1 1 ; 5 u`.
pub open spec fn ctrl_o_kitty() -> Seq<u8> {
    seq![27u8, 91u8, 49u8, 49u8, 49u8, 59u8, 53u8, 117u8]
}

/// Ctrl+O in xterm's modifyOtherKeys form: `ESC [ 2 7 ; 5 ; 1 1 1 ~`.
pub open spec fn ctrl_o_mok() -> Seq<u8> {
    seq![27u8, 91u8, 50u8, 55u8, 59u8, 53u8, 59u8, 49u8, 49u8, 49u8, 126u8]
}

/// Ctrl+X in the Kitty keyboard protocol: `ESC [ 1 2 0 ; 5 u`.
pub open spec fn ctrl_x_kitty() -> Seq<u8> {
    seq![27u8, 91u8, 49u8, 50u8, 48u8, 59u8, 53u8, 117u8]
}

/// Ctrl+X in xterm's modifyOtherKeys form: `ESC [ 2 7 ; 5 ; 1 2 0 ~`.
pub open spec fn ctrl_x_mok() -> Seq<u8> {
    seq![27u8, 91u8, 50u8, 55u8, 59u8, 53u8, 59u8, 49u8, 50u8, 48u8, 126u8]
}

fn ctrl_o_kitty_vec() -> (r: Vec<u8>)
    ensures
        r@ == ctrl_o_kitty(),
{
    let r = vec![27u8, 91u8, 49u8, 49u8, 49u8, 59u8, 53u8, 117u8];
    assert(r@ =~= ctrl_o_kitty());
    r
}

fn ctrl_o_mok_vec() -> (r: Vec<u8>)
    ensures
        r@ == ctrl_o_mok(),
{
    let r = vec![27u8, 91u8, 50u8, 55u8, 59u8, 53u8, 59u8, 49u8, 49u8, 49u8, 126u8];
    assert(r@ =~= ctrl_o_mok());
    r
}

fn ctrl_x_kitty_vec() -> (r: Vec<u8>)
    ensures
        r@ == ctrl_x_kitty(),
{
    let r = vec![27u8, 91u8, 49u8, 50u8, 48u8, 59u8, 53u8, 117u8];
    assert(r@ =~= ctrl_x_kitty());
    r
}

fn ctrl_x_mok_vec() -> (r: Vec<u8>)
    ensures
        r@ == ctrl_x_mok(),
{
    let r = vec![27u8, 91u8, 50u8, 55u8, 59u8, 53u8, 59u8, 49u8, 50u8, 48u8, 126u8];
    assert(r@ =~= ctrl_x_mok());
    r
}

/// `needle` stands in `hay` at position `p`.
pub open spec fn occurs_at<A>(hay: Seq<A>, needle: Seq<A>, p: int) -> bool {
    0 <= p && p + needle.len() <= hay.len() && hay.subrange(p, p + needle.len()) == needle
}

/// The first position at or after `i` where a non-empty `needle` stands in `hay`.
pub open spec fn first_occurrence_from(hay: Seq<u8>, needle: Seq<u8>, i: int) -> Option<int>
    decreases hay.len() - i,
{
    if needle.len() == 0 || i < 0 || i + needle.len() > hay.len() {
        None
    } else if occurs_at(hay, needle, i) {
        Some(i)
    } else {
        first_occurrence_from(hay, needle, i + 1)
    }
}

/// The first position where a non-empty `needle` stands in `hay`; `None` for an empty needle.
pub open spec fn first_occurrence(hay: Seq<u8>, needle: Seq<u8>) -> Option<int> {
    first_occurrence_from(hay, needle, 0)
}

pub proof fn lemma_first_occurrence_from(hay: Seq<u8>, needle: Seq<u8>, i: int)
    requires
        0 <= i,
    ensures
        match first_occurrence_from(hay, needle, i) {
            Some(p) => i <= p && occurs_at(hay, needle, p) && needle.len() > 0
                && forall|q: int| i <= q < p ==> !occurs_at(hay, needle, q),
            None => needle.len() == 0 || forall|q: int| i <= q ==> !occurs_at(hay, needle, q),
        },
    decreases hay.len() - i,
{
    if needle.len() == 0 || i + needle.len() > hay.len() {
    } else if occurs_at(hay, needle, i) {
    } else {
        lemma_first_occurrence_from(hay, needle, i + 1);
    }
}

/// Where `needle` first occurs in `haystack`: `None` for an empty needle or none at all.
pub fn find_subsequence(haystack: &[u8], needle: &[u8]) -> (r: Option<usize>)
    ensures
        match r {
            Some(p) => first_occurrence(haystack@, needle@) == Some(p as int),
            None => first_occurrence(haystack@, needle@) is None,
        },
{
    let n = needle.len();
    let h = haystack.len();
    if n == 0 || h < n {
        return None;
    }
    let mut i: usize = 0;
    while i <= h - n
        invariant
            n == needle@.len(),
            h == haystack@.len(),
            0 < n <= h,
            i <= h - n + 1,
            first_occurrence(haystack@, needle@) == first_occurrence_from(haystack@, needle@, i as int),
        decreases h - i,
    {
        let mut j: usize = 0;
        let mut same = true;
        while j < n
            invariant
                n == needle@.len(),
                h == haystack@.len(),
                i + n <= h,
                j <= n,
                same == forall|t: int| 0 <= t < j ==> haystack@[i + t] == needle@[t],
            decreases n - j,
        {
            if haystack[i + j] != needle[j] {
                same = false;
            }
            j = j + 1;
        }
        if same {
            assert(haystack@.subrange(i as int, i + n) =~= needle@);
            return Some(i);
        }
        proof {
            if occurs_at(haystack@, needle@, i as int) {
                let t = choose|t: int| 0 <= t < n && haystack@[i + t] != needle@[t];
                assert(haystack@.subrange(i as int, i + n)[t] == haystack@[i + t]);
            }
        }
        i = i + 1;
    }
    None
}

/// The longest proper prefix of `pat` (length at least 1) with which `buf` ends, looking at
/// lengths `m` down to 1; 0 when none.
pub open spec fn trailing_prefix_upto(buf: Seq<u8>, pat: Seq<u8>, m: int) -> int
    decreases m,
{
    if m <= 0 {
        0
    } else if buf.subrange(buf.len() - m, buf.len() as int) == pat.take(m) {
        m
    } else {
        trailing_prefix_upto(buf, pat, m - 1)
    }
}

/// How many trailing bytes of `buf` might be the start of `pat` cut off at the chunk end.
pub open spec fn trailing_prefix(buf: Seq<u8>, pat: Seq<u8>) -> int {
    let m = if pat.len() == 0 { 0 } else { pat.len() - 1 };
    trailing_prefix_upto(buf, pat, if m < buf.len() { m } else { buf.len() as int })
}

proof fn lemma_trailing_prefix_upto_range(buf: Seq<u8>, pat: Seq<u8>, m: int)
    ensures
        0 <= trailing_prefix_upto(buf, pat, m),
        m >= 0 ==> trailing_prefix_upto(buf, pat, m) <= m,
    decreases m,
{
    if m > 0 {
        lemma_trailing_prefix_upto_range(buf, pat, m - 1);
    }
}

fn trailing_prefix_len(buf: &[u8], pat: &Vec<u8>) -> (r: usize)
    ensures
        r == trailing_prefix(buf@, pat@),
        r <= buf@.len(),
{
    let lim = if pat.len() == 0 { 0 } else { pat.len() - 1 };
    let mut m: usize = if lim < buf.len() { lim } else { buf.len() };
    proof {
        lemma_trailing_prefix_upto_range(buf@, pat@, m as int);
    }
    let ghost target = trailing_prefix(buf@, pat@);
    let bl = buf.len();
    while m > 0
        invariant
            bl == buf@.len(),
            m <= bl,
            m <= pat@.len(),
            target == trailing_prefix_upto(buf@, pat@, m as int),
            target == trailing_prefix(buf@, pat@),
        decreases m,
    {
        let mut j: usize = 0;
        let mut same = true;
        while j < m
            invariant
                bl == buf@.len(),
                m <= bl,
                m <= pat@.len(),
                j <= m,
                same == forall|t: int| 0 <= t < j ==> buf@[bl - m + t] == pat@[t],
            decreases m - j,
        {
            if buf[bl - m + j] != pat[j] {
                same = false;
            }
            j = j + 1;
        }
        if same {
            assert(buf@.subrange(bl - m, bl as int) =~= pat@.take(m as int));
            assert(trailing_prefix_upto(buf@, pat@, m as int) == m as int);
            return m;
        }
        proof {
            if buf@.subrange(bl - m, bl as int) == pat@.take(m as int) {
                let t = choose|t: int| 0 <= t < m && buf@[bl - m + t] != pat@[t];
                assert(buf@.subrange(bl - m, bl as int)[t] == pat@.take(m as int)[t]);
            }
        }
        m = m - 1;
    }
    0
}

/// Bytes at the end of the buffer that may begin a Ctrl+O escape sequence still being typed.
pub open spec fn trailing_ctrl_o_spec(buf: Seq<u8>) -> int {
    let a = trailing_prefix(buf, ctrl_o_kitty());
    let b = trailing_prefix(buf, ctrl_o_mok());
    if a < b { b } else { a }
}

/// Bytes at the end of the buffer that may begin a Ctrl+X escape sequence still being typed.
pub open spec fn trailing_ctrl_x_spec(buf: Seq<u8>) -> int {
    let a = trailing_prefix(buf, ctrl_x_kitty());
    let b = trailing_prefix(buf, ctrl_x_mok());
    if a < b { b } else { a }
}

/// Length of the longest tail of `buf` that is a proper prefix of a Ctrl+O escape sequence.
pub fn trailing_ctrl_o_prefix_len(buf: &[u8]) -> (r: usize)
    ensures
        r == trailing_ctrl_o_spec(buf@),
        r <= buf@.len(),
{
    let a = trailing_prefix_len(buf, &ctrl_o_kitty_vec());
    let b = trailing_prefix_len(buf, &ctrl_o_mok_vec());
    if a < b { b } else { a }
}

/// Length of the longest tail of `buf` that is a proper prefix of a Ctrl+X escape sequence.
pub fn trailing_ctrl_x_prefix_len(buf: &[u8]) -> (r: usize)
    ensures
        r == trailing_ctrl_x_spec(buf@),
        r <= buf@.len(),
{
    let a = trailing_prefix_len(buf, &ctrl_x_kitty_vec());
    let b = trailing_prefix_len(buf, &ctrl_x_mok_vec());
    if a < b { b } else { a }
}

/// The candidate that starts first; on a tie the earlier candidate is kept.
pub open spec fn earlier(x: Option<(int, int)>, y: Option<(int, int)>) -> Option<(int, int)> {
    match (x, y) {
        (None, _) => y,
        (Some(_), None) => x,
        (Some(p), Some(q)) => if q.0 < p.0 { y } else { x },
    }
}

/// A found position paired with the length of what was found there.
pub open spec fn with_len(p: Option<int>, len: int) -> Option<(int, int)> {
    match p {
        Some(i) => Some((i, len)),
        None => None,
    }
}

/// The earliest Ctrl+O in any form (plain byte, Kitty, modifyOtherKeys): (position, length).
pub open spec fn earliest_ctrl_o(carry: Seq<u8>) -> Option<(int, int)> {
    earlier(
        earlier(
            with_len(first_occurrence(carry, seq![CTRL_O]), 1),
            with_len(first_occurrence(carry, ctrl_o_kitty()), ctrl_o_kitty().len() as int),
        ),
        with_len(first_occurrence(carry, ctrl_o_mok()), ctrl_o_mok().len() as int),
    )
}

/// The earliest Ctrl+X in any form (plain byte, Kitty, modifyOtherKeys): (position, length).
pub open spec fn earliest_ctrl_x(carry: Seq<u8>) -> Option<(int, int)> {
    earlier(
        earlier(
            with_len(first_occurrence(carry, seq![CTRL_X]), 1),
            with_len(first_occurrence(carry, ctrl_x_kitty()), ctrl_x_kitty().len() as int),
        ),
        with_len(first_occurrence(carry, ctrl_x_mok()), ctrl_x_mok().len() as int),
    )
}

fn found_with_len(p: Option<usize>, len: usize) -> (r: Option<(usize, usize)>)
    ensures
        match r {
            Some((i, l)) => with_len(match p { Some(j) => Some(j as int), None => None }, len as int) == Some((i as int, l as int)),
            None => p is None,
        },
{
    match p {
        Some(i) => Some((i, len)),
        None => None,
    }
}

fn earlier_exec(x: Option<(usize, usize)>, y: Option<(usize, usize)>) -> (r: Option<(usize, usize)>)
    ensures
        opt_pair(r) == earlier(opt_pair(x), opt_pair(y)),
{
    match (x, y) {
        (None, _) => y,
        (Some(_), None) => x,
        (Some(p), Some(q)) => if q.0 < p.0 { y } else { x },
    }
}

/// A pair of machine integers read as a pair of integers.
pub open spec fn opt_pair(x: Option<(usize, usize)>) -> Option<(int, int)> {
    match x {
        Some((a, b)) => Some((a as int, b as int)),
        None => None,
    }
}

fn earliest_of(carry: &[u8], plain: u8, kitty: &Vec<u8>, mok: &Vec<u8>) -> (r: Option<(usize, usize)>)
    ensures
        opt_pair(r) == earlier(
            earlier(
                with_len(first_occurrence(carry@, seq![plain]), 1),
                with_len(first_occurrence(carry@, kitty@), kitty@.len() as int),
            ),
            with_len(first_occurrence(carry@, mok@), mok@.len() as int),
        ),
{
    let single = vec![plain];
    assert(single@ =~= seq![plain]);
    let a = found_with_len(find_subsequence(carry, single.as_slice()), 1);
    let b = found_with_len(find_subsequence(carry, kitty.as_slice()), kitty.len());
    let c = found_with_len(find_subsequence(carry, mok.as_slice()), mok.len());
    earlier_exec(earlier_exec(a, b), c)
}

/// The first Ctrl+O in the buffer, in any of its three encodings: (position, length).
pub fn earliest_ctrl_o_in_carry(carry: &[u8]) -> (r: Option<(usize, usize)>)
    ensures
        opt_pair(r) == earliest_ctrl_o(carry@),
{
    earliest_of(carry, CTRL_O, &ctrl_o_kitty_vec(), &ctrl_o_mok_vec())
}

/// The first Ctrl+X in the buffer, in any of its three encodings: (position, length).
pub fn earliest_ctrl_x_in_carry(carry: &[u8]) -> (r: Option<(usize, usize)>)
    ensures
        opt_pair(r) == earliest_ctrl_x(carry@),
{
    earliest_of(carry, CTRL_X, &ctrl_x_kitty_vec(), &ctrl_x_mok_vec())
}

/// `o` or `O`: the key that completes Ctrl+X, o.
pub open spec fn is_o_key(b: u8) -> bool {
    b == 111u8 || b == 79u8
}

pub proof fn lemma_first_occurrence_bounds(hay: Seq<u8>, needle: Seq<u8>)
    ensures
        match first_occurrence(hay, needle) {
            Some(p) => 0 <= p && p + needle.len() <= hay.len() && needle.len() > 0
                && occurs_at(hay, needle, p)
                && forall|q: int| 0 <= q < p ==> !occurs_at(hay, needle, q),
            None => needle.len() == 0 || forall|q: int| 0 <= q ==> !occurs_at(hay, needle, q),
        },
{
    lemma_first_occurrence_from(hay, needle, 0);
}

/// Where the earliest of three searches landed: it is one of them, found there, and no other
/// search found something strictly earlier.
pub proof fn lemma_earliest3(hay: Seq<u8>, a: Seq<u8>, b: Seq<u8>, c: Seq<u8>)
    ensures
        ({
            let e = earlier(
                earlier(with_len(first_occurrence(hay, a), a.len() as int), with_len(first_occurrence(hay, b), b.len() as int)),
                with_len(first_occurrence(hay, c), c.len() as int),
            );
            &&& e is None <==> (first_occurrence(hay, a) is None && first_occurrence(hay, b) is None && first_occurrence(hay, c) is None)
            &&& e matches Some((p, l)) ==> {
                &&& 0 <= p && 1 <= l && p + l <= hay.len()
                &&& (l == a.len() && occurs_at(hay, a, p)) || (l == b.len() && occurs_at(hay, b, p)) || (l == c.len() && occurs_at(hay, c, p))
                &&& first_occurrence(hay, a) matches Some(q) ==> p <= q
                &&& first_occurrence(hay, b) matches Some(q) ==> p <= q
                &&& first_occurrence(hay, c) matches Some(q) ==> p <= q
            }
        }),
{
    lemma_first_occurrence_bounds(hay, a);
    lemma_first_occurrence_bounds(hay, b);
    lemma_first_occurrence_bounds(hay, c);
}

pub proof fn lemma_earliest_ctrl_x_bounds(carry: Seq<u8>)
    ensures
        earliest_ctrl_x(carry) matches Some((p, l)) ==> 0 <= p && 1 <= l && p + l <= carry.len(),
{
    lemma_earliest3(carry, seq![CTRL_X], ctrl_x_kitty(), ctrl_x_mok());
}

/// How many bytes to hold back at the end because they may start an escape sequence.
pub open spec fn kept_tail(carry: Seq<u8>) -> int {
    let a = trailing_ctrl_o_spec(carry);
    let b = trailing_ctrl_x_spec(carry);
    if a < b { b } else { a }
}

/// One pass of the relay over the pending input `carry`, with `withheld` the Ctrl+X already read
/// and waiting for its next key. The result is (bytes for the shell, input still pending,
/// Ctrl+X still withheld, return to the panels).
/// - A withheld Ctrl+X followed by `o`/`O` returns; followed by anything else it goes to the shell.
/// - Otherwise the earliest Ctrl+O anywhere in the input returns, after what precedes it.
/// - Otherwise the earliest Ctrl+X: what precedes it goes to the shell; followed by `o`/`O` it
///   returns; at the very end it is withheld; followed by another byte both go to the shell.
/// - Otherwise everything goes to the shell but a tail that may start an escape sequence.
pub open spec fn relay_run(carry: Seq<u8>, withheld: Option<Seq<u8>>) -> (Seq<u8>, Seq<u8>, Option<Seq<u8>>, bool)
    decreases carry.len(), if withheld is Some { 1int } else { 0int },
{
    match withheld {
        Some(wb) => {
            if carry.len() == 0 {
                (Seq::empty(), carry, withheld, false)
            } else if is_o_key(carry[0]) {
                (Seq::empty(), carry.drop_first(), None, true)
            } else {
                let r = relay_run(carry, None);
                (wb + r.0, r.1, r.2, r.3)
            }
        },
        None => match earliest_ctrl_o(carry) {
            Some((pos, len)) => (carry.take(pos), carry.skip(pos + len), None, true),
            None => match earliest_ctrl_x(carry) {
                Some((pos, xl)) => {
                    proof {
                        lemma_earliest_ctrl_x_bounds(carry);
                    }
                    if pos > 0 {
                        let r = relay_run(carry.skip(pos), None);
                        (carry.take(pos) + r.0, r.1, r.2, r.3)
                    } else if carry.len() == xl {
                        (Seq::empty(), Seq::empty(), Some(carry), false)
                    } else if is_o_key(carry[xl]) {
                        (Seq::empty(), carry.skip(xl + 1), None, true)
                    } else {
                        let r = relay_run(carry.skip(xl + 1), None);
                        (carry.take(xl + 1) + r.0, r.1, r.2, r.3)
                    }
                },
                None => {
                    let keep = kept_tail(carry);
                    let f = if keep < carry.len() { carry.len() - keep } else { 0 };
                    (carry.take(f), carry.skip(f), None, false)
                },
            },
        },
    }
}

/// The bytes of an optional buffer.
pub open spec fn opt_bytes(w: Option<Vec<u8>>) -> Option<Seq<u8>> {
    match w {
        Some(v) => Some(v@),
        None => None,
    }
}

/// What one relay pass decided: the bytes to write to the shell, and whether to return to the
/// panels.
pub struct RelayStep {
    pub forward: Vec<u8>,
    pub exit: bool,
}

fn push_all(out: &mut Vec<u8>, src: &[u8])
    ensures
        final(out)@ == old(out)@ + src@,
{
    let mut i: usize = 0;
    while i < src.len()
        invariant
            i <= src@.len(),
            out@ == old(out)@ + src@.take(i as int),
        decreases src@.len() - i,
    {
        out.push(src[i]);
        assert(src@.take(i + 1) =~= src@.take(i as int).push(src@[i as int]));
        i = i + 1;
    }
    assert(src@.take(src@.len() as int) =~= src@);
}

/// Moves the first `n` pending bytes to the end of `out`.
fn move_prefix(out: &mut Vec<u8>, carry: &mut Vec<u8>, n: usize)
    requires
        n <= old(carry)@.len(),
    ensures
        final(out)@ == old(out)@ + old(carry)@.take(n as int),
        final(carry)@ == old(carry)@.skip(n as int),
{
    let rest = carry.split_off(n);
    out.append(carry);
    *carry = rest;
}

/// Feeds a chunk read from the terminal into the relay (see `relay_run`): the pending input and
/// the withheld Ctrl+X are updated, and the bytes for the shell are returned with the decision
/// whether to go back to the panels.
pub fn relay_stdin_chunk(carry: &mut Vec<u8>, chunk: &[u8], chord_withheld: &mut Option<Vec<u8>>) -> (r: RelayStep)
    ensures
        relay_run(old(carry)@ + chunk@, opt_bytes(*old(chord_withheld)))
            == (r.forward@, final(carry)@, opt_bytes(*final(chord_withheld)), r.exit),
{
    push_all(carry, chunk);
    let ghost start = relay_run(carry@, opt_bytes(*chord_withheld));
    let mut out: Vec<u8> = Vec::new();
    loop
        invariant
            start == relay_run(old(carry)@ + chunk@, opt_bytes(*old(chord_withheld))),
            ({
                let cur = relay_run(carry@, opt_bytes(*chord_withheld));
                start == (out@ + cur.0, cur.1, cur.2, cur.3)
            }),
        decreases carry@.len(), if *chord_withheld is Some { 1int } else { 0int },
    {
        let ghost before = relay_run(carry@, opt_bytes(*chord_withheld));
        if chord_withheld.is_some() {
            if carry.len() == 0 {
                assert(out@ + Seq::<u8>::empty() =~= out@);
                return RelayStep { forward: out, exit: false };
            }
            let b0 = carry[0];
            if b0 == 111u8 || b0 == 79u8 {
                let mut dropped: Vec<u8> = Vec::new();
                move_prefix(&mut dropped, carry, 1);
                assert(carry@ =~= before.1);
                *chord_withheld = None;
                assert(out@ + Seq::<u8>::empty() =~= out@);
                return RelayStep { forward: out, exit: true };
            }
            match chord_withheld {
                Some(w) => {
                    push_all(&mut out, w.as_slice());
                },
                None => {},
            }
            *chord_withheld = None;
            proof {
                let cur = relay_run(carry@, None);
                assert(start.0 =~= out@ + cur.0);
            }
            continue;
        }
        let ghost c = carry@;
        match earliest_ctrl_o_in_carry(carry.as_slice()) {
            Some((pos, len)) => {
                proof {
                    lemma_earliest3(c, seq![CTRL_O], ctrl_o_kitty(), ctrl_o_mok());
                }
                move_prefix(&mut out, carry, pos);
                let mut dropped: Vec<u8> = Vec::new();
                move_prefix(&mut dropped, carry, len);
                assert(carry@ =~= c.skip(pos + len));
                return RelayStep { forward: out, exit: true };
            },
            None => {},
        }
        match earliest_ctrl_x_in_carry(carry.as_slice()) {
            Some((pos, xl)) => {
                proof {
                    lemma_earliest_ctrl_x_bounds(c);
                }
                if pos > 0 {
                    move_prefix(&mut out, carry, pos);
                    proof {
                        let cur = relay_run(carry@, None);
                        assert(start.0 =~= out@ + cur.0);
                    }
                    continue;
                }
                if carry.len() == xl {
                    let all = carry.split_off(0);
                    assert(all@ =~= c);
                    *chord_withheld = Some(all);
                    assert(out@ + Seq::<u8>::empty() =~= out@);
                    return RelayStep { forward: out, exit: false };
                }
                let follow = carry[xl];
                if follow == 111u8 || follow == 79u8 {
                    let mut dropped: Vec<u8> = Vec::new();
                    move_prefix(&mut dropped, carry, xl + 1);
                    assert(out@ + Seq::<u8>::empty() =~= out@);
                    return RelayStep { forward: out, exit: true };
                }
                move_prefix(&mut out, carry, xl + 1);
                proof {
                    let cur = relay_run(carry@, None);
                    assert(start.0 =~= out@ + cur.0);
                }
                continue;
            },
            None => {},
        }
        let keep_o = trailing_ctrl_o_prefix_len(carry.as_slice());
        let keep_x = trailing_ctrl_x_prefix_len(carry.as_slice());
        let keep = if keep_o < keep_x { keep_x } else { keep_o };
        let f = if keep < carry.len() { carry.len() - keep } else { 0 };
        move_prefix(&mut out, carry, f);
        return RelayStep { forward: out, exit: false };
    }
}

/// A Ctrl+O as the terminal may send it.
pub open spec fn is_ctrl_o_form(s: Seq<u8>) -> bool {
    s == seq![CTRL_O] || s == ctrl_o_kitty() || s == ctrl_o_mok()
}

/// A Ctrl+X as the terminal may send it.
pub open spec fn is_ctrl_x_form(s: Seq<u8>) -> bool {
    s == seq![CTRL_X] || s == ctrl_x_kitty() || s == ctrl_x_mok()
}

/// The keys that return to the panels: a Ctrl+O, or a Ctrl+X followed by `o` or `O`.
pub open spec fn is_return_chord(t: Seq<u8>) -> bool {
    is_ctrl_o_form(t) || (t.len() > 0 && is_ctrl_x_form(t.drop_last()) && is_o_key(t.last()))
}

/// The relay only ever withholds a Ctrl+X.
pub open spec fn withheld_ok(w: Option<Seq<u8>>) -> bool {
    w matches Some(b) ==> is_ctrl_x_form(b)
}

/// The bytes held back as a pending Ctrl+X, if any.
pub open spec fn held_bytes(w: Option<Seq<u8>>) -> Seq<u8> {
    match w {
        Some(b) => b,
        None => Seq::empty(),
    }
}

/// No byte of `s` is the plain Ctrl+O byte.
pub open spec fn free_of_ctrl_o(s: Seq<u8>) -> bool {
    forall|i: int| 0 <= i < s.len() ==> s[i] != CTRL_O
}

proof fn lemma_ctrl_x_forms_free_of_ctrl_o()
    ensures
        free_of_ctrl_o(seq![CTRL_X]),
        free_of_ctrl_o(ctrl_x_kitty()),
        free_of_ctrl_o(ctrl_x_mok()),
{
    let k = ctrl_x_kitty();
    let m = ctrl_x_mok();
    assert forall|i: int| 0 <= i < k.len() implies k[i] != CTRL_O by {
        assert(k[0] == 27u8 && k[1] == 91u8 && k[2] == 49u8 && k[3] == 50u8);
        assert(k[4] == 48u8 && k[5] == 59u8 && k[6] == 53u8 && k[7] == 117u8);
    }
    assert forall|i: int| 0 <= i < m.len() implies m[i] != CTRL_O by {
        assert(m[0] == 27u8 && m[1] == 91u8 && m[2] == 50u8 && m[3] == 55u8 && m[4] == 59u8);
        assert(m[5] == 53u8 && m[6] == 59u8 && m[7] == 49u8 && m[8] == 50u8 && m[9] == 48u8);
        assert(m[10] == 126u8);
    }
}

proof fn lemma_single_byte_occurs(c: Seq<u8>, b: u8, q: int)
    requires
        0 <= q < c.len(),
    ensures
        occurs_at(c, seq![b], q) <==> c[q] == b,
{
    if c[q] == b {
        assert(c.subrange(q, q + 1) =~= seq![b]);
    }
    if occurs_at(c, seq![b], q) {
        assert(c.subrange(q, q + 1)[0] == c[q]);
    }
}

/// Positions before `p` hold no plain Ctrl+O when the first one is not before `p`.
proof fn lemma_free_before(c: Seq<u8>, p: int)
    requires
        0 <= p <= c.len(),
        first_occurrence(c, seq![CTRL_O]) matches Some(q) ==> p <= q,
    ensures
        free_of_ctrl_o(c.take(p)),
{
    lemma_first_occurrence_bounds(c, seq![CTRL_O]);
    assert forall|i: int| 0 <= i < c.take(p).len() implies c.take(p)[i] != CTRL_O by {
        lemma_single_byte_occurs(c, CTRL_O, i);
    }
}

/// What a relay pass `r` owes to the bytes `input` it was given (the withheld Ctrl+X first, then
/// the pending input): staying in the shell, `input` is exactly the bytes written to the shell,
/// then what is withheld, then what stays pending; returning to the panels, exactly one return
/// chord was taken out between the bytes written and the bytes left pending. No plain Ctrl+O byte
/// is written, and only a Ctrl+X is ever withheld, with nothing pending behind it.
pub open spec fn relay_accounts(input: Seq<u8>, r: (Seq<u8>, Seq<u8>, Option<Seq<u8>>, bool)) -> bool {
    &&& withheld_ok(r.2)
    &&& !r.3 ==> input == r.0 + held_bytes(r.2) + r.1
    &&& r.3 ==> exists|t: Seq<u8>| is_return_chord(t) && input == r.0 + t + r.1
    &&& r.2 is Some ==> r.1.len() == 0 && !r.3
    &&& free_of_ctrl_o(r.0)
}

proof fn lemma_accounts_after_prefix(pre: Seq<u8>, rest: Seq<u8>, q: (Seq<u8>, Seq<u8>, Option<Seq<u8>>, bool))
    requires
        relay_accounts(rest, q),
        free_of_ctrl_o(pre),
    ensures
        relay_accounts(pre + rest, (pre + q.0, q.1, q.2, q.3)),
{
    if q.3 {
        let t = choose|t: Seq<u8>| is_return_chord(t) && rest == q.0 + t + q.1;
        assert(pre + rest =~= (pre + q.0) + t + q.1);
    } else {
        assert(pre + rest =~= (pre + q.0) + held_bytes(q.2) + q.1);
    }
    assert forall|i: int| 0 <= i < (pre + q.0).len() implies (pre + q.0)[i] != CTRL_O by {
        if i < pre.len() {
            assert((pre + q.0)[i] == pre[i]);
        } else {
            assert((pre + q.0)[i] == q.0[i - pre.len()]);
        }
    }
}

proof fn lemma_accounts_return(input: Seq<u8>, fwd: Seq<u8>, t: Seq<u8>, rest: Seq<u8>)
    requires
        input == fwd + t + rest,
        is_return_chord(t),
        free_of_ctrl_o(fwd),
    ensures
        relay_accounts(input, (fwd, rest, None, true)),
{
}

/// Every pass of the relay accounts for every byte it was given (see `relay_accounts`).
pub proof fn law_relay_accounts_for_every_byte(carry: Seq<u8>, withheld: Option<Seq<u8>>)
    requires
        withheld_ok(withheld),
    ensures
        relay_accounts(held_bytes(withheld) + carry, relay_run(carry, withheld)),
    decreases carry.len(), if withheld is Some { 2int } else { 1int },
{
    let r = relay_run(carry, withheld);
    lemma_ctrl_x_forms_free_of_ctrl_o();
    match withheld {
        Some(wb) => {
            if carry.len() == 0 {
                assert(held_bytes(withheld) + carry =~= r.0 + held_bytes(r.2) + r.1);
            } else if is_o_key(carry[0]) {
                let t = wb.push(carry[0]);
                assert(t.drop_last() =~= wb);
                assert(held_bytes(withheld) + carry =~= r.0 + t + r.1);
                lemma_accounts_return(held_bytes(withheld) + carry, r.0, t, r.1);
            } else {
                law_relay_accounts_for_every_byte(carry, None);
                assert(held_bytes(None) + carry =~= carry);
                lemma_accounts_after_prefix(wb, carry, relay_run(carry, None));
            }
        },
        None => {
            assert(held_bytes(withheld) + carry =~= carry);
            lemma_earliest3(carry, seq![CTRL_O], ctrl_o_kitty(), ctrl_o_mok());
            match earliest_ctrl_o(carry) {
                Some((pos, len)) => {
                    let t = carry.subrange(pos, pos + len);
                    assert(is_ctrl_o_form(t));
                    assert(carry =~= r.0 + t + r.1);
                    lemma_free_before(carry, pos);
                    lemma_accounts_return(carry, r.0, t, r.1);
                },
                None => {
                    lemma_free_before(carry, carry.len() as int);
                    assert(carry.take(carry.len() as int) =~= carry);
                    lemma_relay_without_ctrl_o(carry);
                },
            }
        },
    }
}

proof fn lemma_kept_tail_nonneg(carry: Seq<u8>)
    ensures
        0 <= kept_tail(carry),
{
    let m1 = if ctrl_o_kitty().len() - 1 < carry.len() { ctrl_o_kitty().len() - 1 } else { carry.len() as int };
    lemma_trailing_prefix_upto_range(carry, ctrl_o_kitty(), m1);
}

#[verifier::rlimit(40)]
proof fn lemma_relay_without_ctrl_o(carry: Seq<u8>)
    requires
        earliest_ctrl_o(carry) is None,
        free_of_ctrl_o(carry),
    ensures
        relay_accounts(carry, relay_run(carry, None)),
    decreases carry.len(), 0int,
{
    let r = relay_run(carry, None);
    lemma_earliest3(carry, seq![CTRL_X], ctrl_x_kitty(), ctrl_x_mok());
    match earliest_ctrl_x(carry) {
        Some((pos, xl)) => {
            if pos > 0 {
                let rest = carry.skip(pos);
                law_relay_accounts_for_every_byte(rest, None);
                assert(held_bytes(None) + rest =~= rest);
                assert(carry =~= carry.take(pos) + rest);
                assert(free_of_ctrl_o(carry.take(pos)));
                lemma_accounts_after_prefix(carry.take(pos), rest, relay_run(rest, None));
            } else if carry.len() == xl {
                assert(carry.subrange(0, xl) =~= carry);
                assert(is_ctrl_x_form(carry));
                assert(carry =~= r.0 + held_bytes(r.2) + r.1);
            } else if is_o_key(carry[xl]) {
                let t = carry.take(xl + 1);
                assert(t.drop_last() =~= carry.subrange(0, xl));
                assert(carry =~= r.0 + t + r.1);
                lemma_accounts_return(carry, r.0, t, r.1);
            } else {
                let rest = carry.skip(xl + 1);
                law_relay_accounts_for_every_byte(rest, None);
                assert(held_bytes(None) + rest =~= rest);
                assert(carry =~= carry.take(xl + 1) + rest);
                assert(free_of_ctrl_o(carry.take(xl + 1)));
                lemma_accounts_after_prefix(carry.take(xl + 1), rest, relay_run(rest, None));
            }
        },
        None => {
            lemma_kept_tail_nonneg(carry);
            let keep = kept_tail(carry);
            let f = if keep < carry.len() { carry.len() - keep } else { 0 };
            assert(r == (carry.take(f), carry.skip(f), None::<Seq<u8>>, false));
            assert(carry =~= r.0 + held_bytes(r.2) + r.1);
            assert(free_of_ctrl_o(r.0));
        },
    }
}

/// A Ctrl+O byte anywhere in what the user typed always takes them back to the panels.
pub proof fn law_ctrl_o_always_returns(carry: Seq<u8>, withheld: Option<Seq<u8>>, i: int)
    requires
        0 <= i < carry.len(),
        carry[i] == CTRL_O,
    ensures
        relay_run(carry, withheld).3,
{
    lemma_first_occurrence_bounds(carry, seq![CTRL_O]);
    lemma_single_byte_occurs(carry, CTRL_O, i);
    lemma_earliest3(carry, seq![CTRL_O], ctrl_o_kitty(), ctrl_o_mok());
    assert(earliest_ctrl_o(carry) is Some);
    assert(relay_run(carry, None).3);
    if withheld is Some && !is_o_key(carry[0]) {
        assert(relay_run(carry, withheld).3 == relay_run(carry, None).3);
    }
}

/// ASCII upper-case letters lowered; every other byte unchanged.
pub open spec fn ascii_lower(b: u8) -> u8 {
    if 65u8 <= b <= 90u8 {
        (b + 32) as u8
    } else {
        b
    }
}

/// Lowers an ASCII upper-case letter.
pub fn ascii_lower_byte(b: u8) -> (r: u8)
    ensures
        r == ascii_lower(b),
{
    if 65u8 <= b && b <= 90u8 {
        b + 32
    } else {
        b
    }
}

/// `needle_lower` stands at `i` in `hay` once `hay` is lowered.
pub open spec fn matches_ci_at(hay: Seq<u8>, needle_lower: Seq<u8>, i: int) -> bool {
    0 <= i && i + needle_lower.len() <= hay.len()
        && forall|j: int| 0 <= j < needle_lower.len() ==> #[trigger] ascii_lower(hay[i + j]) == needle_lower[j]
}

/// The lowered `hay` holds `needle_lower` somewhere (an empty needle is always held).
pub open spec fn contains_ci(hay: Seq<u8>, needle_lower: Seq<u8>) -> bool {
    needle_lower.len() == 0 || exists|i: int| matches_ci_at(hay, needle_lower, i)
}

/// Whether `haystack`, read with ASCII letters lowered, contains `needle_lower`.
pub fn bytes_contains_ascii_ci(haystack: &[u8], needle_lower: &[u8]) -> (r: bool)
    ensures
        r == contains_ci(haystack@, needle_lower@),
{
    let n = needle_lower.len();
    let h = haystack.len();
    if n == 0 {
        return true;
    }
    if h < n {
        proof {
            assert forall|i: int| !matches_ci_at(haystack@, needle_lower@, i) by {}
        }
        return false;
    }
    let mut i: usize = 0;
    while i <= h - n
        invariant
            n == needle_lower@.len(),
            h == haystack@.len(),
            0 < n <= h,
            i <= h - n + 1,
            forall|k: int| 0 <= k < i ==> !matches_ci_at(haystack@, needle_lower@, k),
        decreases h - n + 1 - i,
    {
        let mut j: usize = 0;
        let mut same = true;
        while j < n
            invariant
                n == needle_lower@.len(),
                h == haystack@.len(),
                i + n <= h,
                j <= n,
                same == forall|t: int| 0 <= t < j ==> #[trigger] ascii_lower(haystack@[i + t]) == needle_lower@[t],
            decreases n - j,
        {
            if ascii_lower_byte(haystack[i + j]) != needle_lower[j] {
                same = false;
            }
            j = j + 1;
        }
        if same {
            assert(matches_ci_at(haystack@, needle_lower@, i as int));
            return true;
        }
        i = i + 1;
    }
    proof {
        assert forall|k: int| !matches_ci_at(haystack@, needle_lower@, k) by {
            if 0 <= k < i {
            }
        }
    }
    false
}

/// `[sudo] password`
pub open spec fn sudo_prompt_needle() -> Seq<u8> {
    seq![91u8, 115u8, 117u8, 100u8, 111u8, 93u8, 32u8, 112u8, 97u8, 115u8, 115u8, 119u8, 111u8, 114u8, 100u8]
}

/// `password for `
pub open spec fn password_for_needle() -> Seq<u8> {
    seq![112u8, 97u8, 115u8, 115u8, 119u8, 111u8, 114u8, 100u8, 32u8, 102u8, 111u8, 114u8, 32u8]
}

/// `password:`
pub open spec fn password_colon_needle() -> Seq<u8> {
    seq![112u8, 97u8, 115u8, 115u8, 119u8, 111u8, 114u8, 100u8, 58u8]
}

/// Whether the recent shell output shows a `sudo` password prompt (letter case ignored).
pub fn pty_tail_has_sudo_password_prompt(tail: &[u8]) -> (r: bool)
    ensures
        r == (contains_ci(tail@, sudo_prompt_needle()) || contains_ci(tail@, password_for_needle())
            || contains_ci(tail@, password_colon_needle())),
{
    let a = vec![91u8, 115u8, 117u8, 100u8, 111u8, 93u8, 32u8, 112u8, 97u8, 115u8, 115u8, 119u8, 111u8, 114u8, 100u8];
    let b = vec![112u8, 97u8, 115u8, 115u8, 119u8, 111u8, 114u8, 100u8, 32u8, 102u8, 111u8, 114u8, 32u8];
    let c = vec![112u8, 97u8, 115u8, 115u8, 119u8, 111u8, 114u8, 100u8, 58u8];
    assert(a@ =~= sudo_prompt_needle());
    assert(b@ =~= password_for_needle());
    assert(c@ =~= password_colon_needle());
    bytes_contains_ascii_ci(tail, a.as_slice()) || bytes_contains_ascii_ci(tail, b.as_slice())
        || bytes_contains_ascii_ci(tail, c.as_slice())
}

/// Each single quote of the text written as `'"'"'` (close quote, quoted quote, reopen).
pub open spec fn escape_single_quotes(s: Seq<char>) -> Seq<char>
    decreases s.len(),
{
    if s.len() == 0 {
        Seq::empty()
    } else {
        escape_single_quotes(s.drop_last()) + (if s.last() == '\'' {
            seq!['\'', '"', '\'', '"', '\'']
        } else {
            seq![s.last()]
        })
    }
}

/// The text as one single-quoted shell word.
pub open spec fn shell_quoted(s: Seq<char>) -> Seq<char> {
    seq!['\''] + escape_single_quotes(s) + seq!['\'']
}

/// Quotes a path for the shell line, so spaces and special characters stay literal.
pub fn shell_escape_path(path: &str) -> (r: String)
    ensures
        r@ == shell_quoted(path@),
{
    let mut out = String::new();
    string_push(&mut out, '\'');
    let n = path.unicode_len();
    let mut i: usize = 0;
    while i < n
        invariant
            n == path@.len(),
            i <= n,
            out@ == seq!['\''] + escape_single_quotes(path@.take(i as int)),
        decreases n - i,
    {
        let c = path.get_char(i);
        if c == '\'' {
            string_push(&mut out, '\'');
            string_push(&mut out, '"');
            string_push(&mut out, '\'');
            string_push(&mut out, '"');
            string_push(&mut out, '\'');
        } else {
            string_push(&mut out, c);
        }
        proof {
            let t = path@.take(i + 1);
            assert(t.drop_last() =~= path@.take(i as int));
            assert(t.last() == c);
        }
        i = i + 1;
    }
    string_push(&mut out, '\'');
    assert(path@.take(n as int) =~= path@);
    out
}

/// ASCII upper-case letters lowered; every other character unchanged.
pub open spec fn ascii_lower_char(c: char) -> char {
    if 'A' <= c <= 'Z' {
        ((c as u32) + 32) as char
    } else {
        c
    }
}

/// The text with its ASCII letters lowered.
pub open spec fn ascii_lowered(s: Seq<char>) -> Seq<char> {
    s.map_values(|c: char| ascii_lower_char(c))
}

/// `s` begins with `p`.
pub open spec fn starts_with_seq(s: Seq<char>, p: Seq<char>) -> bool {
    p.len() <= s.len() && s.take(p.len() as int) == p
}

/// `p` stands somewhere in `s`.
pub open spec fn contains_seq(s: Seq<char>, p: Seq<char>) -> bool {
    exists|i: int| occurs_at(s, p, i)
}

/// `sudo `
pub open spec fn lit_sudo_sp() -> Seq<char> {
    seq!['s', 'u', 'd', 'o', ' ']
}

/// `sudo`
pub open spec fn lit_sudo() -> Seq<char> {
    seq!['s', 'u', 'd', 'o']
}

/// ` -s`
pub open spec fn lit_dash_s() -> Seq<char> {
    seq![' ', '-', 's']
}

/// ` -i`
pub open spec fn lit_dash_i() -> Seq<char> {
    seq![' ', '-', 'i']
}

/// ` -si`
pub open spec fn lit_dash_si() -> Seq<char> {
    seq![' ', '-', 's', 'i']
}

/// `sudo su`
pub open spec fn lit_sudo_su() -> Seq<char> {
    seq!['s', 'u', 'd', 'o', ' ', 's', 'u']
}

/// `sudo -s`
pub open spec fn lit_sudo_dash_s() -> Seq<char> {
    seq!['s', 'u', 'd', 'o', ' ', '-', 's']
}

/// `sudo -i`
pub open spec fn lit_sudo_dash_i() -> Seq<char> {
    seq!['s', 'u', 'd', 'o', ' ', '-', 'i']
}

/// Whether a command line starts an interactive root shell through `sudo` (`sudo -s`, `sudo -i`,
/// `sudo su`, ...), judged on the trimmed line with ASCII letters lowered.
pub open spec fn allocates_interactive_sudo_shell(cmd: Seq<char>) -> bool {
    let low = ascii_lowered(trim_of(cmd));
    (starts_with_seq(low, lit_sudo_sp()) || low == lit_sudo()) && (contains_seq(low, lit_dash_s())
        || contains_seq(low, lit_dash_i()) || contains_seq(low, lit_dash_si())
        || starts_with_seq(low, lit_sudo_su()) || low == lit_sudo_dash_s() || low == lit_sudo_dash_i())
}

fn lit_sudo_sp_vec() -> (r: Vec<char>)
    ensures
        r@ == lit_sudo_sp(),
{
    let r = vec!['s', 'u', 'd', 'o', ' '];
    assert(r@ =~= lit_sudo_sp());
    r
}

fn lit_sudo_vec() -> (r: Vec<char>)
    ensures
        r@ == lit_sudo(),
{
    let r = vec!['s', 'u', 'd', 'o'];
    assert(r@ =~= lit_sudo());
    r
}

fn lit_dash_s_vec() -> (r: Vec<char>)
    ensures
        r@ == lit_dash_s(),
{
    let r = vec![' ', '-', 's'];
    assert(r@ =~= lit_dash_s());
    r
}

fn lit_dash_i_vec() -> (r: Vec<char>)
    ensures
        r@ == lit_dash_i(),
{
    let r = vec![' ', '-', 'i'];
    assert(r@ =~= lit_dash_i());
    r
}

fn lit_dash_si_vec() -> (r: Vec<char>)
    ensures
        r@ == lit_dash_si(),
{
    let r = vec![' ', '-', 's', 'i'];
    assert(r@ =~= lit_dash_si());
    r
}

fn lit_sudo_su_vec() -> (r: Vec<char>)
    ensures
        r@ == lit_sudo_su(),
{
    let r = vec!['s', 'u', 'd', 'o', ' ', 's', 'u'];
    assert(r@ =~= lit_sudo_su());
    r
}

fn lit_sudo_dash_s_vec() -> (r: Vec<char>)
    ensures
        r@ == lit_sudo_dash_s(),
{
    let r = vec!['s', 'u', 'd', 'o', ' ', '-', 's'];
    assert(r@ =~= lit_sudo_dash_s());
    r
}

fn lit_sudo_dash_i_vec() -> (r: Vec<char>)
    ensures
        r@ == lit_sudo_dash_i(),
{
    let r = vec!['s', 'u', 'd', 'o', ' ', '-', 'i'];
    assert(r@ =~= lit_sudo_dash_i());
    r
}

fn lower_char(c: char) -> (r: char)
    ensures
        r == ascii_lower_char(c),
{
    if 'A' <= c && c <= 'Z' {
        let v: u32 = (c as u32) + 32;
        let b: u8 = v as u8;
        assert(b as u32 == v);
        b as char
    } else {
        c
    }
}

pub(crate) fn lower_chars(s: &str) -> (r: Vec<char>)
    ensures
        r@ == ascii_lowered(s@),
{
    let n = s.unicode_len();
    let mut out: Vec<char> = Vec::new();
    let mut i: usize = 0;
    while i < n
        invariant
            n == s@.len(),
            i <= n,
            out@ == ascii_lowered(s@.take(i as int)),
        decreases n - i,
    {
        out.push(lower_char(s.get_char(i)));
        assert(ascii_lowered(s@.take(i + 1)) =~= ascii_lowered(s@.take(i as int)).push(ascii_lower_char(s@[i as int])));
        i = i + 1;
    }
    assert(s@.take(n as int) =~= s@);
    out
}

/// The characters of a text, in order.
pub(crate) fn str_chars(s: &str) -> (r: Vec<char>)
    ensures
        r@ == s@,
{
    let n = s.unicode_len();
    let mut out: Vec<char> = Vec::new();
    let mut i: usize = 0;
    while i < n
        invariant
            n == s@.len(),
            i <= n,
            out@ == s@.take(i as int),
        decreases n - i,
    {
        out.push(s.get_char(i));
        assert(s@.take(i + 1) =~= s@.take(i as int).push(s@[i as int]));
        i = i + 1;
    }
    assert(s@.take(n as int) =~= s@);
    out
}

pub(crate) fn chars_match_at(s: &Vec<char>, p: &Vec<char>, at: usize) -> (r: bool)
    requires
        at + p@.len() <= s@.len(),
    ensures
        r == occurs_at(s@, p@, at as int),
{
    let sl = s.len();
    let mut j: usize = 0;
    while j < p.len()
        invariant
            sl == s@.len(),
            at + p@.len() <= s@.len(),
            j <= p@.len(),
            forall|t: int| 0 <= t < j ==> s@[at + t] == p@[t],
        decreases p@.len() - j,
    {
        if s[at + j] != p[j] {
            proof {
                assert(s@.subrange(at as int, at + p@.len())[j as int] == s@[at + j]);
            }
            return false;
        }
        j = j + 1;
    }
    assert(s@.subrange(at as int, at + p@.len()) =~= p@);
    true
}

fn chars_equal(s: &Vec<char>, p: &Vec<char>) -> (r: bool)
    ensures
        r == (s@ == p@),
{
    if s.len() != p.len() {
        return false;
    }
    let r = chars_match_at(s, p, 0);
    assert(s@.subrange(0, p@.len() as int) =~= s@);
    r
}

fn chars_starts_with(s: &Vec<char>, p: &Vec<char>) -> (r: bool)
    ensures
        r == starts_with_seq(s@, p@),
{
    if p.len() > s.len() {
        return false;
    }
    let r = chars_match_at(s, p, 0);
    assert(s@.subrange(0, p@.len() as int) =~= s@.take(p@.len() as int));
    r
}

pub(crate) fn chars_contains(s: &Vec<char>, p: &Vec<char>) -> (r: bool)
    ensures
        r == contains_seq(s@, p@),
{
    if p.len() > s.len() {
        return false;
    }
    if p.len() == 0 {
        assert(s@.subrange(0, 0) =~= p@);
        assert(occurs_at(s@, p@, 0));
        return true;
    }
    let sl = s.len();
    let mut i: usize = 0;
    while i <= sl - p.len()
        invariant
            sl == s@.len(),
            0 < p@.len() <= s@.len(),
            i <= s@.len() - p@.len() + 1,
            forall|k: int| 0 <= k < i ==> !occurs_at(s@, p@, k),
        decreases s@.len() - p@.len() + 1 - i,
    {
        if chars_match_at(s, p, i) {
            return true;
        }
        i = i + 1;
    }
    false
}

/// Whether the command starts an interactive `sudo` root shell (see
/// `allocates_interactive_sudo_shell`); such commands get the early return to the panels.
pub fn cmd_allocates_interactive_sudo_shell(cmd: &str) -> (r: bool)
    ensures
        r == allocates_interactive_sudo_shell(cmd@),
{
    let low = lower_chars(str_trim(cmd));
    if !(chars_starts_with(&low, &lit_sudo_sp_vec()) || chars_equal(&low, &lit_sudo_vec())) {
        return false;
    }
    chars_contains(&low, &lit_dash_s_vec()) || chars_contains(&low, &lit_dash_i_vec())
        || chars_contains(&low, &lit_dash_si_vec()) || chars_starts_with(&low, &lit_sudo_su_vec())
        || chars_equal(&low, &lit_sudo_dash_s_vec()) || chars_equal(&low, &lit_sudo_dash_i_vec())
}

/// How a relay session ended.
#[derive(Debug, Clone, Copy, PartialEq, Eq)]
pub enum RelayExit {
    /// The user returned (Ctrl+O, or Ctrl+X then O), input closed, or no automatic return applied.
    Manual,
    /// The command finished (or was interrupted): panels come back after this countdown.
    AutoReopenDelay(std::time::Duration),
}

/// Most bytes of recent shell output kept for spotting a password prompt.
pub const SCAN_CAP: usize = 65536;

/// Milliseconds to wait after the password was submitted before probing for a root shell.
pub const AFTER_PASSWORD_SUBMIT_MS: u64 = 550;

/// Milliseconds after the relay started before probing when no password was asked.
pub const NOPASS_BEFORE_POLL_MS: u64 = 900;

/// Milliseconds between two probes.
pub const POLL_INTERVAL_MS: u64 = 200;

/// Consecutive root probes needed before returning to the panels.
pub const ROOT_STREAK: u32 = 2;

/// Early return to the panels for an interactive `sudo` shell: waits until the password (if one
/// is asked) was submitted, then probes every so often whether the shell runs as root, and
/// returns after enough consecutive positive probes. Times are milliseconds on one clock.
pub struct SudoEarlyPanelReopen {
    pub scan_tail: Vec<u8>,
    pub password_prompt_seen: bool,
    pub password_submit_at: Option<u64>,
    pub relay_started_at: u64,
    pub last_poll_at: Option<u64>,
    pub root_streak: u32,
}

/// Whether a chunk typed by the user holds a line end.
pub open spec fn has_line_end(chunk: Seq<u8>) -> bool {
    exists|i: int| 0 <= i < chunk.len() && (chunk[i] == 10u8 || chunk[i] == 13u8)
}

/// Whether enough time has passed for a probe, ignoring the probe interval.
pub open spec fn may_poll_spec(se: SudoEarlyPanelReopen, now: u64) -> bool {
    if se.password_prompt_seen {
        se.password_submit_at matches Some(t) && now >= t && now - t >= AFTER_PASSWORD_SUBMIT_MS
    } else {
        now >= se.relay_started_at && now - se.relay_started_at >= NOPASS_BEFORE_POLL_MS
    }
}

/// Whether a probe is due now: allowed by `may_poll_spec` and not within the probe interval.
pub open spec fn poll_due_spec(se: SudoEarlyPanelReopen, now: u64) -> bool {
    may_poll_spec(se, now) && match se.last_poll_at {
        Some(t) => (if now >= t { now - t } else { 0 }) >= POLL_INTERVAL_MS,
        None => true,
    }
}

impl SudoEarlyPanelReopen {
    pub open spec fn wf(&self) -> bool {
        self.scan_tail@.len() <= SCAN_CAP
    }

    /// A fresh gate for a relay that starts at `now`.
    pub fn new(now: u64) -> (r: Self)
        ensures
            r.wf(),
            r.scan_tail@.len() == 0,
            !r.password_prompt_seen,
            r.password_submit_at is None,
            r.relay_started_at == now,
            r.last_poll_at is None,
            r.root_streak == 0,
    {
        SudoEarlyPanelReopen {
            scan_tail: Vec::new(),
            password_prompt_seen: false,
            password_submit_at: None,
            relay_started_at: now,
            last_poll_at: None,
            root_streak: 0,
        }
    }

    /// The user typed `chunk` at `now`: a line end after the password prompt marks the password
    /// as submitted (only the first time).
    pub fn note_stdin(&mut self, chunk: &[u8], now: u64)
        ensures
            final(self).password_submit_at == (if old(self).password_prompt_seen
                && old(self).password_submit_at is None && has_line_end(chunk@) {
                Some(now)
            } else {
                old(self).password_submit_at
            }),
            final(self).scan_tail == old(self).scan_tail,
            final(self).password_prompt_seen == old(self).password_prompt_seen,
            final(self).relay_started_at == old(self).relay_started_at,
            final(self).last_poll_at == old(self).last_poll_at,
            final(self).root_streak == old(self).root_streak,
    {
        if self.password_prompt_seen && self.password_submit_at.is_none() {
            let mut i: usize = 0;
            let mut found = false;
            while i < chunk.len()
                invariant
                    i <= chunk@.len(),
                    found == exists|k: int| 0 <= k < i && (chunk@[k] == 10u8 || chunk@[k] == 13u8),
                decreases chunk@.len() - i,
            {
                if chunk[i] == 10u8 || chunk[i] == 13u8 {
                    found = true;
                }
                i = i + 1;
            }
            if found {
                self.password_submit_at = Some(now);
            }
        }
    }

    /// The shell printed `bytes`: they join the scanned tail, of which only the last
    /// `SCAN_CAP` bytes are kept; a password prompt in it is remembered.
    pub fn note_pty_output(&mut self, bytes: &[u8])
        requires
            old(self).wf(),
        ensures
            final(self).wf(),
            ({
                let all = old(self).scan_tail@ + bytes@;
                final(self).scan_tail@ == (if all.len() > SCAN_CAP { all.skip(all.len() - SCAN_CAP) } else { all })
            }),
            final(self).password_prompt_seen == (old(self).password_prompt_seen
                || contains_ci(final(self).scan_tail@, sudo_prompt_needle())
                || contains_ci(final(self).scan_tail@, password_for_needle())
                || contains_ci(final(self).scan_tail@, password_colon_needle())),
            final(self).password_submit_at == old(self).password_submit_at,
            final(self).relay_started_at == old(self).relay_started_at,
            final(self).last_poll_at == old(self).last_poll_at,
            final(self).root_streak == old(self).root_streak,
    {
        let mut all: Vec<u8> = Vec::new();
        push_all(&mut all, self.scan_tail.as_slice());
        push_all(&mut all, bytes);
        let len = all.len();
        if len > SCAN_CAP {
            let mut dropped: Vec<u8> = Vec::new();
            move_prefix(&mut dropped, &mut all, len - SCAN_CAP);
        }
        self.scan_tail = all;
        if !self.password_prompt_seen && pty_tail_has_sudo_password_prompt(self.scan_tail.as_slice()) {
            self.password_prompt_seen = true;
        }
    }

    /// Whether a root probe is due at `now` (see `poll_due_spec`); when it is, `now` is recorded
    /// as the last probe time. No probe is due while a password was asked and not yet submitted.
    pub fn poll_due(&mut self, now: u64) -> (r: bool)
        ensures
            r == poll_due_spec(*old(self), now),
            old(self).password_prompt_seen && old(self).password_submit_at is None ==> !r,
            final(self).last_poll_at == (if r { Some(now) } else { old(self).last_poll_at }),
            final(self).scan_tail == old(self).scan_tail,
            final(self).password_prompt_seen == old(self).password_prompt_seen,
            final(self).password_submit_at == old(self).password_submit_at,
            final(self).relay_started_at == old(self).relay_started_at,
            final(self).root_streak == old(self).root_streak,
    {
        let may_poll = if self.password_prompt_seen {
            match self.password_submit_at {
                Some(t) => now >= t && now - t >= AFTER_PASSWORD_SUBMIT_MS,
                None => false,
            }
        } else {
            now >= self.relay_started_at && now - self.relay_started_at >= NOPASS_BEFORE_POLL_MS
        };
        if !may_poll {
            return false;
        }
        let interval_ok = match self.last_poll_at {
            Some(t) => (if now >= t { now - t } else { 0 }) >= POLL_INTERVAL_MS,
            None => true,
        };
        if !interval_ok {
            return false;
        }
        self.last_poll_at = Some(now);
        true
    }

    /// Records a probe's answer and says whether to return to the panels: a positive probe
    /// extends the streak (saturating), a negative one resets it; return once the streak
    /// reaches `ROOT_STREAK`.
    pub fn record_probe(&mut self, is_root: bool) -> (exit: bool)
        ensures
            final(self).root_streak == (if is_root {
                if old(self).root_streak == u32::MAX { u32::MAX } else { (old(self).root_streak + 1) as u32 }
            } else {
                0
            }),
            exit == (final(self).root_streak >= ROOT_STREAK),
            final(self).scan_tail == old(self).scan_tail,
            final(self).password_prompt_seen == old(self).password_prompt_seen,
            final(self).password_submit_at == old(self).password_submit_at,
            final(self).relay_started_at == old(self).relay_started_at,
            final(self).last_poll_at == old(self).last_poll_at,
    {
        if is_root {
            self.root_streak = self.root_streak.saturating_add(1);
        } else {
            self.root_streak = 0;
        }
        self.root_streak >= ROOT_STREAK
    }
}

/// Where the completion marker first stands in the shell output: its CR LF form, else its LF
/// form.
pub open spec fn marker_position(pending: Seq<u8>, completion_lf: Seq<u8>, completion_crlf: Seq<u8>) -> Option<int> {
    match first_occurrence(pending, completion_crlf) {
        Some(m) => Some(m),
        None => first_occurrence(pending, completion_lf),
    }
}

/// Bytes held back at the end of the output: one less than the longer marker form, so a marker
/// split across reads is not shown early.
pub open spec fn marker_tail(completion_lf: Seq<u8>, completion_crlf: Seq<u8>) -> int {
    let m = if completion_lf.len() < completion_crlf.len() { completion_crlf.len() } else { completion_lf.len() };
    if m >= 1 { m - 1 } else { 0 }
}

/// One pass over the pending shell output when a command's end is found by a marker it prints:
/// the echo of the helper line is cut out wherever it comes before the marker; at the marker
/// everything before it is shown, the rest dropped and the command is done; without a marker all
/// but a short tail is shown. The result is (bytes to show, bytes still pending, done).
pub open spec fn marker_run(pending: Seq<u8>, completion_lf: Seq<u8>, completion_crlf: Seq<u8>, helper_echo: Seq<u8>) -> (Seq<u8>, Seq<u8>, bool)
    decreases pending.len(),
{
    let echo = first_occurrence(pending, helper_echo);
    let done = marker_position(pending, completion_lf, completion_crlf);
    match echo {
        Some(e) => {
            proof {
                lemma_first_occurrence_bounds(pending, helper_echo);
            }
            match done {
                Some(m) if !(e < m) => (pending.take(m), Seq::empty(), true),
                _ => {
                    let r = marker_run(pending.skip(e + helper_echo.len()), completion_lf, completion_crlf, helper_echo);
                    (pending.take(e) + r.0, r.1, r.2)
                },
            }
        },
        None => match done {
            Some(m) => (pending.take(m), Seq::empty(), true),
            None => {
                let keep = marker_tail(completion_lf, completion_crlf);
                if pending.len() > keep {
                    (pending.take(pending.len() - keep), pending.skip(pending.len() - keep), false)
                } else {
                    (Seq::empty(), pending, false)
                }
            },
        },
    }
}

proof fn lemma_marker_run_done_empties(pending: Seq<u8>, completion_lf: Seq<u8>, completion_crlf: Seq<u8>, helper_echo: Seq<u8>)
    ensures
        ({
            let r = marker_run(pending, completion_lf, completion_crlf, helper_echo);
            &&& r.2 ==> r.1.len() == 0
            &&& !r.2 ==> r.1.len() <= marker_tail(completion_lf, completion_crlf)
        }),
    decreases pending.len(),
{
    lemma_first_occurrence_bounds(pending, helper_echo);
    if let Some(e) = first_occurrence(pending, helper_echo) {
        let done = marker_position(pending, completion_lf, completion_crlf);
        if !(done matches Some(m) && !(e < m)) {
            lemma_marker_run_done_empties(pending.skip(e + helper_echo.len()), completion_lf, completion_crlf, helper_echo);
        }
    }
}

/// Appends a chunk of shell output to what is pending and returns what to show (see
/// `marker_run`) and whether the command's end marker was seen. Once it was, nothing stays
/// pending; otherwise at most the marker's length less one byte does.
pub fn write_pty_chunk_without_marker(
    pending: &mut Vec<u8>,
    chunk: &[u8],
    completion_lf: &[u8],
    completion_crlf: &[u8],
    helper_echo: &[u8],
) -> (r: (Vec<u8>, bool))
    ensures
        marker_run(old(pending)@ + chunk@, completion_lf@, completion_crlf@, helper_echo@) == (r.0@, final(pending)@, r.1),
        r.1 ==> final(pending)@.len() == 0,
        !r.1 ==> final(pending)@.len() <= marker_tail(completion_lf@, completion_crlf@),
{
    push_all(pending, chunk);
    let ghost start = marker_run(pending@, completion_lf@, completion_crlf@, helper_echo@);
    proof {
        lemma_marker_run_done_empties(pending@, completion_lf@, completion_crlf@, helper_echo@);
    }
    let mut out: Vec<u8> = Vec::new();
    loop
        invariant
            start == marker_run(old(pending)@ + chunk@, completion_lf@, completion_crlf@, helper_echo@),
            ({
                let cur = marker_run(pending@, completion_lf@, completion_crlf@, helper_echo@);
                start == (out@ + cur.0, cur.1, cur.2)
            }),
        decreases pending@.len(),
    {
        let ghost p = pending@;
        let echo_pos = find_subsequence(pending.as_slice(), helper_echo);
        let done_pos = match find_subsequence(pending.as_slice(), completion_crlf) {
            Some(m) => Some(m),
            None => find_subsequence(pending.as_slice(), completion_lf),
        };
        proof {
            lemma_first_occurrence_bounds(p, helper_echo@);
            lemma_first_occurrence_bounds(p, completion_crlf@);
            lemma_first_occurrence_bounds(p, completion_lf@);
        }
        match echo_pos {
            Some(e) => {
                let marker_first = match done_pos {
                    Some(m) => !(e < m),
                    None => false,
                };
                if !marker_first {
                    move_prefix(&mut out, pending, e);
                    let mut dropped: Vec<u8> = Vec::new();
                    move_prefix(&mut dropped, pending, helper_echo.len());
                    proof {
                        assert(pending@ =~= p.skip(e + helper_echo@.len()));
                        let cur = marker_run(pending@, completion_lf@, completion_crlf@, helper_echo@);
                        assert(start.0 =~= out@ + cur.0);
                    }
                    continue;
                }
            },
            None => {},
        }
        match done_pos {
            Some(m) => {
                move_prefix(&mut out, pending, m);
                pending.clear();
                assert(out@ + Seq::<u8>::empty() =~= out@);
                return (out, true);
            },
            None => {},
        }
        let lf = completion_lf.len();
        let crlf = completion_crlf.len();
        let longest = if lf < crlf { crlf } else { lf };
        let keep = if longest >= 1 { longest - 1 } else { 0 };
        if pending.len() > keep {
            let flush = pending.len() - keep;
            move_prefix(&mut out, pending, flush);
        } else {
            assert(out@ + Seq::<u8>::empty() =~= out@);
        }
        return (out, false);
    }
}

/// What is shown of the pending output when the relay ends: everything before the helper
/// echo when it is there, else everything.
pub open spec fn flushed_without_marker(pending: Seq<u8>, helper_echo: Seq<u8>) -> Seq<u8> {
    match first_occurrence(pending, helper_echo) {
        Some(p) => pending.take(p),
        None => pending,
    }
}

/// Empties the pending output, returning what to show (see `flushed_without_marker`).
pub fn flush_pty_pending_without_marker(pending: &mut Vec<u8>, helper_echo: &[u8]) -> (r: Vec<u8>)
    ensures
        r@ == flushed_without_marker(old(pending)@, helper_echo@),
        final(pending)@.len() == 0,
{
    let mut out: Vec<u8> = Vec::new();
    match find_subsequence(pending.as_slice(), helper_echo) {
        Some(pos) => {
            proof {
                lemma_first_occurrence_bounds(pending@, helper_echo@);
            }
            move_prefix(&mut out, pending, pos);
        },
        None => {
            let n = pending.len();
            move_prefix(&mut out, pending, n);
            assert(out@ =~= old(pending)@);
        },
    }
    pending.clear();
    out
}

} // verus!
