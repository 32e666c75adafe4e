//! Character-sequence algorithms used by the formatting and reporting code.
//!
//! Text is handled as `Vec<char>` so that every transformation can be stated
//! and proved over `Seq<char>`; conversion to and from `String` happens at the
//! edges.

use vstd::prelude::*;
use vstd::string::StrSliceExecFns;

verus! {

/// Relies on `String::push`: appends one character to the end of the string.
#[verifier::external_body]
pub fn push_char(s: &mut String, c: char)
    ensures
        final(s)@ == old(s)@ + seq![c],
{
    s.push(c);
}

/// The characters of a string slice, in order.
pub fn chars_of(s: &str) -> (r: Vec<char>)
    ensures
        r@ == s@,
{
    let len = s.unicode_len();
    let mut r: Vec<char> = Vec::new();
    let mut i: usize = 0;
    while i < len
        invariant
            i <= len,
            len == s@.len(),
            r@ == s@.take(i as int),
        decreases len - i,
    {
        r.push(s.get_char(i));
        proof {
            assert(r@ =~= s@.take(i + 1));
        }
        i = i + 1;
    }
    proof {
        assert(s@.take(len as int) =~= s@);
    }
    r
}

/// The string holding exactly the given characters.
pub fn string_of(v: &Vec<char>) -> (r: String)
    ensures
        r@ == v@,
{
    let mut r = String::new();
    let mut i: usize = 0;
    while i < v.len()
        invariant
            i <= v@.len(),
            r@ == v@.take(i as int),
        decreases v@.len() - i,
    {
        push_char(&mut r, v[i]);
        proof {
            assert(r@ =~= v@.take(i + 1));
        }
        i = i + 1;
    }
    proof {
        assert(v@.take(v@.len() as int) =~= v@);
    }
    r
}

/// Appends all characters of `src` to `dst`.
pub fn append_chars(dst: &mut Vec<char>, src: &Vec<char>)
    ensures
        final(dst)@ == old(dst)@ + src@,
{
    let mut i: usize = 0;
    while i < src.len()
        invariant
            i <= src@.len(),
            dst@ == old(dst)@ + src@.take(i as int),
        decreases src@.len() - i,
    {
        dst.push(src[i]);
        proof {
            assert(dst@ =~= old(dst)@ + src@.take(i + 1));
        }
        i = i + 1;
    }
    proof {
        assert(old(dst)@ + src@.take(src@.len() as int) =~= old(dst)@ + src@);
    }
}

/// True when the characters of `needle` stand in `hay` at position `at`.
pub fn matches_at(hay: &Vec<char>, at: usize, needle: &Vec<char>) -> (r: bool)
    requires
        at + needle@.len() <= hay@.len(),
    ensures
        r == (hay@.subrange(at as int, at + needle@.len()) == needle@),
{
    let mut i: usize = 0;
    while i < needle.len()
        invariant
            i <= needle@.len(),
            at + needle@.len() <= hay@.len(),
            forall|j: int| 0 <= j < i ==> hay@[at + j] == needle@[j],
        decreases needle@.len() - i,
    {
        proof {
            assert(hay.len() == hay@.len());
            assert(at + i < hay@.len());
        }
        if hay[at + i] != needle[i] {
            proof {
                assert(hay@.subrange(at as int, at + needle@.len())[i as int] != needle@[i as int]);
            }
            return false;
        }
        i = i + 1;
    }
    proof {
        assert(hay@.subrange(at as int, at + needle@.len()) =~= needle@);
    }
    true
}

/// Every occurrence of `from` in `s`, scanned from the left without overlap,
/// replaced by `to`; `s` unchanged when `from` is empty.
pub open spec fn replace_seq(s: Seq<char>, from: Seq<char>, to: Seq<char>) -> Seq<char>
    decreases s.len(),
{
    if from.len() == 0 || s.len() < from.len() {
        s
    } else if s.take(from.len() as int) == from {
        to + replace_seq(s.skip(from.len() as int), from, to)
    } else {
        seq![s[0]] + replace_seq(s.skip(1), from, to)
    }
}

pub fn replace_all(hay: &Vec<char>, from: &Vec<char>, to: &Vec<char>) -> (r: Vec<char>)
    ensures
        r@ == replace_seq(hay@, from@, to@),
{
    let mut r: Vec<char> = Vec::new();
    if from.len() == 0 {
        append_chars(&mut r, hay);
        return r;
    }
    let mut i: usize = 0;
    proof {
        assert(hay@.skip(0) =~= hay@);
        assert(Seq::<char>::empty() + replace_seq(hay@, from@, to@) =~= replace_seq(
            hay@,
            from@,
            to@,
        ));
    }
    while i < hay.len()
        invariant
            i <= hay@.len(),
            from@.len() > 0,
            replace_seq(hay@, from@, to@) == r@ + replace_seq(hay@.skip(i as int), from@, to@),
        decreases hay@.len() - i,
    {
        let ghost rest = hay@.skip(i as int);
        if from.len() <= hay.len() - i && matches_at(hay, i, from) {
            proof {
                assert(rest.take(from@.len() as int) =~= hay@.subrange(
                    i as int,
                    i + from@.len(),
                ));
                assert(rest.skip(from@.len() as int) =~= hay@.skip(i + from@.len()));
            }
            append_chars(&mut r, to);
            i = i + from.len();
        } else {
            proof {
                if rest.len() >= from@.len() {
                    assert(rest.take(from@.len() as int) =~= hay@.subrange(
                        i as int,
                        i + from@.len(),
                    ));
                }
                assert(rest.skip(1) =~= hay@.skip(i + 1));
                assert(seq![hay@[i as int]] + replace_seq(hay@.skip(i + 1), from@, to@)
                    == replace_seq(rest, from@, to@));
            }
            r.push(hay[i]);
            i = i + 1;
        }
    }
    proof {
        assert(hay@.skip(hay@.len() as int) =~= Seq::<char>::empty());
        assert(r@ + Seq::<char>::empty() =~= r@);
    }
    r
}

/// The pieces of `s` between occurrences of `sep`; always at least one piece,
/// and a separator at either edge yields an empty piece there.
pub open spec fn split_seq(s: Seq<char>, sep: char) -> Seq<Seq<char>>
    decreases s.len(),
{
    if s.len() == 0 {
        seq![Seq::<char>::empty()]
    } else if s[0] == sep {
        seq![Seq::<char>::empty()] + split_seq(s.skip(1), sep)
    } else {
        let rest = split_seq(s.skip(1), sep);
        seq![seq![s[0]] + rest[0]] + rest.skip(1)
    }
}

pub proof fn lemma_split_seq_len(s: Seq<char>, sep: char)
    ensures
        split_seq(s, sep).len() >= 1,
    decreases s.len(),
{
    if s.len() > 0 {
        lemma_split_seq_len(s.skip(1), sep);
    }
}

/// `rest` with `p` prepended onto its first piece.
pub open spec fn prepend_first(p: Seq<char>, rest: Seq<Seq<char>>) -> Seq<Seq<char>> {
    seq![p + rest[0]] + rest.skip(1)
}

/// The views of a sequence of character vectors.
pub open spec fn views_of(r: Seq<Vec<char>>) -> Seq<Seq<char>> {
    r.map_values(|v: Vec<char>| v@)
}

pub proof fn lemma_views_of_push(s: Seq<Vec<char>>, x: Vec<char>)
    ensures
        views_of(s.push(x)) =~~= views_of(s).push(x@),
{
}

pub fn split_on(hay: &Vec<char>, sep: char) -> (r: Vec<Vec<char>>)
    ensures
        views_of(r@) == split_seq(hay@, sep),
{
    let mut out: Vec<Vec<char>> = Vec::new();
    let mut cur: Vec<char> = Vec::new();
    let mut i: usize = 0;
    proof {
        lemma_split_seq_len(hay@, sep);
        assert(hay@.skip(0) =~= hay@);
        assert(views_of(out@) + prepend_first(cur@, split_seq(hay@, sep)) =~~= prepend_first(
            Seq::<char>::empty(),
            split_seq(hay@, sep),
        ));
        assert(prepend_first(Seq::<char>::empty(), split_seq(hay@, sep)) =~~= split_seq(hay@, sep));
    }
    while i < hay.len()
        invariant
            i <= hay@.len(),
            split_seq(hay@.skip(i as int), sep).len() >= 1,
            split_seq(hay@, sep) == views_of(out@) + prepend_first(
                cur@,
                split_seq(hay@.skip(i as int), sep),
            ),
        decreases hay@.len() - i,
    {
        let ghost rest = hay@.skip(i as int);
        let ghost rest1 = hay@.skip(i + 1);
        proof {
            assert(rest.skip(1) =~= rest1);
            lemma_split_seq_len(rest1, sep);
        }
        if hay[i] == sep {
            let ghost old_out = out@;
            let ghost old_cur = cur@;
            out.push(cur);
            cur = Vec::new();
            proof {
                lemma_views_of_push(old_out, out@[out@.len() - 1]);
                let r1 = split_seq(rest1, sep);
                assert(prepend_first(old_cur, split_seq(rest, sep)) =~~= (seq![old_cur]
                    + prepend_first(Seq::<char>::empty(), r1)));
                assert(views_of(out@) + prepend_first(cur@, r1) =~~= views_of(old_out) + (seq![
                    old_cur,
                ] + prepend_first(Seq::<char>::empty(), r1)));
            }
            i = i + 1;
        } else {
            let c = hay[i];
            let ghost old_cur = cur@;
            cur.push(c);
            proof {
                let r1 = split_seq(rest1, sep);
                assert(prepend_first(old_cur, split_seq(rest, sep)) =~~= prepend_first(cur@, r1));
            }
            i = i + 1;
        }
    }
    proof {
        assert(hay@.skip(hay@.len() as int) =~= Seq::<char>::empty());
    }
    let ghost old_out = out@;
    let ghost last = cur@;
    out.push(cur);
    proof {
        lemma_views_of_push(old_out, out@[out@.len() - 1]);
        assert(prepend_first(last, seq![Seq::<char>::empty()]) =~~= seq![last]);
        assert(views_of(old_out) + seq![last] =~~= views_of(out@));
    }
    out
}

/// The pieces joined with `sep` between each adjacent pair.
pub open spec fn join_seq(parts: Seq<Seq<char>>, sep: Seq<char>) -> Seq<char>
    decreases parts.len(),
{
    if parts.len() == 0 {
        Seq::<char>::empty()
    } else if parts.len() == 1 {
        parts[0]
    } else {
        parts[0] + sep + join_seq(parts.skip(1), sep)
    }
}

pub proof fn lemma_join_seq_push(parts: Seq<Seq<char>>, x: Seq<char>, sep: Seq<char>)
    ensures
        join_seq(parts.push(x), sep) == if parts.len() == 0 {
            x
        } else {
            join_seq(parts, sep) + sep + x
        },
    decreases parts.len(),
{
    if parts.len() == 0 {
        assert(parts.push(x) =~~= seq![x]);
    } else if parts.len() == 1 {
        assert(parts.push(x).skip(1) =~~= seq![x]);
        assert(join_seq(seq![x], sep) == x);
        assert(join_seq(parts.push(x), sep) == parts[0] + sep + x);
    } else {
        assert(parts.push(x).skip(1) =~~= parts.skip(1).push(x));
        lemma_join_seq_push(parts.skip(1), x, sep);
        assert(join_seq(parts.push(x), sep) == parts[0] + sep + join_seq(parts.skip(1).push(x), sep));
        assert(parts[0] + sep + (join_seq(parts.skip(1), sep) + sep + x) =~= (parts[0] + sep
            + join_seq(parts.skip(1), sep)) + sep + x);
    }
}

pub fn join_with(parts: &Vec<Vec<char>>, sep: &Vec<char>) -> (r: Vec<char>)
    ensures
        r@ == join_seq(views_of(parts@), sep@),
{
    let mut r: Vec<char> = Vec::new();
    let mut i: usize = 0;
    proof {
        assert(views_of(parts@).take(0) =~~= Seq::<Seq<char>>::empty());
    }
    while i < parts.len()
        invariant
            i <= parts@.len(),
            r@ == join_seq(views_of(parts@).take(i as int), sep@),
        decreases parts@.len() - i,
    {
        if i > 0 {
            append_chars(&mut r, sep);
        }
        append_chars(&mut r, &parts[i]);
        proof {
            let vs = views_of(parts@);
            assert(vs.take(i + 1) =~~= vs.take(i as int).push(vs[i as int]));
            lemma_join_seq_push(vs.take(i as int), vs[i as int], sep@);
        }
        i = i + 1;
    }
    proof {
        assert(views_of(parts@).take(parts@.len() as int) =~~= views_of(parts@));
    }
    r
}

/// ASCII whitespace: the characters that blank-line checks and trimming drop.
pub open spec fn is_ws(c: char) -> bool {
    c == ' ' || c == '\n' || c == '\t' || c == '\r'
}

pub fn is_ws_char(c: char) -> (r: bool)
    ensures
        r == is_ws(c),
{
    c == ' ' || c == '\n' || c == '\t' || c == '\r'
}

/// True when every character is ASCII whitespace (so also for the empty text).
pub open spec fn is_blank(s: Seq<char>) -> bool {
    forall|i: int| 0 <= i < s.len() ==> is_ws(s[i])
}

pub fn blank(v: &Vec<char>) -> (r: bool)
    ensures
        r == is_blank(v@),
{
    let mut i: usize = 0;
    while i < v.len()
        invariant
            i <= v@.len(),
            forall|j: int| 0 <= j < i ==> is_ws(v@[j]),
        decreases v@.len() - i,
    {
        if !is_ws_char(v[i]) {
            return false;
        }
        i = i + 1;
    }
    true
}

/// `s` without leading ASCII whitespace.
pub open spec fn trim_start_seq(s: Seq<char>) -> Seq<char>
    decreases s.len(),
{
    if s.len() > 0 && is_ws(s[0]) {
        trim_start_seq(s.skip(1))
    } else {
        s
    }
}

/// `s` without trailing ASCII whitespace.
pub open spec fn trim_end_seq(s: Seq<char>) -> Seq<char>
    decreases s.len(),
{
    if s.len() > 0 && is_ws(s.last()) {
        trim_end_seq(s.drop_last())
    } else {
        s
    }
}

/// `s` without leading and trailing ASCII whitespace.
pub open spec fn trim_seq(s: Seq<char>) -> Seq<char> {
    trim_end_seq(trim_start_seq(s))
}

pub fn trim_chars(v: &Vec<char>) -> (r: Vec<char>)
    ensures
        r@ == trim_seq(v@),
{
    let mut start: usize = 0;
    proof {
        assert(v@.skip(0) =~= v@);
    }
    while start < v.len() && is_ws_char(v[start])
        invariant
            start <= v@.len(),
            trim_start_seq(v@) == trim_start_seq(v@.skip(start as int)),
        decreases v@.len() - start,
    {
        proof {
            assert(v@.skip(start as int).skip(1) =~= v@.skip(start + 1));
        }
        start = start + 1;
    }
    let mut end: usize = v.len();
    proof {
        if start == v@.len() {
            assert(v@.skip(start as int) =~= Seq::<char>::empty());
        }
        assert(v@.skip(start as int).take((end - start) as int) =~= v@.skip(start as int));
    }
    while end > start && is_ws_char(v[end - 1])
        invariant
            start <= end <= v@.len(),
            trim_start_seq(v@) == v@.skip(start as int),
            start < v@.len() ==> !is_ws(v@[start as int]),
            trim_end_seq(v@.skip(start as int)) == trim_end_seq(
                v@.skip(start as int).take((end - start) as int),
            ),
        decreases end,
    {
        proof {
            let cut = v@.skip(start as int).take((end - start) as int);
            assert(cut.last() == v@[end - 1]);
            assert(cut.drop_last() =~= v@.skip(start as int).take((end - 1 - start) as int));
        }
        end = end - 1;
    }
    let mut r: Vec<char> = Vec::new();
    let mut i: usize = start;
    while i < end
        invariant
            start <= i <= end <= v@.len(),
            r@ == v@.subrange(start as int, i as int),
        decreases end - i,
    {
        r.push(v[i]);
        proof {
            assert(r@ =~= v@.subrange(start as int, i + 1));
        }
        i = i + 1;
    }
    proof {
        let cut = v@.skip(start as int).take((end - start) as int);
        assert(cut =~= v@.subrange(start as int, end as int));
        if end > start {
            assert(!is_ws(cut.last()));
        }
        assert(trim_end_seq(cut) == cut);
    }
    r
}

/// One decimal digit as a character.
pub open spec fn digit_char(d: int) -> char {
    if d == 0 {
        '0'
    } else if d == 1 {
        '1'
    } else if d == 2 {
        '2'
    } else if d == 3 {
        '3'
    } else if d == 4 {
        '4'
    } else if d == 5 {
        '5'
    } else if d == 6 {
        '6'
    } else if d == 7 {
        '7'
    } else if d == 8 {
        '8'
    } else {
        '9'
    }
}

/// The decimal writing of `n`, most significant digit first, no leading zero
/// except for zero itself.
pub open spec fn dec_seq(n: nat) -> Seq<char>
    decreases n,
{
    if n < 10 {
        seq![digit_char(n as int)]
    } else {
        dec_seq(n / 10) + seq![digit_char((n % 10) as int)]
    }
}

fn digit_of(d: u64) -> (r: char)
    requires
        d < 10,
    ensures
        r == digit_char(d as int),
{
    if d == 0 {
        '0'
    } else if d == 1 {
        '1'
    } else if d == 2 {
        '2'
    } else if d == 3 {
        '3'
    } else if d == 4 {
        '4'
    } else if d == 5 {
        '5'
    } else if d == 6 {
        '6'
    } else if d == 7 {
        '7'
    } else if d == 8 {
        '8'
    } else {
        '9'
    }
}

pub fn dec_chars(n: u64) -> (r: Vec<char>)
    ensures
        r@ == dec_seq(n as nat),
    decreases n,
{
    if n < 10 {
        let mut r: Vec<char> = Vec::new();
        r.push(digit_of(n));
        proof {
            assert(r@ =~= seq![digit_char(n as int)]);
        }
        r
    } else {
        let mut r = dec_chars(n / 10);
        r.push(digit_of(n % 10));
        proof {
            assert(r@ =~= dec_seq((n / 10) as nat) + seq![digit_char((n % 10) as int)]);
        }
        r
    }
}

} // verus!
