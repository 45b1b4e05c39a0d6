//! Character-level text handling: whitespace, tokens, lines and prefixes.
use vstd::prelude::*;

verus! {

/// Whether `c` has the Unicode `White_Space` property.
pub open spec fn is_white(c: char) -> bool {
    let u = c as u32;
    (0x09 <= u && u <= 0x0D) || u == 0x20 || u == 0x85 || u == 0xA0 || u == 0x1680 || (0x2000
        <= u && u <= 0x200A) || u == 0x2028 || u == 0x2029 || u == 0x202F || u == 0x205F || u
        == 0x3000
}

/// The maximal runs of non-whitespace characters of `s`, left to right.
pub open spec fn tokens(s: Seq<char>) -> Seq<Seq<char>>
    decreases s.len(),
{
    if s.len() == 0 {
        seq![]
    } else {
        let prefix = s.drop_last();
        let c = s.last();
        let before = tokens(prefix);
        if is_white(c) {
            before
        } else if prefix.len() > 0 && !is_white(prefix.last()) {
            before.drop_last().push(before.last().push(c))
        } else {
            before.push(seq![c])
        }
    }
}

/// The pieces of `s` between newline characters; there is always one more
/// piece than there are newlines.
pub open spec fn pieces(s: Seq<char>) -> Seq<Seq<char>>
    decreases s.len(),
{
    if s.len() == 0 {
        seq![seq![]]
    } else {
        let before = pieces(s.drop_last());
        if s.last() == '\n' {
            before.push(seq![])
        } else {
            before.drop_last().push(before.last().push(s.last()))
        }
    }
}

/// A line that ended in `"\r\n"` loses its carriage return.
pub open spec fn strip_cr(l: Seq<char>) -> Seq<char> {
    if l.len() > 0 && l.last() == '\r' {
        l.drop_last()
    } else {
        l
    }
}

/// The lines of `s`: split at `'\n'` (a preceding `'\r'` belongs to the
/// terminator); the final terminator is optional, and an empty text has no
/// lines.
pub open spec fn lines(s: Seq<char>) -> Seq<Seq<char>> {
    let p = pieces(s);
    let terminated = p.drop_last().map_values(|l: Seq<char>| strip_cr(l));
    if p.last().len() == 0 {
        terminated
    } else {
        terminated.push(p.last())
    }
}

/// Whether `s` begins with `prefix`.
pub open spec fn starts_with(s: Seq<char>, prefix: Seq<char>) -> bool {
    prefix.len() <= s.len() && s.take(prefix.len() as int) == prefix
}

/// `s` with each run of whitespace replaced by one space.
pub open spec fn squeezed(s: Seq<char>) -> Seq<char>
    decreases s.len(),
{
    if s.len() == 0 {
        seq![]
    } else {
        let prefix = s.drop_last();
        let c = s.last();
        if !is_white(c) {
            squeezed(prefix).push(c)
        } else if prefix.len() > 0 && is_white(prefix.last()) {
            squeezed(prefix)
        } else {
            squeezed(prefix).push(' ')
        }
    }
}

/// Every whitespace character of `s` is a space that follows a
/// non-whitespace character.
pub open spec fn single_spaced(s: Seq<char>) -> bool {
    forall|i: int|
        0 <= i < s.len() && #[trigger] is_white(s[i]) ==> s[i] == ' ' && i > 0 && !is_white(
            s[i - 1],
        )
}

proof fn lemma_squeezed_ends_alike(s: Seq<char>)
    ensures
        s.len() == 0 <==> squeezed(s).len() == 0,
        s.len() > 0 ==> is_white(squeezed(s).last()) == is_white(s.last()),
    decreases s.len(),
{
    if s.len() > 0 {
        lemma_squeezed_ends_alike(s.drop_last());
    }
}

/// Squeezing whitespace runs leaves the tokens of a text as they are.
pub proof fn lemma_squeezed_tokens(s: Seq<char>)
    ensures
        tokens(squeezed(s)) == tokens(s),
    decreases s.len(),
{
    if s.len() > 0 {
        let prefix = s.drop_last();
        let c = s.last();
        lemma_squeezed_tokens(prefix);
        lemma_squeezed_ends_alike(prefix);
        let p = squeezed(prefix);
        if !is_white(c) {
            assert(p.push(c).drop_last() == p);
        } else if prefix.len() > 0 && is_white(prefix.last()) {
        } else {
            assert(p.push(' ').drop_last() == p);
        }
    }
}

proof fn lemma_squeezed_extends(s: Seq<char>, k: int)
    requires
        0 <= k <= s.len(),
    ensures
        squeezed(s.take(k)).len() <= squeezed(s).len(),
        squeezed(s).take(squeezed(s.take(k)).len() as int) == squeezed(s.take(k)),
    decreases s.len(),
{
    if k == s.len() {
        assert(s.take(k) == s);
    } else {
        let prefix = s.drop_last();
        assert(prefix.take(k) == s.take(k));
        lemma_squeezed_extends(prefix, k);
        let n = squeezed(s.take(k)).len() as int;
        assert(squeezed(s).take(n) == squeezed(prefix).take(n));
    }
}

proof fn lemma_single_spaced_squeezed(s: Seq<char>)
    requires
        single_spaced(s),
    ensures
        squeezed(s) == s,
    decreases s.len(),
{
    if s.len() > 0 {
        let prefix = s.drop_last();
        assert forall|i: int| 0 <= i < prefix.len() && #[trigger] is_white(prefix[i]) implies prefix[i]
            == ' ' && i > 0 && !is_white(prefix[i - 1]) by {
            assert(s[i] == prefix[i]);
        }
        lemma_single_spaced_squeezed(prefix);
        if is_white(s.last()) {
            assert(is_white(s[s.len() - 1]));
        }
        assert(prefix.push(s.last()) == s);
    }
}

/// A text that starts with a single-spaced prefix still starts with it once
/// its whitespace runs are squeezed.
pub proof fn lemma_squeezed_keeps_prefix(s: Seq<char>, prefix: Seq<char>)
    requires
        single_spaced(prefix),
        starts_with(s, prefix),
    ensures
        starts_with(squeezed(s), prefix),
{
    lemma_squeezed_extends(s, prefix.len() as int);
    lemma_single_spaced_squeezed(prefix);
}

pub proof fn lemma_pieces_nonempty(s: Seq<char>)
    ensures
        pieces(s).len() >= 1,
    decreases s.len(),
{
    if s.len() > 0 {
        lemma_pieces_nonempty(s.drop_last());
    }
}

pub proof fn lemma_tokens_len(s: Seq<char>)
    ensures
        tokens(s).len() <= s.len(),
        s.len() > 0 && !is_white(s.last()) ==> tokens(s).len() > 0,
    decreases s.len(),
{
    if s.len() > 0 {
        lemma_tokens_len(s.drop_last());
    }
}

/// Exec counterpart of [`is_white`].
pub fn is_white_char(c: char) -> (r: bool)
    ensures
        r == is_white(c),
{
    let u = c as u32;
    (0x09 <= u && u <= 0x0D) || u == 0x20 || u == 0x85 || u == 0xA0 || u == 0x1680 || (0x2000
        <= u && u <= 0x200A) || u == 0x2028 || u == 0x2029 || u == 0x202F || u == 0x205F || u
        == 0x3000
}

/// The characters of `s`, in order.
pub fn chars_of(s: &str) -> (r: Vec<char>)
    ensures
        r@ == s@,
{
    let mut r: Vec<char> = Vec::new();
    for c in it: s.chars()
        invariant
            r@ == it.seq().take(it.index() as int),
    {
        r.push(c);
    }
    r
}

/// `String::push` appends one character to the end of the string.
pub assume_specification[ String::push ](s: &mut String, ch: char)
    ensures
        final(s)@ == old(s)@.push(ch),
;

/// The string holding the characters of `v`, in order.
pub fn string_of(v: &Vec<char>) -> (r: String)
    ensures
        r@ == v@,
{
    let mut r = String::new();
    let mut i: usize = 0;
    while i < v.len()
        invariant
            i <= v.len(),
            r@ == v@.take(i as int),
        decreases v.len() - i,
    {
        r.push(v[i]);
        i += 1;
        assert(v@.take(i as int) == v@.take(i - 1).push(v@[i - 1]));
    }
    assert(v@.take(v.len() as int) == v@);
    r
}

/// Whether `s` begins with `prefix`.
pub fn has_prefix(s: &Vec<char>, prefix: &Vec<char>) -> (r: bool)
    ensures
        r == starts_with(s@, prefix@),
{
    if prefix.len() > s.len() {
        return false;
    }
    let mut i: usize = 0;
    while i < prefix.len()
        invariant
            prefix.len() <= s.len(),
            i <= prefix.len(),
            s@.take(i as int) == prefix@.take(i as int),
        decreases prefix.len() - i,
    {
        if s[i] != prefix[i] {
            assert(s@.take(prefix.len() as int)[i as int] != prefix@[i as int]);
            return false;
        }
        i += 1;
        assert(s@.take(i as int) == s@.take(i - 1).push(s@[i - 1]));
        assert(prefix@.take(i as int) == prefix@.take(i - 1).push(prefix@[i - 1]));
    }
    assert(prefix@.take(prefix.len() as int) == prefix@);
    true
}

/// The token of `s` at position `n`, counting from zero, if `s` has that
/// many tokens.
pub fn nth_token(s: &Vec<char>, n: usize) -> (r: Option<Vec<char>>)
    ensures
        r is Some <==> n < tokens(s@).len(),
        r matches Some(t) ==> t@ == tokens(s@)[n as int],
{
    let mut count: usize = 0;
    let mut cur: Vec<char> = Vec::new();
    let mut i: usize = 0;
    while i < s.len()
        invariant
            i <= s.len(),
            count == tokens(s@.take(i as int)).len(),
            count > n ==> cur@ == tokens(s@.take(i as int))[n as int],
        decreases s.len() - i,
    {
        let ghost pre = s@.take(i as int);
        let c = s[i];
        assert(s@.take(i + 1).drop_last() == pre);
        assert(s@.take(i + 1).last() == c);
        proof {
            lemma_tokens_len(pre);
        }
        if is_white_char(c) {
        } else if i > 0 && !is_white_char(s[i - 1]) {
            assert(pre.last() == s@[i - 1]);
            if count - 1 == n {
                cur.push(c);
            }
        } else {
            count += 1;
            if count - 1 == n {
                cur = Vec::new();
                cur.push(c);
                assert(cur@ == seq![c]);
            }
        }
        i += 1;
    }
    assert(s@.take(s.len() as int) == s@);
    if count > n {
        Some(cur)
    } else {
        None
    }
}

/// The characters of `l` without one trailing carriage return.
fn without_cr(l: Vec<char>) -> (r: Vec<char>)
    ensures
        r@ == strip_cr(l@),
{
    let mut l = l;
    if l.len() > 0 && l[l.len() - 1] == '\r' {
        l.pop();
    }
    l
}

/// The lines of `s`, each as its characters.
pub fn split_lines(s: &Vec<char>) -> (r: Vec<Vec<char>>)
    ensures
        r@.map_values(|l: Vec<char>| l@) == lines(s@),
{
    let mut done: Vec<Vec<char>> = Vec::new();
    let mut cur: Vec<char> = Vec::new();
    let mut i: usize = 0;
    while i < s.len()
        invariant
            i <= s.len(),
            pieces(s@.take(i as int)).len() >= 1,
            done@.map_values(|l: Vec<char>| l@) == pieces(s@.take(i as int)).drop_last().map_values(
                |l: Seq<char>| strip_cr(l),
            ),
            cur@ == pieces(s@.take(i as int)).last(),
        decreases s.len() - i,
    {
        let ghost pre = s@.take(i as int);
        let c = s[i];
        assert(s@.take(i + 1).drop_last() == pre);
        assert(s@.take(i + 1).last() == c);
        proof {
            lemma_pieces_nonempty(s@.take(i + 1));
        }
        if c == '\n' {
            let line = without_cr(cur);
            let ghost before = done@;
            done.push(line);
            assert(done@.map_values(|l: Vec<char>| l@) == before.map_values(|l: Vec<char>| l@).push(
                line@,
            ));
            assert(pieces(s@.take(i + 1)).drop_last() == pieces(pre));
            assert(pieces(pre) == pieces(pre).drop_last().push(pieces(pre).last()));
            cur = Vec::new();
        } else {
            cur.push(c);
            assert(pieces(s@.take(i + 1)).drop_last() == pieces(pre).drop_last());
        }
        i += 1;
    }
    assert(s@.take(s.len() as int) == s@);
    if cur.len() > 0 {
        let ghost before = done@;
        let ghost last = cur@;
        done.push(cur);
        assert(done@.map_values(|l: Vec<char>| l@) == before.map_values(|l: Vec<char>| l@).push(
            last,
        ));
    }
    done
}

} // verus!
