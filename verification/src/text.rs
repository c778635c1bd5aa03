//! Character-level views of strings: trimming, prefixes, suffixes and decimal numbers.
use vstd::prelude::*;

verus! {

/// Whether `c` has the Unicode property `White_Space`.
pub open spec fn white_space(c: char) -> bool {
    ||| '\u{9}' <= c <= '\u{d}'
    ||| c == '\u{20}'
    ||| c == '\u{85}'
    ||| c == '\u{a0}'
    ||| c == '\u{1680}'
    ||| '\u{2000}' <= c <= '\u{200a}'
    ||| c == '\u{2028}'
    ||| c == '\u{2029}'
    ||| c == '\u{202f}'
    ||| c == '\u{205f}'
    ||| c == '\u{3000}'
}

/// `s` without the white space at its front.
pub open spec fn trimmed_start(s: Seq<char>) -> Seq<char>
    decreases s.len(),
{
    if s.len() > 0 && white_space(s.first()) {
        trimmed_start(s.drop_first())
    } else {
        s
    }
}

/// `s` without the white space at its end.
pub open spec fn trimmed_end(s: Seq<char>) -> Seq<char>
    decreases s.len(),
{
    if s.len() > 0 && white_space(s.last()) {
        trimmed_end(s.drop_last())
    } else {
        s
    }
}

/// `s` without the white space around it.
pub open spec fn trimmed(s: Seq<char>) -> Seq<char> {
    trimmed_end(trimmed_start(s))
}

/// Tells white space from other characters.
pub fn is_white_space(c: char) -> (r: bool)
    ensures
        r == white_space(c),
{
    ('\u{9}' <= c && c <= '\u{d}') || c == '\u{20}' || c == '\u{85}' || c == '\u{a0}' || c
        == '\u{1680}' || ('\u{2000}' <= c && c <= '\u{200a}') || c == '\u{2028}' || c == '\u{2029}'
        || c == '\u{202f}' || c == '\u{205f}' || c == '\u{3000}'
}

/// The characters of `s`.
pub fn characters(s: &str) -> (r: Vec<char>)
    ensures
        r@ == s@,
{
    let mut r: Vec<char> = Vec::new();
    for c in it: s.chars()
        invariant
            it.seq() == s@,
            r@ == s@.take(it.index() as int),
    {
        r.push(c);
    }
    r
}

/// Trims the white space around `s`.
pub fn trim(s: &str) -> (r: &str)
    ensures
        r@ == trimmed(s@),
{
    let chars = characters(s);
    let mut start: usize = 0;
    proof {
        assert(chars@.skip(0) =~= chars@);
    }
    while start < chars.len() && is_white_space(chars[start])
        invariant
            start <= chars.len(),
            trimmed_start(chars@) == trimmed_start(chars@.skip(start as int)),
        decreases chars.len() - start,
    {
        proof {
            assert(chars@.skip(start as int).drop_first() =~= chars@.skip(start as int + 1));
        }
        start = start + 1;
    }
    let mut end: usize = chars.len();
    while end > start && is_white_space(chars[end - 1])
        invariant
            start <= end <= chars.len(),
            trimmed(chars@) == trimmed_end(chars@.subrange(start as int, end as int)),
        decreases end - start,
    {
        proof {
            assert(chars@.subrange(start as int, end as int).drop_last() =~= chars@.subrange(
                start as int,
                end as int - 1,
            ));
        }
        end = end - 1;
    }
    s.substring_char(start, end)
}

/// Whether every character of `s` is white space.
pub open spec fn blank(s: Seq<char>) -> bool {
    forall|i: int| 0 <= i < s.len() ==> white_space(#[trigger] s[i])
}

/// Whether some character of `s` is white space.
pub open spec fn has_white_space(s: Seq<char>) -> bool {
    exists|i: int| 0 <= i < s.len() && white_space(#[trigger] s[i])
}

/// The decimal digits of `n`, without leading zeros.
pub open spec fn decimal(n: nat) -> Seq<char>
    decreases n,
{
    if n < 10 {
        seq!["0123456789"@[n as int]]
    } else {
        decimal(n / 10).push("0123456789"@[n as int % 10])
    }
}

/// The texts in `parts` with a space between each two of them.
pub open spec fn joined(parts: Seq<&str>) -> Seq<char>
    decreases parts.len(),
{
    if parts.len() == 0 {
        Seq::empty()
    } else if parts.len() == 1 {
        parts[0]@
    } else {
        joined(parts.drop_last()) + " "@ + parts.last()@
    }
}

/// Joins the texts in `parts` with a space between each two of them.
pub fn join(parts: &[&str]) -> (r: String)
    ensures
        r@ == joined(parts@),
{
    let mut r: String = String::new();
    let mut i: usize = 0;
    while i < parts.len()
        invariant
            i <= parts@.len(),
            r@ == joined(parts@.take(i as int)),
        decreases parts@.len() - i,
    {
        let ghost so_far = parts@.take(i + 1);
        proof {
            assert(so_far.drop_last() =~= parts@.take(i as int));
        }
        if i > 0 {
            r.append(" ");
        }
        r.append(parts[i]);
        proof {
            if i == 0 {
                assert(r@ =~= so_far[0]@);
            }
        }
        i = i + 1;
    }
    proof {
        assert(parts@.take(parts@.len() as int) =~= parts@);
    }
    r
}

/// Whether `a` and `b` are the same text.
pub fn same(a: &str, b: &str) -> (r: bool)
    ensures
        r == (a@ == b@),
{
    let x = characters(a);
    let y = characters(b);
    if x.len() != y.len() {
        return false;
    }
    let mut i: usize = 0;
    while i < x.len()
        invariant
            x@ == a@,
            y@ == b@,
            x.len() == y.len(),
            i <= x.len(),
            x@.take(i as int) == y@.take(i as int),
        decreases x.len() - i,
    {
        if x[i] != y[i] {
            return false;
        }
        proof {
            assert(x@.take(i + 1) =~= x@.take(i as int).push(x@[i as int]));
            assert(y@.take(i + 1) =~= y@.take(i as int).push(y@[i as int]));
        }
        i = i + 1;
    }
    proof {
        assert(x@.take(x@.len() as int) =~= x@);
        assert(y@.take(y@.len() as int) =~= y@);
    }
    true
}

/// What follows `prefix` in `s`, where `s` starts with it.
pub fn strip_prefix<'a>(s: &'a str, prefix: &str) -> (r: Option<&'a str>)
    ensures
        match r {
            Some(rest) => prefix@.is_prefix_of(s@) && rest@ == s@.skip(prefix@.len() as int),
            None => !prefix@.is_prefix_of(s@),
        },
{
    let n: usize = prefix.unicode_len();
    let len: usize = s.unicode_len();
    if n > len {
        return None;
    }
    if same(s.substring_char(0, n), prefix) {
        Some(s.substring_char(n, len))
    } else {
        None
    }
}

/// Whether some character of `s` is white space.
pub fn contains_white_space(s: &str) -> (r: bool)
    ensures
        r == has_white_space(s@),
{
    let chars = characters(s);
    let mut i: usize = 0;
    while i < chars.len()
        invariant
            chars@ == s@,
            i <= chars.len(),
            forall|k: int| 0 <= k < i ==> !white_space(#[trigger] chars@[k]),
        decreases chars.len() - i,
    {
        if is_white_space(chars[i]) {
            return true;
        }
        i = i + 1;
    }
    false
}

/// Writes `n` in decimal.
pub fn to_decimal(n: u16) -> (r: String)
    ensures
        r@ == decimal(n as nat),
    decreases n,
{
    let digits: &str = "0123456789";
    proof {
        reveal_strlit("0123456789");
    }
    let last: usize = (n % 10) as usize;
    let mut r: String = if n < 10 {
        String::new()
    } else {
        to_decimal(n / 10)
    };
    r.append(digits.substring_char(last, last + 1));
    r
}

/// White space in front of a text does not change what is left of it when its front is trimmed.
proof fn lemma_trimmed_start_skips(front: Seq<char>, s: Seq<char>)
    requires
        blank(front),
    ensures
        trimmed_start(front + s) == trimmed_start(s),
    decreases front.len(),
{
    if front.len() == 0 {
        assert(front + s =~= s);
    } else {
        assert(white_space(front[0]));
        assert((front + s).drop_first() =~= front.drop_first() + s);
        lemma_trimmed_start_skips(front.drop_first(), s);
    }
}

/// White space behind a text does not change what is left of it when its end is trimmed.
proof fn lemma_trimmed_end_skips(s: Seq<char>, back: Seq<char>)
    requires
        blank(back),
    ensures
        trimmed_end(s + back) == trimmed_end(s),
    decreases back.len(),
{
    if back.len() == 0 {
        assert(s + back =~= s);
    } else {
        assert(white_space(back[back.len() - 1]));
        assert((s + back).drop_last() =~= s + back.drop_last());
        lemma_trimmed_end_skips(s, back.drop_last());
    }
}

/// Trimming the front of a text takes white space away, and stops at the first other character.
proof fn lemma_trimmed_start(s: Seq<char>)
    ensures
        trimmed_start(s).len() <= s.len(),
        trimmed_start(s) == s.skip(s.len() - trimmed_start(s).len()),
        blank(s.take(s.len() - trimmed_start(s).len())),
        trimmed_start(s).len() > 0 ==> !white_space(trimmed_start(s).first()),
    decreases s.len(),
{
    if s.len() > 0 && white_space(s.first()) {
        lemma_trimmed_start(s.drop_first());
        let k = s.len() - trimmed_start(s).len();
        assert(s.skip(k) =~= s.drop_first().skip(k - 1));
        assert(s.take(k) =~= seq![s.first()] + s.drop_first().take(k - 1));
    } else {
        assert(s.skip(0) =~= s);
    }
}

/// Trimming the end of a text takes white space away, and stops at the last other character.
proof fn lemma_trimmed_end(s: Seq<char>)
    ensures
        trimmed_end(s).len() <= s.len(),
        trimmed_end(s) == s.take(trimmed_end(s).len() as int),
        blank(s.skip(trimmed_end(s).len() as int)),
        trimmed_end(s).len() > 0 ==> !white_space(trimmed_end(s).last()),
    decreases s.len(),
{
    if s.len() > 0 && white_space(s.last()) {
        lemma_trimmed_end(s.drop_last());
        let k = trimmed_end(s).len() as int;
        assert(s.take(k) =~= s.drop_last().take(k));
        assert(s.skip(k) =~= s.drop_last().skip(k) + seq![s.last()]);
    } else {
        assert(s.take(s.len() as int) =~= s);
    }
}

/// What trimming leaves neither begins nor ends with white space, and is empty for a blank text
/// alone.
pub proof fn trimmed_has_no_outer_white_space(s: Seq<char>)
    ensures
        trimmed(s).len() > 0 ==> !white_space(trimmed(s).first()) && !white_space(
            trimmed(s).last(),
        ),
        trimmed(s).len() == 0 <==> blank(s),
{
    let t = trimmed_start(s);
    lemma_trimmed_start(s);
    lemma_trimmed_end(t);
    if blank(s) && t.len() > 0 {
        assert(white_space(s[s.len() - t.len()]));
    }
    if t.len() > 0 && trimmed(s).len() == 0 {
        assert(white_space(t.skip(0)[0]));
    }
    if t.len() == 0 {
        assert(s.take(s.len() as int) =~= s);
    }
}

/// A text is what trimming leaves of it between two runs of white space.
pub proof fn trimmed_parts(s: Seq<char>)
    ensures
        exists|front: Seq<char>, back: Seq<char>|
            blank(front) && blank(back) && s == #[trigger] (front + trimmed(s) + back),
{
    let t = trimmed_start(s);
    lemma_trimmed_start(s);
    lemma_trimmed_end(t);
    let front = s.take(s.len() - t.len());
    let back = t.skip(trimmed(s).len() as int);
    assert(s =~= front + trimmed(s) + back);
}

/// White space around a text does not change what trimming leaves of it.
pub proof fn trimmed_ignores_outer_white_space(front: Seq<char>, s: Seq<char>, back: Seq<char>)
    requires
        blank(front),
        blank(back),
    ensures
        trimmed(front + s + back) == trimmed(s),
{
    lemma_trimmed_start_skips(front, s + back);
    assert(front + s + back =~= front + (s + back));
    lemma_trimmed_start(s);
    let t = trimmed_start(s);
    let w = s.take(s.len() - t.len());
    assert(s + back =~= w + (t + back));
    lemma_trimmed_start_skips(w, t + back);
    if t.len() > 0 {
        assert(trimmed_start(t + back) == t + back);
        lemma_trimmed_end_skips(t, back);
    } else {
        assert(t + back =~= back + t);
        lemma_trimmed_start_skips(back, t);
    }
}

/// Trimming a trimmed text changes nothing.
pub proof fn trimmed_is_idempotent(s: Seq<char>)
    ensures
        trimmed(trimmed(s)) == trimmed(s),
{
    trimmed_has_no_outer_white_space(s);
}

/// Trimming takes off the white space around a text and nothing else: whatever white space stands
/// around a core that neither begins nor ends with white space, the core is what is left.
pub proof fn trimming_leaves_the_core(front: Seq<char>, core: Seq<char>, back: Seq<char>)
    requires
        forall|i: int| 0 <= i < front.len() ==> white_space(#[trigger] front[i]),
        forall|i: int| 0 <= i < back.len() ==> white_space(#[trigger] back[i]),
        core.len() > 0 ==> !white_space(core[0]) && !white_space(core[core.len() - 1]),
    ensures
        trimmed(front + core + back) == core,
{
    trimmed_ignores_outer_white_space(front, core, back);
}

/// A text holds white space if one of its parts does, and is blank if all of them are; a single
/// character decides for itself.
pub proof fn white_space_is_found_in_every_part(a: Seq<char>, b: Seq<char>, c: char)
    ensures
        !has_white_space(Seq::empty()),
        has_white_space(seq![c]) == white_space(c),
        has_white_space(a + b) == (has_white_space(a) || has_white_space(b)),
        blank(Seq::empty()),
        blank(seq![c]) == white_space(c),
        blank(a + b) == (blank(a) && blank(b)),
{
    let s = a + b;
    assert(seq![c][0] == c);
    if has_white_space(a) {
        let i = choose|i: int| 0 <= i < a.len() && white_space(#[trigger] a[i]);
        assert(white_space(s[i]));
    }
    if has_white_space(b) {
        let i = choose|i: int| 0 <= i < b.len() && white_space(#[trigger] b[i]);
        assert(white_space(s[a.len() + i]));
    }
    if blank(s) {
        assert forall|i: int| 0 <= i < a.len() implies white_space(#[trigger] a[i]) by {
            assert(white_space(s[i]));
        }
        assert forall|i: int| 0 <= i < b.len() implies white_space(#[trigger] b[i]) by {
            assert(white_space(s[a.len() + i]));
        }
    }
}

/// The decimal form of a number is that of its tens followed by that of its ones, and a number below
/// ten is written as its one digit.
pub proof fn decimal_is_positional(n: nat, d: nat)
    requires
        d < 10,
    ensures
        decimal(d).len() == 1,
        decimal(d)[0] as int == '0' as int + d,
        n > 0 ==> decimal(10 * n + d) == decimal(n) + decimal(d),
{
    reveal_strlit("0123456789");
    if n > 0 {
        assert((10 * n + d) / 10 == n);
        assert((10 * n + d) % 10 == d);
        assert(decimal(10 * n + d) =~= decimal(n) + decimal(d));
    }
}

/// Another text is joined on behind one space; the first one stands alone.
pub proof fn joined_adds_a_part(parts: Seq<&str>, part: &str)
    ensures
        joined(Seq::empty()) == Seq::<char>::empty(),
        joined(parts.push(part)) == if parts.len() == 0 {
            part@
        } else {
            joined(parts) + " "@ + part@
        },
{
    assert(parts.push(part).drop_last() =~= parts);
}

} // verus!
