//! Keeping portal keys off the screen: masking a key and scrubbing it out of a text.
use vstd::prelude::*;

use crate::text::characters;

verus! {

/// How many characters at the end of a key of `len` characters stay readable.
pub open spec fn visible(len: nat) -> nat {
    if len > 4 {
        4
    } else {
        0
    }
}

/// `key` with a star for every character but the readable ones at its end.
pub open spec fn masked(key: Seq<char>) -> Seq<char> {
    Seq::new(
        key.len(),
        |i: int|
            if i < key.len() - visible(key.len()) {
                '*'
            } else {
                key[i]
            },
    )
}

/// Whether `part` stands in `text` from position `i` on.
pub open spec fn occurs_at(text: Seq<char>, part: Seq<char>, i: int) -> bool {
    &&& 0 <= i <= text.len() - part.len()
    &&& text.subrange(i, i + part.len()) == part
}

/// Whether `part` stands anywhere in `text`.
pub open spec fn occurs(text: Seq<char>, part: Seq<char>) -> bool {
    exists|i: int| occurs_at(text, part, i)
}

/// `text` with `to` in place of each occurrence of `from`, found from left to right, each search
/// starting behind the occurrence before it.
pub open spec fn replaced(text: Seq<char>, from: Seq<char>, to: Seq<char>) -> Seq<char>
    decreases text.len(),
{
    if from.len() == 0 || text.len() < from.len() {
        text
    } else if occurs_at(text, from, 0) {
        to + replaced(text.skip(from.len() as int), from, to)
    } else {
        seq![text.first()] + replaced(text.drop_first(), from, to)
    }
}

/// `text` with the mask of `secret` in place of each occurrence of `secret`.
pub open spec fn scrubbed(text: Seq<char>, secret: Seq<char>) -> Seq<char> {
    replaced(text, secret, masked(secret))
}

/// Whether the last `j` characters of `a` are the first `j` of `b`.
pub open spec fn joins(a: Seq<char>, b: Seq<char>, j: int) -> bool {
    &&& 1 <= j <= a.len()
    &&& j <= b.len()
    &&& a.skip(a.len() - j) == b.take(j)
}

/// Whether the mask of `secret` can become a piece of `secret` again next to other text: an end of
/// one of them is a beginning of the other.
pub open spec fn mask_overlaps(secret: Seq<char>) -> bool {
    exists|j: int|
        #![trigger joins(masked(secret), secret, j)]
        #![trigger joins(secret, masked(secret), j)]
        joins(masked(secret), secret, j) || joins(secret, masked(secret), j)
}

/// Masks a portal key for display: everything but the last four characters, and everything in a
/// key of at most four.
pub fn mask_key(key: &str) -> (r: String)
    ensures
        r@ == masked(key@),
{
    let len: usize = key.unicode_len();
    let hidden: usize = if len > 4 {
        len - 4
    } else {
        len
    };
    let mut r: String = String::new();
    let mut i: usize = 0;
    proof {
        reveal_strlit("*");
    }
    while i < hidden
        invariant
            i <= hidden,
            r@ == Seq::new(i as nat, |k: int| '*'),
            "*"@ =~= seq!['*'],
        decreases hidden - i,
    {
        r.append("*");
        i = i + 1;
    }
    r.append(key.substring_char(hidden, len));
    r
}

/// Whether `part` stands in `text` from position `i` on.
fn matches_at(text: &Vec<char>, part: &Vec<char>, i: usize) -> (r: bool)
    requires
        i <= text.len(),
    ensures
        r == occurs_at(text@, part@, i as int),
{
    if part.len() > text.len() - i {
        return false;
    }
    let mut k: usize = 0;
    while k < part.len()
        invariant
            i + part.len() <= text.len(),
            k <= part.len(),
            forall|j: int| 0 <= j < k ==> text@[i + j] == #[trigger] part@[j],
        decreases part.len() - k,
    {
        if text[i + k] != part[k] {
            proof {
                assert(text@.subrange(i as int, i + part.len())[k as int] != part@[k as int]);
            }
            return false;
        }
        k = k + 1;
    }
    proof {
        assert(text@.subrange(i as int, i + part.len()) =~= part@);
    }
    true
}

/// Replaces every occurrence of `secret` in `text` with its mask, so that captured output does not
/// echo a portal key back to the screen.
pub fn scrub_secret(text: &str, secret: &str) -> (r: String)
    ensures
        r@ == scrubbed(text@, secret@),
{
    if secret.is_empty() {
        return text.to_owned();
    }
    let mask = mask_key(secret);
    let t = characters(text);
    let s = characters(secret);
    let mut r: String = String::new();
    let mut copied: usize = 0;
    let mut i: usize = 0;
    proof {
        assert(t@.skip(0) =~= t@);
        assert(Seq::<char>::empty() + scrubbed(t@, s@) =~= scrubbed(t@, s@));
    }
    while i < t.len()
        invariant
            s@.len() > 0,
            t@ == text@,
            s@ == secret@,
            mask@ == masked(s@),
            copied <= i <= t.len(),
            r@ + t@.subrange(copied as int, i as int) + scrubbed(t@.skip(i as int), s@) == scrubbed(
                t@,
                s@,
            ),
        decreases t.len() - i,
    {
        let ghost rest = t@.skip(i as int);
        let ghost before = r@ + t@.subrange(copied as int, i as int);
        if matches_at(&t, &s, i) {
            proof {
                assert(rest.subrange(0, s@.len() as int) =~= t@.subrange(i as int, i + s@.len()));
                assert(occurs_at(rest, s@, 0));
                assert(rest.skip(s@.len() as int) =~= t@.skip(i + s@.len()));
                assert(before + (mask@ + scrubbed(t@.skip(i + s@.len()), s@)) =~= before + mask@
                    + scrubbed(t@.skip(i + s@.len()), s@));
            }
            r.append(text.substring_char(copied, i));
            r.append(mask.as_str());
            i = i + s.len();
            copied = i;
            proof {
                assert(r@ + t@.subrange(copied as int, i as int) =~= before + mask@);
            }
        } else {
            proof {
                assert(!occurs_at(rest, s@, 0)) by {
                    if s@.len() <= rest.len() {
                        assert(rest.subrange(0, s@.len() as int) =~= t@.subrange(
                            i as int,
                            i + s@.len(),
                        ));
                    }
                }
                assert(rest.drop_first() =~= t@.skip(i + 1));
                assert(scrubbed(rest, s@) =~= seq![rest.first()] + scrubbed(t@.skip(i + 1), s@)) by {
                    if rest.len() < s@.len() {
                        assert(scrubbed(t@.skip(i + 1), s@) == t@.skip(i + 1));
                    }
                }
                assert(r@ + t@.subrange(copied as int, i + 1) =~= before + seq![rest.first()]);
                assert(before + (seq![rest.first()] + scrubbed(t@.skip(i + 1), s@)) =~= before
                    + seq![rest.first()] + scrubbed(t@.skip(i + 1), s@));
            }
            i = i + 1;
        }
    }
    r.append(text.substring_char(copied, t.len()));
    proof {
        assert(t@.skip(t@.len() as int) =~= Seq::<char>::empty());
    }
    r
}

/// What a mask shows depends on nothing but the length of the key and, in a key of more than four
/// characters, on its last four.
pub proof fn mask_shows_only_length_and_end(a: Seq<char>, b: Seq<char>)
    requires
        a.len() == b.len(),
        a.len() > 4 ==> a.skip(a.len() - 4) == b.skip(b.len() - 4),
    ensures
        masked(a) == masked(b),
{
    if a.len() > 4 {
        assert forall|i: int| a.len() - 4 <= i < a.len() implies a[i] == b[i] by {
            assert(a.skip(a.len() - 4)[i - (a.len() - 4)] == b.skip(b.len() - 4)[i - (b.len() - 4)]);
        }
    }
    assert(masked(a) =~= masked(b));
}

/// Masking a mask changes nothing.
pub proof fn mask_is_idempotent(key: Seq<char>)
    ensures
        masked(masked(key)) == masked(key),
{
    assert(masked(masked(key)) =~= masked(key));
}

/// Scrubbing keeps the length of the text, and each character of the text stays or becomes a star.
pub proof fn scrub_only_stars_characters(text: Seq<char>, secret: Seq<char>)
    ensures
        scrubbed(text, secret).len() == text.len(),
        forall|i: int|
            0 <= i < text.len() ==> #[trigger] scrubbed(text, secret)[i] == text[i] || scrubbed(
                text,
                secret,
            )[i] == '*',
    decreases text.len(),
{
    let n = secret.len() as int;
    if n == 0 || text.len() < n {
    } else if occurs_at(text, secret, 0) {
        scrub_only_stars_characters(text.skip(n), secret);
        assert forall|i: int| 0 <= i < text.len() implies #[trigger] scrubbed(text, secret)[i]
            == text[i] || scrubbed(text, secret)[i] == '*' by {
            if i < n {
                assert(text.subrange(0, n)[i] == secret[i]);
            } else {
                assert(scrubbed(text, secret)[i] == scrubbed(text.skip(n), secret)[i - n]);
            }
        }
    } else {
        scrub_only_stars_characters(text.drop_first(), secret);
        assert forall|i: int| 0 <= i < text.len() implies #[trigger] scrubbed(text, secret)[i]
            == text[i] || scrubbed(text, secret)[i] == '*' by {
            if i > 0 {
                assert(scrubbed(text, secret)[i] == scrubbed(text.drop_first(), secret)[i - 1]);
            }
        }
    }
}

/// A text in which the secret does not occur is left as it is; so is every text by an empty secret.
pub proof fn scrub_leaves_other_text(text: Seq<char>, secret: Seq<char>)
    requires
        secret.len() == 0 || !occurs(text, secret),
    ensures
        scrubbed(text, secret) == text,
    decreases text.len(),
{
    if secret.len() > 0 && text.len() >= secret.len() {
        let rest = text.drop_first();
        assert forall|i: int| !occurs_at(rest, secret, i) by {
            if occurs_at(rest, secret, i) {
                assert(text.subrange(i + 1, i + 1 + secret.len()) =~= rest.subrange(
                    i,
                    i + secret.len(),
                ));
                assert(occurs_at(text, secret, i + 1));
            }
        }
        assert(!occurs_at(text, secret, 0));
        scrub_leaves_other_text(rest, secret);
        assert(seq![text.first()] + rest =~= text);
    }
}

/// An end of the secret that opens the scrubbed text opened the text.
proof fn lemma_scrub_keeps_openings(text: Seq<char>, secret: Seq<char>, len: int)
    requires
        0 <= len <= secret.len(),
        !mask_overlaps(secret),
        len <= scrubbed(text, secret).len(),
        scrubbed(text, secret).take(len) == secret.skip(secret.len() - len),
    ensures
        len <= text.len(),
        text.take(len) == secret.skip(secret.len() - len),
    decreases text.len(),
{
    let n = secret.len() as int;
    scrub_only_stars_characters(text, secret);
    if len == 0 || text.len() < n {
        assert(text.take(len) =~= secret.skip(n - len));
    } else if occurs_at(text, secret, 0) {
        assert(scrubbed(text, secret).take(len) =~= masked(secret).take(len));
        assert(joins(secret, masked(secret), len));
    } else {
        let rest = text.drop_first();
        let end = secret.skip(n - len);
        assert(scrubbed(rest, secret).take(len - 1) =~= scrubbed(text, secret).take(len).skip(1));
        assert(secret.skip(n - (len - 1)) =~= end.skip(1));
        lemma_scrub_keeps_openings(rest, secret, len - 1);
        assert(scrubbed(text, secret).take(len)[0] == end[0]);
        assert(scrubbed(text, secret)[0] == text[0]);
        assert(text.take(len) =~= seq![text[0]] + rest.take(len - 1));
        assert(end =~= seq![end[0]] + end.skip(1));
    }
}

/// No scrubbed text holds the secret, whatever the text, unless the mask of the secret overlaps
/// the secret.
pub proof fn scrub_removes_the_secret(text: Seq<char>, secret: Seq<char>)
    requires
        secret.len() > 0,
        !mask_overlaps(secret),
    ensures
        !occurs(scrubbed(text, secret), secret),
    decreases text.len(),
{
    let n = secret.len() as int;
    let clean = scrubbed(text, secret);
    scrub_only_stars_characters(text, secret);
    assert forall|i: int| !occurs_at(clean, secret, i) by {
        if occurs_at(clean, secret, i) {
            if text.len() < n {
            } else if occurs_at(text, secret, 0) {
                let rest = scrubbed(text.skip(n), secret);
                if i < n {
                    let j = n - i;
                    assert(masked(secret).skip(n - j) =~= clean.subrange(i, i + n).take(j));
                    assert(joins(masked(secret), secret, j));
                } else {
                    assert(rest.subrange(i - n, i) =~= clean.subrange(i, i + n));
                    assert(occurs_at(rest, secret, i - n));
                    scrub_removes_the_secret(text.skip(n), secret);
                }
            } else {
                let rest = scrubbed(text.drop_first(), secret);
                if i == 0 {
                    assert(clean.take(n) =~= clean.subrange(0, n));
                    assert(secret.skip(0) =~= secret);
                    lemma_scrub_keeps_openings(text, secret, n);
                    assert(text.take(n) =~= text.subrange(0, n));
                } else {
                    assert(rest.subrange(i - 1, i - 1 + n) =~= clean.subrange(i, i + n));
                    assert(occurs_at(rest, secret, i - 1));
                    scrub_removes_the_secret(text.drop_first(), secret);
                }
            }
        }
    }
}

/// Scrubbing copies a front in which no occurrence begins.
proof fn lemma_scrub_copies_front(front: Seq<char>, rest: Seq<char>, secret: Seq<char>)
    requires
        secret.len() > 0,
        forall|i: int| 0 <= i < front.len() ==> !occurs_at(front + rest, secret, i),
    ensures
        scrubbed(front + rest, secret) == front + scrubbed(rest, secret),
    decreases front.len(),
{
    let n = secret.len() as int;
    let text = front + rest;
    if front.len() == 0 {
        assert(text =~= rest);
        assert(front + scrubbed(rest, secret) =~= scrubbed(rest, secret));
    } else if text.len() < n {
    } else {
        let f = front.drop_first();
        assert(text.drop_first() =~= f + rest);
        assert forall|i: int| 0 <= i < f.len() implies !occurs_at(f + rest, secret, i) by {
            if occurs_at(f + rest, secret, i) {
                assert((f + rest).subrange(i, i + n) =~= text.subrange(i + 1, i + 1 + n));
                assert(occurs_at(text, secret, i + 1));
            }
        }
        lemma_scrub_copies_front(f, rest, secret);
        assert(!occurs_at(text, secret, 0));
        assert(seq![text.first()] + (f + scrubbed(rest, secret)) =~= front + scrubbed(rest, secret));
    }
}

/// Whether position `i` of `s` holds what stands `period` before it.
spec fn repeats(s: Seq<char>, period: int, i: int) -> bool {
    s[i] == s[i - period]
}

/// A run of stars as long as the period of a sequence goes on to the end of the sequence.
proof fn lemma_stars_repeat(s: Seq<char>, period: int, from: int, k: int)
    requires
        1 <= period,
        0 <= from,
        forall|i: int| period <= i < s.len() ==> #[trigger] repeats(s, period, i),
        forall|i: int| from <= i < from + period && i < s.len() ==> s[i] == '*',
        from <= k < s.len(),
    ensures
        s[k] == '*',
    decreases k - from,
{
    if k >= from + period {
        lemma_stars_repeat(s, period, from, k - period);
        assert(repeats(s, period, k));
    }
}

/// A secret of more than four characters that begins with a star, repeats itself after at most three
/// characters, and has as many stars as its mask behind its first `d` characters, begins with an
/// end of its mask.
proof fn lemma_short_period_joins(s: Seq<char>, period: int, d: int)
    requires
        s.len() > 4,
        s[0] == '*',
        1 <= period <= d <= 3,
        forall|i: int| period <= i < s.len() ==> #[trigger] repeats(s, period, i),
        forall|i: int| d <= i < d + s.len() - 4 ==> s[i] == '*',
    ensures
        exists|l: int| joins(masked(s), s, l),
{
    let n = s.len() as int;
    let m = masked(s);
    if n - 4 >= period {
        lemma_stars_repeat(s, period, d, n - 1);
        assert(m.skip(n - 1) =~= s.take(1));
        assert(joins(m, s, 1));
    } else {
        let l = n - period;
        assert forall|k: int| 0 <= k < l implies m[k + period] == #[trigger] s[k] by {
            assert(repeats(s, period, k + period));
        }
        assert(m.skip(n - l) =~= s.take(l));
        assert(joins(m, s, l));
    }
}

/// Where an end of `a` is a beginning of `b`, the two agree character by character.
proof fn lemma_joined_character(a: Seq<char>, b: Seq<char>, j: int, t: int)
    requires
        joins(a, b, j),
        0 <= t < j,
    ensures
        a[a.len() - j + t] == b[t],
{
    assert(a.skip(a.len() - j)[t] == b.take(j)[t]);
}

/// An occurrence of `s` at `i` in its own first `d` characters followed by `s` makes it repeat
/// itself after `d - i` characters.
proof fn lemma_early_occurrence_repeats(s: Seq<char>, d: int, i: int, k: int)
    requires
        0 <= i < d <= s.len(),
        occurs_at(s.take(d) + s, s, i),
        0 <= k < s.len(),
    ensures
        i + k < d ==> s[k] == s[i + k],
        i + k >= d ==> repeats(s, d - i, k),
{
    let u = s.take(d) + s;
    assert(u.subrange(i, i + s.len())[k] == s[k]);
    assert(u[i + k] == s[k]);
}

/// A secret that its mask can follow, and that occurs in front of itself, begins with a star.
proof fn lemma_early_occurrence_starred(s: Seq<char>, j: int, i: int)
    requires
        joins(s, masked(s), j),
        0 <= i < s.len() - j,
        occurs_at(s.take(s.len() - j) + s, s, i),
    ensures
        s[0] == '*',
{
    let d = s.len() - j;
    lemma_early_occurrence_repeats(s, d, i, 0);
    lemma_early_occurrence_repeats(s, d, i, d);
    lemma_joined_character(s, masked(s), j, 0);
}

/// A secret that its mask can follow, that begins with a star and repeats itself before that end,
/// begins with an end of its mask.
proof fn lemma_starred_period_joins(s: Seq<char>, j: int, period: int)
    requires
        joins(s, masked(s), j),
        s[0] == '*',
        1 <= period <= s.len() - j,
        forall|k: int| period <= k < s.len() ==> #[trigger] repeats(s, period, k),
    ensures
        exists|l: int| joins(masked(s), s, l),
{
    let m = masked(s);
    let n = s.len() as int;
    let d = n - j;
    if j <= n - 4 {
        lemma_joined_character(s, m, j, j - 1);
    }
    if n <= 4 || s[n - 1] == '*' {
        assert(m.skip(n - 1) =~= s.take(1));
        assert(joins(m, s, 1));
    } else {
        assert forall|k: int| d <= k < d + n - 4 implies s[k] == '*' by {
            lemma_joined_character(s, m, j, k - d);
        }
        lemma_short_period_joins(s, period, d);
    }
}

/// In front of a secret that its mask can follow, a beginning of the secret starts an occurrence of
/// it only if the mask can go in front of the secret too.
proof fn lemma_early_occurrence_joins(s: Seq<char>, j: int, i: int)
    requires
        joins(s, masked(s), j),
        0 <= i < s.len() - j,
        occurs_at(s.take(s.len() - j) + s, s, i),
    ensures
        exists|l: int| joins(masked(s), s, l),
{
    let d = s.len() - j;
    lemma_early_occurrence_starred(s, j, i);
    assert forall|k: int| d - i <= k < s.len() implies #[trigger] repeats(s, d - i, k) by {
        lemma_early_occurrence_repeats(s, d, i, k);
    }
    lemma_starred_period_joins(s, j, d - i);
}

/// The secrets that `scrub_removes_the_secret` leaves out cannot be kept in: for each of them there
/// is a text whose scrubbed form holds the secret.
pub proof fn overlapping_mask_can_show_the_secret(secret: Seq<char>)
    requires
        secret.len() > 0,
        mask_overlaps(secret),
    ensures
        exists|text: Seq<char>| occurs(#[trigger] scrubbed(text, secret), secret),
{
    let s = secret;
    let m = masked(s);
    let n = s.len() as int;
    if exists|j: int| joins(m, s, j) {
        let j = choose|j: int| joins(m, s, j);
        let text = s + s.skip(j);
        assert(text.subrange(0, n) =~= s);
        assert(occurs_at(text, s, 0));
        assert(text.skip(n) =~= s.skip(j));
        let shown = scrubbed(text, s);
        assert(scrubbed(s.skip(j), s) == s.skip(j));
        assert(shown == m + s.skip(j));
        assert(shown.subrange(n - j, n - j + n) =~= m.skip(n - j) + s.skip(j));
        assert(s.take(j) + s.skip(j) =~= s);
        assert(occurs_at(shown, s, n - j));
    } else {
        let j = choose|j: int| joins(s, m, j);
        assert(joins(s, m, j));
        if j == n {
            assert(s.skip(0) =~= s);
            assert(m.take(n) =~= m);
            assert(m.skip(0) =~= s.take(n));
            assert(joins(m, s, n));
        }
        let front = s.take(n - j);
        assert forall|i: int| 0 <= i < front.len() implies !occurs_at(front + s, s, i) by {
            if occurs_at(front + s, s, i) {
                lemma_early_occurrence_joins(s, j, i);
            }
        }
        lemma_scrub_copies_front(front, s, s);
        let shown = scrubbed(front + s, s);
        assert(s.subrange(0, n) =~= s);
        assert(occurs_at(s, s, 0));
        assert(s.skip(n) =~= Seq::<char>::empty());
        assert(scrubbed(s.skip(n), s) == s.skip(n));
        assert(scrubbed(s, s) =~= m);
        assert(shown.subrange(0, n) =~= front + m.take(j));
        assert(front + s.skip(n - j) =~= s);
        assert(occurs_at(shown, s, 0));
    }
}

/// The mask of a key without stars overlaps the key in one case alone: the key has more than four
/// characters, and it ends with its own first one, two, three or four characters.
pub proof fn starless_mask_overlaps_by_the_end_alone(key: Seq<char>)
    requires
        !key.contains('*'),
    ensures
        mask_overlaps(key) <==> key.len() > 4 && exists|j: int| j <= 4 && joins(key, key, j),
{
    let n = key.len() as int;
    let m = masked(key);
    if mask_overlaps(key) {
        let j = choose|j: int|
            #![trigger joins(m, key, j)]
            #![trigger joins(key, m, j)]
            joins(m, key, j) || joins(key, m, j);
        if joins(key, m, j) {
            assert(key.skip(n - j)[0] == m.take(j)[0]);
            assert(key.contains(key[n - j]));
        } else {
            assert(m.skip(n - j)[0] == key.take(j)[0]);
            assert(key.contains(key[0]));
            assert(m[n - j] != '*');
            assert(m.skip(n - j) =~= key.skip(n - j));
            assert(joins(key, key, j));
        }
    }
    if n > 4 && exists|j: int| j <= 4 && joins(key, key, j) {
        let j = choose|j: int| j <= 4 && joins(key, key, j);
        assert(m.skip(n - j) =~= key.skip(n - j));
        assert(joins(m, key, j));
    }
}

/// A secret that is its own mask is left where it stands.
proof fn lemma_own_mask_stays(text: Seq<char>, secret: Seq<char>)
    requires
        masked(secret) == secret,
    ensures
        scrubbed(text, secret) == text,
    decreases text.len(),
{
    let n = secret.len() as int;
    if n == 0 || text.len() < n {
    } else if occurs_at(text, secret, 0) {
        lemma_own_mask_stays(text.skip(n), secret);
        assert(text.subrange(0, n) + text.skip(n) =~= text);
    } else {
        lemma_own_mask_stays(text.drop_first(), secret);
        assert(seq![text.first()] + text.drop_first() =~= text);
    }
}

/// Scrubbing a scrubbed text again changes nothing, unless the mask of the secret overlaps the
/// secret without being the secret itself.
pub proof fn scrub_is_idempotent(text: Seq<char>, secret: Seq<char>)
    requires
        !mask_overlaps(secret) || masked(secret) == secret,
    ensures
        scrubbed(scrubbed(text, secret), secret) == scrubbed(text, secret),
{
    if masked(secret) == secret {
        lemma_own_mask_stays(scrubbed(text, secret), secret);
    } else {
        if secret.len() > 0 {
            scrub_removes_the_secret(text, secret);
        }
        scrub_leaves_other_text(scrubbed(text, secret), secret);
    }
}

/// In a key of more than four characters the last four stay, and each character in front of them
/// becomes a star.
pub proof fn mask_keeps_the_last_four(hidden: Seq<char>, end: Seq<char>)
    requires
        hidden.len() > 0,
        end.len() == 4,
    ensures
        masked(hidden + end) == Seq::new(hidden.len(), |i: int| '*') + end,
{
    assert(masked(hidden + end) =~= Seq::new(hidden.len(), |i: int| '*') + end);
}

/// In a key of at most four characters each character becomes a star.
pub proof fn mask_hides_a_short_key(key: Seq<char>)
    requires
        key.len() <= 4,
    ensures
        masked(key) == Seq::new(key.len(), |i: int| '*'),
{
    assert(masked(key) =~= Seq::new(key.len(), |i: int| '*'));
}

/// To occur in a text is to stand in it between a front and a back.
pub proof fn an_occurrence_splits_the_text(text: Seq<char>, part: Seq<char>)
    ensures
        occurs(text, part) <==> exists|front: Seq<char>, back: Seq<char>|
            text == #[trigger] (front + part + back),
        forall|i: int|
            occurs_at(text, part, i) <==> 0 <= i && i + part.len() <= text.len() && text
                == #[trigger] text.take(i) + part + text.skip(i + part.len()),
{
    assert forall|i: int|
        occurs_at(text, part, i) <==> 0 <= i && i + part.len() <= text.len() && text
            == #[trigger] text.take(i) + part + text.skip(i + part.len()) by {
        if 0 <= i && i + part.len() <= text.len() {
            let whole = text.take(i) + part + text.skip(i + part.len());
            if occurs_at(text, part, i) {
                assert(text =~= text.take(i) + text.subrange(i, i + part.len()) + text.skip(
                    i + part.len(),
                ));
            }
            if text == whole {
                assert(whole.subrange(i, i + part.len()) =~= part);
            }
        }
    }
    if occurs(text, part) {
        let i = choose|i: int| occurs_at(text, part, i);
        assert(text == text.take(i) + part + text.skip(i + part.len()));
    }
    if exists|front: Seq<char>, back: Seq<char>| text == #[trigger] (front + part + back) {
        let (front, back) = choose|front: Seq<char>, back: Seq<char>|
            text == #[trigger] (front + part + back);
        assert((front + part + back).subrange(front.len() as int, front.len() as int + part.len())
            =~= part);
        assert(occurs_at(text, part, front.len() as int));
    }
}

/// Scrubbing changes nothing but the occurrences: what stands in front of the first one is kept, the
/// occurrence becomes its mask, and the rest is scrubbed as a text of its own.
pub proof fn scrub_changes_the_occurrences_alone(
    front: Seq<char>,
    secret: Seq<char>,
    rest: Seq<char>,
)
    requires
        secret.len() > 0,
        forall|i: int|
            0 <= i < front.len() ==> #[trigger] (front + secret + rest).subrange(
                i,
                i + secret.len(),
            ) != secret,
    ensures
        scrubbed(front + secret + rest, secret) == front + masked(secret) + scrubbed(rest, secret),
{
    let n = secret.len() as int;
    let tail = secret + rest;
    assert(front + secret + rest =~= front + tail);
    assert forall|i: int| 0 <= i < front.len() implies !occurs_at(front + tail, secret, i) by {
        assert((front + secret + rest).subrange(i, i + n) != secret);
    }
    lemma_scrub_copies_front(front, tail, secret);
    assert(tail.subrange(0, n) =~= secret);
    assert(occurs_at(tail, secret, 0));
    assert(tail.skip(n) =~= rest);
    assert(front + (masked(secret) + scrubbed(rest, secret)) =~= front + masked(secret) + scrubbed(
        rest,
        secret,
    ));
}

/// A character that the secret does not hold parts a text into pieces that are scrubbed each on its
/// own.
pub proof fn scrub_goes_piece_by_piece(a: Seq<char>, c: char, b: Seq<char>, secret: Seq<char>)
    requires
        !secret.contains(c),
    ensures
        scrubbed(a + seq![c] + b, secret) == scrubbed(a, secret) + seq![c] + scrubbed(b, secret),
    decreases a.len(),
{
    let n = secret.len() as int;
    let text = a + seq![c] + b;
    if n == 0 || text.len() < n {
    } else if a.len() == 0 {
        assert(text[0] == c);
        assert(!occurs_at(text, secret, 0)) by {
            assert(text.subrange(0, n)[0] == c);
            if occurs_at(text, secret, 0) {
                assert(secret.contains(secret[0]));
            }
        }
        assert(text.drop_first() =~= b);
        assert(scrubbed(a, secret) =~= a);
        assert(scrubbed(text, secret) =~= scrubbed(a, secret) + seq![c] + scrubbed(b, secret));
    } else if occurs_at(text, secret, 0) {
        if n > a.len() {
            assert(text.subrange(0, n)[a.len() as int] == c);
            assert(secret.contains(secret[a.len() as int]));
        }
        assert(a.subrange(0, n) =~= text.subrange(0, n));
        assert(occurs_at(a, secret, 0));
        assert(text.skip(n) =~= a.skip(n) + seq![c] + b);
        scrub_goes_piece_by_piece(a.skip(n), c, b, secret);
        assert(scrubbed(text, secret) =~= scrubbed(a, secret) + seq![c] + scrubbed(b, secret));
    } else {
        let rest = a.drop_first();
        assert(!occurs_at(a, secret, 0)) by {
            if occurs_at(a, secret, 0) {
                assert(a.subrange(0, n) =~= text.subrange(0, n));
            }
        }
        assert(text.drop_first() =~= rest + seq![c] + b);
        scrub_goes_piece_by_piece(rest, c, b, secret);
        assert(scrubbed(a, secret) =~= seq![a[0]] + scrubbed(rest, secret)) by {
            if a.len() < n {
                assert(scrubbed(rest, secret) == rest);
            }
        }
        assert(scrubbed(text, secret) =~= scrubbed(a, secret) + seq![c] + scrubbed(b, secret));
    }
}

} // verus!
