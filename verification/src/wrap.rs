//! Greedy word wrapping for the small screen: words are packed onto lines
//! whose UTF-8 length stays within a limit, separated by single spaces.

use vstd::prelude::*;
use vstd::string::*;
use crate::text::{chars_of, is_white_space, is_white_space_spec};

verus! {

/// Bytes the character takes in UTF-8.
pub open spec fn utf8_width(c: char) -> nat {
    if (c as u32) < 0x80 {
        1
    } else if (c as u32) < 0x800 {
        2
    } else if (c as u32) < 0x10000 {
        3
    } else {
        4
    }
}

/// Bytes the characters take in UTF-8.
pub open spec fn utf8_len(s: Seq<char>) -> nat
    decreases s.len(),
{
    if s.len() == 0 {
        0
    } else {
        utf8_len(s.drop_last()) + utf8_width(s.last())
    }
}

/// The first position at or after `i` that holds no white space (or the end).
pub open spec fn skip_space(s: Seq<char>, i: int) -> int
    decreases s.len() - i,
{
    if 0 <= i < s.len() && is_white_space_spec(s[i]) {
        skip_space(s, i + 1)
    } else {
        i
    }
}

/// The first position at or after `i` that holds white space (or the end).
pub open spec fn word_end(s: Seq<char>, i: int) -> int
    decreases s.len() - i,
{
    if 0 <= i < s.len() && !is_white_space_spec(s[i]) {
        word_end(s, i + 1)
    } else {
        i
    }
}

pub proof fn lemma_scans(s: Seq<char>, i: int)
    requires
        0 <= i <= s.len(),
    ensures
        i <= skip_space(s, i) <= s.len(),
        i <= word_end(s, i) <= s.len(),
        i < s.len() && !is_white_space_spec(s[i]) ==> i < word_end(s, i),
        skip_space(s, i) < s.len() ==> !is_white_space_spec(s[skip_space(s, i)]),
        forall|k: int| i <= k < word_end(s, i) ==> !is_white_space_spec(#[trigger] s[k]),
    decreases s.len() - i,
{
    if i < s.len() {
        lemma_scans(s, i + 1);
    }
}

/// The words of `s` from position `i` on: maximal runs without white space.
pub open spec fn words_from(s: Seq<char>, i: int) -> Seq<Seq<char>>
    decreases s.len() - i,
{
    if i < 0 || i > s.len() {
        Seq::empty()
    } else {
        let a = skip_space(s, i);
        proof {
            lemma_scans(s, i);
        }
        if a >= s.len() {
            Seq::empty()
        } else {
            let b = word_end(s, a);
            proof {
                lemma_scans(s, a);
            }
            seq![s.subrange(a, b)] + words_from(s, b)
        }
    }
}

/// Greedy packing of `words[k..]` onto lines, continuing the current `line`:
/// a word that would push the line past `max` bytes first flushes the line
/// (even an empty one), and words on a line are joined by one space.
pub open spec fn pack(words: Seq<Seq<char>>, k: int, max: int, line: Seq<char>) -> Seq<Seq<char>>
    decreases words.len() - k,
{
    if k < 0 || k >= words.len() {
        if line.len() > 0 {
            seq![line]
        } else {
            Seq::empty()
        }
    } else {
        let w = words[k];
        let separator: int = if line.len() > 0 {
            1
        } else {
            0
        };
        let flush = utf8_len(line) + separator + utf8_len(w) > max;
        let kept = if flush {
            Seq::<char>::empty()
        } else {
            line
        };
        let next = if kept.len() > 0 {
            kept + seq![' '] + w
        } else {
            w
        };
        (if flush {
            seq![line]
        } else {
            Seq::empty()
        }) + pack(words, k + 1, max, next)
    }
}

/// The lines that `text` is drawn as, at most `max` UTF-8 bytes each unless a
/// single word is longer.
pub open spec fn wrapped(text: Seq<char>, max: int) -> Seq<Seq<char>> {
    pack(words_from(text, 0), 0, max, Seq::empty())
}

fn utf8_width_of(c: char) -> (n: usize)
    ensures
        n == utf8_width(c),
{
    let code: u32 = c as u32;
    if code < 0x80 {
        1
    } else if code < 0x800 {
        2
    } else if code < 0x10000 {
        3
    } else {
        4
    }
}

proof fn lemma_utf8_len_bound(s: Seq<char>)
    ensures
        utf8_len(s) <= 4 * s.len(),
    decreases s.len(),
{
    if s.len() > 0 {
        lemma_utf8_len_bound(s.drop_last());
    }
}

proof fn lemma_utf8_len_concat(a: Seq<char>, b: Seq<char>)
    ensures
        utf8_len(a + b) == utf8_len(a) + utf8_len(b),
    decreases b.len(),
{
    if b.len() > 0 {
        lemma_utf8_len_concat(a, b.drop_last());
        assert((a + b).drop_last() =~= a + b.drop_last());
    } else {
        assert(a + b =~= a);
    }
}

/// UTF-8 length of `chars[from..to]`.
fn utf8_len_of(chars: &Vec<char>, from: usize, to: usize) -> (n: u128)
    requires
        from <= to <= chars@.len(),
    ensures
        n == utf8_len(chars@.subrange(from as int, to as int)),
{
    let mut n: u128 = 0;
    let mut k: usize = from;
    while k < to
        invariant
            from <= k <= to <= chars@.len(),
            n == utf8_len(chars@.subrange(from as int, k as int)),
            n <= 4 * (k - from),
        decreases to - k,
    {
        assert(chars@.subrange(from as int, k + 1).drop_last() =~= chars@.subrange(
            from as int,
            k as int,
        ));
        n = n + utf8_width_of(chars[k]) as u128;
        k = k + 1;
    }
    n
}

/// The lines `text` is drawn as when no line may exceed `max_bytes` UTF-8
/// bytes (a single longer word gets a line of its own, and such a word at
/// the start first flushes an empty line).
pub fn wrap_text(text: &str, max_bytes: usize) -> (lines: Vec<String>)
    ensures
        lines@.len() == wrapped(text@, max_bytes as int).len(),
        forall|i: int|
            0 <= i < lines@.len() ==> #[trigger] lines@[i]@ == wrapped(text@, max_bytes as int)[i],
{
    let chars = chars_of(text);
    let n = chars.len();
    let ghost s = chars@;
    // Word boundaries.
    let mut starts: Vec<usize> = Vec::new();
    let mut ends: Vec<usize> = Vec::new();
    let ghost mut found: Seq<Seq<char>> = Seq::empty();
    let mut i: usize = 0;
    proof {
        lemma_scans(s, 0);
    }
    while i < n
        invariant
            s == chars@,
            n == s.len(),
            i <= n,
            starts@.len() == ends@.len(),
            found.len() == starts@.len(),
            words_from(s, 0) == found + words_from(s, i as int),
            forall|k: int|
                0 <= k < starts@.len() ==> #[trigger] starts@[k] < ends@[k] && ends@[k] <= i
                    && found[k] == s.subrange(starts@[k] as int, ends@[k] as int),
            forall|k: int| 0 < k < starts@.len() ==> #[trigger] starts@[k] > ends@[k - 1],
            starts@.len() > 0 ==> ends@[starts@.len() - 1] <= i,
            starts@.len() > 0 && i < n ==> ends@[starts@.len() - 1] == i,
            i > 0 && i < n ==> is_white_space_spec(s[i as int]) || starts@.len() == 0,
        ensures
            i == n,
        decreases n - i,
    {
        let ghost before = found;
        let ghost i0 = i as int;
        proof {
            lemma_scans(s, i0);
        }
        let mut a = i;
        while a < n && is_white_space(chars[a])
            invariant
                s == chars@,
                n == s.len(),
                i0 <= a <= n,
                skip_space(s, i0) == skip_space(s, a as int),
            decreases n - a,
        {
            a = a + 1;
        }
        if a >= n {
            i = n;
            assert(words_from(s, i0) =~= Seq::<Seq<char>>::empty());
            assert(words_from(s, n as int) =~= Seq::<Seq<char>>::empty());
            break;
        }
        proof {
            lemma_scans(s, a as int);
        }
        let mut b = a;
        while b < n && !is_white_space(chars[b])
            invariant
                s == chars@,
                n == s.len(),
                a <= b <= n,
                word_end(s, a as int) == word_end(s, b as int),
            decreases n - b,
        {
            b = b + 1;
        }
        starts.push(a);
        ends.push(b);
        proof {
            found = found.push(s.subrange(a as int, b as int));
            assert(words_from(s, i0) == seq![s.subrange(a as int, b as int)] + words_from(
                s,
                b as int,
            ));
            assert(found + words_from(s, b as int) =~= before + words_from(s, i0));
        }
        i = b;
    }
    // Greedy packing.
    let count = starts.len();
    let ghost words = words_from(s, 0);
    assert(words_from(s, n as int) =~= Seq::<Seq<char>>::empty()) by {
        lemma_scans(s, n as int);
    }
    assert(i == n);
    assert(words == found + words_from(s, n as int));
    assert(found + Seq::<Seq<char>>::empty() =~= found);
    assert(found =~= words);
    let mut lines: Vec<String> = Vec::new();
    let ghost mut done: Seq<Seq<char>> = Seq::empty();
    let mut line = String::new();
    let mut line_len: u128 = 0;
    let mut has_text = false;
    let mut k: usize = 0;
    while k < count
        invariant
            s == chars@,
            s == text@,
            n == s.len(),
            count == starts@.len(),
            count == ends@.len(),
            words == found,
            found.len() == count,
            forall|j: int|
                0 <= j < count ==> #[trigger] starts@[j] < ends@[j] && ends@[j] <= n
                    && found[j] == s.subrange(starts@[j] as int, ends@[j] as int),
            forall|j: int| 0 < j < count ==> #[trigger] starts@[j] > ends@[j - 1],
            k <= count,
            has_text == (line@.len() > 0),
            line_len == utf8_len(line@),
            k == 0 ==> line@.len() == 0,
            k > 0 ==> line@.len() <= ends@[k - 1],
            lines@.len() == done.len(),
            forall|j: int| 0 <= j < done.len() ==> #[trigger] lines@[j]@ == done[j],
            done + pack(words, k as int, max_bytes as int, line@) == pack(
                words,
                0,
                max_bytes as int,
                Seq::empty(),
            ),
        decreases count - k,
    {
        let a = starts[k];
        let b = ends[k];
        let word = text.substring_char(a, b);
        let word_len = utf8_len_of(&chars, a, b);
        proof {
            lemma_utf8_len_bound(line@);
            lemma_utf8_len_bound(s.subrange(a as int, b as int));
        }
        let separator: u128 = if has_text {
            1
        } else {
            0
        };
        let ghost old_line = line@;
        let ghost old_done = done;
        let flush = line_len + separator + word_len > max_bytes as u128;
        if flush {
            proof {
                done = done.push(line@);
            }
            lines.push(line);
            line = String::new();
            line_len = 0;
            has_text = false;
        }
        let ghost mid = line@;
        if has_text {
            line.append(" ");
            proof {
                reveal_strlit(" ");
                assert(" "@ =~= seq![' ']);
                lemma_utf8_len_concat(mid, seq![' ']);
                assert(seq![' '].drop_last() =~= Seq::<char>::empty());
                assert(utf8_len(seq![' ']) == 1);
            }
            line_len = line_len + 1;
        }
        let ghost kept = line@;
        proof {
            lemma_utf8_len_concat(kept, word@);
        }
        line.append(word);
        line_len = line_len + word_len;
        has_text = true;
        proof {
            let next = if mid.len() > 0 {
                mid + seq![' '] + word@
            } else {
                word@
            };
            assert(line@ =~= next);
            assert(pack(words, k as int, max_bytes as int, old_line) == (if flush {
                seq![old_line]
            } else {
                Seq::<Seq<char>>::empty()
            }) + pack(words, k + 1, max_bytes as int, next));
            assert(done + pack(words, k + 1, max_bytes as int, line@) =~= old_done + pack(
                words,
                k as int,
                max_bytes as int,
                old_line,
            ));
        }
        k = k + 1;
    }
    if has_text {
        proof {
            done = done.push(line@);
        }
        lines.push(line);
    }
    assert(done =~= pack(words, 0, max_bytes as int, Seq::empty()));
    lines
}

/// The line fits within `max` bytes, or it is a single word (it holds no
/// white space).
pub open spec fn fits_or_single_word(line: Seq<char>, max: int) -> bool {
    utf8_len(line) <= max || forall|k: int| 0 <= k < line.len() ==> !is_white_space_spec(#[trigger] line[k])
}

proof fn lemma_words_have_no_space(s: Seq<char>, i: int)
    ensures
        forall|j: int, k: int|
            0 <= j < words_from(s, i).len() && 0 <= k < words_from(s, i)[j].len()
                ==> !is_white_space_spec(#[trigger] words_from(s, i)[j][k]),
    decreases s.len() - i,
{
    if 0 <= i <= s.len() {
        lemma_scans(s, i);
        let a = skip_space(s, i);
        if a < s.len() {
            lemma_scans(s, a);
            let b = word_end(s, a);
            lemma_words_have_no_space(s, b);
            let ws = words_from(s, i);
            assert(ws == seq![s.subrange(a, b)] + words_from(s, b));
            assert forall|j: int, k: int| 0 <= j < ws.len() && 0 <= k < ws[j].len() implies
                !is_white_space_spec(#[trigger] ws[j][k]) by {
                if j == 0 {
                    assert(ws[j][k] == s[a + k]);
                } else {
                    assert(ws[j] == words_from(s, b)[j - 1]);
                }
            }
        }
    }
}

proof fn lemma_pack_lines_fit(words: Seq<Seq<char>>, k: int, max: int, line: Seq<char>)
    requires
        0 <= k,
        fits_or_single_word(line, max),
        forall|j: int, q: int|
            0 <= j < words.len() && 0 <= q < words[j].len() ==> !is_white_space_spec(
                #[trigger] words[j][q],
            ),
    ensures
        forall|i: int|
            0 <= i < pack(words, k, max, line).len() ==> fits_or_single_word(
                #[trigger] pack(words, k, max, line)[i],
                max,
            ),
    decreases words.len() - k,
{
    if k < words.len() {
        let w = words[k];
        let separator: int = if line.len() > 0 {
            1
        } else {
            0
        };
        let flush = utf8_len(line) + separator + utf8_len(w) > max;
        let kept = if flush {
            Seq::<char>::empty()
        } else {
            line
        };
        let next = if kept.len() > 0 {
            kept + seq![' '] + w
        } else {
            w
        };
        if kept.len() > 0 {
            lemma_utf8_len_concat(kept, seq![' ']);
            lemma_utf8_len_concat(kept + seq![' '], w);
            assert(seq![' '].drop_last() =~= Seq::<char>::empty());
            assert(seq![' '].last() == ' ');
            assert(utf8_len(Seq::<char>::empty()) == 0);
            assert(utf8_len(seq![' ']) == 1);
            assert(!flush);
            assert(utf8_len(next) <= max);
        } else {
            assert forall|q: int| 0 <= q < w.len() implies !is_white_space_spec(#[trigger] w[q]) by {
                assert(!is_white_space_spec(words[k][q]));
            }
        }
        assert(fits_or_single_word(next, max));
        lemma_pack_lines_fit(words, k + 1, max, next);
        let head: Seq<Seq<char>> = if flush {
            seq![line]
        } else {
            Seq::empty()
        };
        let rest = pack(words, k + 1, max, next);
        assert(pack(words, k, max, line) == head + rest);
        assert forall|i: int| 0 <= i < (head + rest).len() implies fits_or_single_word(
            #[trigger] (head + rest)[i],
            max,
        ) by {
            if i < head.len() {
                assert((head + rest)[i] == line);
            } else {
                assert((head + rest)[i] == rest[i - head.len()]);
            }
        }
    }
}

/// Wrapping never makes a line longer than the limit, except a line holding
/// one word that is longer than the limit by itself.
pub proof fn wrapped_lines_fit(text: Seq<char>, max: int)
    requires
        0 <= max,
    ensures
        forall|i: int|
            0 <= i < wrapped(text, max).len() ==> fits_or_single_word(
                #[trigger] wrapped(text, max)[i],
                max,
            ),
{
    lemma_words_have_no_space(text, 0);
    let words = words_from(text, 0);
    assert forall|j: int, q: int| 0 <= j < words.len() && 0 <= q < words[j].len() implies
        !is_white_space_spec(#[trigger] words[j][q]) by {}
    lemma_pack_lines_fit(words, 0, max, Seq::empty());
}

/// `a` and `b` joined by one space; an empty side adds nothing.
pub open spec fn glue(a: Seq<char>, b: Seq<char>) -> Seq<char> {
    if a.len() == 0 {
        b
    } else if b.len() == 0 {
        a
    } else {
        a + seq![' '] + b
    }
}

/// The pieces `parts[k..]` joined by single spaces, empty pieces skipped.
pub open spec fn joined(parts: Seq<Seq<char>>, k: int) -> Seq<char>
    decreases parts.len() - k,
{
    if k < 0 || k >= parts.len() {
        Seq::empty()
    } else {
        glue(parts[k], joined(parts, k + 1))
    }
}

proof fn lemma_joined_shift(p: Seq<Seq<char>>, r: Seq<Seq<char>>, j: int)
    requires
        0 <= j,
    ensures
        joined(p + r, p.len() + j) == joined(r, j),
    decreases r.len() - j,
{
    if j < r.len() {
        lemma_joined_shift(p, r, j + 1);
        assert((p + r)[p.len() + j] == r[j]);
    }
}

proof fn lemma_words_nonempty(s: Seq<char>, i: int)
    ensures
        forall|j: int| 0 <= j < words_from(s, i).len() ==> #[trigger] words_from(s, i)[j].len() > 0,
    decreases s.len() - i,
{
    if 0 <= i <= s.len() {
        lemma_scans(s, i);
        let a = skip_space(s, i);
        if a < s.len() {
            lemma_scans(s, a);
            let b = word_end(s, a);
            lemma_words_nonempty(s, b);
            let ws = words_from(s, i);
            assert(ws == seq![s.subrange(a, b)] + words_from(s, b));
            assert forall|j: int| 0 <= j < ws.len() implies #[trigger] ws[j].len() > 0 by {
                if j > 0 {
                    assert(ws[j] == words_from(s, b)[j - 1]);
                }
            }
        }
    }
}

proof fn lemma_pack_keeps_words(words: Seq<Seq<char>>, k: int, max: int, line: Seq<char>)
    requires
        0 <= k,
        forall|j: int| 0 <= j < words.len() ==> #[trigger] words[j].len() > 0,
    ensures
        joined(pack(words, k, max, line), 0) == glue(line, joined(words, k)),
    decreases words.len() - k,
{
    if k >= words.len() {
        if line.len() > 0 {
            assert(joined(seq![line], 1) == Seq::<char>::empty());
        }
    } else {
        let w = words[k];
        let separator: int = if line.len() > 0 {
            1
        } else {
            0
        };
        let flush = utf8_len(line) + separator + utf8_len(w) > max;
        let kept = if flush {
            Seq::<char>::empty()
        } else {
            line
        };
        let next = if kept.len() > 0 {
            kept + seq![' '] + w
        } else {
            w
        };
        lemma_pack_keeps_words(words, k + 1, max, next);
        let rest = pack(words, k + 1, max, next);
        let tail = joined(words, k + 1);
        assert(w.len() > 0);
        if flush {
            let head: Seq<Seq<char>> = seq![line];
            assert(pack(words, k, max, line) == head + rest);
            lemma_joined_shift(head, rest, 0);
            assert((head + rest)[0] == line);
            assert(joined(head + rest, 0) == glue(line, joined(rest, 0)));
        } else {
            assert(pack(words, k, max, line) =~= rest);
            if line.len() > 0 {
                if tail.len() > 0 {
                    assert(line + seq![' '] + w + seq![' '] + tail =~= line + seq![' '] + (w
                        + seq![' '] + tail));
                }
            }
        }
    }
}

/// Wrapping loses, adds and reorders nothing: the lines joined by single
/// spaces are the words of the text joined by single spaces.
pub proof fn wrapping_keeps_the_words(text: Seq<char>, max: int)
    ensures
        joined(wrapped(text, max), 0) == joined(words_from(text, 0), 0),
{
    lemma_words_nonempty(text, 0);
    lemma_pack_keeps_words(words_from(text, 0), 0, max, Seq::empty());
}

proof fn lemma_utf8_len_prefix(whole: Seq<char>, n: int)
    requires
        0 <= n <= whole.len(),
    ensures
        utf8_len(whole.subrange(0, n)) <= utf8_len(whole),
{
    lemma_utf8_len_concat(whole.subrange(0, n), whole.subrange(n, whole.len() as int));
    assert(whole.subrange(0, n) + whole.subrange(n, whole.len() as int) =~= whole);
}

proof fn lemma_utf8_len_glue(a: Seq<char>, b: Seq<char>)
    requires
        a.len() > 0,
        b.len() > 0,
    ensures
        utf8_len(glue(a, b)) == utf8_len(a) + 1 + utf8_len(b),
{
    lemma_utf8_len_concat(a, seq![' ']);
    lemma_utf8_len_concat(a + seq![' '], b);
    assert(seq![' '].drop_last() =~= Seq::<char>::empty());
    assert(seq![' '].last() == ' ');
    assert(utf8_len(Seq::<char>::empty()) == 0);
    assert(utf8_len(seq![' ']) == 1);
}

proof fn lemma_pack_greedy(words: Seq<Seq<char>>, k: int, max: int, line: Seq<char>)
    requires
        0 <= k,
        forall|j: int| 0 <= j < words.len() ==> #[trigger] words[j].len() > 0,
    ensures
        line.len() > 0 ==> pack(words, k, max, line).len() > 0 && pack(words, k, max, line)[0].len()
            >= line.len() && pack(words, k, max, line)[0].subrange(0, line.len() as int) == line,
        forall|i: int|
            0 <= i < pack(words, k, max, line).len() - 1 ==> utf8_len(
                glue(#[trigger] pack(words, k, max, line)[i], pack(words, k, max, line)[i + 1]),
            ) > max,
    decreases words.len() - k,
{
    if k >= words.len() {
        if line.len() > 0 {
            assert(line.subrange(0, line.len() as int) =~= line);
        }
    } else {
        let w = words[k];
        let separator: int = if line.len() > 0 {
            1
        } else {
            0
        };
        let flush = utf8_len(line) + separator + utf8_len(w) > max;
        let kept = if flush {
            Seq::<char>::empty()
        } else {
            line
        };
        let next = if kept.len() > 0 {
            kept + seq![' '] + w
        } else {
            w
        };
        lemma_pack_greedy(words, k + 1, max, next);
        let rest = pack(words, k + 1, max, next);
        assert(w.len() > 0);
        assert(next.len() > 0);
        assert(rest.len() > 0);
        if flush {
            let head: Seq<Seq<char>> = seq![line];
            let all = head + rest;
            assert(pack(words, k, max, line) == all);
            let first = rest[0];
            lemma_utf8_len_prefix(first, w.len() as int);
            assert(first.len() > 0);
            if line.len() > 0 {
                lemma_utf8_len_glue(line, first);
                assert(line.subrange(0, line.len() as int) =~= line);
            }
            assert forall|i: int| 0 <= i < all.len() - 1 implies utf8_len(
                glue(#[trigger] all[i], all[i + 1]),
            ) > max by {
                if i == 0 {
                    assert(all[0] == line);
                    assert(all[1] == first);
                } else {
                    assert(all[i] == rest[i - 1]);
                    assert(all[i + 1] == rest[i]);
                }
            }
        } else {
            assert(pack(words, k, max, line) =~= rest);
            if line.len() > 0 {
                let first = rest[0];
                assert(first.subrange(0, line.len() as int) =~= line) by {
                    assert forall|j: int| 0 <= j < line.len() implies first[j] == line[j] by {
                        assert(first.subrange(0, next.len() as int)[j] == next[j]);
                    }
                }
            }
        }
    }
}

/// Lines are filled greedily: no two neighbouring lines could have shared
/// one line, because joined by a space they are longer than the limit.
pub proof fn lines_are_filled_greedily(text: Seq<char>, max: int)
    ensures
        forall|i: int|
            0 <= i < wrapped(text, max).len() - 1 ==> utf8_len(
                glue(#[trigger] wrapped(text, max)[i], wrapped(text, max)[i + 1]),
            ) > max,
{
    lemma_words_nonempty(text, 0);
    lemma_pack_greedy(words_from(text, 0), 0, max, Seq::empty());
}

} // verus!
