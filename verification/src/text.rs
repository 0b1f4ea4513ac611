//! Text helpers: case mapping, joining, splitting and decimal rendering.

use vstd::prelude::*;
use vstd::utf8::is_ascii_chars;

verus! {

/// What `str::to_lowercase` returns for a string (Unicode lowercase mapping).
pub uninterp spec fn unicode_lowercase(s: Seq<char>) -> Seq<char>;

/// What `str::to_uppercase` returns for a string (Unicode uppercase mapping).
pub uninterp spec fn unicode_uppercase(s: Seq<char>) -> Seq<char>;

/// An ASCII letter in lowercase; every other character unchanged.
pub open spec fn ascii_lower_char(c: char) -> char {
    if 'A' <= c && c <= 'Z' {
        ((c as u32) + 32) as char
    } else {
        c
    }
}

/// An ASCII letter in uppercase; every other character unchanged.
pub open spec fn ascii_upper_char(c: char) -> char {
    if 'a' <= c && c <= 'z' {
        ((c as u32) - 32) as char
    } else {
        c
    }
}

/// Every ASCII letter of `s` in lowercase.
pub open spec fn ascii_lower(s: Seq<char>) -> Seq<char> {
    s.map_values(|c: char| ascii_lower_char(c))
}

/// Every ASCII letter of `s` in uppercase.
pub open spec fn ascii_upper(s: Seq<char>) -> Seq<char> {
    s.map_values(|c: char| ascii_upper_char(c))
}

/// Lowercases `s` with `str::to_lowercase`.
/// Trusted: the result is the Unicode lowercase mapping of `s`, a function of
/// `s` alone; on ASCII text that mapping turns `A`-`Z` into `a`-`z` and keeps
/// every other character, as `to_ascii_lowercase` does.
#[verifier::external_body]
pub(crate) fn to_lowercase(s: &str) -> (r: String)
    ensures
        r@ == unicode_lowercase(s@),
        is_ascii_chars(s@) ==> r@ == ascii_lower(s@),
{
    s.to_lowercase()
}

/// Uppercases `s` with `str::to_uppercase`.
/// Trusted: the result is the Unicode uppercase mapping of `s`, a function of
/// `s` alone; on ASCII text that mapping turns `a`-`z` into `A`-`Z` and keeps
/// every other character, as `to_ascii_uppercase` does.
#[verifier::external_body]
pub(crate) fn to_uppercase(s: &str) -> (r: String)
    ensures
        r@ == unicode_uppercase(s@),
        is_ascii_chars(s@) ==> r@ == ascii_upper(s@),
{
    s.to_uppercase()
}

/// On ASCII text, lowercasing stays in ASCII and changes nothing a second
/// time, and the case the text was written in makes no difference.
pub proof fn lemma_ascii_case_mapping(s: Seq<char>)
    requires
        is_ascii_chars(s),
    ensures
        is_ascii_chars(ascii_lower(s)),
        is_ascii_chars(ascii_upper(s)),
        ascii_lower(ascii_lower(s)) == ascii_lower(s),
        ascii_lower(ascii_upper(s)) == ascii_lower(s),
{
    assert forall|i: int| 0 <= i < s.len() implies '\0' <= #[trigger] ascii_lower(s)[i] <= '\u{7f}'
        && '\0' <= ascii_upper(s)[i] <= '\u{7f}' by {
        assert('\0' <= s[i] <= '\u{7f}');
    }
    assert(ascii_lower(ascii_lower(s)) =~= ascii_lower(s));
    assert(ascii_lower(ascii_upper(s)) =~= ascii_lower(s));
}

/// The pieces joined in order, with `sep` between each two neighbours.
pub open spec fn join(parts: Seq<Seq<char>>, sep: Seq<char>) -> Seq<char>
    decreases parts.len(),
{
    if parts.len() == 0 {
        Seq::empty()
    } else if parts.len() == 1 {
        parts[0]
    } else {
        join(parts.drop_last(), sep) + sep + parts.last()
    }
}

/// Where the `i`-th piece starts when pieces are laid end to end with
/// `sep_len` characters between each two neighbours.
pub open spec fn word_offset(words: Seq<Seq<char>>, sep_len: int, i: int) -> int
    decreases i,
{
    if i <= 0 {
        0
    } else {
        word_offset(words, sep_len, i - 1) + words[i - 1].len() + sep_len
    }
}

proof fn lemma_word_offset_prefix(words: Seq<Seq<char>>, sep_len: int, i: int)
    requires
        words.len() > 0,
        i < words.len(),
    ensures
        word_offset(words.drop_last(), sep_len, i) == word_offset(words, sep_len, i),
    decreases i,
{
    if i > 0 {
        lemma_word_offset_prefix(words, sep_len, i - 1);
    }
}

proof fn lemma_word_offset_nonneg(words: Seq<Seq<char>>, sep_len: int, i: int)
    requires
        sep_len >= 0,
    ensures
        word_offset(words, sep_len, i) >= 0,
    decreases i,
{
    if i > 0 {
        lemma_word_offset_nonneg(words, sep_len, i - 1);
    }
}

proof fn lemma_word_offset_grows(words: Seq<Seq<char>>, sep_len: int, i: int, m: int)
    requires
        sep_len >= 0,
        0 <= i < m,
    ensures
        word_offset(words, sep_len, i) + words[i].len() + sep_len <= word_offset(words, sep_len, m),
    decreases m - i,
{
    if i < m - 1 {
        lemma_word_offset_grows(words, sep_len, i, m - 1);
    }
}

/// Joining lays the pieces out in order, in full, with `sep` between each two
/// neighbours and nothing else: the `i`-th piece stands at `word_offset(i)`,
/// a separator follows each piece but the last, and the text ends with the
/// last piece.
pub proof fn lemma_join_layout(words: Seq<Seq<char>>, sep: Seq<char>)
    requires
        words.len() > 0,
    ensures
        join(words, sep).len() == word_offset(words, sep.len() as int, words.len() - 1)
            + words.last().len(),
        forall|i: int|
            0 <= i < words.len() ==> 0 <= #[trigger] word_offset(words, sep.len() as int, i)
                && word_offset(words, sep.len() as int, i) + words[i].len() <= join(words, sep).len(),
        forall|i: int|
            0 <= i < words.len() ==> join(words, sep).subrange(
                #[trigger] word_offset(words, sep.len() as int, i),
                word_offset(words, sep.len() as int, i) + words[i].len(),
            ) == words[i],
        forall|i: int|
            0 <= i < words.len() - 1 ==> join(words, sep).subrange(
                #[trigger] word_offset(words, sep.len() as int, i) + words[i].len(),
                word_offset(words, sep.len() as int, i + 1),
            ) == sep,
    decreases words.len(),
{
    let k = sep.len() as int;
    let n = words.len() as int;
    assert forall|i: int| 0 <= i < n - 1 implies #[trigger] word_offset(words, k, i) + words[i].len()
        <= word_offset(words, k, n - 1) by {
        lemma_word_offset_grows(words, k, i, n - 1);
    }
    assert forall|i: int| 0 <= i < n implies 0 <= #[trigger] word_offset(words, k, i) by {
        lemma_word_offset_nonneg(words, k, i);
    }
    if n == 1 {
        assert(join(words, sep) == words[0]);
        assert forall|i: int| 0 <= i < words.len() implies join(words, sep).subrange(
            #[trigger] word_offset(words, k, i),
            word_offset(words, k, i) + words[i].len(),
        ) == words[i] by {
            assert(i == 0);
            assert(words[0].subrange(0, words[0].len() as int) =~= words[0]);
        }
    } else {
        let front = words.drop_last();
        lemma_join_layout(front, sep);
        let jf = join(front, sep);
        let j = join(words, sep);
        assert(j == jf + sep + words.last());
        assert forall|i: int| 0 <= i < n implies word_offset(front, k, i) == word_offset(
            words,
            k,
            i,
        ) by {
            lemma_word_offset_prefix(words, k, i);
        }
        let last_start = word_offset(words, k, n - 1);
        assert(last_start == jf.len() + k) by {
            lemma_word_offset_prefix(words, k, n - 2);
            assert(front[n - 2] == words[n - 2]);
        }
        assert forall|i: int| 0 <= i < n implies j.subrange(
            #[trigger] word_offset(words, k, i),
            word_offset(words, k, i) + words[i].len(),
        ) == words[i] by {
            lemma_word_offset_nonneg(words, k, i);
            lemma_word_offset_nonneg(front, k, i);
            if i < n - 1 {
                assert(front[i] == words[i]);
                if i < n - 2 {
                    lemma_word_offset_grows(front, k, i, n - 2);
                }
                assert(word_offset(front, k, i) == word_offset(words, k, i));
                assert(jf.subrange(word_offset(front, k, i), word_offset(front, k, i) + front[i].len())
                    == front[i]);
                assert(j.subrange(word_offset(words, k, i), word_offset(words, k, i) + words[i].len())
                    =~= jf.subrange(word_offset(words, k, i), word_offset(words, k, i) + words[i].len()));
            } else {
                assert(j.subrange(last_start, last_start + words[i].len()) =~= words.last());
            }
        }
        assert forall|i: int| 0 <= i < n - 1 implies j.subrange(
            #[trigger] word_offset(words, k, i) + words[i].len(),
            word_offset(words, k, i + 1),
        ) == sep by {
            lemma_word_offset_nonneg(words, k, i);
            lemma_word_offset_nonneg(front, k, i);
            if i < n - 2 {
                assert(front[i] == words[i]);
                lemma_word_offset_grows(front, k, i, n - 2);
                if i + 1 < n - 2 {
                    lemma_word_offset_grows(front, k, i + 1, n - 2);
                }
                assert(word_offset(front, k, i) == word_offset(words, k, i));
                assert(word_offset(front, k, i + 1) == word_offset(words, k, i + 1));
                assert(jf.subrange(
                    word_offset(front, k, i) + front[i].len(),
                    word_offset(front, k, i + 1),
                ) == sep);
                assert(j.subrange(word_offset(words, k, i) + words[i].len(), word_offset(words, k, i + 1))
                    =~= jf.subrange(word_offset(words, k, i) + words[i].len(), word_offset(words, k, i + 1)));
            } else {
                assert(word_offset(words, k, i) + words[i].len() == jf.len()) by {
                    assert(front[n - 2] == words[n - 2]);
                    assert(word_offset(front, k, n - 2) == word_offset(words, k, n - 2));
                }
                assert(j.subrange(jf.len() as int, jf.len() + k) =~= sep);
            }
        }
    }
}

/// Joins the strings of `parts` with `sep` between each two neighbours.
pub fn join_strings(parts: &Vec<String>, sep: &str) -> (r: String)
    ensures
        r@ == join(parts.deep_view(), sep@),
{
    let mut r = String::new();
    let n = parts.len();
    let ghost views = parts.deep_view();
    let mut i: usize = 0;
    while i < n
        invariant
            n == parts.len(),
            views == parts.deep_view(),
            i <= n,
            r@ == join(views.take(i as int), sep@),
        decreases n - i,
    {
        assert(views.take(i + 1).drop_last() =~= views.take(i as int));
        if i > 0 {
            r.append(sep);
        } else {
            assert(r@ =~= Seq::<char>::empty());
        }
        r.append(parts[i].as_str());
        i = i + 1;
        assert(r@ =~= join(views.take(i as int), sep@));
    }
    assert(views.take(n as int) =~= views);
    r
}

/// Whether `v` holds a string equal to `x`.
pub fn contains_string(v: &Vec<String>, x: &String) -> (r: bool)
    ensures
        r == v.deep_view().contains(x@),
{
    let n = v.len();
    let mut i: usize = 0;
    while i < n
        invariant
            n == v.len(),
            i <= n,
            forall|j: int| 0 <= j < i ==> v.deep_view()[j] != x@,
        decreases n - i,
    {
        if v[i] == *x {
            assert(v.deep_view()[i as int] == x@);
            return true;
        }
        i = i + 1;
    }
    false
}

/// Whether `s` begins with `prefix`.
pub open spec fn starts_with(s: Seq<char>, prefix: Seq<char>) -> bool {
    prefix.len() <= s.len() && s.subrange(0, prefix.len() as int) == prefix
}

/// Whether `s` begins with `prefix`, character by character.
pub fn str_starts_with(s: &str, prefix: &str) -> (r: bool)
    ensures
        r == starts_with(s@, prefix@),
{
    let n = s.unicode_len();
    let m = prefix.unicode_len();
    if m > n {
        return false;
    }
    let mut i: usize = 0;
    while i < m
        invariant
            n == s@.len(),
            m == prefix@.len(),
            m <= n,
            i <= m,
            forall|j: int| 0 <= j < i ==> s@[j] == prefix@[j],
        decreases m - i,
    {
        if s.get_char(i) != prefix.get_char(i) {
            assert(s@.subrange(0, m as int)[i as int] != prefix@[i as int]);
            return false;
        }
        i = i + 1;
    }
    assert(s@.subrange(0, m as int) =~= prefix@);
    true
}

/// `s` cut at each occurrence of `sep`, as `str::split` with a `char` pattern
/// cuts it: every separator ends one piece and starts the next, so there is
/// always one piece more than there are separators, and pieces may be empty.
pub open spec fn split_on(s: Seq<char>, sep: char) -> Seq<Seq<char>>
    decreases s.len(),
{
    if s.len() == 0 {
        seq![Seq::<char>::empty()]
    } else {
        let front = split_on(s.drop_last(), sep);
        if s.last() == sep {
            front.push(Seq::<char>::empty())
        } else {
            front.update(front.len() - 1, front.last().push(s.last()))
        }
    }
}

/// Cuts `s` at each occurrence of `sep` (see `split_on`).
pub fn split_string(s: &str, sep: char) -> (r: Vec<String>)
    ensures
        r.deep_view() == split_on(s@, sep),
{
    let n = s.unicode_len();
    let mut pieces: Vec<String> = Vec::new();
    let mut start: usize = 0;
    let mut i: usize = 0;
    assert(s@.take(0) =~= Seq::<char>::empty());
    assert(pieces.deep_view().push(s@.subrange(0, 0)) =~= seq![Seq::<char>::empty()]);
    while i < n
        invariant
            n == s@.len(),
            start <= i <= n,
            split_on(s@.take(i as int), sep) == pieces.deep_view().push(
                s@.subrange(start as int, i as int),
            ),
        decreases n - i,
    {
        let c = s.get_char(i);
        let ghost before = pieces.deep_view();
        assert(s@.take(i + 1).drop_last() =~= s@.take(i as int));
        assert(s@.take(i + 1).last() == c);
        if c == sep {
            let piece = s.substring_char(start, i).to_owned();
            pieces.push(piece);
            assert(pieces.deep_view() =~= before.push(s@.subrange(start as int, i as int)));
            start = i + 1;
            assert(s@.subrange(start as int, start as int) =~= Seq::<char>::empty());
        } else {
            assert(s@.subrange(start as int, i + 1) =~= s@.subrange(start as int, i as int).push(
                c,
            ));
            assert(before.push(s@.subrange(start as int, i as int)).update(
                before.len() as int,
                s@.subrange(start as int, i + 1),
            ) =~= before.push(s@.subrange(start as int, i + 1)));
        }
        i = i + 1;
    }
    let last = s.substring_char(start, n).to_owned();
    let ghost before = pieces.deep_view();
    pieces.push(last);
    assert(pieces.deep_view() =~= before.push(s@.subrange(start as int, n as int)));
    assert(s@.take(n as int) =~= s@);
    pieces
}

/// The character of a decimal digit.
pub open spec fn digit_char(d: nat) -> char {
    if d == 0 {
        '0'
    } else if d == 1 {
        '1'
    } else if d == 2 {
        '2'
    } else if d == 3 {
        '3'
    } else if d == 4 {
        '4'
    } else if d == 5 {
        '5'
    } else if d == 6 {
        '6'
    } else if d == 7 {
        '7'
    } else if d == 8 {
        '8'
    } else {
        '9'
    }
}

/// The decimal digits of `n`, most significant first, without leading zeros.
pub open spec fn decimal(n: nat) -> Seq<char>
    decreases n,
{
    if n < 10 {
        seq![digit_char(n)]
    } else {
        decimal(n / 10) + seq![digit_char(n % 10)]
    }
}

/// An integer as `Display` writes it: a minus sign for negatives, then the digits.
pub open spec fn signed_decimal(i: int) -> Seq<char> {
    if i < 0 {
        seq!['-'] + decimal((-i) as nat)
    } else {
        decimal(i as nat)
    }
}

fn digit_str(d: u64) -> (r: &'static str)
    requires
        d < 10,
    ensures
        r@ == seq![digit_char(d as nat)],
{
    proof {
        reveal_strlit("0");
        reveal_strlit("1");
        reveal_strlit("2");
        reveal_strlit("3");
        reveal_strlit("4");
        reveal_strlit("5");
        reveal_strlit("6");
        reveal_strlit("7");
        reveal_strlit("8");
        reveal_strlit("9");
    }
    if d == 0 {
        "0"
    } else if d == 1 {
        "1"
    } else if d == 2 {
        "2"
    } else if d == 3 {
        "3"
    } else if d == 4 {
        "4"
    } else if d == 5 {
        "5"
    } else if d == 6 {
        "6"
    } else if d == 7 {
        "7"
    } else if d == 8 {
        "8"
    } else {
        "9"
    }
}

/// Renders `n` in decimal.
pub fn format_u64(n: u64) -> (r: String)
    ensures
        r@ == decimal(n as nat),
    decreases n,
{
    if n < 10 {
        String::from_str(digit_str(n))
    } else {
        let mut r = format_u64(n / 10);
        r.append(digit_str(n % 10));
        r
    }
}

/// Renders `i` in decimal, with a minus sign when negative.
pub fn format_i64(i: i64) -> (r: String)
    ensures
        r@ == signed_decimal(i as int),
{
    if i < 0 {
        let magnitude: u64 = (0i128 - (i as i128)) as u64;
        let digits = format_u64(magnitude);
        let mut r = String::from_str("-");
        proof {
            reveal_strlit("-");
        }
        r.append(digits.as_str());
        r
    } else {
        format_u64(i as u64)
    }
}

} // verus!

verus! {

/// A copy of every string in `v`, in order.
pub fn copy_strings(v: &Vec<String>) -> (r: Vec<String>)
    ensures
        r.deep_view() == v.deep_view(),
{
    let n = v.len();
    let mut r: Vec<String> = Vec::new();
    let mut i: usize = 0;
    while i < n
        invariant
            n == v.len(),
            i <= n,
            r.deep_view() =~= v.deep_view().take(i as int),
        decreases n - i,
    {
        let ghost before = r.deep_view();
        let s = v[i].clone();
        r.push(s);
        assert(r.deep_view() =~= before.push(v[i as int]@));
        i = i + 1;
        assert(r.deep_view() =~= v.deep_view().take(i as int));
    }
    assert(v.deep_view().take(n as int) =~= v.deep_view());
    r
}

} // verus!
