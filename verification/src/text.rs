//! Text as sequences of characters: trimming, splitting, joining, decimal digits.
//!
//! Every function here is stated over `Seq<char>`, so that the rest of the crate
//! can say what a string is rather than how it is built.

use vstd::prelude::*;
use vstd::string::*;
use vstd::utf8::is_ascii_chars;

verus! {

// ── Characters ────────────────────────────────────────────────────────────────

/// The characters that Unicode gives the `White_Space` property.
pub open spec fn is_white(c: char) -> bool {
    let n = c as u32;
    ||| 0x09 <= n <= 0x0d
    ||| n == 0x20
    ||| n == 0x85
    ||| n == 0xa0
    ||| n == 0x1680
    ||| 0x2000 <= n <= 0x200a
    ||| n == 0x2028
    ||| n == 0x2029
    ||| n == 0x202f
    ||| n == 0x205f
    ||| n == 0x3000
}

/// `char::is_whitespace` tells the characters with the Unicode `White_Space` property.
pub assume_specification[ char::is_whitespace ](c: char) -> (white: bool)
    ensures
        white == is_white(c),
;

/// `String::push` puts one character behind the others.
pub assume_specification[ String::push ](s: &mut String, c: char)
    ensures
        final(s)@ == old(s)@.push(c),
;

/// An ASCII letter in lower case; other characters stay.
pub open spec fn lower_ascii(c: char) -> char {
    if 'A' <= c <= 'Z' {
        (c as u32 + 32) as char
    } else {
        c
    }
}

/// A text with its ASCII letters in lower case.
pub open spec fn ascii_lowered(s: Seq<char>) -> Seq<char> {
    s.map_values(|c: char| lower_ascii(c))
}

/// The lower-case form of a text, as `str::to_lowercase` gives it.
pub uninterp spec fn lowercase(s: Seq<char>) -> Seq<char>;

/// `str::to_lowercase` maps by the Unicode lower-case tables, which give each ASCII letter
/// its small one and leave the rest of ASCII as it is; beyond ASCII the result is only
/// named here.
pub assume_specification[ str::to_lowercase ](s: &str) -> (lower: String)
    ensures
        lower@ == (if is_ascii_chars(s@) {
            ascii_lowered(s@)
        } else {
            lowercase(s@)
        }),
;

/// The lower-case form of a text.
pub open spec fn lowered(s: Seq<char>) -> Seq<char> {
    if is_ascii_chars(s) {
        ascii_lowered(s)
    } else {
        lowercase(s)
    }
}

/// A set of characters that can be trimmed off the ends of a text.
#[derive(Debug, Clone, Copy)]
pub enum CharClass {
    /// Unicode white space.
    White,
    /// ASCII punctuation.
    Punctuation,
    /// One given character.
    Just(char),
}

impl CharClass {
    /// Whether `c` belongs to the class.
    pub open spec fn has(self, c: char) -> bool {
        match self {
            CharClass::White => is_white(c),
            CharClass::Punctuation => is_punctuation(c),
            CharClass::Just(d) => c == d,
        }
    }

    fn test(self, c: char) -> (found: bool)
        ensures
            found == self.has(c),
    {
        match self {
            CharClass::White => c.is_whitespace(),
            CharClass::Punctuation => {
                ('!' <= c && c <= '/') || (':' <= c && c <= '@') || ('[' <= c && c <= '`') || ('{'
                    <= c && c <= '~')
            },
            CharClass::Just(d) => c == d,
        }
    }
}

/// The ASCII characters that are neither control characters, letters, digits nor the space.
pub open spec fn is_punctuation(c: char) -> bool {
    ||| '!' <= c <= '/'
    ||| ':' <= c <= '@'
    ||| '[' <= c <= '`'
    ||| '{' <= c <= '~'
}

/// The characters of `s`, one by one.
pub fn chars_of(s: &str) -> (chars: Vec<char>)
    ensures
        chars@ == s@,
{
    let mut chars: Vec<char> = Vec::new();
    for c in it: s.chars()
        invariant
            chars@ =~= it.seq().take(it.index()),
            it.seq() == s@,
    {
        chars.push(c);
    }
    chars
}

/// Whether two texts are the same.
pub fn same(a: &str, b: &str) -> (yes: bool)
    ensures
        yes == (a@ == b@),
{
    a.to_owned() == b.to_owned()
}

// ── Trimming ──────────────────────────────────────────────────────────────────

/// `s` without the leading characters of the class.
pub open spec fn trimmed_start(s: Seq<char>, class: CharClass) -> Seq<char>
    decreases s.len(),
{
    if s.len() > 0 && class.has(s.first()) {
        trimmed_start(s.drop_first(), class)
    } else {
        s
    }
}

/// `s` without the trailing characters of the class.
pub open spec fn trimmed_end(s: Seq<char>, class: CharClass) -> Seq<char>
    decreases s.len(),
{
    if s.len() > 0 && class.has(s.last()) {
        trimmed_end(s.drop_last(), class)
    } else {
        s
    }
}

/// `s` without the characters of the class at either end.
pub open spec fn trimmed_of(s: Seq<char>, class: CharClass) -> Seq<char> {
    trimmed_end(trimmed_start(s, class), class)
}

/// `s` without white space at either end.
pub open spec fn trimmed(s: Seq<char>) -> Seq<char> {
    trimmed_of(s, CharClass::White)
}

/// Whether nothing but white space is in `s`.
pub open spec fn is_blank(s: Seq<char>) -> bool {
    forall|i: int| 0 <= i < s.len() ==> is_white(#[trigger] s[i])
}

/// `s` without the leading characters of `class`.
pub fn trim_start_of<'a>(s: &'a str, class: CharClass) -> (rest: &'a str)
    ensures
        rest@ == trimmed_start(s@, class),
{
    let chars = chars_of(s);
    let n: usize = chars.len();
    let mut i: usize = 0;
    assert(s@.skip(0) =~= s@);
    while i < n && class.test(chars[i])
        invariant
            i <= n,
            n == chars@.len(),
            chars@ == s@,
            trimmed_start(s@.skip(i as int), class) == trimmed_start(s@, class),
        decreases n - i,
    {
        assert(s@.skip(i as int).drop_first() =~= s@.skip(i + 1));
        i = i + 1;
    }
    assert(s@.skip(i as int) =~= s@.subrange(i as int, n as int));
    s.substring_char(i, n)
}

/// `s` without the trailing characters of `class`.
pub fn trim_end_of<'a>(s: &'a str, class: CharClass) -> (rest: &'a str)
    ensures
        rest@ == trimmed_end(s@, class),
{
    let chars = chars_of(s);
    let mut n: usize = chars.len();
    assert(s@.take(n as int) =~= s@);
    while n > 0 && class.test(chars[n - 1])
        invariant
            n <= chars@.len(),
            chars@ == s@,
            trimmed_end(s@.take(n as int), class) == trimmed_end(s@, class),
        decreases n,
    {
        assert(s@.take(n as int).drop_last() =~= s@.take(n - 1));
        n = n - 1;
    }
    assert(s@.take(n as int) =~= s@.subrange(0, n as int));
    s.substring_char(0, n)
}

/// `s` without the characters of `class` at either end.
pub fn trim_of<'a>(s: &'a str, class: CharClass) -> (rest: &'a str)
    ensures
        rest@ == trimmed_of(s@, class),
{
    trim_end_of(trim_start_of(s, class), class)
}

/// `s` without white space at either end.
pub fn trim<'a>(s: &'a str) -> (rest: &'a str)
    ensures
        rest@ == trimmed(s@),
{
    trim_of(s, CharClass::White)
}

proof fn lemma_trimmed_start_empty(s: Seq<char>, class: CharClass)
    ensures
        trimmed_start(s, class).len() == 0 <==> (forall|i: int|
            0 <= i < s.len() ==> class.has(#[trigger] s[i])),
        trimmed_start(s, class).len() > 0 ==> !class.has(trimmed_start(s, class).first()),
    decreases s.len(),
{
    if s.len() > 0 && class.has(s.first()) {
        lemma_trimmed_start_empty(s.drop_first(), class);
        if forall|i: int|
            0 <= i < s.drop_first().len() ==> class.has(#[trigger] s.drop_first()[i]) {
            assert forall|i: int| 0 <= i < s.len() implies class.has(#[trigger] s[i]) by {
                if i > 0 {
                    assert(s[i] == s.drop_first()[i - 1]);
                }
            }
        }
        assert forall|i: int| 0 <= i < s.drop_first().len() implies s.drop_first()[i] == s[i
            + 1] by {}
    }
}

proof fn lemma_trimmed_end_nonempty(s: Seq<char>, class: CharClass)
    requires
        s.len() > 0,
        !class.has(s.first()),
    ensures
        trimmed_end(s, class).len() > 0,
        trimmed_end(s, class).first() == s.first(),
    decreases s.len(),
{
    if class.has(s.last()) {
        assert(s.drop_last().first() == s.first());
        lemma_trimmed_end_nonempty(s.drop_last(), class);
    }
}

/// Trimming leaves nothing exactly of what holds nothing but white space.
pub proof fn lemma_trimmed_empty_iff_blank(s: Seq<char>)
    ensures
        trimmed(s).len() == 0 <==> is_blank(s),
{
    let class = CharClass::White;
    lemma_trimmed_start_empty(s, class);
    let t = trimmed_start(s, class);
    if t.len() > 0 {
        lemma_trimmed_end_nonempty(t, class);
    }
    if is_blank(s) {
        assert forall|i: int| 0 <= i < s.len() implies class.has(#[trigger] s[i]) by {
            assert(is_white(s[i]));
        }
    } else {
        let i = choose|i: int| 0 <= i < s.len() && !is_white(#[trigger] s[i]);
        assert(!class.has(s[i]));
    }
}

proof fn lemma_lower_keeps_punctuation(c: char)
    requires
        c <= '\u{7f}',
    ensures
        is_punctuation(lower_ascii(c)) == is_punctuation(c),
{
}

proof fn lemma_lowered_start(s: Seq<char>)
    requires
        is_ascii_chars(s),
    ensures
        trimmed_start(ascii_lowered(s), CharClass::Punctuation) == ascii_lowered(
            trimmed_start(s, CharClass::Punctuation),
        ),
        is_ascii_chars(trimmed_start(s, CharClass::Punctuation)),
    decreases s.len(),
{
    if s.len() > 0 {
        lemma_lower_keeps_punctuation(s[0]);
        let rest = s.drop_first();
        assert forall|i: int| 0 <= i < rest.len() implies '\0' <= #[trigger] rest[i] <= '\u{7f}' by {
            assert(rest[i] == s[i + 1]);
        }
        lemma_lowered_start(rest);
        assert(ascii_lowered(s).drop_first() =~= ascii_lowered(rest));
        assert(ascii_lowered(s).first() == lower_ascii(s[0]));
    }
}

proof fn lemma_lowered_end(s: Seq<char>)
    requires
        is_ascii_chars(s),
    ensures
        trimmed_end(ascii_lowered(s), CharClass::Punctuation) == ascii_lowered(
            trimmed_end(s, CharClass::Punctuation),
        ),
    decreases s.len(),
{
    if s.len() > 0 {
        lemma_lower_keeps_punctuation(s.last());
        let rest = s.drop_last();
        assert forall|i: int| 0 <= i < rest.len() implies '\0' <= #[trigger] rest[i] <= '\u{7f}' by {
            assert(rest[i] == s[i]);
        }
        lemma_lowered_end(rest);
        assert(ascii_lowered(s).drop_last() =~= ascii_lowered(rest));
        assert(ascii_lowered(s).last() == lower_ascii(s.last()));
    }
}

/// Trimming ASCII punctuation off and turning ASCII letters small can change places.
pub proof fn lemma_lowered_trims_alike(s: Seq<char>)
    requires
        is_ascii_chars(s),
    ensures
        trimmed_of(lowered(s), CharClass::Punctuation) == ascii_lowered(
            trimmed_of(s, CharClass::Punctuation),
        ),
{
    lemma_lowered_start(s);
    lemma_lowered_end(trimmed_start(s, CharClass::Punctuation));
}

/// Whether `s` holds nothing but white space.
pub fn blank(s: &str) -> (yes: bool)
    ensures
        yes == is_blank(s@),
{
    proof {
        lemma_trimmed_empty_iff_blank(s@);
    }
    trim(s).is_empty()
}

// ── Searching and splitting ───────────────────────────────────────────────────

/// The first place at or behind `start` where `sep` stands in `s`.
pub open spec fn index_from(s: Seq<char>, sep: Seq<char>, start: int) -> Option<int>
    decreases s.len() - start + 1,
{
    if start < 0 || start + sep.len() > s.len() {
        None
    } else if s.subrange(start, start + sep.len()) == sep {
        Some(start)
    } else {
        index_from(s, sep, start + 1)
    }
}

/// What [`index_from`] finds lies between `start` and the end of `s`.
pub proof fn lemma_index_from(s: Seq<char>, sep: Seq<char>, start: int)
    ensures
        match index_from(s, sep, start) {
            Some(i) => start <= i && i + sep.len() <= s.len() && s.subrange(i, i + sep.len())
                == sep,
            None => true,
        },
    decreases s.len() - start + 1,
{
    if 0 <= start && start + sep.len() <= s.len() && s.subrange(start, start + sep.len()) != sep {
        lemma_index_from(s, sep, start + 1);
    }
}

/// The parts of `s` from `start` on, cut at each occurrence of `sep`, left to right.
pub open spec fn pieces_from(s: Seq<char>, sep: Seq<char>, start: int) -> Seq<Seq<char>>
    decreases s.len() - start,
{
    match index_from(s, sep, start) {
        Some(i) => if sep.len() == 0 {
            seq![s.skip(start)]
        } else {
            proof {
                lemma_index_from(s, sep, start);
            }
            seq![s.subrange(start, i)] + pieces_from(s, sep, i + sep.len())
        },
        None => seq![s.skip(start)],
    }
}

/// The parts of `s` between the occurrences of `sep`.
pub open spec fn pieces(s: Seq<char>, sep: Seq<char>) -> Seq<Seq<char>> {
    pieces_from(s, sep, 0)
}

/// The texts that a list of strings holds.
pub open spec fn texts(v: Seq<String>) -> Seq<Seq<char>> {
    v.map_values(|s: String| s@)
}

/// Where `sep` first stands in `chars` at or behind `start`.
pub fn find_from(chars: &Vec<char>, sep: &Vec<char>, start: usize) -> (at: Option<usize>)
    requires
        start <= chars@.len(),
    ensures
        match at {
            Some(i) => index_from(chars@, sep@, start as int) == Some(i as int),
            None => index_from(chars@, sep@, start as int) is None,
        },
{
    let n: usize = chars.len();
    let m: usize = sep.len();
    let mut i: usize = start;
    while i <= n && m <= n - i
        invariant
            start <= i <= n + 1,
            n == chars@.len(),
            m == sep@.len(),
            index_from(chars@, sep@, start as int) == index_from(chars@, sep@, i as int),
        decreases n + 1 - i,
    {
        let mut j: usize = 0;
        while j < m && chars[i + j] == sep[j]
            invariant
                j <= m,
                i + m <= n,
                n == chars@.len(),
                m == sep@.len(),
                forall|k: int| 0 <= k < j ==> chars@[i + k] == sep@[k],
            decreases m - j,
        {
            j = j + 1;
        }
        if j == m {
            assert(chars@.subrange(i as int, i + m) =~= sep@);
            return Some(i);
        }
        assert(chars@.subrange(i as int, i + m)[j as int] != sep@[j as int]);
        i = i + 1;
    }
    None
}

/// The string that `chars[from..to]` spells.
pub fn string_of(chars: &Vec<char>, from: usize, to: usize) -> (s: String)
    requires
        from <= to <= chars@.len(),
    ensures
        s@ == chars@.subrange(from as int, to as int),
{
    let mut s = String::new();
    let mut i: usize = from;
    while i < to
        invariant
            from <= i <= to <= chars@.len(),
            s@ =~= chars@.subrange(from as int, i as int),
        decreases to - i,
    {
        s.push(chars[i]);
        i = i + 1;
    }
    s
}

/// The parts of `s` between the occurrences of `sep`, in order.
pub fn split(s: &str, sep: &str) -> (parts: Vec<String>)
    requires
        sep@.len() > 0,
    ensures
        texts(parts@) == pieces(s@, sep@),
{
    let chars = chars_of(s);
    let pat = chars_of(sep);
    let n: usize = chars.len();
    let mut parts: Vec<String> = Vec::new();
    let mut start: usize = 0;
    loop
        invariant
            n == chars@.len(),
            start <= n,
            chars@ == s@,
            pat@ == sep@,
            pat@.len() > 0,
            texts(parts@) + pieces_from(s@, sep@, start as int) =~= pieces(s@, sep@),
        decreases n - start,
    {
        let ghost before = parts@;
        proof {
            lemma_index_from(s@, sep@, start as int);
        }
        match find_from(&chars, &pat, start) {
            Some(i) => {
                parts.push(string_of(&chars, start, i));
                assert(texts(parts@) =~= texts(before).push(s@.subrange(start as int, i as int)));
                start = i + pat.len();
            },
            None => {
                parts.push(string_of(&chars, start, n));
                assert(texts(parts@) =~= texts(before).push(s@.skip(start as int)));
                return parts;
            },
        }
    }
}

// ── Joining ───────────────────────────────────────────────────────────────────

/// The parts one behind the other, with `sep` between neighbours.
pub open spec fn joined(parts: Seq<Seq<char>>, sep: Seq<char>) -> Seq<char>
    decreases parts.len(),
{
    if parts.len() == 0 {
        Seq::empty()
    } else if parts.len() == 1 {
        parts[0]
    } else {
        joined(parts.drop_last(), sep) + sep + parts.last()
    }
}

/// Joining two stretches of parts and then the two results gives the same as joining all.
pub proof fn lemma_joined_split(parts: Seq<Seq<char>>, sep: Seq<char>, k: int)
    requires
        0 < k < parts.len(),
    ensures
        joined(parts, sep) == joined(parts.take(k), sep) + sep + joined(parts.skip(k), sep),
    decreases parts.len(),
{
    let most = parts.drop_last();
    if k == parts.len() - 1 {
        assert(parts.take(k) =~= most);
        assert(parts.skip(k) =~= seq![parts.last()]);
        assert(joined(parts.skip(k), sep) == parts.last());
    } else {
        lemma_joined_split(most, sep, k);
        assert(most.take(k) =~= parts.take(k));
        assert(parts.skip(k).drop_last() =~= most.skip(k));
        assert(joined(parts, sep) =~= joined(parts.take(k), sep) + sep + joined(
            parts.skip(k),
            sep,
        ));
    }
}

proof fn lemma_pieces_from(s: Seq<char>, sep: Seq<char>, start: int)
    requires
        0 <= start <= s.len(),
        sep.len() > 0,
    ensures
        pieces_from(s, sep, start).len() >= 1,
        joined(pieces_from(s, sep, start), sep) == s.skip(start),
    decreases s.len() - start,
{
    lemma_index_from(s, sep, start);
    match index_from(s, sep, start) {
        Some(i) => {
            let next = i + sep.len();
            lemma_pieces_from(s, sep, next);
            let first = seq![s.subrange(start, i)];
            let rest = pieces_from(s, sep, next);
            lemma_joined_split(first + rest, sep, 1);
            assert((first + rest).take(1) =~= first);
            assert((first + rest).skip(1) =~= rest);
            assert(joined(first, sep) == s.subrange(start, i));
            assert(s.subrange(start, i) + s.subrange(i, next) + s.skip(next) =~= s.skip(start));
        },
        None => {
            assert(joined(seq![s.skip(start)], sep) == s.skip(start));
        },
    }
}

/// Splitting loses nothing: the parts, joined by what they were split at, are the text.
pub proof fn law_pieces_make_up_the_text(s: Seq<char>, sep: Seq<char>)
    requires
        sep.len() > 0,
    ensures
        joined(pieces(s, sep), sep) == s,
{
    lemma_pieces_from(s, sep, 0);
    assert(s.skip(0) =~= s);
}

/// The strings of `parts` one behind the other, with `sep` between neighbours.
pub fn join(parts: &Vec<String>, sep: &str) -> (s: String)
    ensures
        s@ == joined(texts(parts@), sep@),
{
    let mut s = String::new();
    let mut i: usize = 0;
    while i < parts.len()
        invariant
            i <= parts@.len(),
            s@ == joined(texts(parts@).take(i as int), sep@),
        decreases parts@.len() - i,
    {
        assert(texts(parts@).take(i + 1).drop_last() =~= texts(parts@).take(i as int));
        assert(texts(parts@).take(i + 1).last() == parts@[i as int]@);
        if i > 0 {
            s.append(sep);
        }
        s.append(parts[i].as_str());
        i = i + 1;
    }
    assert(texts(parts@).take(parts@.len() as int) =~= texts(parts@));
    s
}

// ── Decimal digits ────────────────────────────────────────────────────────────

/// The character of one decimal digit.
pub open spec fn digit(d: int) -> char {
    (48 + d) as char
}

/// A natural number in decimal, without leading zeros.
pub open spec fn decimal(n: nat) -> Seq<char>
    decreases n,
{
    if n < 10 {
        seq![digit(n as int)]
    } else {
        decimal(n / 10).push(digit((n % 10) as int))
    }
}

fn digit_char(d: u8) -> (c: char)
    requires
        d < 10,
    ensures
        c == digit(d as int),
{
    (48u8 + d) as char
}

/// `n` in decimal, without leading zeros.
pub fn decimal_string(n: u64) -> (s: String)
    ensures
        s@ == decimal(n as nat),
    decreases n,
{
    if n < 10 {
        let mut s = String::new();
        s.push(digit_char(n as u8));
        assert(s@ =~= decimal(n as nat));
        s
    } else {
        let mut s = decimal_string(n / 10);
        s.push(digit_char((n % 10) as u8));
        s
    }
}

// ── Laws ──────────────────────────────────────────────────────────────────────

/// A search finds the first place where the separator stands, and nothing only where it
/// stands nowhere.
pub proof fn law_found_place_is_the_first(s: Seq<char>, sep: Seq<char>, start: int)
    requires
        0 <= start,
    ensures
        match index_from(s, sep, start) {
            Some(i) => {
                &&& start <= i
                &&& i + sep.len() <= s.len()
                &&& s.subrange(i, i + sep.len()) == sep
                &&& forall|j: int| start <= j < i ==> #[trigger] s.subrange(j, j + sep.len()) != sep
            },
            None => forall|j: int|
                start <= j && j + sep.len() <= s.len() ==> #[trigger] s.subrange(j, j + sep.len())
                    != sep,
        },
    decreases s.len() - start + 1,
{
    if start + sep.len() <= s.len() && s.subrange(start, start + sep.len()) != sep {
        law_found_place_is_the_first(s, sep, start + 1);
    }
}

proof fn lemma_pieces_from_are_clear(s: Seq<char>, sep: Seq<char>, start: int)
    requires
        0 <= start <= s.len(),
        sep.len() > 0,
    ensures
        ({
            let parts = pieces_from(s, sep, start);
            forall|k: int, j: int|
                0 <= k < parts.len() - 1 && 0 <= j < parts[k].len() ==> (#[trigger] parts[k]
                    + sep).subrange(j, #[trigger] (j + sep.len())) != sep
        }),
        ({
            let last = pieces_from(s, sep, start).last();
            forall|j: int|
                0 <= j && j + sep.len() <= last.len() ==> #[trigger] last.subrange(
                    j,
                    j + sep.len(),
                ) != sep
        }),
    decreases s.len() - start,
{
    let parts = pieces_from(s, sep, start);
    law_found_place_is_the_first(s, sep, start);
    match index_from(s, sep, start) {
        Some(i) => {
            let next = i + sep.len();
            lemma_pieces_from_are_clear(s, sep, next);
            lemma_pieces_from(s, sep, next);
            let rest = pieces_from(s, sep, next);
            assert(parts == seq![s.subrange(start, i)] + rest);
            assert(parts.last() == rest.last());
            assert forall|k: int, j: int|
                0 <= k < parts.len() - 1 && 0 <= j < parts[k].len() implies (#[trigger] parts[k]
                + sep).subrange(j, #[trigger] (j + sep.len())) != sep by {
                if k == 0 {
                    assert(parts[0] + sep =~= s.subrange(start, next));
                    assert((parts[0] + sep).subrange(j, j + sep.len()) =~= s.subrange(
                        start + j,
                        start + j + sep.len(),
                    ));
                } else {
                    assert(parts[k] == rest[k - 1]);
                }
            }
        },
        None => {
            let last = parts.last();
            assert(last == s.skip(start));
            assert forall|j: int| 0 <= j && j + sep.len() <= last.len() implies #[trigger] last.subrange(
                j,
                j + sep.len(),
            ) != sep by {
                assert(last.subrange(j, j + sep.len()) =~= s.subrange(
                    start + j,
                    start + j + sep.len(),
                ));
            }
        },
    }
}

/// A text is cut at the separators from the left: no part has one in it, and none begins in
/// a part and ends in the separator behind it.
pub proof fn law_pieces_hold_no_separator(s: Seq<char>, sep: Seq<char>)
    requires
        sep.len() > 0,
    ensures
        ({
            let parts = pieces(s, sep);
            &&& parts.len() > 0
            &&& forall|k: int, j: int|
                0 <= k < parts.len() - 1 && 0 <= j < parts[k].len() ==> (#[trigger] parts[k]
                    + sep).subrange(j, #[trigger] (j + sep.len())) != sep
            &&& forall|j: int|
                0 <= j && j + sep.len() <= parts.last().len()
                    ==> #[trigger] parts.last().subrange(j, j + sep.len()) != sep
        }),
{
    lemma_pieces_from(s, sep, 0);
    lemma_pieces_from_are_clear(s, sep, 0);
}

/// Trimming the front drops characters of the class and stops at the first other one.
pub proof fn law_trimmed_start(s: Seq<char>, class: CharClass)
    ensures
        ({
            let t = trimmed_start(s, class);
            &&& t.len() <= s.len()
            &&& t == s.skip(s.len() - t.len())
            &&& forall|i: int| 0 <= i < s.len() - t.len() ==> class.has(#[trigger] s[i])
            &&& t.len() > 0 ==> !class.has(t.first())
        }),
    decreases s.len(),
{
    if s.len() > 0 && class.has(s.first()) {
        let rest = s.drop_first();
        law_trimmed_start(rest, class);
        let t = trimmed_start(s, class);
        assert(rest.skip(rest.len() - t.len()) =~= s.skip(s.len() - t.len()));
        assert forall|i: int| 0 <= i < s.len() - t.len() implies class.has(#[trigger] s[i]) by {
            if i > 0 {
                assert(s[i] == rest[i - 1]);
            }
        }
    } else {
        assert(s.skip(0) =~= s);
    }
}

/// Trimming the back drops characters of the class and stops at the first other one.
pub proof fn law_trimmed_end(s: Seq<char>, class: CharClass)
    ensures
        ({
            let t = trimmed_end(s, class);
            &&& t.len() <= s.len()
            &&& t == s.take(t.len() as int)
            &&& forall|i: int| t.len() <= i < s.len() ==> class.has(#[trigger] s[i])
            &&& t.len() > 0 ==> !class.has(t.last())
        }),
    decreases s.len(),
{
    if s.len() > 0 && class.has(s.last()) {
        let rest = s.drop_last();
        law_trimmed_end(rest, class);
        let t = trimmed_end(s, class);
        assert(rest.take(t.len() as int) =~= s.take(t.len() as int));
        assert forall|i: int| t.len() <= i < s.len() implies class.has(#[trigger] s[i]) by {
            if i < rest.len() {
                assert(s[i] == rest[i]);
            }
        }
    } else {
        assert(s.take(s.len() as int) =~= s);
    }
}

/// What trimming leaves is a stretch of the text that neither begins nor ends with a
/// character of the class, with nothing but such characters around it.
pub proof fn law_trimming_takes_only_the_ends(s: Seq<char>, class: CharClass)
    ensures
        exists|a: int, b: int|
            {
                &&& 0 <= a <= b <= s.len()
                &&& trimmed_of(s, class) == #[trigger] s.subrange(a, b)
                &&& forall|i: int| (0 <= i < a || b <= i < s.len()) ==> class.has(#[trigger] s[i])
                &&& a < b ==> !class.has(s[a]) && !class.has(s[b - 1])
            },
{
    let t = trimmed_start(s, class);
    let u = trimmed_end(t, class);
    law_trimmed_start(s, class);
    law_trimmed_end(t, class);
    let a = s.len() - t.len();
    let b = a + u.len();
    assert(u =~= s.subrange(a, b));
    assert forall|i: int| (0 <= i < a || b <= i < s.len()) implies class.has(#[trigger] s[i]) by {
        if i >= b {
            assert(s[i] == t[i - a]);
        }
    }
    if a < b {
        assert(s[a] == t[0]);
        assert(s[b - 1] == u.last());
        assert(t.len() > 0);
    }
}

/// The three classes: white space by Unicode, the printable ASCII characters that are no
/// letters, digits or spaces, and one character alone.
pub proof fn law_classes(c: char, d: char)
    ensures
        CharClass::White.has(c) <==> is_white(c),
        CharClass::Punctuation.has(c) <==> '!' <= c <= '~' && !('0' <= c <= '9') && !('A' <= c
            <= 'Z') && !('a' <= c <= 'z'),
        CharClass::Just(d).has(c) <==> c == d,
{
}

/// A text without parts is empty, one part is itself, and every other part comes behind
/// the rest and one separator.
pub proof fn law_joining_adds_each_part(parts: Seq<Seq<char>>, part: Seq<char>, sep: Seq<char>)
    ensures
        joined(Seq::empty(), sep) == Seq::<char>::empty(),
        joined(seq![part], sep) == part,
        parts.len() > 0 ==> joined(parts.push(part), sep) == joined(parts, sep) + sep + part,
{
    assert(parts.push(part).drop_last() =~= parts);
}

/// The number that decimal digits spell.
pub open spec fn number(digits: Seq<char>) -> int
    decreases digits.len(),
{
    if digits.len() == 0 {
        0
    } else {
        10 * number(digits.drop_last()) + (digits.last() as int - '0' as int)
    }
}

/// A number in decimal reads back as the number: nothing but digits, and no zero in front.
pub proof fn law_decimal_reads_back(n: nat)
    ensures
        number(decimal(n)) == n,
        decimal(n).len() > 0,
        forall|i: int| 0 <= i < decimal(n).len() ==> '0' <= #[trigger] decimal(n)[i] <= '9',
        decimal(n)[0] == '0' ==> n == 0 && decimal(n).len() == 1,
    decreases n,
{
    if n < 10 {
        assert(decimal(n).drop_last() =~= Seq::empty());
        assert(number(Seq::empty()) == 0);
    } else {
        law_decimal_reads_back(n / 10);
        assert(decimal(n).drop_last() =~= decimal(n / 10));
        assert(decimal(n)[0] == decimal(n / 10)[0]);
        assert forall|i: int| 0 <= i < decimal(n).len() implies '0' <= #[trigger] decimal(n)[i]
            <= '9' by {
            if i < decimal(n / 10).len() {
                assert(decimal(n)[i] == decimal(n / 10)[i]);
            }
        }
    }
}

/// Without the white space around it a text is a stretch of itself that neither begins nor
/// ends with white space, and only white space was taken.
pub proof fn law_trimmed_is_bare(s: Seq<char>)
    ensures
        exists|a: int, b: int|
            {
                &&& 0 <= a <= b <= s.len()
                &&& trimmed(s) == #[trigger] s.subrange(a, b)
                &&& forall|i: int| (0 <= i < a || b <= i < s.len()) ==> is_white(#[trigger] s[i])
                &&& a < b ==> !is_white(s[a]) && !is_white(s[b - 1])
            },
{
    law_trimming_takes_only_the_ends(s, CharClass::White);
}

/// Trimming takes exactly what stands around the core of a text: characters of the class, up
/// to the first and from the last one that is none.
pub proof fn law_trimming_finds_the_core(
    before: Seq<char>,
    core: Seq<char>,
    after: Seq<char>,
    class: CharClass,
)
    requires
        forall|i: int| 0 <= i < before.len() ==> class.has(#[trigger] before[i]),
        forall|i: int| 0 <= i < after.len() ==> class.has(#[trigger] after[i]),
        core.len() > 0 ==> !class.has(core[0]) && !class.has(core.last()),
    ensures
        trimmed_of(before + core + after, class) == core,
{
    let s = before + core + after;
    law_trimming_takes_only_the_ends(s, class);
    let (a, b) = choose|a: int, b: int|
        {
            &&& 0 <= a <= b <= s.len()
            &&& trimmed_of(s, class) == #[trigger] s.subrange(a, b)
            &&& forall|i: int| (0 <= i < a || b <= i < s.len()) ==> class.has(#[trigger] s[i])
            &&& a < b ==> !class.has(s[a]) && !class.has(s[b - 1])
        };
    let p = before.len() as int;
    let q = p + core.len();
    if core.len() > 0 {
        assert(s[p] == core[0]);
        assert(s[q - 1] == core.last());
        assert(a <= p && q <= b);
        assert(a >= p) by {
            if a < p {
                assert(s[a] == before[a]);
            }
        }
        assert(b <= q) by {
            if b > q {
                assert(s[b - 1] == after[b - 1 - q]);
            }
        }
    } else if a < b {
        if a < p {
            assert(s[a] == before[a]);
        } else {
            assert(s[a] == after[a - q]);
        }
    }
    assert(s.subrange(a, b) =~= core);
}

/// ASCII capitals become the small letters 32 code points on; every other character stays.
pub proof fn law_small_letters(c: char, s: Seq<char>)
    ensures
        'A' <= c <= 'Z' ==> lower_ascii(c) as int == c as int + 32,
        !('A' <= c <= 'Z') ==> lower_ascii(c) == c,
        ascii_lowered(s).len() == s.len(),
        forall|i: int| 0 <= i < s.len() ==> #[trigger] ascii_lowered(s)[i] == lower_ascii(s[i]),
{
}

/// A list of strings has one text for each, at its place.
pub proof fn law_texts_keep_their_places(v: Seq<String>)
    ensures
        texts(v).len() == v.len(),
        forall|i: int| 0 <= i < v.len() ==> #[trigger] texts(v)[i] == v[i]@,
{
}

/// Trimming the back of a text leaves its core, whatever of the class stands behind it.
pub proof fn law_trimming_the_back_finds_the_core(
    core: Seq<char>,
    after: Seq<char>,
    class: CharClass,
)
    requires
        forall|i: int| 0 <= i < after.len() ==> class.has(#[trigger] after[i]),
        core.len() > 0 ==> !class.has(core.last()),
    ensures
        trimmed_end(core + after, class) == core,
{
    let s = core + after;
    law_trimmed_end(s, class);
    let t = trimmed_end(s, class);
    if t.len() > core.len() {
        assert(t.last() == after[t.len() - 1 - core.len()]);
    } else if t.len() < core.len() {
        assert(s[core.len() - 1] == core.last());
    }
    assert(t =~= core);
}

} // verus!
