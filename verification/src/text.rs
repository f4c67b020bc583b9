//! Character-level helpers for the textual names accepted by the library.
use vstd::prelude::*;
use vstd::string::StringExecFns;

verus! {

/// Unicode `White_Space` code points, the set that `str::trim` removes.
pub open spec fn is_white_space(c: char) -> bool {
    let n = c as u32;
    ||| 0x09 <= n <= 0x0D
    ||| n == 0x20
    ||| n == 0x85
    ||| n == 0xA0
    ||| n == 0x1680
    ||| 0x2000 <= n <= 0x200A
    ||| n == 0x2028
    ||| n == 0x2029
    ||| n == 0x202F
    ||| n == 0x205F
    ||| n == 0x3000
}

/// Executable test for [`is_white_space`].
pub fn white_space(c: char) -> (r: bool)
    ensures
        r == is_white_space(c),
{
    let n = c as u32;
    (0x09 <= n && n <= 0x0D) || n == 0x20 || n == 0x85 || n == 0xA0 || n == 0x1680 || (0x2000
        <= n && n <= 0x200A) || n == 0x2028 || n == 0x2029 || n == 0x202F || n == 0x205F || n
        == 0x3000
}

/// Number of consecutive white-space characters of `s` starting at `i`.
pub open spec fn space_from(s: Seq<char>, i: int) -> nat
    decreases s.len() - i,
{
    if 0 <= i < s.len() && is_white_space(s[i]) {
        1 + space_from(s, i + 1)
    } else {
        0
    }
}

/// Number of consecutive white-space characters of `s` ending just before `j`.
pub open spec fn space_before(s: Seq<char>, j: int) -> nat
    decreases j,
{
    if 0 < j <= s.len() && is_white_space(s[j - 1]) {
        1 + space_before(s, j - 1)
    } else {
        0
    }
}

/// `s` without its leading and trailing white space, as `str::trim` gives it.
pub open spec fn spec_trim(s: Seq<char>) -> Seq<char> {
    let lead = space_from(s, 0);
    let trail = space_before(s, s.len() as int);
    if lead >= s.len() {
        Seq::empty()
    } else {
        s.subrange(lead as int, s.len() - trail)
    }
}

proof fn lemma_space_from_bound(s: Seq<char>, i: int)
    requires
        0 <= i <= s.len(),
    ensures
        i + space_from(s, i) <= s.len(),
        i + space_from(s, i) < s.len() ==> !is_white_space(s[i + space_from(s, i)]),
    decreases s.len() - i,
{
    if i < s.len() && is_white_space(s[i]) {
        lemma_space_from_bound(s, i + 1);
    }
}

proof fn lemma_space_before_bound(s: Seq<char>, j: int)
    requires
        0 <= j <= s.len(),
    ensures
        space_before(s, j) <= j,
        space_before(s, j) < j ==> !is_white_space(s[j - space_before(s, j) - 1]),
    decreases j,
{
    if j > 0 && is_white_space(s[j - 1]) {
        lemma_space_before_bound(s, j - 1);
    }
}

/// A non-white character at `k` bounds the trailing white space before `j`.
proof fn lemma_space_before_stops(s: Seq<char>, j: int, k: int)
    requires
        0 <= k < j <= s.len(),
        !is_white_space(s[k]),
    ensures
        j - space_before(s, j) > k,
    decreases j,
{
    if j - 1 > k && is_white_space(s[j - 1]) {
        lemma_space_before_stops(s, j - 1, k);
    }
}

/// `s` without its leading and trailing white space.
pub fn trim(s: &Vec<char>) -> (r: Vec<char>)
    ensures
        r@ == spec_trim(s@),
{
    let n = s.len();
    let mut lead: usize = 0;
    while lead < n && white_space(s[lead])
        invariant
            lead <= n == s@.len(),
            space_from(s@, 0) == lead + space_from(s@, lead as int),
        decreases n - lead,
    {
        lead = lead + 1;
    }
    let mut end: usize = n;
    while end > lead && white_space(s[end - 1])
        invariant
            lead <= end <= n == s@.len(),
            space_before(s@, n as int) == (n - end) + space_before(s@, end as int),
        decreases end,
    {
        end = end - 1;
    }
    proof {
        lemma_space_from_bound(s@, 0);
        lemma_space_before_bound(s@, n as int);
        if lead < n {
            lemma_space_before_stops(s@, n as int, lead as int);
            lemma_space_before_stops(s@, end as int, lead as int);
        }
    }
    let mut out: Vec<char> = Vec::new();
    let mut i = lead;
    while i < end
        invariant
            lead <= i <= end <= n == s@.len(),
            out@ == s@.subrange(lead as int, i as int),
        decreases end - i,
    {
        out.push(s[i]);
        i = i + 1;
    }
    out
}

/// ASCII upper-case mapping of one character; other characters are kept.
pub open spec fn spec_ascii_upper(c: char) -> char {
    if 'a' <= c <= 'z' {
        ((c as u32) - 32) as char
    } else {
        c
    }
}

/// ASCII lower-case mapping of one character; other characters are kept.
pub open spec fn spec_ascii_lower(c: char) -> char {
    if 'A' <= c <= 'Z' {
        ((c as u32) + 32) as char
    } else {
        c
    }
}

pub fn ascii_upper(c: char) -> (r: char)
    ensures
        r == spec_ascii_upper(c),
{
    if 'a' <= c && c <= 'z' {
        let n = (c as u32) - 32;
        assert(0x41 <= n <= 0x5A);
        char_from_ascii(n)
    } else {
        c
    }
}

pub fn ascii_lower(c: char) -> (r: char)
    ensures
        r == spec_ascii_lower(c),
{
    if 'A' <= c && c <= 'Z' {
        let n = (c as u32) + 32;
        char_from_ascii(n)
    } else {
        c
    }
}

fn char_from_ascii(n: u32) -> (r: char)
    requires
        n < 128,
    ensures
        r == n as char,
{
    let b = n as u8;
    b as char
}

/// The characters of `s`, in order.
pub fn chars_of(s: &str) -> (r: Vec<char>)
    ensures
        r@ == s@,
{
    let mut out: Vec<char> = Vec::new();
    for c in it: s.chars()
        invariant
            out@ == it.seq().take(it.index() as int),
    {
        out.push(c);
        assert(out@ == it.seq().take(it.index() + 1));
    }
    out
}

/// Whether two character sequences are equal.
pub fn same_chars(a: &Vec<char>, b: &Vec<char>) -> (r: bool)
    ensures
        r == (a@ == b@),
{
    if a.len() != b.len() {
        return false;
    }
    let mut i: usize = 0;
    while i < a.len()
        invariant
            i <= a@.len() == b@.len(),
            forall|k: int| 0 <= k < i ==> a@[k] == b@[k],
        decreases a.len() - i,
    {
        if a[i] != b[i] {
            return false;
        }
        i = i + 1;
    }
    assert(a@ == b@);
    true
}

/// Whether the characters `key` spell exactly the text `word`.
pub fn spells(key: &Vec<char>, word: &str) -> (r: bool)
    ensures
        r == (key@ == word@),
{
    let w = chars_of(word);
    same_chars(key, &w)
}

/// Applies `spec_ascii_upper` or `spec_ascii_lower` to every character.
pub open spec fn spec_map_case(s: Seq<char>, upper: bool) -> Seq<char> {
    if upper {
        s.map_values(|c: char| spec_ascii_upper(c))
    } else {
        s.map_values(|c: char| spec_ascii_lower(c))
    }
}

/// `name` trimmed of white space, with its ASCII letters folded to one case.
pub open spec fn spec_case_key(name: Seq<char>, upper: bool) -> Seq<char> {
    spec_map_case(spec_trim(name), upper)
}

/// A word of lower-case ASCII letters is its own key.
pub proof fn lemma_lower_word_is_its_key(w: Seq<char>)
    requires
        w.len() > 0,
        forall|i: int| 0 <= i < w.len() ==> 'a' <= #[trigger] w[i] <= 'z',
    ensures
        spec_case_key(w, false) == w,
{
    let first = w[0];
    let last = w[w.len() - 1];
    assert('a' <= first <= 'z');
    assert('a' <= last <= 'z');
    assert(space_from(w, 0) == 0);
    assert(space_before(w, w.len() as int) == 0);
    assert(spec_trim(w) =~= w);
    assert(spec_map_case(w, false) =~= w);
}

/// White space from `i` runs to `stop`, where the first non-white character
/// stands.
proof fn lemma_space_from_runs_to(s: Seq<char>, i: int, stop: int)
    requires
        0 <= i <= stop < s.len(),
        forall|k: int| i <= k < stop ==> is_white_space(#[trigger] s[k]),
        !is_white_space(s[stop]),
    ensures
        space_from(s, i) == stop - i,
    decreases stop - i,
{
    if i < stop {
        lemma_space_from_runs_to(s, i + 1, stop);
    }
}

/// White space before `j` runs back to just after `stop`, where the last
/// non-white character stands.
proof fn lemma_space_before_runs_to(s: Seq<char>, j: int, stop: int)
    requires
        0 <= stop < j <= s.len(),
        forall|k: int| stop < k < j ==> is_white_space(#[trigger] s[k]),
        !is_white_space(s[stop]),
    ensures
        space_before(s, j) == j - stop - 1,
    decreases j - stop,
{
    if j - 1 > stop {
        lemma_space_before_runs_to(s, j - 1, stop);
    }
}

/// A word of lower-case ASCII letters, written with any of its letters in
/// upper case and padded with white space on both sides, has the word
/// itself as its key: keys ignore surrounding white space and ASCII case.
pub proof fn lemma_padded_word_key(lead: Seq<char>, written: Seq<char>, trail: Seq<char>, word: Seq<char>)
    requires
        word.len() > 0,
        forall|i: int| 0 <= i < word.len() ==> 'a' <= #[trigger] word[i] <= 'z',
        written.len() == word.len(),
        forall|i: int|
            0 <= i < word.len() ==> #[trigger] written[i] == word[i] || written[i] == spec_ascii_upper(word[i]),
        forall|i: int| 0 <= i < lead.len() ==> is_white_space(#[trigger] lead[i]),
        forall|i: int| 0 <= i < trail.len() ==> is_white_space(#[trigger] trail[i]),
    ensures
        spec_case_key(lead + written + trail, false) == word,
{
    let s = lead + written + trail;
    let a = lead.len() as int;
    let b = a + written.len();
    assert forall|i: int| 0 <= i < written.len() implies spec_ascii_lower(#[trigger] written[i]) == word[i]
        && !is_white_space(written[i]) by {
        let c = word[i];
        assert('a' <= c <= 'z');
        if written[i] != c {
            assert(written[i] == spec_ascii_upper(c));
        }
    }
    assert(s[a] == written[0]);
    assert(s[b - 1] == written[written.len() - 1]);
    assert forall|k: int| 0 <= k < a implies is_white_space(#[trigger] s[k]) by {
        assert(s[k] == lead[k]);
    }
    assert forall|k: int| b - 1 < k < s.len() implies is_white_space(#[trigger] s[k]) by {
        assert(s[k] == trail[k - b]);
    }
    lemma_space_from_runs_to(s, 0, a);
    lemma_space_before_runs_to(s, s.len() as int, b - 1);
    assert(spec_trim(s) =~= written);
    assert(spec_map_case(written, false) =~= word);
}

/// Trims `name` and folds its ASCII letters to upper or lower case.
pub fn case_key(name: &str, upper: bool) -> (r: Vec<char>)
    ensures
        r@ == spec_case_key(name@, upper),
{
    let chars = chars_of(name);
    let s = trim(&chars);
    let mut out: Vec<char> = Vec::new();
    let mut i: usize = 0;
    while i < s.len()
        invariant
            i <= s@.len(),
            out@ == spec_map_case(s@.take(i as int), upper),
        decreases s.len() - i,
    {
        let c = if upper {
            ascii_upper(s[i])
        } else {
            ascii_lower(s[i])
        };
        out.push(c);
        assert(s@.take(i + 1) == s@.take(i as int).push(s@[i as int]));
        i = i + 1;
    }
    assert(s@.take(s@.len() as int) == s@);
    out
}

/// The decimal digit of `d`, for `d` below ten.
pub open spec fn decimal_digit(d: nat) -> char {
    if d == 0 { '0' } else if d == 1 { '1' } else if d == 2 { '2' } else if d == 3 { '3' } else if d == 4 {
        '4'
    } else if d == 5 { '5' } else if d == 6 { '6' } else if d == 7 { '7' } else if d == 8 { '8' } else { '9' }
}

/// The decimal digits of `n`, most significant first, without leading
/// zeros: the `Display` text of an unsigned integer.
pub open spec fn decimal(n: nat) -> Seq<char>
    decreases n,
{
    if n < 10 {
        seq![decimal_digit(n)]
    } else {
        decimal(n / 10).push(decimal_digit(n % 10))
    }
}

/// The text of the decimal digit `d`.
fn digit_text(d: u128) -> (r: &'static str)
    requires
        d < 10,
    ensures
        r@ == seq![decimal_digit(d as nat)],
{
    proof {
        reveal_strlit("0");
        reveal_strlit("1");
        reveal_strlit("2");
        reveal_strlit("3");
        reveal_strlit("4");
        reveal_strlit("5");
        reveal_strlit("6");
        reveal_strlit("7");
        reveal_strlit("8");
        reveal_strlit("9");
        assert("0"@ =~= seq!['0']);
        assert("1"@ =~= seq!['1']);
        assert("2"@ =~= seq!['2']);
        assert("3"@ =~= seq!['3']);
        assert("4"@ =~= seq!['4']);
        assert("5"@ =~= seq!['5']);
        assert("6"@ =~= seq!['6']);
        assert("7"@ =~= seq!['7']);
        assert("8"@ =~= seq!['8']);
        assert("9"@ =~= seq!['9']);
    }
    if d == 0 {
        "0"
    } else if d == 1 {
        "1"
    } else if d == 2 {
        "2"
    } else if d == 3 {
        "3"
    } else if d == 4 {
        "4"
    } else if d == 5 {
        "5"
    } else if d == 6 {
        "6"
    } else if d == 7 {
        "7"
    } else if d == 8 {
        "8"
    } else {
        "9"
    }
}

/// The decimal digits of `n`, most significant first: its `Display` text.
pub fn decimal_text(n: u128) -> (r: String)
    ensures
        r@ == decimal(n as nat),
    decreases n,
{
    if n < 10 {
        String::from_str(digit_text(n))
    } else {
        let mut text = decimal_text(n / 10);
        text.append(digit_text(n % 10));
        assert(text@ =~= decimal(n as nat));
        text
    }
}

} // verus!
