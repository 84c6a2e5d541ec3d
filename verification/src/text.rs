//! Character-level rules that cfitsio applies to keyword values: the data
//! type code parsed from a TFORM value, upper-casing, names matched
//! against templates, and how a string keyword value reads back once
//! written.
use vstd::prelude::*;
use vstd::string::*;

verus! {

/// Appends a character to a string (`String::push`): the string gains the
/// character at its end.
#[verifier::external_body]
fn string_push(s: &mut String, c: char)
    ensures
        final(s)@ == old(s)@.push(c),
{
    s.push(c);
}

/// An ASCII lower-case letter.
pub open spec fn is_lower(c: char) -> bool {
    'a' <= c && c <= 'z'
}

/// A character with ASCII lower-case letters turned to upper case.
pub open spec fn upper_char(c: char) -> char {
    if is_lower(c) {
        ((c as u32) - 32) as char
    } else {
        c
    }
}

/// A character sequence with ASCII lower-case letters turned to upper case.
pub open spec fn upper_seq(s: Seq<char>) -> Seq<char> {
    s.map_values(|c: char| upper_char(c))
}

/// Turns an ASCII lower-case letter to upper case.
pub fn to_upper(c: char) -> (r: char)
    ensures
        r == upper_char(c),
{
    if 'a' <= c && c <= 'z' {
        let x: u8 = (c as u32 - 32) as u8;
        x as char
    } else {
        c
    }
}

/// A string with ASCII lower-case letters turned to upper case.
pub fn to_upper_string(s: &str) -> (r: String)
    ensures
        r@ == upper_seq(s@),
{
    let n = s.unicode_len();
    let mut r = String::new();
    let mut i: usize = 0;
    while i < n
        invariant
            n == s@.len(),
            i <= n,
            r@ =~= upper_seq(s@.take(i as int)),
        decreases n - i,
    {
        let c = s.get_char(i);
        string_push(&mut r, to_upper(c));
        assert(upper_seq(s@.take(i + 1)) =~= upper_seq(s@.take(i as int)).push(upper_char(c)));
        i = i + 1;
    }
    assert(s@.take(n as int) =~= s@);
    r
}

/// An ASCII digit.
pub open spec fn is_digit(c: char) -> bool {
    '0' <= c && c <= '9'
}

/// The number of digits at the start of a character sequence.
pub open spec fn leading_digits(s: Seq<char>) -> nat
    decreases s.len(),
{
    if s.len() > 0 && is_digit(s[0]) {
        1 + leading_digits(s.drop_first())
    } else {
        0
    }
}

/// `k` digits start `s`, and the character after them, if any, is not one.
pub proof fn lemma_leading_digits(s: Seq<char>, k: int)
    requires
        0 <= k <= s.len(),
        forall|j: int| 0 <= j < k ==> is_digit(#[trigger] s[j]),
        k == s.len() || !is_digit(s[k]),
    ensures
        leading_digits(s) == k,
    decreases k,
{
    if k > 0 {
        let t = s.drop_first();
        assert forall|j: int| 0 <= j < k - 1 implies is_digit(#[trigger] t[j]) by {
            assert(t[j] == s[j + 1]);
        }
        if k - 1 < t.len() {
            assert(t[k - 1] == s[k]);
        }
        lemma_leading_digits(t, k - 1);
    }
}

/// Whether the character at position `k` is a digit.
fn digit_at(s: &str, k: usize) -> (r: bool)
    requires
        k < s@.len(),
    ensures
        r == is_digit(s@[k as int]),
{
    let c = s.get_char(k);
    '0' <= c && c <= '9'
}

/// The number of digits at the start of a string.
fn count_leading_digits(s: &str) -> (k: usize)
    ensures
        k == leading_digits(s@),
        k <= s@.len(),
{
    let n = s.unicode_len();
    let mut k: usize = 0;
    while k < n && digit_at(s, k)
        invariant
            n == s@.len(),
            k <= n,
            forall|j: int| 0 <= j < k ==> is_digit(#[trigger] s@[j]),
        decreases n - k,
    {
        k = k + 1;
    }
    proof {
        lemma_leading_digits(s@, k as int);
    }
    k
}

/// A letter that names the data type of a binary table column.
pub open spec fn is_type_letter(c: char) -> bool {
    c == 'L' || c == 'X' || c == 'B' || c == 'I' || c == 'J' || c == 'K' || c == 'A' || c == 'E'
        || c == 'D' || c == 'C' || c == 'M'
}

/// Whether a character names the data type of a binary table column.
fn type_letter(c: char) -> (r: bool)
    ensures
        r == is_type_letter(c),
{
    c == 'L' || c == 'X' || c == 'B' || c == 'I' || c == 'J' || c == 'K' || c == 'A' || c == 'E'
        || c == 'D' || c == 'C' || c == 'M'
}

/// The data type code that cfitsio parses from a binary table TFORM value,
/// ignoring ASCII case: the repeat count is skipped, a variable-length
/// column (`P` or `Q`) reports `P` followed by its type letter, any other
/// column reports its type letter, and what follows the letter is not part
/// of the code (`1J` gives `J`, `1PJ(100)` gives `PJ`, `20A10` gives `A`).
/// `None` for a value that names no type.
pub open spec fn tform_code(tform: Seq<char>) -> Option<Seq<char>> {
    let rest = tform.skip(leading_digits(tform) as int);
    if rest.len() == 0 {
        None
    } else if upper_char(rest[0]) == 'P' || upper_char(rest[0]) == 'Q' {
        if rest.len() >= 2 && is_type_letter(upper_char(rest[1])) {
            Some(seq!['P', upper_char(rest[1])])
        } else {
            None
        }
    } else if is_type_letter(upper_char(rest[0])) {
        Some(seq![upper_char(rest[0])])
    } else {
        None
    }
}

/// The data type code of a TFORM value, as `tform_code` gives it.
pub fn parse_tform(tform: &str) -> (r: Option<String>)
    ensures
        r matches Some(code) ==> tform_code(tform@) == Some(code@),
        r is None ==> tform_code(tform@) is None,
{
    let n = tform.unicode_len();
    let k = count_leading_digits(tform);
    let ghost rest = tform@.skip(k as int);
    if k >= n {
        return None;
    }
    assert(rest[0] == tform@[k as int]);
    let c0 = to_upper(tform.get_char(k));
    if c0 == 'P' || c0 == 'Q' {
        if k + 1 >= n {
            return None;
        }
        assert(rest[1] == tform@[k + 1]);
        let c1 = to_upper(tform.get_char(k + 1));
        if type_letter(c1) {
            let mut code = String::new();
            string_push(&mut code, 'P');
            string_push(&mut code, c1);
            assert(code@ =~= seq!['P', c1]);
            Some(code)
        } else {
            None
        }
    } else if type_letter(c0) {
        let mut code = String::new();
        string_push(&mut code, c0);
        assert(code@ =~= seq![c0]);
        Some(code)
    } else {
        None
    }
}

/// Upper-casing a character keeps digits digits and non-digits non-digits,
/// and upper-casing twice is upper-casing once.
proof fn lemma_upper_char(c: char)
    ensures
        is_digit(upper_char(c)) == is_digit(c),
        upper_char(upper_char(c)) == upper_char(c),
{
}

/// The digits that start an upper-cased sequence are those that start it.
proof fn lemma_upper_leading_digits(t: Seq<char>)
    ensures
        leading_digits(upper_seq(t)) == leading_digits(t),
    decreases t.len(),
{
    let u = upper_seq(t);
    if t.len() > 0 {
        lemma_upper_char(t[0]);
        assert(u.drop_first() =~= upper_seq(t.drop_first()));
        lemma_upper_leading_digits(t.drop_first());
    }
}

/// The digits that start a sequence are no more than its length.
proof fn lemma_leading_digits_len(t: Seq<char>)
    ensures
        leading_digits(t) <= t.len(),
    decreases t.len(),
{
    if t.len() > 0 {
        lemma_leading_digits_len(t.drop_first());
    }
}

/// A TFORM value parses to the same data type code once upper-cased, as
/// cfitsio writes it.
pub proof fn lemma_upper_tform_code(t: Seq<char>)
    ensures
        tform_code(upper_seq(t)) == tform_code(t),
{
    let u = upper_seq(t);
    lemma_upper_leading_digits(t);
    lemma_leading_digits_len(t);
    let k = leading_digits(t) as int;
    let ru = u.skip(k);
    let rt = t.skip(k);
    assert(ru =~= upper_seq(rt));
    if rt.len() > 0 {
        assert(ru[0] == upper_char(rt[0]));
        lemma_upper_char(rt[0]);
    }
    if rt.len() > 1 {
        assert(ru[1] == upper_char(rt[1]));
        lemma_upper_char(rt[1]);
    }
}

/// The most bytes of a string keyword value that fit in a FITS header
/// card, counting each quote twice (cfitsio writes a quote as two).
pub const MAX_VALUE_BYTES: usize = 68;

/// The byte code of a quote.
pub const QUOTE: u32 = 39;

/// The byte code of a blank.
pub const BLANK: u32 = 32;

/// The bytes that cfitsio is handed for a character: its code when it is
/// ASCII, else one byte per byte of its UTF-8 encoding, each standing as
/// 0x80 (a byte that is not printable ASCII).
pub open spec fn char_bytes(c: char) -> Seq<u32> {
    if (c as u32) < 0x80 {
        seq![c as u32]
    } else if (c as u32) < 0x800 {
        seq![0x80u32, 0x80u32]
    } else if (c as u32) < 0x10000 {
        seq![0x80u32, 0x80u32, 0x80u32]
    } else {
        seq![0x80u32, 0x80u32, 0x80u32, 0x80u32]
    }
}

/// The bytes that cfitsio is handed for a string.
pub open spec fn value_bytes(s: Seq<char>) -> Seq<u32>
    decreases s.len(),
{
    if s.len() == 0 {
        Seq::empty()
    } else {
        value_bytes(s.drop_last()) + char_bytes(s.last())
    }
}

/// A byte as a header card holds it: printable ASCII is kept, any other
/// byte is written as a blank.
pub open spec fn printable(b: u32) -> u32 {
    if 32 <= b && b <= 126 {
        b
    } else {
        BLANK
    }
}

/// The value that a header card holds for these bytes, when `used` of its
/// 68 places are taken: bytes are copied in order while places remain, a
/// quote taking two places (and being lost when only one is left), and
/// each byte that is not printable ASCII becomes a blank.
pub open spec fn card_value(b: Seq<u32>, used: nat) -> Seq<u32>
    decreases b.len(),
{
    if b.len() == 0 || used >= MAX_VALUE_BYTES {
        Seq::empty()
    } else if b[0] == QUOTE {
        if used + 2 > MAX_VALUE_BYTES {
            Seq::empty()
        } else {
            seq![QUOTE] + card_value(b.drop_first(), used + 2)
        }
    } else {
        seq![printable(b[0])] + card_value(b.drop_first(), used + 1)
    }
}

/// A byte sequence without its trailing blanks.
pub open spec fn trim_blanks(b: Seq<u32>) -> Seq<u32>
    decreases b.len(),
{
    if b.len() > 0 && b.last() == BLANK {
        trim_blanks(b.drop_last())
    } else {
        b
    }
}

/// What a string keyword value reads back as once cfitsio has written it:
/// the value its header card holds (see `card_value`), without trailing
/// blanks, which FITS does not count as part of a string value.
pub open spec fn key_value(s: Seq<char>) -> Seq<char> {
    trim_blanks(card_value(value_bytes(s), 0)).map_values(|b: u32| b as char)
}

/// The bytes that cfitsio is handed for a string, as `value_bytes` gives
/// them.
fn string_bytes(s: &str) -> (r: Vec<u32>)
    ensures
        r@ == value_bytes(s@),
{
    let n = s.unicode_len();
    let mut r: Vec<u32> = Vec::new();
    let mut i: usize = 0;
    while i < n
        invariant
            n == s@.len(),
            i <= n,
            r@ == value_bytes(s@.take(i as int)),
        decreases n - i,
    {
        let c = s.get_char(i);
        let code = c as u32;
        let ghost before = r@;
        if code < 0x80 {
            r.push(code);
        } else {
            r.push(0x80);
            r.push(0x80);
            if code >= 0x800 {
                r.push(0x80);
            }
            if code >= 0x10000 {
                r.push(0x80);
            }
        }
        assert(r@ =~= before + char_bytes(c));
        assert(s@.take(i + 1).drop_last() =~= s@.take(i as int));
        i = i + 1;
    }
    assert(s@.take(n as int) =~= s@);
    r
}

/// A string keyword value as it reads back, as `key_value` gives it.
pub fn key_value_string(s: &str) -> (r: String)
    ensures
        r@ == key_value(s@),
{
    let bytes = string_bytes(s);
    let mut card: Vec<u32> = Vec::new();
    let mut used: usize = 0;
    let mut i: usize = 0;
    let ghost all = bytes@;
    assert(all.skip(0) =~= all);
    assert(card@ + card_value(all, 0) =~= card_value(all, 0));
    while i < bytes.len() && used < MAX_VALUE_BYTES && (bytes[i] != QUOTE || used + 2
        <= MAX_VALUE_BYTES)
        invariant
            all == bytes@,
            i <= all.len(),
            used <= MAX_VALUE_BYTES,
            card_value(all, 0) == card@ + card_value(all.skip(i as int), used as nat),
            forall|j: int| 0 <= j < card@.len() ==> 32 <= #[trigger] card@[j] <= 126,
        decreases all.len() - i,
    {
        let b = bytes[i];
        let ghost rest = all.skip(i as int);
        assert(rest[0] == b);
        assert(rest.drop_first() =~= all.skip(i + 1));
        if b == QUOTE {
            card.push(QUOTE);
            used = used + 2;
        } else {
            let p = if 32 <= b && b <= 126 {
                b
            } else {
                BLANK
            };
            card.push(p);
            used = used + 1;
        }
        i = i + 1;
    }
    assert(card_value(all.skip(i as int), used as nat) =~= Seq::<u32>::empty());
    assert(card_value(all, 0) =~= card@);
    let ghost full = card@;
    while card.len() > 0 && card[card.len() - 1] == BLANK
        invariant
            trim_blanks(full) == trim_blanks(card@),
            forall|j: int| 0 <= j < card@.len() ==> 32 <= #[trigger] card@[j] <= 126,
        decreases card@.len(),
    {
        let ghost before = card@;
        card.pop();
        assert(before.drop_last() =~= card@);
    }
    let mut r = String::new();
    let mut k: usize = 0;
    while k < card.len()
        invariant
            k <= card@.len(),
            forall|j: int| 0 <= j < card@.len() ==> 32 <= #[trigger] card@[j] <= 126,
            r@ =~= card@.take(k as int).map_values(|b: u32| b as char),
        decreases card@.len() - k,
    {
        let b = card[k];
        string_push(&mut r, (b as u8) as char);
        assert(card@.take(k + 1).map_values(|b: u32| b as char) =~= card@.take(k as int).map_values(
            |b: u32| b as char,
        ).push(b as char));
        k = k + 1;
    }
    assert(card@.take(card@.len() as int) =~= card@);
    r
}

/// ASCII letters folded to upper case, as code points.
pub open spec fn fold_case(c: char) -> u32 {
    if 'a' <= c && c <= 'z' {
        (c as u32 - 32) as u32
    } else {
        c as u32
    }
}

/// Two names that are equal when ASCII case is ignored.
pub open spec fn names_match(a: Seq<char>, b: Seq<char>) -> bool {
    a.len() == b.len() && forall|i: int| 0 <= i < a.len() ==> fold_case(#[trigger] a[i]) == fold_case(b[i])
}

/// The code point of a character with ASCII letters folded to upper case.
fn fold_char(c: char) -> (r: u32)
    ensures
        r == fold_case(c),
{
    let x = c as u32;
    if 'a' <= c && c <= 'z' {
        x - 32
    } else {
        x
    }
}

/// A character sequence as code points with ASCII letters folded to upper
/// case.
pub open spec fn folded(s: Seq<char>) -> Seq<u32> {
    s.map_values(|c: char| fold_case(c))
}

/// The code of an ASCII digit.
pub open spec fn is_digit_code(x: u32) -> bool {
    48 <= x && x <= 57
}

/// The number of digit codes at the start of a code sequence.
pub open spec fn digit_run(s: Seq<u32>) -> nat
    decreases s.len(),
{
    if s.len() > 0 && is_digit_code(s[0]) {
        1 + digit_run(s.drop_first())
    } else {
        0
    }
}

/// The digits that start a code sequence are no more than its length.
pub proof fn lemma_digit_run_len(s: Seq<u32>)
    ensures
        digit_run(s) <= s.len(),
    decreases s.len(),
{
    if s.len() > 0 {
        lemma_digit_run_len(s.drop_first());
    }
}

/// `k` digit codes start `s`, and the code after them, if any, is not one.
proof fn lemma_digit_run(s: Seq<u32>, k: int)
    requires
        0 <= k <= s.len(),
        forall|j: int| 0 <= j < k ==> is_digit_code(#[trigger] s[j]),
        k == s.len() || !is_digit_code(s[k]),
    ensures
        digit_run(s) == k,
    decreases k,
{
    if k > 0 {
        let t = s.drop_first();
        assert forall|j: int| 0 <= j < k - 1 implies is_digit_code(#[trigger] t[j]) by {
            assert(t[j] == s[j + 1]);
        }
        if k - 1 < t.len() {
            assert(t[k - 1] == s[k]);
        }
        lemma_digit_run(t, k - 1);
    }
}

/// The code of `*`, which matches any run of characters in a template.
pub const STAR: u32 = 42;

/// The code of `?`, which matches any one character in a template.
pub const QUESTION: u32 = 63;

/// The code of `#`, which matches a run of one or more digits in a template.
pub const HASH: u32 = 35;

/// Whether a name matches a template, both as folded codes: `*` matches
/// any run of characters, `?` any one character, `#` a run of one or more
/// digits (all of them), and any other code itself.
pub open spec fn glob(t: Seq<u32>, s: Seq<u32>) -> bool
    decreases t.len() + s.len(),
{
    if t.len() == 0 {
        s.len() == 0
    } else if t[0] == STAR {
        glob(t.drop_first(), s) || (s.len() > 0 && glob(t, s.drop_first()))
    } else if s.len() == 0 {
        false
    } else if t[0] == QUESTION {
        glob(t.drop_first(), s.drop_first())
    } else if t[0] == HASH {
        if is_digit_code(s[0]) {
            proof {
                lemma_digit_run_len(s);
            }
            glob(t.drop_first(), s.skip(digit_run(s) as int))
        } else {
            false
        }
    } else {
        t[0] == s[0] && glob(t.drop_first(), s.drop_first())
    }
}

/// Whether a name matches a template as cfitsio compares them: trailing
/// blanks are ignored and ASCII case too; the name matches when it equals
/// the template, or when it matches it with `*`, `?` and `#` as wildcards.
pub open spec fn template_matches(template: Seq<char>, name: Seq<char>) -> bool {
    let t = trim_blanks(folded(template));
    let s = trim_blanks(folded(name));
    t == s || glob(t, s)
}

/// A string as folded codes without trailing blanks.
fn folded_codes(s: &str) -> (r: Vec<u32>)
    ensures
        r@ == trim_blanks(folded(s@)),
{
    let n = s.unicode_len();
    let mut r: Vec<u32> = Vec::new();
    let mut i: usize = 0;
    while i < n
        invariant
            n == s@.len(),
            i <= n,
            r@ =~= folded(s@.take(i as int)),
        decreases n - i,
    {
        let c = s.get_char(i);
        r.push(fold_char(c));
        assert(folded(s@.take(i + 1)) =~= folded(s@.take(i as int)).push(fold_case(c)));
        i = i + 1;
    }
    assert(s@.take(n as int) =~= s@);
    let ghost full = r@;
    while r.len() > 0 && r[r.len() - 1] == BLANK
        invariant
            trim_blanks(full) == trim_blanks(r@),
        decreases r@.len(),
    {
        let ghost before = r@;
        r.pop();
        assert(before.drop_last() =~= r@);
    }
    r
}

/// The number of digit codes in `s` from position `i` on.
fn count_digit_codes(s: &Vec<u32>, i: usize) -> (k: usize)
    requires
        i <= s@.len(),
    ensures
        k == digit_run(s@.skip(i as int)),
        i + k <= s@.len(),
{
    let n = s.len();
    let mut k: usize = 0;
    while k < n - i && 48 <= s[i + k] && s[i + k] <= 57
        invariant
            n == s@.len(),
            i <= n,
            i + k <= s@.len(),
            forall|j: int| 0 <= j < k ==> is_digit_code(#[trigger] s@.skip(i as int)[j]),
        decreases s@.len() - i - k,
    {
        k = k + 1;
    }
    proof {
        lemma_digit_run(s@.skip(i as int), k as int);
    }
    k
}

/// Whether the name from position `si` on matches the template from
/// position `ti` on, as `glob` gives it.
fn glob_at(t: &Vec<u32>, ti: usize, s: &Vec<u32>, si: usize) -> (r: bool)
    requires
        ti <= t@.len(),
        si <= s@.len(),
    ensures
        r == glob(t@.skip(ti as int), s@.skip(si as int)),
    decreases (t@.len() - ti) + (s@.len() - si),
{
    let ghost tt = t@.skip(ti as int);
    let ghost ss = s@.skip(si as int);
    if ti == t.len() {
        return si == s.len();
    }
    assert(tt[0] == t@[ti as int]);
    assert(tt.drop_first() =~= t@.skip(ti + 1));
    if t[ti] == STAR {
        if glob_at(t, ti + 1, s, si) {
            return true;
        }
        if si == s.len() {
            return false;
        }
        assert(ss.drop_first() =~= s@.skip(si + 1));
        return glob_at(t, ti, s, si + 1);
    }
    if si == s.len() {
        return false;
    }
    assert(ss[0] == s@[si as int]);
    assert(ss.drop_first() =~= s@.skip(si + 1));
    if t[ti] == QUESTION {
        return glob_at(t, ti + 1, s, si + 1);
    }
    if t[ti] == HASH {
        if 48 <= s[si] && s[si] <= 57 {
            let k = count_digit_codes(s, si);
            assert(ss.skip(k as int) =~= s@.skip(si + k));
            return glob_at(t, ti + 1, s, si + k);
        }
        return false;
    }
    t[ti] == s[si] && glob_at(t, ti + 1, s, si + 1)
}

/// Whether two code sequences are equal.
fn codes_equal(a: &Vec<u32>, b: &Vec<u32>) -> (r: bool)
    ensures
        r == (a@ == b@),
{
    if a.len() != b.len() {
        return false;
    }
    let mut i: usize = 0;
    while i < a.len()
        invariant
            a@.len() == b@.len(),
            i <= a@.len(),
            forall|j: int| 0 <= j < i ==> a@[j] == b@[j],
        decreases a@.len() - i,
    {
        if a[i] != b[i] {
            return false;
        }
        i = i + 1;
    }
    assert(a@ =~= b@);
    true
}

/// Whether a name matches a template, as `template_matches` gives it.
pub fn template_match(template: &str, name: &str) -> (r: bool)
    ensures
        r == template_matches(template@, name@),
{
    let t = folded_codes(template);
    let s = folded_codes(name);
    if codes_equal(&t, &s) {
        return true;
    }
    assert(t@.skip(0) =~= t@);
    assert(s@.skip(0) =~= s@);
    glob_at(&t, 0, &s, 0)
}

} // verus!
