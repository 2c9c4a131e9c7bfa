//! Text handling for the values the agent reads from the system: trimming,
//! splitting into words and `key=value` pairs, and decimal numbers.
use vstd::prelude::*;
use vstd::std_specs::iter::IteratorSpec;
use vstd::string::StrSliceExecFns;

verus! {

/// Appends one character to a string.
///
/// Calls `String::push`, which the standard library documents as appending
/// the given char to the end of the string; the contract says exactly that.
#[verifier::external_body]
pub fn push_char(s: &mut String, c: char)
    ensures
        final(s)@ == old(s)@.push(c),
{
    s.push(c);
}

/// The characters of `s`, in order.
pub fn char_vec(s: &str) -> (chars: Vec<char>)
    ensures
        chars@ == s@,
{
    let mut chars: Vec<char> = Vec::new();
    let ghost all = s@;
    for c in it: s.chars()
        invariant
            it.seq() == all,
            chars@ == all.take(it.index()),
    {
        chars.push(c);
        assert(chars@ =~= all.take(it.index() + 1));
    }
    assert(chars@ =~= all);
    chars
}

/// Appends the characters of `t` to `s`.
pub fn push_str(s: &mut String, t: &str)
    ensures
        final(s)@ == old(s)@ + t@,
{
    let chars = char_vec(t);
    let mut i: usize = 0;
    while i < chars.len()
        invariant
            0 <= i <= chars.len(),
            chars@ == t@,
            s@ == old(s)@ + t@.take(i as int),
        decreases chars.len() - i,
    {
        push_char(s, chars[i]);
        assert(s@ =~= old(s)@ + t@.take(i + 1));
        i = i + 1;
    }
    assert(t@.take(chars.len() as int) =~= t@);
}

/// A string made of the characters `chars[from..to]`.
pub fn string_of(chars: &Vec<char>, from: usize, to: usize) -> (s: String)
    requires
        from <= to <= chars.len(),
    ensures
        s@ == chars@.subrange(from as int, to as int),
{
    let mut s = String::new();
    let mut i = from;
    while i < to
        invariant
            from <= i <= to <= chars.len(),
            s@ == chars@.subrange(from as int, i as int),
        decreases to - i,
    {
        push_char(&mut s, chars[i]);
        assert(s@ =~= chars@.subrange(from as int, i + 1));
        i = i + 1;
    }
    s
}

/// Whether `c` is white space as Unicode defines it (what `char::is_whitespace` tests).
pub open spec fn is_space(c: char) -> bool {
    let u = c as u32;
    ||| 0x09 <= u <= 0x0D
    ||| u == 0x20
    ||| u == 0x85
    ||| u == 0xA0
    ||| u == 0x1680
    ||| 0x2000 <= u <= 0x200A
    ||| u == 0x2028
    ||| u == 0x2029
    ||| u == 0x202F
    ||| u == 0x205F
    ||| u == 0x3000
}

/// Blanks, tabs and line breaks are white space; letters, digits, `=` and
/// other visible ASCII characters are not.
pub proof fn law_ascii_spaces(c: char)
    ensures
        is_space(' ') && is_space('\t') && is_space('\n') && is_space('\r'),
        0x21 <= (c as u32) <= 0x7E ==> !is_space(c),
{
}

/// Whether `c` is white space.
pub fn is_space_char(c: char) -> (space: bool)
    ensures
        space == is_space(c),
{
    let u = c as u32;
    (0x09 <= u && u <= 0x0D) || u == 0x20 || u == 0x85 || u == 0xA0 || u == 0x1680 || (0x2000 <= u
        && u <= 0x200A) || u == 0x2028 || u == 0x2029 || u == 0x202F || u == 0x205F || u == 0x3000
}

/// `s` without its leading white space.
pub open spec fn trim_start(s: Seq<char>) -> Seq<char>
    decreases s.len(),
{
    if s.len() > 0 && is_space(s[0]) {
        trim_start(s.drop_first())
    } else {
        s
    }
}

/// `s` without its trailing white space.
pub open spec fn trim_end(s: Seq<char>) -> Seq<char>
    decreases s.len(),
{
    if s.len() > 0 && is_space(s.last()) {
        trim_end(s.drop_last())
    } else {
        s
    }
}

/// `s` without leading and trailing white space (what `str::trim` gives).
pub open spec fn trim(s: Seq<char>) -> Seq<char> {
    trim_end(trim_start(s))
}

/// `s` without leading and trailing white space.
pub fn trimmed(s: &str) -> (t: String)
    ensures
        t@ == trim(s@),
{
    let chars = char_vec(s);
    let n = chars.len();
    let mut i: usize = 0;
    assert(chars@.subrange(0, n as int) =~= chars@);
    while i < n && is_space_char(chars[i])
        invariant
            0 <= i <= n == chars@.len(),
            trim_start(chars@.subrange(i as int, n as int)) == trim_start(chars@),
        decreases n - i,
    {
        assert(chars@.subrange(i as int, n as int).drop_first() =~= chars@.subrange(i + 1, n as int));
        i = i + 1;
    }
    let ghost start = chars@.subrange(i as int, n as int);
    assert(trim_start(start) == start);
    let mut j: usize = n;
    while j > i && is_space_char(chars[j - 1])
        invariant
            i <= j <= n == chars@.len(),
            start == chars@.subrange(i as int, n as int),
            trim_end(chars@.subrange(i as int, j as int)) == trim_end(start),
        decreases j,
    {
        assert(chars@.subrange(i as int, j as int).drop_last() =~= chars@.subrange(i as int, j - 1));
        j = j - 1;
    }
    string_of(&chars, i, j)
}

/// The words of `s` that follow the current, unfinished word `cur`.
pub open spec fn words_from(s: Seq<char>, cur: Seq<char>) -> Seq<Seq<char>>
    decreases s.len(),
{
    let done = if cur.len() > 0 {
        seq![cur]
    } else {
        Seq::<Seq<char>>::empty()
    };
    if s.len() == 0 {
        done
    } else if is_space(s[0]) {
        done + words_from(s.drop_first(), Seq::<char>::empty())
    } else {
        words_from(s.drop_first(), cur.push(s[0]))
    }
}

/// The maximal runs of non-white-space characters of `s`, in order (what
/// `str::split_whitespace` yields).
pub open spec fn words(s: Seq<char>) -> Seq<Seq<char>> {
    words_from(s, Seq::<char>::empty())
}

/// What a list of strings holds, as character sequences.
pub open spec fn views(list: Seq<String>) -> Seq<Seq<char>> {
    list.map_values(|w: String| w@)
}

/// The white-space separated words of `s`.
pub fn split_words(s: &str) -> (list: Vec<String>)
    ensures
        views(list@) == words(s@),
{
    let chars = char_vec(s);
    let n = chars.len();
    let mut list: Vec<String> = Vec::new();
    let mut cur = String::new();
    let mut i: usize = 0;
    assert(chars@.subrange(0, n as int) =~= s@);
    assert(views(list@) =~= Seq::<Seq<char>>::empty());
    while i < n
        invariant
            0 <= i <= n == chars@.len(),
            chars@ == s@,
            views(list@) + words_from(chars@.subrange(i as int, n as int), cur@) == words(s@),
        decreases n - i,
    {
        let ghost rest = chars@.subrange(i as int, n as int);
        assert(rest.drop_first() =~= chars@.subrange(i + 1, n as int));
        let ghost before = views(list@);
        let ghost was = cur@;
        assert(rest[0] == chars@[i as int]);
        if is_space_char(chars[i]) {
            assert(words_from(rest, was) == (if was.len() > 0 {
                seq![was]
            } else {
                Seq::<Seq<char>>::empty()
            }) + words_from(rest.drop_first(), Seq::<char>::empty()));
            if !cur.as_str().is_empty() {
                let word = cur;
                cur = String::new();
                list.push(word);
                assert(views(list@) =~= before + seq![word@]);
                assert(views(list@) + words_from(rest.drop_first(), cur@) =~= before + words_from(
                    rest,
                    was,
                ));
            } else {
                assert(cur@ =~= Seq::<char>::empty());
                assert(seq![] + words_from(rest.drop_first(), cur@) =~= words_from(
                    rest.drop_first(),
                    cur@,
                ));
                assert(views(list@) + words_from(rest.drop_first(), cur@) =~= words(s@));
            }
        } else {
            push_char(&mut cur, chars[i]);
            assert(words_from(rest, was) == words_from(rest.drop_first(), cur@));
        }
        assert(views(list@) + words_from(rest.drop_first(), cur@) =~= words(s@));
        i = i + 1;
    }
    if !cur.as_str().is_empty() {
        let ghost before = views(list@);
        list.push(cur);
        assert(views(list@) =~= before + seq![cur@]);
    }
    assert(views(list@) =~= words(s@));
    list
}

/// Whether two strings hold the same characters.
pub fn same_text(a: &str, b: &str) -> (same: bool)
    ensures
        same == (a@ == b@),
{
    let x = char_vec(a);
    let y = char_vec(b);
    if x.len() != y.len() {
        return false;
    }
    let mut i: usize = 0;
    while i < x.len()
        invariant
            x@ == a@,
            y@ == b@,
            x.len() == y.len(),
            0 <= i <= x.len(),
            forall|j: int| 0 <= j < i ==> x@[j] == y@[j],
        decreases x.len() - i,
    {
        if x[i] != y[i] {
            return false;
        }
        i = i + 1;
    }
    assert(x@ =~= y@);
    true
}

/// The characters of `s` before its first `=`, or all of them.
pub open spec fn until_eq(s: Seq<char>) -> Seq<char>
    decreases s.len(),
{
    if s.len() == 0 || s[0] == '=' {
        Seq::<char>::empty()
    } else {
        seq![s[0]] + until_eq(s.drop_first())
    }
}

/// The key and value of a `key=value` word: the text before the first `=`
/// and the text between it and the next `=` or the end. `None` when the
/// word holds no `=`.
pub open spec fn key_value(s: Seq<char>) -> Option<(Seq<char>, Seq<char>)> {
    let key = until_eq(s);
    if key.len() < s.len() {
        Some((key, until_eq(s.subrange(key.len() + 1int, s.len() as int))))
    } else {
        None
    }
}

/// The text before the first `=` of `k` followed by `rest` is `k` itself
/// when `k` has no `=` and `rest` starts with one, and all of `k` when
/// `rest` is empty.
proof fn lemma_until_eq_prefix(k: Seq<char>, rest: Seq<char>)
    requires
        !k.contains('='),
        rest.len() == 0 || rest[0] == '=',
    ensures
        until_eq(k + rest) == k,
    decreases k.len(),
{
    if k.len() > 0 {
        assert(!k.drop_first().contains('=')) by {
            if k.drop_first().contains('=') {
                let i = choose|i: int| 0 <= i < k.drop_first().len() && k.drop_first()[i] == '=';
                assert(k[i + 1] == '=');
            }
        }
        lemma_until_eq_prefix(k.drop_first(), rest);
        assert((k + rest).drop_first() =~= k.drop_first() + rest);
        assert(k[0] != '=');
        assert(seq![k[0]] + k.drop_first() =~= k);
    } else {
        assert(k + rest =~= rest);
    }
}

/// A word `key=value` whose key and value hold no `=` splits into that key
/// and value; a word with no `=` is not a pair.
pub proof fn law_key_value_splits(key: Seq<char>, value: Seq<char>)
    requires
        !key.contains('='),
        !value.contains('='),
    ensures
        key_value(key + seq!['='] + value) == Some((key, value)),
        key_value(key) is None,
{
    let w = key + seq!['='] + value;
    lemma_until_eq_prefix(key, seq!['='] + value);
    assert(key + (seq!['='] + value) =~= w);
    lemma_until_eq_prefix(value, Seq::empty());
    assert(value + Seq::<char>::empty() =~= value);
    assert(w.subrange(key.len() + 1int, w.len() as int) =~= value);
    lemma_until_eq_prefix(key, Seq::empty());
    assert(key + Seq::<char>::empty() =~= key);
}


/// Where the run of characters from `from` up to the next `=` ends.
fn run_to_eq(chars: &Vec<char>, from: usize) -> (end: usize)
    requires
        from <= chars.len(),
    ensures
        from <= end <= chars.len(),
        chars@.subrange(from as int, end as int) == until_eq(
            chars@.subrange(from as int, chars.len() as int),
        ),
{
    let n = chars.len();
    let mut i = from;
    while i < n && chars[i] != '='
        invariant
            from <= i <= n == chars.len(),
            until_eq(chars@.subrange(from as int, n as int)) == chars@.subrange(from as int, i as int)
                + until_eq(chars@.subrange(i as int, n as int)),
        decreases n - i,
    {
        let ghost rest = chars@.subrange(i as int, n as int);
        assert(rest.drop_first() =~= chars@.subrange(i + 1, n as int));
        assert(chars@.subrange(from as int, i + 1) =~= chars@.subrange(from as int, i as int) + seq![
            chars@[i as int],
        ]);
        assert(chars@.subrange(from as int, i as int) + until_eq(rest) =~= chars@.subrange(
            from as int,
            i + 1,
        ) + until_eq(chars@.subrange(i + 1, n as int)));
        i = i + 1;
    }
    assert(until_eq(chars@.subrange(i as int, n as int)) =~= Seq::<char>::empty());
    assert(chars@.subrange(from as int, i as int) + Seq::<char>::empty() =~= chars@.subrange(
        from as int,
        i as int,
    ));
    i
}

/// Splits a `key=value` word into its key and value.
pub fn split_key_value(word: &str) -> (pair: Option<(String, String)>)
    ensures
        match pair {
            Some((k, v)) => key_value(word@) == Some((k@, v@)),
            None => key_value(word@) is None,
        },
{
    let chars = char_vec(word);
    let n = chars.len();
    let p = run_to_eq(&chars, 0);
    assert(chars@.subrange(0, n as int) =~= word@);
    if p == n {
        return None;
    }
    let q = run_to_eq(&chars, p + 1);
    Some((string_of(&chars, 0, p), string_of(&chars, p + 1, q)))
}

/// The `key=value` pairs among the white-space separated words of `s`;
/// words without `=` are skipped.
pub open spec fn pairs_of(ws: Seq<Seq<char>>) -> Seq<(Seq<char>, Seq<char>)>
    decreases ws.len(),
{
    if ws.len() == 0 {
        Seq::empty()
    } else {
        let rest = pairs_of(ws.drop_last());
        match key_value(ws.last()) {
            Some(kv) => rest.push(kv),
            None => rest,
        }
    }
}

/// What a list of string pairs holds, as character sequences.
pub open spec fn pair_views(list: Seq<(String, String)>) -> Seq<(Seq<char>, Seq<char>)> {
    list.map_values(|p: (String, String)| (p.0@, p.1@))
}

/// The `key=value` pairs among the words of `list`, in order.
pub fn key_values(list: &Vec<String>) -> (pairs: Vec<(String, String)>)
    ensures
        pair_views(pairs@) == pairs_of(views(list@)),
{
    let mut pairs: Vec<(String, String)> = Vec::new();
    let mut i: usize = 0;
    while i < list.len()
        invariant
            0 <= i <= list.len(),
            pair_views(pairs@) == pairs_of(views(list@).take(i as int)),
        decreases list.len() - i,
    {
        assert(views(list@).take(i + 1).drop_last() =~= views(list@).take(i as int));
        let ghost before = pair_views(pairs@);
        match split_key_value(list[i].as_str()) {
            Some(kv) => {
                pairs.push(kv);
                assert(pair_views(pairs@) =~= before.push((kv.0@, kv.1@)));
            },
            None => {},
        }
        i = i + 1;
    }
    assert(views(list@).take(list.len() as int) =~= views(list@));
    pairs
}

/// The value of the first pair whose key is `key`.
pub open spec fn first_value(pairs: Seq<(Seq<char>, Seq<char>)>, key: Seq<char>) -> Option<Seq<char>>
    decreases pairs.len(),
{
    if pairs.len() == 0 {
        None
    } else if pairs[0].0 == key {
        Some(pairs[0].1)
    } else {
        first_value(pairs.drop_first(), key)
    }
}

/// The value of the first pair whose key is `key`.
pub fn find_value(pairs: &Vec<(String, String)>, key: &str) -> (value: Option<String>)
    ensures
        match value {
            Some(v) => first_value(pair_views(pairs@), key@) == Some(v@),
            None => first_value(pair_views(pairs@), key@) is None,
        },
{
    let mut i: usize = 0;
    assert(pair_views(pairs@).subrange(0, pairs.len() as int) =~= pair_views(pairs@));
    while i < pairs.len()
        invariant
            0 <= i <= pairs.len(),
            first_value(pair_views(pairs@), key@) == first_value(
                pair_views(pairs@).subrange(i as int, pairs.len() as int),
                key@,
            ),
        decreases pairs.len() - i,
    {
        let ghost rest = pair_views(pairs@).subrange(i as int, pairs.len() as int);
        assert(rest.drop_first() =~= pair_views(pairs@).subrange(i + 1, pairs.len() as int));
        if same_text(pairs[i].0.as_str(), key) {
            return Some(pairs[i].1.clone());
        }
        i = i + 1;
    }
    None
}

/// Whether `c` is an ASCII decimal digit.
pub open spec fn is_digit(c: char) -> bool {
    0x30 <= (c as u32) <= 0x39
}

/// The value of the decimal digit `c`.
pub open spec fn digit_value(c: char) -> nat {
    ((c as u32) - 0x30) as nat
}

/// The value of the decimal digits `s`.
pub open spec fn digits_value(s: Seq<char>) -> nat
    decreases s.len(),
{
    if s.len() == 0 {
        0
    } else {
        digits_value(s.drop_last()) * 10 + digit_value(s.last())
    }
}

/// `s` without one leading `+`, if it has one.
pub open spec fn unsigned_digits(s: Seq<char>) -> Seq<char> {
    if s.len() > 0 && s[0] == '+' {
        s.drop_first()
    } else {
        s
    }
}

/// The number `s` spells in decimal, as `str::parse::<u64>` reads it: an
/// optional `+`, then one or more decimal digits, and a value that fits.
pub open spec fn parse_u64(s: Seq<char>) -> Option<u64> {
    let digits = unsigned_digits(s);
    if digits.len() > 0 && (forall|i: int| 0 <= i < digits.len() ==> is_digit(digits[i]))
        && digits_value(digits) <= u64::MAX {
        Some(digits_value(digits) as u64)
    } else {
        None
    }
}

/// A longer run of digits is worth at least as much as its prefix.
proof fn lemma_digits_value_grows(s: Seq<char>, k: int)
    requires
        0 <= k <= s.len(),
        forall|i: int| 0 <= i < s.len() ==> is_digit(s[i]),
    ensures
        digits_value(s.subrange(0, k)) <= digits_value(s),
    decreases s.len() - k,
{
    if k < s.len() {
        lemma_digits_value_grows(s.drop_last(), if k < s.len() - 1 {
            k
        } else {
            s.len() - 1
        });
        if k == s.len() - 1 {
            assert(s.subrange(0, k) =~= s.drop_last());
        } else {
            assert(s.drop_last().subrange(0, k) =~= s.subrange(0, k));
        }
    } else {
        assert(s.subrange(0, k) =~= s);
    }
}

/// Reads a decimal `u64` from `s`, as `str::parse::<u64>` does.
pub fn parse_u64_text(s: &str) -> (n: Option<u64>)
    ensures
        n == parse_u64(s@),
{
    let chars = char_vec(s);
    let len = chars.len();
    let start: usize = if len > 0 && chars[0] == '+' {
        1
    } else {
        0
    };
    let ghost digits = chars@.subrange(start as int, len as int);
    assert(digits =~= unsigned_digits(s@));
    if start == len {
        return None;
    }
    let mut value: u64 = 0;
    let mut i: usize = start;
    while i < len
        invariant
            start <= i <= len == chars.len(),
            start < len,
            digits == chars@.subrange(start as int, len as int),
            digits == unsigned_digits(s@),
            forall|j: int| start <= j < i ==> is_digit(chars@[j]),
            value == digits_value(chars@.subrange(start as int, i as int)),
        decreases len - i,
    {
        let c = chars[i];
        let u = c as u32;
        if u < 0x30 || u > 0x39 {
            assert(digits[i - start] == c);
            assert(!is_digit(c));
            assert(!is_digit(digits[i - start]));
            assert(parse_u64(s@) is None);
            return None;
        }
        let d = (u - 0x30) as u64;
        assert(chars@.subrange(start as int, i + 1).drop_last() =~= chars@.subrange(
            start as int,
            i as int,
        ));
        let next = match value.checked_mul(10) {
            Some(v) => v.checked_add(d),
            None => None,
        };
        match next {
            Some(v) => {
                value = v;
            },
            None => {
                proof {
                    if forall|j: int| 0 <= j < digits.len() ==> is_digit(digits[j]) {
                        lemma_digits_value_grows(digits, i + 1 - start);
                        assert(digits.subrange(0, i + 1 - start) =~= chars@.subrange(
                            start as int,
                            i + 1,
                        ));
                    }
                }
                return None;
            },
        }
        i = i + 1;
    }
    assert(chars@.subrange(start as int, i as int) =~= digits);
    Some(value)
}

/// The decimal digit character for `d`.
pub open spec fn digit_char(d: nat) -> char {
    ((d + 0x30) as u8) as char
}

/// The decimal spelling of `n`, without leading zeros.
pub open spec fn decimal(n: nat) -> Seq<char>
    decreases n,
{
    if n < 10 {
        seq![digit_char(n)]
    } else {
        decimal(n / 10).push(digit_char(n % 10))
    }
}

/// The decimal spelling of `n` is made of digits and is worth `n`.
proof fn lemma_decimal_digits(n: nat)
    ensures
        decimal(n).len() > 0,
        forall|i: int| 0 <= i < decimal(n).len() ==> is_digit(#[trigger] decimal(n)[i]),
        digits_value(decimal(n)) == n,
    decreases n,
{
    let m = n % 10;
    assert(digit_value(digit_char(m)) == m) by {
        assert(((m + 0x30) as u8) as u32 == m + 0x30);
    }
    if n < 10 {
        assert(decimal(n).drop_last() =~= Seq::<char>::empty());
        assert(decimal(n).last() == digit_char(n));
        assert(digits_value(decimal(n)) == digits_value(decimal(n).drop_last()) * 10 + digit_value(
            digit_char(n),
        ));
    } else {
        lemma_decimal_digits(n / 10);
        let d = decimal(n / 10);
        assert(decimal(n).drop_last() =~= d);
        assert(decimal(n).last() == digit_char(m));
        assert(digits_value(decimal(n)) == digits_value(d) * 10 + m);
        assert((n / 10) * 10 + m == n);
        assert forall|i: int| 0 <= i < decimal(n).len() implies is_digit(#[trigger] decimal(n)[i]) by {
            if i < d.len() {
                assert(decimal(n)[i] == d[i]);
            }
        }
    }
}

/// Reading back the decimal spelling of a number gives the number: what
/// `push_decimal` writes, `parse_u64_text` reads.
pub proof fn law_decimal_reads_back(n: u64)
    ensures
        parse_u64(decimal(n as nat)) == Some(n),
{
    lemma_decimal_digits(n as nat);
    let d = decimal(n as nat);
    assert(is_digit(d[0]));
    assert(unsigned_digits(d) == d);
}

/// Appends the decimal spelling of `n` to `s`.
pub fn push_decimal(s: &mut String, n: u64)
    ensures
        final(s)@ == old(s)@ + decimal(n as nat),
    decreases n,
{
    if n >= 10 {
        push_decimal(s, n / 10);
    }
    let d = (n % 10) as u8;
    push_char(s, (0x30u8 + d) as char);
    assert(final(s)@ =~= old(s)@ + decimal(n as nat));
}

} // verus!
