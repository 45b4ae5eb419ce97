//! Text helpers: decimal numbers, quoted strings, lists, and splitting.
use std::time::Duration;
use vstd::prelude::*;

use crate::time;

verus! {

/// The decimal digit `d`, which is less than ten.
pub open spec fn digit_char(d: nat) -> char {
    (d + 0x30) as char
}

/// The shortest decimal form of `n`.
pub open spec fn decimal(n: nat) -> Seq<char>
    decreases n,
{
    if n < 10 {
        seq![digit_char(n)]
    } else {
        decimal(n / 10).push(digit_char(n % 10))
    }
}

/// The shortest decimal form of a signed number.
pub open spec fn signed_decimal(n: int) -> Seq<char> {
    if n < 0 {
        "-"@ + decimal((-n) as nat)
    } else {
        decimal(n as nat)
    }
}

/// How `{:?}` of the standard library quotes and escapes a string.
pub uninterp spec fn str_debug(s: Seq<char>) -> Seq<char>;

/// How `{:?}` of the standard library writes a duration of so many nanoseconds.
pub uninterp spec fn duration_debug(nanos: nat) -> Seq<char>;

/// Writes a string with `{:?}`: the `Debug` form of `str`.
#[verifier::external_body]
pub(crate) fn debug_string(s: &str) -> (r: String)
    ensures
        r@ == str_debug(s@),
{
    format!("{:?}", s)
}

/// Writes a duration with `{:?}`: the `Debug` form of `Duration`.
#[verifier::external_body]
pub(crate) fn debug_duration(d: Duration) -> (r: String)
    ensures
        r@ == duration_debug(time::duration_nanos(d)),
{
    format!("{:?}", d)
}

/// The inside of a list of quoted strings: each item quoted, with a comma and a
/// space between two.
pub open spec fn debug_items(items: Seq<Seq<char>>) -> Seq<char>
    decreases items.len(),
{
    if items.len() == 0 {
        Seq::empty()
    } else if items.len() == 1 {
        str_debug(items[0])
    } else {
        debug_items(items.drop_last()) + ", "@ + str_debug(items.last())
    }
}

/// A list of strings as `{:?}` writes it.
pub open spec fn debug_list(items: Seq<Seq<char>>) -> Seq<char> {
    "["@ + debug_items(items) + "]"@
}

/// The text held by an optional string.
pub open spec fn opt_text(s: Option<String>) -> Option<Seq<char>> {
    match s {
        Some(s) => Some(s@),
        None => None,
    }
}

/// The texts held by a list of strings.
pub open spec fn texts(items: Seq<String>) -> Seq<Seq<char>> {
    items.map_values(|s: String| s@)
}

/// The text of an optional string slice.
pub open spec fn opt_str(s: Option<&str>) -> Option<Seq<char>> {
    match s {
        Some(s) => Some(s@),
        None => None,
    }
}

/// Copies an optional string slice.
pub fn own_text(s: Option<&str>) -> (r: Option<String>)
    ensures
        opt_text(r) == opt_str(s),
{
    match s {
        Some(s) => Some(s.to_owned()),
        None => None,
    }
}

/// Copies an optional string.
pub fn clone_text(s: &Option<String>) -> (r: Option<String>)
    ensures
        r == *s,
{
    match s {
        Some(s) => Some(s.clone()),
        None => None,
    }
}

/// Copies a list of strings.
pub fn clone_strings(v: &Vec<String>) -> (r: Vec<String>)
    ensures
        r@ == v@,
{
    let mut r: Vec<String> = Vec::new();
    let mut i: usize = 0;
    while i < v.len()
        invariant
            i <= v.len(),
            r@ == v@.take(i as int),
        decreases v.len() - i,
    {
        r.push(v[i].clone());
        i += 1;
        assert(v@.take(i as int) =~= v@.take(i - 1).push(v@[i - 1]));
    }
    assert(v@.take(i as int) =~= v@);
    r
}

fn digit_str(d: u64) -> (r: &'static str)
    requires
        d < 10,
    ensures
        r@ == seq![digit_char(d as nat)],
{
    proof {
        reveal_strlit("0");
        reveal_strlit("1");
        reveal_strlit("2");
        reveal_strlit("3");
        reveal_strlit("4");
        reveal_strlit("5");
        reveal_strlit("6");
        reveal_strlit("7");
        reveal_strlit("8");
        reveal_strlit("9");
    }
    if d == 0 {
        "0"
    } else if d == 1 {
        "1"
    } else if d == 2 {
        "2"
    } else if d == 3 {
        "3"
    } else if d == 4 {
        "4"
    } else if d == 5 {
        "5"
    } else if d == 6 {
        "6"
    } else if d == 7 {
        "7"
    } else if d == 8 {
        "8"
    } else {
        "9"
    }
}

/// Writes `n` in decimal.
pub fn decimal_string(n: u64) -> (r: String)
    ensures
        r@ == decimal(n as nat),
    decreases n,
{
    if n < 10 {
        digit_str(n).to_owned()
    } else {
        decimal_string(n / 10).concat(digit_str(n % 10))
    }
}

/// Writes a signed number in decimal.
pub fn signed_decimal_string(n: i64) -> (r: String)
    ensures
        r@ == signed_decimal(n as int),
{
    if n < 0 {
        let magnitude: u64 = (-(n as i128)) as u64;
        "-".to_owned().concat(decimal_string(magnitude).as_str())
    } else {
        decimal_string(n as u64)
    }
}

/// Writes a list of strings as `{:?}` does.
pub fn debug_strings(items: &Vec<String>) -> (r: String)
    ensures
        r@ == debug_list(texts(items@)),
{
    let mut out = "[".to_owned();
    let mut i: usize = 0;
    let ghost all = texts(items@);
    assert(all.take(0) =~= Seq::empty());
    assert(out@ =~= "["@ + debug_items(all.take(0)));
    while i < items.len()
        invariant
            i <= items.len(),
            all == texts(items@),
            out@ == "["@ + debug_items(all.take(i as int)),
        decreases items.len() - i,
    {
        let quoted = debug_string(items[i].as_str());
        proof {
            let next = all.take(i + 1);
            assert(next.drop_last() =~= all.take(i as int));
            assert(next.last() == items[i as int]@);
            if i > 0 {
                assert("["@ + debug_items(next) =~= "["@ + debug_items(all.take(i as int)) + ", "@
                    + quoted@);
            } else {
                assert(all.take(0) =~= Seq::empty());
                assert(next[0] == items[0]@);
                assert("["@ + debug_items(next) =~= "["@ + debug_items(all.take(0)) + quoted@);
            }
        }
        if i > 0 {
            out.append(", ");
        }
        out.append(quoted.as_str());
        i += 1;
    }
    assert(all.take(i as int) =~= all);
    out.append("]");
    out
}

/// Whether `c` is one of `0`-`9`, `a`-`f` or `A`-`F`.
pub open spec fn is_hex(c: char) -> bool {
    ||| '0' <= c <= '9'
    ||| 'a' <= c <= 'f'
    ||| 'A' <= c <= 'F'
}

/// Whether `s` has `n` characters, all of them hex digits.
pub open spec fn is_hex_field(s: Seq<char>, n: nat) -> bool {
    &&& s.len() == n
    &&& forall|i: int| 0 <= i < s.len() ==> is_hex(#[trigger] s[i])
}

/// Whether `s` has `n` characters, all of them digits or one of `a`-`f`.
pub open spec fn is_lower_hex_field(s: Seq<char>, n: nat) -> bool {
    &&& s.len() == n
    &&& forall|i: int|
        0 <= i < s.len() ==> ('0' <= #[trigger] s[i] <= '9' || 'a' <= s[i] <= 'f')
}

/// Whether every character of `s` is a zero digit.
pub open spec fn all_zeros(s: Seq<char>) -> bool {
    forall|i: int| 0 <= i < s.len() ==> #[trigger] s[i] == '0'
}

/// The fields of `s` between occurrences of `sep`. There is one more field than
/// there are separators.
pub open spec fn split_fields(s: Seq<char>, sep: char) -> Seq<Seq<char>>
    decreases s.len(),
{
    if s.len() == 0 {
        seq![Seq::empty()]
    } else {
        let before = split_fields(s.drop_last(), sep);
        if s.last() == sep {
            before.push(Seq::empty())
        } else {
            before.drop_last().push(before.last().push(s.last()))
        }
    }
}

/// A text without the separator is its own only field.
pub proof fn lemma_split_plain(s: Seq<char>, sep: char)
    requires
        !s.contains(sep),
    ensures
        split_fields(s, sep) == seq![s],
    decreases s.len(),
{
    if s.len() > 0 {
        let before = s.drop_last();
        assert forall|i: int| 0 <= i < before.len() implies before[i] != sep by {
            assert(s[i] != sep);
        }
        lemma_split_plain(before, sep);
        assert(s[s.len() - 1] != sep);
        assert(before.push(s.last()) =~= s);
        assert(split_fields(s, sep) =~= seq![s]);
    } else {
        assert(s =~= Seq::empty());
    }
}

/// Appending a separator and a text without one appends a field.
pub proof fn lemma_split_append(s: Seq<char>, field: Seq<char>, sep: char)
    requires
        !field.contains(sep),
    ensures
        split_fields(s + seq![sep] + field, sep) == split_fields(s, sep).push(field),
    decreases field.len(),
{
    let whole = s + seq![sep] + field;
    if field.len() > 0 {
        let before = field.drop_last();
        assert forall|i: int| 0 <= i < before.len() implies before[i] != sep by {
            assert(field[i] != sep);
        }
        lemma_split_append(s, before, sep);
        assert(whole.drop_last() =~= s + seq![sep] + before);
        assert(field[field.len() - 1] != sep);
        assert(before.push(field.last()) =~= field);
        assert(split_fields(whole, sep) =~= split_fields(s, sep).push(field));
    } else {
        assert(whole.drop_last() =~= s);
        assert(field =~= Seq::empty());
    }
}

/// The texts held by a list of character lists.
pub open spec fn char_texts(fields: Seq<Vec<char>>) -> Seq<Seq<char>> {
    fields.map_values(|f: Vec<char>| f@)
}

/// Splits `s` at each occurrence of `sep`.
pub fn split_at_char(s: &str, sep: char) -> (fields: Vec<Vec<char>>)
    ensures
        char_texts(fields@) == split_fields(s@, sep),
{
    let mut fields: Vec<Vec<char>> = Vec::new();
    let mut last: Vec<char> = Vec::new();
    assert(s@.take(0) =~= Seq::empty());
    assert(char_texts(fields@).push(last@) =~= split_fields(s@.take(0), sep));
    for c in it: s.chars()
        invariant
            it.seq() == s@,
            char_texts(fields@).push(last@) == split_fields(s@.take(it.index() as int), sep),
    {
        proof {
            let prefix = s@.take(it.index() + 1);
            assert(prefix.drop_last() =~= s@.take(it.index() as int));
            assert(prefix.last() == c);
            assert(char_texts(fields@).push(last@).drop_last() =~= char_texts(fields@));
        }
        if c == sep {
            let ghost before = fields@;
            let ghost done = last@;
            fields.push(last);
            last = Vec::new();
            assert(char_texts(fields@) =~= char_texts(before).push(done));
            assert(last@ =~= Seq::empty());
        } else {
            last.push(c);
        }
    }
    assert(s@.take(s@.len() as int) =~= s@);
    let ghost before = fields@;
    let ghost done = last@;
    fields.push(last);
    assert(char_texts(fields@) =~= char_texts(before).push(done));
    fields
}

/// Whether a field has exactly `n` characters, all of them hex digits.
pub fn check_hex_field(field: &Vec<char>, n: usize) -> (r: bool)
    ensures
        r == is_hex_field(field@, n as nat),
{
    if field.len() != n {
        return false;
    }
    let mut i: usize = 0;
    while i < field.len()
        invariant
            i <= field.len(),
            forall|j: int| 0 <= j < i ==> is_hex(#[trigger] field@[j]),
        decreases field.len() - i,
    {
        let c = field[i];
        if !((c >= '0' && c <= '9') || (c >= 'a' && c <= 'f') || (c >= 'A' && c <= 'F')) {
            assert(!is_hex(field@[i as int]));
            return false;
        }
        i += 1;
    }
    true
}

/// Whether every character of a field is a zero digit.
pub fn check_all_zeros(field: &Vec<char>) -> (r: bool)
    ensures
        r == all_zeros(field@),
{
    let mut i: usize = 0;
    while i < field.len()
        invariant
            i <= field.len(),
            forall|j: int| 0 <= j < i ==> #[trigger] field@[j] == '0',
        decreases field.len() - i,
    {
        if field[i] != '0' {
            assert(field@[i as int] != '0');
            return false;
        }
        i += 1;
    }
    true
}

} // verus!
