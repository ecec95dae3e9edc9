//! Small text operations on TSV fields: splitting, joining, character
//! replacement, comparison and decimal parsing, each specified over the
//! field's characters.
use vstd::prelude::*;
use vstd::utf8::{encode_utf8, encode_utf8_decode_utf8};

verus! {

broadcast use vstd::string::group_string_axioms;

/// Appends one character to a string.
#[verifier::external_body]
pub(crate) fn push_char(s: &mut String, c: char)
    ensures
        final(s)@ == old(s)@.push(c),
{
    s.push(c);
}

/// The marker that IMDb dumps use for a missing value: a backslash and `N`.
pub open spec fn null_marker() -> Seq<char> {
    seq!['\\', 'N']
}

/// The views of a sequence of strings.
pub open spec fn views(v: Seq<String>) -> Seq<Seq<char>> {
    v.map_values(|x: String| x@)
}

// ---------------------------------------------------------------------------
// Equality
// ---------------------------------------------------------------------------

/// Compares two string slices by their characters.
pub fn str_eq(a: &str, b: &str) -> (r: bool)
    ensures
        r == (a@ == b@),
{
    let x = a.as_bytes();
    let y = b.as_bytes();
    proof {
        encode_utf8_decode_utf8(a@);
        encode_utf8_decode_utf8(b@);
    }
    if x.len() != y.len() {
        return false;
    }
    let n = x.len();
    let mut i: usize = 0;
    while i < n
        invariant
            n == x@.len(),
            n == y@.len(),
            x@ == encode_utf8(a@),
            y@ == encode_utf8(b@),
            i <= n,
            forall|j: int| 0 <= j < i ==> x@[j] == y@[j],
        decreases n - i,
    {
        if x[i] != y[i] {
            assert(x@[i as int] != y@[i as int]);
            return false;
        }
        i = i + 1;
    }
    assert(x@ =~= y@);
    true
}

/// Whether a field holds the missing-value marker.
pub fn is_null_marker(s: &str) -> (r: bool)
    ensures
        r == (s@ == null_marker()),
{
    proof {
        reveal_strlit("\\N");
        assert("\\N"@ =~= null_marker());
    }
    str_eq(s, "\\N")
}

// ---------------------------------------------------------------------------
// Removing a character
// ---------------------------------------------------------------------------

/// Copy of a string without any occurrence of the character `c`.
pub open spec fn without_char(s: Seq<char>, c: char) -> Seq<char>
    decreases s.len(),
{
    if s.len() == 0 {
        s
    } else if s.last() == c {
        without_char(s.drop_last(), c)
    } else {
        without_char(s.drop_last(), c).push(s.last())
    }
}

/// Removing `c` keeps exactly the characters other than `c`, in order.
pub proof fn lemma_without_char_is_filter(s: Seq<char>, c: char)
    ensures
        without_char(s, c) == s.filter(|x: char| x != c),
        !without_char(s, c).contains(c),
    decreases s.len(),
{
    reveal_with_fuel(Seq::<_>::filter, 1);
    if s.len() > 0 {
        lemma_without_char_is_filter(s.drop_last(), c);
    }
    let pred = |x: char| x != c;
    s.filter_lemma(pred);
    if without_char(s, c).contains(c) {
        let k = without_char(s, c).index_of(c);
        assert(pred(s.filter(pred)[k]));
    }
}

/// Removes every occurrence of `c` from `s`.
pub fn remove_char(s: &str, c: char) -> (r: String)
    ensures
        r@ == without_char(s@, c),
{
    let mut out = String::new();
    for x in it: s.chars()
        invariant
            it.seq() == s@,
            out@ == without_char(s@.take(it.index() as int), c),
    {
        assert(s@.take(it.index() + 1).drop_last() == s@.take(it.index() as int));
        if x != c {
            push_char(&mut out, x);
        }
    }
    assert(s@.take(s@.len() as int) == s@);
    out
}

// ---------------------------------------------------------------------------
// Replacing a character
// ---------------------------------------------------------------------------

/// Copy of `s` with every `from` replaced by `to`.
pub open spec fn replace_char(s: Seq<char>, from: char, to: char) -> Seq<char> {
    s.map_values(|c: char| if c == from { to } else { c })
}

// ---------------------------------------------------------------------------
// Splitting
// ---------------------------------------------------------------------------

/// The fields of `s` separated by `sep`, as `str::split` with a character
/// pattern yields them: an empty string gives one empty field, and a
/// separator at either end gives an empty field there.
pub open spec fn split_on(s: Seq<char>, sep: char) -> Seq<Seq<char>>
    decreases s.len(),
{
    if s.len() == 0 {
        seq![Seq::<char>::empty()]
    } else {
        let p = split_on(s.drop_last(), sep);
        if s.last() == sep {
            p.push(Seq::<char>::empty())
        } else {
            p.update(p.len() - 1, p[p.len() - 1].push(s.last()))
        }
    }
}

/// No field holds the separator.
pub proof fn lemma_split_fields_have_no_separator(s: Seq<char>, sep: char)
    ensures
        forall|k: int|
            0 <= k < split_on(s, sep).len() ==> !(#[trigger] split_on(s, sep)[k]).contains(sep),
    decreases s.len(),
{
    if s.len() > 0 {
        let t = s.drop_last();
        lemma_split_fields_have_no_separator(t, sep);
        lemma_split_nonempty(t, sep);
        let p = split_on(t, sep);
        let q = split_on(s, sep);
        assert forall|k: int| 0 <= k < q.len() implies !(#[trigger] q[k]).contains(sep) by {
            if s.last() == sep {
                if k < p.len() {
                    assert(q[k] == p[k]);
                } else {
                    assert(q[k] =~= Seq::<char>::empty());
                }
            } else if k < p.len() - 1 {
                assert(q[k] == p[k]);
            } else {
                let f = p[p.len() - 1];
                assert(q[k] == f.push(s.last()));
                if q[k].contains(sep) {
                    let j = q[k].index_of(sep);
                    assert(j < f.len() ==> f[j] == sep);
                    assert(!f.contains(sep));
                }
            }
        }
    }
}

/// There is always at least one field.
pub proof fn lemma_split_nonempty(s: Seq<char>, sep: char)
    ensures
        split_on(s, sep).len() >= 1,
    decreases s.len(),
{
    if s.len() > 0 {
        lemma_split_nonempty(s.drop_last(), sep);
    }
}

/// Splits `s` at every occurrence of `sep`.
pub fn split_fields(s: &str, sep: char) -> (r: Vec<String>)
    ensures
        views(r@) == split_on(s@, sep),
{
    let mut fields: Vec<String> = Vec::new();
    let mut cur = String::new();
    for x in it: s.chars()
        invariant
            it.seq() == s@,
            views(fields@).push(cur@) == split_on(s@.take(it.index() as int), sep),
    {
        let ghost t = s@.take(it.index() + 1);
        assert(t.drop_last() == s@.take(it.index() as int));
        proof {
            lemma_split_nonempty(t.drop_last(), sep);
        }
        if x == sep {
            let done = cur;
            fields.push(done);
            cur = String::new();
            assert(views(fields@).push(cur@) =~= split_on(t, sep));
        } else {
            push_char(&mut cur, x);
            assert(views(fields@).push(cur@) =~= split_on(t, sep));
        }
    }
    assert(s@.take(s@.len() as int) == s@);
    fields.push(cur);
    assert(views(fields@) =~= split_on(s@, sep));
    fields
}

// ---------------------------------------------------------------------------
// Joining
// ---------------------------------------------------------------------------

/// The parts concatenated with `sep` between neighbours.
pub open spec fn join_with(parts: Seq<Seq<char>>, sep: Seq<char>) -> Seq<char>
    decreases parts.len(),
{
    if parts.len() == 0 {
        Seq::<char>::empty()
    } else if parts.len() == 1 {
        parts[0]
    } else {
        join_with(parts.drop_last(), sep) + sep + parts.last()
    }
}

/// Concatenates `parts` with `sep` between neighbours.
pub fn join(parts: &Vec<String>, sep: &str) -> (r: String)
    ensures
        r@ == join_with(views(parts@), sep@),
{
    let mut out = String::new();
    let n = parts.len();
    let mut i: usize = 0;
    while i < n
        invariant
            n == parts@.len(),
            i <= n,
            out@ == join_with(views(parts@).take(i as int), sep@),
        decreases n - i,
    {
        let ghost pre = views(parts@).take(i + 1);
        assert(pre.drop_last() =~= views(parts@).take(i as int));
        if i == 0 {
            out.append(parts[i].as_str());
            assert(out@ =~= join_with(pre, sep@));
        } else {
            out.append(sep);
            out.append(parts[i].as_str());
            assert(out@ =~= join_with(pre, sep@));
        }
        i = i + 1;
    }
    assert(views(parts@).take(n as int) =~= views(parts@));
    out
}

/// Extending the last part by one character extends the joined text by it.
proof fn lemma_join_extend_last(parts: Seq<Seq<char>>, sep: Seq<char>, c: char)
    requires
        parts.len() >= 1,
    ensures
        join_with(parts.update(parts.len() - 1, parts.last().push(c)), sep) == join_with(
            parts,
            sep,
        ).push(c),
{
    let q = parts.update(parts.len() - 1, parts.last().push(c));
    if parts.len() == 1 {
    } else {
        assert(q.drop_last() =~= parts.drop_last());
        assert(join_with(q, sep) =~= join_with(parts, sep).push(c));
    }
}

/// Splitting at `from` and joining with `to` replaces every `from` by `to`.
pub proof fn lemma_join_split_is_replace(s: Seq<char>, from: char, to: char)
    ensures
        join_with(split_on(s, from), seq![to]) == replace_char(s, from, to),
    decreases s.len(),
{
    if s.len() == 0 {
        assert(replace_char(s, from, to) =~= Seq::<char>::empty());
    } else {
        let t = s.drop_last();
        lemma_join_split_is_replace(t, from, to);
        lemma_split_nonempty(t, from);
        let p = split_on(t, from);
        assert(replace_char(s, from, to) =~= replace_char(t, from, to).push(
            if s.last() == from { to } else { s.last() },
        ));
        if s.last() == from {
            let q = p.push(Seq::<char>::empty());
            assert(q.drop_last() =~= p);
            assert(join_with(q, seq![to]) =~= join_with(p, seq![to]).push(to));
        } else {
            lemma_join_extend_last(p, seq![to], s.last());
        }
    }
}

/// Joining the fields of a text with the separator they were split at gives
/// the text back.
pub proof fn lemma_join_split_roundtrip(s: Seq<char>, sep: char)
    ensures
        join_with(split_on(s, sep), seq![sep]) == s,
{
    lemma_join_split_is_replace(s, sep, sep);
    assert(replace_char(s, sep, sep) =~= s);
}

/// `s` with every `from` replaced by `to`, computed as the fields of `s` at
/// `from` joined with `to`.
pub fn split_join(s: &str, from: char, to: &str) -> (r: String)
    ensures
        r@ == join_with(split_on(s@, from), to@),
{
    let fields = split_fields(s, from);
    join(&fields, to)
}

// ---------------------------------------------------------------------------
// Decimal numbers
// ---------------------------------------------------------------------------

/// Whether `c` is an ASCII decimal digit.
pub open spec fn is_digit(c: char) -> bool {
    '0' <= c && c <= '9'
}

/// Every character is an ASCII decimal digit.
pub open spec fn all_digits(d: Seq<char>) -> bool {
    forall|i: int| 0 <= i < d.len() ==> is_digit(#[trigger] d[i])
}

/// The value of a string of decimal digits.
pub open spec fn digits_value(d: Seq<char>) -> nat
    decreases d.len(),
{
    if d.len() == 0 {
        0
    } else {
        (digits_value(d.drop_last()) * 10 + (d.last() as nat - '0' as nat)) as nat
    }
}

/// The digits of a number text, after one optional leading `+`.
pub open spec fn unsigned_digits(s: Seq<char>) -> Seq<char> {
    if s.len() > 0 && s[0] == '+' {
        s.drop_first()
    } else {
        s
    }
}

/// What `str::parse::<u16>` gives: the value when the text is an optional
/// `+` followed by at least one ASCII digit and the value fits in 16 bits;
/// otherwise nothing.
pub open spec fn parse_u16_spec(s: Seq<char>) -> Option<u16> {
    let d = unsigned_digits(s);
    if d.len() > 0 && all_digits(d) && digits_value(d) <= u16::MAX {
        Some(digits_value(d) as u16)
    } else {
        None
    }
}

/// A longer run of digits is worth at least as much as its prefix.
proof fn lemma_digits_value_grows(d: Seq<char>, k: int)
    requires
        0 <= k <= d.len(),
        all_digits(d),
    ensures
        digits_value(d.take(k)) <= digits_value(d),
    decreases d.len() - k,
{
    if k < d.len() {
        lemma_digits_value_grows(d, k + 1);
        assert(d.take(k + 1).drop_last() =~= d.take(k));
        assert(is_digit(d[k]));
    } else {
        assert(d.take(k) =~= d);
    }
}

/// Parses a decimal `u16` as `str::parse::<u16>` does.
pub fn parse_u16(s: &str) -> (r: Option<u16>)
    ensures
        r == parse_u16_spec(s@),
{
    let mut value: u32 = 0;
    let mut ok = true;
    let mut has_digit = false;
    let mut first = true;
    for x in it: s.chars()
        invariant
            it.seq() == s@,
            first == (it.index() == 0),
            value <= u16::MAX,
            it.index() == 0 ==> !has_digit && ok && value == 0,
            ({
                let d = unsigned_digits(s@.take(it.index() as int));
                &&& has_digit == (d.len() > 0)
                &&& ok ==> all_digits(d) && value == digits_value(d)
                &&& !ok ==> !all_digits(d) || digits_value(d) > u16::MAX
            }),
    {
        let ghost i = it.index() as int;
        let ghost t = s@.take(i + 1);
        let ghost d0 = unsigned_digits(s@.take(i));
        let ghost d1 = unsigned_digits(t);
        assert(t[i] == x);
        if first && x == '+' {
            assert(d1 =~= Seq::<char>::empty());
        } else {
            assert(d1 =~= d0.push(x)) by {
                if i == 0 {
                    assert(s@.take(0) =~= Seq::<char>::empty());
                } else {
                    assert(t[0] == s@.take(i)[0]);
                    assert(t.drop_last() =~= s@.take(i));
                }
            }
            assert(d1.drop_last() =~= d0);
            has_digit = true;
            if ok {
                if '0' <= x && x <= '9' {
                    let digit: u32 = (x as u32) - ('0' as u32);
                    value = value * 10 + digit;
                    if value > 65535 {
                        ok = false;
                        value = 0;
                    }
                } else {
                    ok = false;
                    assert(!is_digit(d1[d1.len() - 1]));
                }
            } else {
                proof {
                    if all_digits(d1) && digits_value(d1) <= u16::MAX {
                        lemma_digits_value_grows(d1, d0.len() as int);
                        assert(d1.take(d0.len() as int) =~= d0);
                        assert(all_digits(d0)) by {
                            assert forall|j: int| 0 <= j < d0.len() implies is_digit(
                                #[trigger] d0[j],
                            ) by {
                                assert(d0[j] == d1[j]);
                            }
                        }
                    }
                }
            }
        }
        first = false;
    }
    assert(s@.take(s@.len() as int) == s@);
    if ok && has_digit {
        Some(value as u16)
    } else {
        None
    }
}

/// A copy of a list of strings.
pub fn clone_all(values: &Vec<String>) -> (r: Vec<String>)
    ensures
        views(r@) == views(values@),
{
    let mut out: Vec<String> = Vec::new();
    let n = values.len();
    let mut i: usize = 0;
    while i < n
        invariant
            n == values@.len(),
            i <= n,
            views(out@) == views(values@).take(i as int),
        decreases n - i,
    {
        let v = values[i].clone();
        let ghost before = out@;
        out.push(v);
        assert(views(out@) =~= views(before).push(values@[i as int]@));
        assert(views(values@).take(i + 1) =~= views(values@).take(i as int).push(
            values@[i as int]@,
        ));
        i = i + 1;
    }
    assert(views(values@).take(n as int) =~= views(values@));
    out
}

} // verus!
