//! Text building blocks: characters of a string, decimal numerals,
//! placeholder substitution and the host part of an address.

use vstd::prelude::*;
use vstd::std_specs::iter::IteratorSpec;
use vstd::string::StringExecFns;

verus! {

/// `String::push` of the standard library appends the given character to
/// the end of the string and changes nothing else.
pub assume_specification[ String::push ](s: &mut String, ch: char)
    ensures
        final(s)@ == old(s)@.push(ch),
;

/// The characters of `s`, in order.
pub fn chars_of(s: &str) -> (v: Vec<char>)
    ensures
        v@ == s@,
{
    broadcast use vstd::string::group_string_axioms;

    let mut v: Vec<char> = Vec::new();
    for c in it: s.chars()
        invariant
            it.seq() == s@,
            v@ == it.seq().take(it.index() as int),
    {
        v.push(c);
    }
    v
}

/// The numeral of a single decimal digit.
pub open spec fn digit(d: int) -> char {
    if d == 0 {
        '0'
    } else if d == 1 {
        '1'
    } else if d == 2 {
        '2'
    } else if d == 3 {
        '3'
    } else if d == 4 {
        '4'
    } else if d == 5 {
        '5'
    } else if d == 6 {
        '6'
    } else if d == 7 {
        '7'
    } else if d == 8 {
        '8'
    } else {
        '9'
    }
}

/// The decimal numeral of `n`: most significant digit first, no sign, no
/// leading zero (zero itself is "0").
pub open spec fn decimal(n: nat) -> Seq<char>
    decreases n,
{
    if n < 10 {
        seq![digit(n as int)]
    } else {
        decimal(n / 10).push(digit((n % 10) as int))
    }
}

fn digit_of(d: u16) -> (c: char)
    requires
        d < 10,
    ensures
        c == digit(d as int),
{
    if d == 0 {
        '0'
    } else if d == 1 {
        '1'
    } else if d == 2 {
        '2'
    } else if d == 3 {
        '3'
    } else if d == 4 {
        '4'
    } else if d == 5 {
        '5'
    } else if d == 6 {
        '6'
    } else if d == 7 {
        '7'
    } else if d == 8 {
        '8'
    } else {
        '9'
    }
}

/// Appends the decimal numeral of `n` to `out`.
pub fn push_decimal(out: &mut String, n: u16)
    ensures
        final(out)@ == old(out)@ + decimal(n as nat),
    decreases n,
{
    if n >= 10 {
        push_decimal(out, n / 10);
    }
    out.push(digit_of(n % 10));
}

/// The decimal numeral of `n` as a string.
pub fn decimal_string(n: u16) -> (s: String)
    ensures
        s@ == decimal(n as nat),
{
    let mut s = String::new();
    push_decimal(&mut s, n);
    s
}

/// `template` with every placeholder `{}` replaced by `value`. Placeholders
/// are found from left to right and do not overlap; all other characters
/// are kept as they are.
pub open spec fn substituted(template: Seq<char>, value: Seq<char>) -> Seq<char>
    decreases template.len(),
{
    if template.len() == 0 {
        template
    } else if template.len() >= 2 && template[0] == '{' && template[1] == '}' {
        value + substituted(template.skip(2), value)
    } else {
        seq![template[0]] + substituted(template.skip(1), value)
    }
}

/// Replaces every placeholder `{}` of `template` by `value`.
pub fn substitute(template: &str, value: &str) -> (out: String)
    ensures
        out@ == substituted(template@, value@),
{
    let t = chars_of(template);
    let mut out = String::new();
    let mut i: usize = 0;
    assert(t@.skip(0) == t@);
    assert(out@ + substituted(t@, value@) == substituted(t@, value@));
    while i < t.len()
        invariant
            i <= t.len(),
            t@ == template@,
            substituted(t@, value@) == out@ + substituted(t@.skip(i as int), value@),
        decreases t.len() - i,
    {
        let ghost rest = t@.skip(i as int);
        if t[i] == '{' && i + 1 < t.len() && t[i + 1] == '}' {
            assert(rest.skip(2) == t@.skip(i + 2));
            out.append(value);
            i += 2;
        } else {
            assert(rest.skip(1) == t@.skip(i + 1));
            out.push(t[i]);
            i += 1;
        }
    }
    out
}

/// The part of an address before its first `:`; the whole address where
/// it has none.
pub open spec fn host_part(addr: Seq<char>) -> Seq<char>
    decreases addr.len(),
{
    if addr.len() == 0 || addr[0] == ':' {
        Seq::empty()
    } else {
        seq![addr[0]] + host_part(addr.skip(1))
    }
}

/// Cuts an address at its first `:`.
pub fn host_of(addr: &str) -> (host: String)
    ensures
        host@ == host_part(addr@),
{
    let a = chars_of(addr);
    let mut host = String::new();
    let mut i: usize = 0;
    assert(a@.skip(0) == a@);
    assert(host@ + host_part(a@) == host_part(a@));
    while i < a.len() && a[i] != ':'
        invariant
            i <= a.len(),
            a@ == addr@,
            host_part(a@) == host@ + host_part(a@.skip(i as int)),
        decreases a.len() - i,
    {
        assert(a@.skip(i as int).skip(1) == a@.skip(i + 1));
        host.push(a[i]);
        i += 1;
    }
    host
}

/// Whether `text` holds a placeholder `{}` somewhere.
pub open spec fn has_placeholder(text: Seq<char>) -> bool {
    exists|i: int| 0 <= i && i + 1 < text.len() && #[trigger] text[i] == '{' && text[i + 1] == '}'
}

/// A template without a placeholder is left as it is.
pub proof fn lemma_substituted_without_placeholder(template: Seq<char>, value: Seq<char>)
    requires
        !has_placeholder(template),
    ensures
        substituted(template, value) == template,
    decreases template.len(),
{
    if template.len() > 0 {
        let rest = template.skip(1);
        assert(template[0] == '{' ==> !(template.len() >= 2 && template[1] == '}'));
        assert(!has_placeholder(rest)) by {
            if has_placeholder(rest) {
                let i = choose|i: int|
                    0 <= i && i + 1 < rest.len() && #[trigger] rest[i] == '{' && rest[i + 1] == '}';
                assert(template[i + 1] == '{' && template[i + 2] == '}');
            }
        }
        lemma_substituted_without_placeholder(rest, value);
        assert(seq![template[0]] + rest =~= template);
    }
}

/// A template with a single placeholder, `before{}after`, becomes
/// `before`, then the value, then `after`.
pub proof fn lemma_substituted_single_placeholder(
    before: Seq<char>,
    after: Seq<char>,
    value: Seq<char>,
)
    requires
        !has_placeholder(before),
        !has_placeholder(after),
    ensures
        substituted(before + seq!['{', '}'] + after, value) == before + value + after,
    decreases before.len(),
{
    let template = before + seq!['{', '}'] + after;
    if before.len() == 0 {
        assert(template.skip(2) =~= after);
        lemma_substituted_without_placeholder(after, value);
        assert(value + after =~= before + value + after);
    } else {
        let rest = before.skip(1);
        assert(!(template[0] == '{' && template[1] == '}')) by {
            if before.len() >= 2 {
                assert(template[0] == before[0] && template[1] == before[1]);
            }
        }
        assert(!has_placeholder(rest)) by {
            if has_placeholder(rest) {
                let i = choose|i: int|
                    0 <= i && i + 1 < rest.len() && #[trigger] rest[i] == '{' && rest[i + 1] == '}';
                assert(before[i + 1] == '{' && before[i + 2] == '}');
            }
        }
        assert(template.skip(1) =~= rest + seq!['{', '}'] + after);
        lemma_substituted_single_placeholder(rest, after, value);
        assert(seq![template[0]] + (rest + value + after) =~= before + value + after);
    }
}

/// The host part of an address is the address up to its first `:`: a
/// prefix without a `:` that ends where the address ends or where a `:`
/// stands.
pub proof fn lemma_host_part_ends_at_first_colon(addr: Seq<char>)
    ensures
        host_part(addr).len() <= addr.len(),
        host_part(addr) == addr.take(host_part(addr).len() as int),
        forall|i: int| 0 <= i < host_part(addr).len() ==> addr[i] != ':',
        host_part(addr).len() == addr.len() || addr[host_part(addr).len() as int] == ':',
    decreases addr.len(),
{
    if addr.len() == 0 || addr[0] == ':' {
        assert(host_part(addr) =~= addr.take(0));
    } else {
        let rest = addr.skip(1);
        lemma_host_part_ends_at_first_colon(rest);
        let h = host_part(rest);
        let n = h.len() as int;
        assert(host_part(addr) =~= seq![addr[0]] + h);
        assert(seq![addr[0]] + rest.take(n) =~= addr.take(n + 1));
        assert forall|i: int| 0 <= i < host_part(addr).len() implies addr[i] != ':' by {
            if i > 0 {
                assert(addr[i] == rest[i - 1]);
            }
        }
        if h.len() < rest.len() {
            assert(addr[n + 1] == rest[n]);
        }
    }
}

/// An address without a `:` is its own host part.
pub proof fn lemma_host_part_without_colon(addr: Seq<char>)
    requires
        forall|i: int| 0 <= i < addr.len() ==> addr[i] != ':',
    ensures
        host_part(addr) == addr,
{
    lemma_host_part_ends_at_first_colon(addr);
    assert(addr.take(addr.len() as int) =~= addr);
}

} // verus!
