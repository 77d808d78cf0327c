use vstd::prelude::*;
use vstd::string::*;
use crate::naming::push_char;

verus! {

/// The strings of `s` joined by `sep`.
pub open spec fn joined(s: Seq<Seq<char>>, sep: Seq<char>) -> Seq<char>
    decreases s.len(),
{
    if s.len() == 0 {
        Seq::empty()
    } else if s.len() == 1 {
        s[0]
    } else {
        joined(s.drop_last(), sep) + sep + s.last()
    }
}

pub open spec fn string_views(s: Seq<String>) -> Seq<Seq<char>> {
    s.map_values(|x: String| x@)
}

/// The strings of `s` with repeats dropped: each is kept where it first occurs.
pub open spec fn distinct(s: Seq<Seq<char>>) -> Seq<Seq<char>>
    decreases s.len(),
{
    if s.len() == 0 {
        Seq::empty()
    } else if distinct(s.drop_last()).contains(s.last()) {
        distinct(s.drop_last())
    } else {
        distinct(s.drop_last()).push(s.last())
    }
}

/// Joins `parts` with `sep` between each two.
pub fn join(parts: &Vec<String>, sep: &str) -> (r: String)
    ensures
        r@ == joined(string_views(parts@), sep@),
{
    let mut out = String::new();
    let mut i: usize = 0;
    while i < parts.len()
        invariant
            i <= parts@.len(),
            out@ == joined(string_views(parts@.subrange(0, i as int)), sep@),
        decreases parts@.len() - i,
    {
        if i > 0 {
            out.append(sep);
        }
        out.append(parts[i].as_str());
        proof {
            let next = string_views(parts@.subrange(0, i + 1));
            assert(next.drop_last() =~= string_views(parts@.subrange(0, i as int)));
            assert(next.last() == parts@[i as int]@);
            if i == 0 {
                assert(out@ =~= joined(next, sep@));
            }
        }
        i = i + 1;
    }
    assert(parts@.subrange(0, parts@.len() as int) =~= parts@);
    out
}

/// `s` with each `"` preceded by a backslash.
pub open spec fn escaped(s: Seq<char>) -> Seq<char>
    decreases s.len(),
{
    if s.len() == 0 {
        Seq::empty()
    } else if s.last() == '"' {
        escaped(s.drop_last()) + seq!['\\', '"']
    } else {
        escaped(s.drop_last()).push(s.last())
    }
}

/// Escapes the double quotes of `s` for a string literal.
pub fn escape_quotes(s: &str) -> (r: String)
    ensures
        r@ == escaped(s@),
{
    let n = s.unicode_len();
    let mut out = String::new();
    let mut i: usize = 0;
    while i < n
        invariant
            n == s@.len(),
            i <= n,
            out@ == escaped(s@.subrange(0, i as int)),
        decreases n - i,
    {
        let c = s.get_char(i);
        if c == '"' {
            push_char(&mut out, '\\');
        }
        push_char(&mut out, c);
        proof {
            let next = s@.subrange(0, i + 1);
            assert(next.drop_last() =~= s@.subrange(0, i as int));
            assert(next.last() == c);
            assert(out@ =~= escaped(next));
        }
        i = i + 1;
    }
    assert(s@.subrange(0, n as int) =~= s@);
    out
}

/// `$1, $2, ..., $n`.
pub open spec fn placeholders(n: nat) -> Seq<char>
    decreases n,
{
    if n == 0 {
        Seq::empty()
    } else if n == 1 {
        "$1"@
    } else {
        placeholders((n - 1) as nat) + ", $"@ + decimal(n)
    }
}

pub open spec fn digit(d: nat) -> char {
    (48 + d) as char
}

/// The decimal digits of `n`.
pub open spec fn decimal(n: nat) -> Seq<char>
    decreases n,
{
    if n < 10 {
        seq![digit(n)]
    } else {
        decimal(n / 10).push(digit(n % 10))
    }
}

/// Renders `n` in decimal.
pub fn to_decimal(n: u128) -> (r: String)
    ensures
        r@ == decimal(n as nat),
    decreases n,
{
    if n < 10 {
        let mut out = String::new();
        push_char(&mut out, ((48 + n) as u8) as char);
        assert(out@ =~= decimal(n as nat));
        out
    } else {
        let mut out = to_decimal(n / 10);
        push_char(&mut out, ((48 + n % 10) as u8) as char);
        out
    }
}

/// The positional parameter list of a statement over `n` columns:
/// `VALUES($1, $2, ..., $n)`.
pub fn generate_injected_param(n: u128) -> (r: String)
    ensures
        r@ == "VALUES("@ + placeholders(n as nat) + ")"@,
{
    let mut list = String::new();
    let mut i: u128 = 0;
    while i < n
        invariant
            i <= n,
            list@ == placeholders(i as nat),
        decreases n - i,
    {
        i = i + 1;
        if i == 1 {
            list.append("$1");
        } else {
            list.append(", $");
            let d = to_decimal(i);
            list.append(d.as_str());
        }
    }
    String::from_str("VALUES(").concat(list.as_str()).concat(")")
}

/// How many times `c` occurs in `s`.
pub open spec fn occurrences(s: Seq<char>, c: char) -> nat
    decreases s.len(),
{
    if s.len() == 0 {
        0
    } else {
        occurrences(s.drop_last(), c) + if s.last() == c { 1nat } else { 0nat }
    }
}

proof fn lemma_occurrences_add(a: Seq<char>, b: Seq<char>, c: char)
    ensures
        occurrences(a + b, c) == occurrences(a, c) + occurrences(b, c),
    decreases b.len(),
{
    if b.len() == 0 {
        assert(a + b =~= a);
    } else {
        lemma_occurrences_add(a, b.drop_last(), c);
        assert((a + b).drop_last() =~= a + b.drop_last());
    }
}

proof fn lemma_decimal_digits(n: nat)
    ensures
        occurrences(decimal(n), '$') == 0,
    decreases n,
{
    let d = n % 10;
    assert(digit(d) as u32 == 48 + d);
    assert('$' as u32 == 36);
    assert(digit(d) != '$');
    assert(decimal(n).last() == digit(d));
    assert(occurrences(Seq::<char>::empty(), '$') == 0);
    if n >= 10 {
        lemma_decimal_digits(n / 10);
        assert(decimal(n).drop_last() =~= decimal(n / 10));
    } else {
        assert(decimal(n).drop_last() =~= Seq::<char>::empty());
    }
}

/// A statement over `n` columns gets exactly `n` positional placeholders.
pub proof fn lemma_placeholder_count(n: nat)
    ensures
        occurrences("VALUES("@ + placeholders(n) + ")"@, '$') == n,
    decreases n,
{
    reveal_strlit("VALUES(");
    reveal_strlit(")");
    reveal_strlit("$1");
    reveal_strlit(", $");
    let e = Seq::<char>::empty();
    assert(occurrences("VALUES("@, '$') == 0) by {
        reveal_with_fuel(occurrences, 8);
    }
    assert(occurrences(")"@, '$') == 0) by {
        reveal_with_fuel(occurrences, 2);
    }
    assert(occurrences("$1"@, '$') == 1) by {
        reveal_with_fuel(occurrences, 3);
    }
    assert(occurrences(", $"@, '$') == 1) by {
        reveal_with_fuel(occurrences, 4);
    }
    lemma_count_placeholders(n);
    lemma_occurrences_add("VALUES("@, placeholders(n), '$');
    lemma_occurrences_add("VALUES("@ + placeholders(n), ")"@, '$');
}

proof fn lemma_count_placeholders(n: nat)
    ensures
        occurrences(placeholders(n), '$') == n,
    decreases n,
{
    reveal_strlit("$1");
    reveal_strlit(", $");
    if n == 1 {
        assert(occurrences("$1"@, '$') == 1) by {
            reveal_with_fuel(occurrences, 3);
        }
    } else if n > 1 {
        assert(occurrences(", $"@, '$') == 1) by {
            reveal_with_fuel(occurrences, 4);
        }
        lemma_count_placeholders((n - 1) as nat);
        lemma_decimal_digits(n);
        lemma_occurrences_add(placeholders((n - 1) as nat), ", $"@, '$');
        lemma_occurrences_add(placeholders((n - 1) as nat) + ", $"@, decimal(n), '$');
    }
}

} // verus!
