use vstd::prelude::*;
use vstd::string::*;

verus! {

/// An ASCII capital letter.
pub open spec fn is_upper(c: char) -> bool {
    'A' <= c && c <= 'Z'
}

/// The ASCII lowercase form of `c`; any other character is left as it is.
pub open spec fn lower(c: char) -> char {
    if is_upper(c) {
        ((c as u32) + 32) as char
    } else {
        c
    }
}

/// What the `i`-th character of `s` turns into in snake case: a capital letter
/// becomes lowercase, preceded by `_` when it follows a character that is not a
/// capital (a run of capitals is kept together).
pub open spec fn snake_piece(s: Seq<char>, i: int) -> Seq<char> {
    if is_upper(s[i]) {
        if i > 0 && !is_upper(s[i - 1]) {
            seq!['_', lower(s[i])]
        } else {
            seq![lower(s[i])]
        }
    } else {
        seq![s[i]]
    }
}

/// Snake case of the first `n` characters of `s`.
pub open spec fn snake_prefix(s: Seq<char>, n: nat) -> Seq<char>
    decreases n,
{
    if n == 0 {
        Seq::empty()
    } else {
        snake_prefix(s, (n - 1) as nat) + snake_piece(s, n - 1)
    }
}

/// camelCase / PascalCase to snake_case.
pub open spec fn snake_of(s: Seq<char>) -> Seq<char> {
    snake_prefix(s, s.len())
}

/// A name with no capital letter is its own snake case.
pub proof fn lemma_snake_of_lowercase(s: Seq<char>, n: nat)
    requires
        n <= s.len(),
        forall|i: int| 0 <= i < s.len() ==> !is_upper(#[trigger] s[i]),
    ensures
        snake_prefix(s, n) == s.subrange(0, n as int),
    decreases n,
{
    if n > 0 {
        lemma_snake_of_lowercase(s, (n - 1) as nat);
        assert(s.subrange(0, n as int) =~= s.subrange(0, n - 1) + seq![s[n - 1]]);
    }
}

/// The ASCII lowercase form of a character.
pub(crate) fn ascii_lower(c: char) -> (r: char)
    ensures
        r == lower(c),
{
    if 'A' <= c && c <= 'Z' {
        ((c as u8) + 32) as char
    } else {
        c
    }
}

/// Relies on String::push: appends one character.
#[verifier::external_body]
pub(crate) fn push_char(s: &mut String, c: char)
    ensures
        final(s)@ == old(s)@.push(c),
{
    s.push(c)
}

/// Converts a camelCase or PascalCase name to snake_case.
pub fn camel_to_snake(s: &str) -> (r: String)
    ensures
        r@ == snake_of(s@),
{
    let n = s.unicode_len();
    let mut out = String::new();
    let mut i: usize = 0;
    while i < n
        invariant
            n == s@.len(),
            i <= n,
            out@ == snake_prefix(s@, i as nat),
        decreases n - i,
    {
        let c = s.get_char(i);
        if 'A' <= c && c <= 'Z' {
            if i > 0 {
                let p = s.get_char(i - 1);
                if !('A' <= p && p <= 'Z') {
                    push_char(&mut out, '_');
                }
            }
            let l = ascii_lower(c);
            push_char(&mut out, l);
        } else {
            push_char(&mut out, c);
        }
        proof {
            assert(snake_piece(s@, i as int) =~= snake_prefix(s@, (i + 1) as nat).subrange(
                snake_prefix(s@, i as nat).len() as int,
                snake_prefix(s@, (i + 1) as nat).len() as int,
            ));
        }
        assert(out@ =~= snake_prefix(s@, (i + 1) as nat));
        i = i + 1;
    }
    out
}

/// Whether two strings hold the same characters.
pub fn str_eq(a: &str, b: &str) -> (r: bool)
    ensures
        r == (a@ == b@),
{
    let n = a.unicode_len();
    let m = b.unicode_len();
    if n != m {
        return false;
    }
    let mut i: usize = 0;
    while i < n
        invariant
            n == a@.len(),
            m == b@.len(),
            n == m,
            i <= n,
            forall|j: int| 0 <= j < i ==> a@[j] == b@[j],
        decreases n - i,
    {
        if a.get_char(i) != b.get_char(i) {
            return false;
        }
        i = i + 1;
    }
    assert(a@ =~= b@);
    true
}

/// Whether `s` begins with `p`.
pub fn starts_with(s: &str, p: &str) -> (r: bool)
    ensures
        r == (p@.len() <= s@.len() && s@.subrange(0, p@.len() as int) == p@),
{
    let n = s.unicode_len();
    let m = p.unicode_len();
    if m > n {
        return false;
    }
    let mut i: usize = 0;
    while i < m
        invariant
            n == s@.len(),
            m == p@.len(),
            m <= n,
            i <= m,
            forall|j: int| 0 <= j < i ==> s@[j] == p@[j],
        decreases m - i,
    {
        if s.get_char(i) != p.get_char(i) {
            assert(s@.subrange(0, m as int)[i as int] != p@[i as int]);
            return false;
        }
        i = i + 1;
    }
    assert(s@.subrange(0, m as int) =~= p@);
    true
}

/// `p` occurs in `s` starting at position `k`.
pub open spec fn contains_at(s: Seq<char>, p: Seq<char>, k: int) -> bool {
    0 <= k && k + p.len() <= s.len() && s.subrange(k, k + p.len()) == p
}

/// `p` occurs somewhere in `s`.
pub open spec fn contains_seq(s: Seq<char>, p: Seq<char>) -> bool {
    exists|k: int| contains_at(s, p, k)
}

/// Whether `p` occurs in `s`.
pub fn contains_str(s: &str, p: &str) -> (r: bool)
    ensures
        r == contains_seq(s@, p@),
{
    let n = s.unicode_len();
    let m = p.unicode_len();
    if m > n {
        assert forall|k: int| !contains_at(s@, p@, k) by {}
        return false;
    }
    if m == 0 {
        assert(s@.subrange(0, 0) =~= p@);
        assert(contains_at(s@, p@, 0));
        return true;
    }
    let mut k: usize = 0;
    while k <= n - m
        invariant
            n == s@.len(),
            m == p@.len(),
            0 < m <= n,
            k <= n - m + 1,
            forall|j: int| 0 <= j < k ==> !contains_at(s@, p@, j),
        decreases n + 1 - k,
    {
        let mut i: usize = 0;
        let mut ok = true;
        while i < m
            invariant
                n == s@.len(),
                m == p@.len(),
                k + m <= n,
                i <= m,
                ok ==> forall|j: int| 0 <= j < i ==> s@[k + j] == p@[j],
                !ok ==> !contains_at(s@, p@, k as int),
            decreases m - i,
        {
            if ok && s.get_char(k + i) != p.get_char(i) {
                assert(s@.subrange(k as int, k + m)[i as int] != p@[i as int]);
                ok = false;
            }
            i = i + 1;
        }
        if ok {
            assert(s@.subrange(k as int, k + m) =~= p@);
            assert(contains_at(s@, p@, k as int));
            return true;
        }
        k = k + 1;
    }
    assert forall|j: int| !contains_at(s@, p@, j) by {
        if 0 <= j && j + m <= n {
            assert(j < k);
        }
    }
    false
}

/// The lowercase form of a string, character by character, as Unicode defines it.
pub uninterp spec fn lower_of(s: Seq<char>) -> Seq<char>;

/// Relies on str::to_lowercase: the result depends on the string's characters alone.
#[verifier::external_body]
pub(crate) fn to_lowercase(s: &str) -> (r: String)
    ensures
        r@ == lower_of(s@),
{
    s.to_lowercase()
}

} // verus!
