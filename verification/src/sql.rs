//! Text of SQL statements built from fixed fragments: decimal placeholders
//! and LIKE prefix patterns whose wildcards in user input are escaped.
use vstd::prelude::*;

verus! {

/// The character of a decimal digit.
pub open spec fn digit(d: nat) -> char
    recommends
        d < 10,
{
    if d == 0 { '0' }
    else if d == 1 { '1' }
    else if d == 2 { '2' }
    else if d == 3 { '3' }
    else if d == 4 { '4' }
    else if d == 5 { '5' }
    else if d == 6 { '6' }
    else if d == 7 { '7' }
    else if d == 8 { '8' }
    else { '9' }
}

/// The decimal representation of `n`, without leading zeros.
pub open spec fn decimal(n: nat) -> Seq<char>
    decreases n,
{
    if n < 10 {
        seq![digit(n)]
    } else {
        decimal(n / 10).push(digit(n % 10))
    }
}

fn digit_text(d: usize) -> (r: &'static str)
    requires
        d < 10,
    ensures
        r@ == seq![digit(d as nat)],
{
    if d == 0 {
        proof { reveal_strlit("0"); }
        "0"
    } else if d == 1 {
        proof { reveal_strlit("1"); }
        "1"
    } else if d == 2 {
        proof { reveal_strlit("2"); }
        "2"
    } else if d == 3 {
        proof { reveal_strlit("3"); }
        "3"
    } else if d == 4 {
        proof { reveal_strlit("4"); }
        "4"
    } else if d == 5 {
        proof { reveal_strlit("5"); }
        "5"
    } else if d == 6 {
        proof { reveal_strlit("6"); }
        "6"
    } else if d == 7 {
        proof { reveal_strlit("7"); }
        "7"
    } else if d == 8 {
        proof { reveal_strlit("8"); }
        "8"
    } else {
        proof { reveal_strlit("9"); }
        "9"
    }
}

/// Appends the decimal representation of `n` to `out`.
pub fn push_decimal(out: &mut String, n: usize)
    ensures
        final(out)@ == old(out)@ + decimal(n as nat),
    decreases n,
{
    if n < 10 {
        out.append(digit_text(n));
    } else {
        push_decimal(out, n / 10);
        out.append(digit_text(n % 10));
        assert(decimal(n as nat) == decimal((n / 10) as nat).push(digit((n % 10) as nat)));
    }
}

/// One character as it stands in a LIKE pattern that must match it
/// literally: the escape character and both wildcards get a backslash.
pub open spec fn escaped(c: char) -> Seq<char> {
    if c == '\\' || c == '%' || c == '_' {
        seq!['\\', c]
    } else {
        seq![c]
    }
}

/// `s` with every backslash, percent sign and underscore escaped.
pub open spec fn escape_like(s: Seq<char>) -> Seq<char>
    decreases s.len(),
{
    if s.len() == 0 {
        Seq::empty()
    } else {
        escaped(s[0]) + escape_like(s.subrange(1, s.len() as int))
    }
}

/// Escaping works character by character: it distributes over concatenation.
proof fn lemma_escape_concat(a: Seq<char>, b: Seq<char>)
    ensures
        escape_like(a + b) == escape_like(a) + escape_like(b),
    decreases a.len(),
{
    if a.len() == 0 {
        assert(a + b =~= b);
    } else {
        let ab = a + b;
        assert(ab[0] == a[0]);
        assert(ab.subrange(1, ab.len() as int) =~= a.subrange(1, a.len() as int) + b);
        lemma_escape_concat(a.subrange(1, a.len() as int), b);
        assert(escape_like(ab) =~= escaped(a[0]) + (escape_like(a.subrange(1, a.len() as int)) + escape_like(b)));
    }
}

/// Reads a pattern made by `escape_like` back: a backslash stands for the
/// character after it.
pub open spec fn unescape_like(p: Seq<char>) -> Seq<char>
    decreases p.len(),
{
    if p.len() == 0 {
        Seq::empty()
    } else if p[0] == '\\' && p.len() >= 2 {
        seq![p[1]] + unescape_like(p.subrange(2, p.len() as int))
    } else {
        seq![p[0]] + unescape_like(p.subrange(1, p.len() as int))
    }
}

/// The LIKE pattern of a prefix search: the escaped search text followed by
/// the `%` wildcard.
pub open spec fn prefix_pattern(search: Seq<char>) -> Seq<char> {
    escape_like(search).push('%')
}

/// A LIKE pattern matching every text that begins with `value`, user
/// wildcards taken literally (the statements declare `ESCAPE '\'`).
pub fn prefix(value: &str) -> (r: String)
    ensures
        r@ == prefix_pattern(value@),
{
    let n = value.unicode_len();
    let mut out = String::new();
    let mut i: usize = 0;
    while i < n
        invariant
            n == value@.len(),
            0 <= i <= n,
            out@ == escape_like(value@.subrange(0, i as int)),
        decreases n - i,
    {
        let c = value.get_char(i);
        proof {
            reveal_strlit("\\");
        }
        if c == '\\' || c == '%' || c == '_' {
            out.append("\\");
        }
        out.append(value.substring_char(i, i + 1));
        proof {
            let head = value@.subrange(0, i as int);
            assert(value@.subrange(i as int, i as int + 1) =~= seq![c]);
            assert(value@.subrange(0, i as int + 1) =~= head + seq![c]);
            lemma_escape_concat(head, seq![c]);
            assert(escape_like(seq![c]) =~= escaped(c) + escape_like(seq![c].subrange(1, 1)));
            assert(escape_like(seq![c].subrange(1, 1)) =~= Seq::<char>::empty());
            assert(out@ =~= escape_like(head) + escaped(c));
        }
        i += 1;
    }
    assert(value@.subrange(0, n as int) =~= value@);
    proof { reveal_strlit("%"); }
    out.append("%");
    assert(out@ =~= escape_like(value@).push('%'));
    out
}

/// Escaping loses nothing: reading an escaped text back gives the text, so
/// two different searches never share a pattern.
pub proof fn law_escape_round_trip(s: Seq<char>)
    ensures
        unescape_like(escape_like(s)) == s,
    decreases s.len(),
{
    if s.len() > 0 {
        let rest = s.subrange(1, s.len() as int);
        law_escape_round_trip(rest);
        let e = escape_like(s);
        let er = escape_like(rest);
        assert(e == escaped(s[0]) + er);
        if s[0] == '\\' || s[0] == '%' || s[0] == '_' {
            assert(e[0] == '\\');
            assert(e[1] == s[0]);
            assert(e.subrange(2, e.len() as int) =~= er);
        } else {
            assert(e[0] == s[0]);
            assert(e.subrange(1, e.len() as int) =~= er);
        }
        assert(unescape_like(e) =~= s);
    }
}

/// Whether two texts are equal, character by character.
pub fn same_text(a: &str, b: &str) -> (r: bool)
    ensures
        r == (a@ == b@),
{
    let n = a.unicode_len();
    if n != b.unicode_len() {
        return false;
    }
    let mut i: usize = 0;
    while i < n
        invariant
            n == a@.len(),
            n == b@.len(),
            0 <= i <= n,
            forall|j: int| 0 <= j < i ==> a@[j] == b@[j],
        decreases n - i,
    {
        if a.get_char(i) != b.get_char(i) {
            return false;
        }
        i += 1;
    }
    assert(a@ =~= b@);
    true
}

} // verus!
