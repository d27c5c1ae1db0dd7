//! The text of the state document: JSON strings and numbers as the state
//! store writes and reads them.
use vstd::prelude::*;
use vstd::string::*;

use crate::text::{decimal, digit};

verus! {

/// How a character stands inside a JSON string: quote, backslash, newline,
/// carriage return and tab escaped, every other character as it is.
pub open spec fn escape_char(c: char) -> Seq<char> {
    if c == '"' {
        seq!['\\', '"']
    } else if c == '\\' {
        seq!['\\', '\\']
    } else if c == '\n' {
        seq!['\\', 'n']
    } else if c == '\r' {
        seq!['\\', 'r']
    } else if c == '\t' {
        seq!['\\', 't']
    } else {
        seq![c]
    }
}

/// The body of the JSON string that holds `s`.
pub open spec fn escape(s: Seq<char>) -> Seq<char>
    decreases s.len(),
{
    if s.len() == 0 {
        Seq::empty()
    } else {
        escape_char(s[0]) + escape(s.drop_first())
    }
}

/// The character an escape `\c` stands for.
pub open spec fn unescape_char(c: char) -> Option<char> {
    if c == '"' {
        Some('"')
    } else if c == '\\' {
        Some('\\')
    } else if c == '/' {
        Some('/')
    } else if c == 'n' {
        Some('\n')
    } else if c == 'r' {
        Some('\r')
    } else if c == 't' {
        Some('\t')
    } else {
        None
    }
}

/// Reads the rest of a JSON string whose opening quote is consumed: the
/// characters it holds and what follows its closing quote.
pub open spec fn parse_str(t: Seq<char>) -> Option<(Seq<char>, Seq<char>)>
    decreases t.len(),
{
    if t.len() == 0 {
        None
    } else if t[0] == '"' {
        Some((Seq::empty(), t.drop_first()))
    } else if t[0] == '\\' {
        if t.len() < 2 {
            None
        } else {
            match unescape_char(t[1]) {
                Some(c) => match parse_str(t.subrange(2, t.len() as int)) {
                    Some((x, r)) => Some((seq![c] + x, r)),
                    None => None,
                },
                None => None,
            }
        }
    } else {
        match parse_str(t.drop_first()) {
            Some((x, r)) => Some((seq![t[0]] + x, r)),
            None => None,
        }
    }
}

proof fn lemma_escape_push(s: Seq<char>, c: char)
    ensures
        escape(s.push(c)) == escape(s) + escape_char(c),
    decreases s.len(),
{
    assert(s.push(c)[0] == if s.len() == 0 { c } else { s[0] });
    if s.len() == 0 {
        assert(s.push(c).drop_first() =~= Seq::<char>::empty());
        assert(escape(Seq::<char>::empty()) =~= Seq::<char>::empty());
        assert(escape(s.push(c)) =~= escape(s) + escape_char(c));
    } else {
        assert(s.push(c).drop_first() =~= s.drop_first().push(c));
        lemma_escape_push(s.drop_first(), c);
        assert(escape(s.push(c)) =~= escape(s) + escape_char(c));
    }
}

/// A JSON string is read back as written: after the escaped characters and
/// a closing quote, `parse_str` returns `s` and what follows.
pub proof fn lemma_parse_escaped(s: Seq<char>, rest: Seq<char>)
    ensures
        parse_str(escape(s) + seq!['"'] + rest) == Some((s, rest)),
    decreases s.len(),
{
    let t = escape(s) + seq!['"'] + rest;
    if s.len() == 0 {
        assert(t =~= seq!['"'] + rest);
        assert(t.drop_first() =~= rest);
    } else {
        let c = s[0];
        let tail = escape(s.drop_first()) + seq!['"'] + rest;
        lemma_parse_escaped(s.drop_first(), rest);
        assert(t =~= escape_char(c) + tail);
        assert(s =~= seq![c] + s.drop_first());
        if escape_char(c).len() == 2 {
            assert(t.subrange(2, t.len() as int) =~= tail);
        } else {
            assert(t.drop_first() =~= tail);
        }
    }
}

/// `s` as the body of a JSON string.
pub fn escape_str(s: &str) -> (r: String)
    ensures
        r@ == escape(s@),
{
    let n = s.unicode_len();
    let mut r = String::new();
    let mut i: usize = 0;
    assert(s@.subrange(0, 0) =~= Seq::<char>::empty());
    while i < n
        invariant
            n == s@.len(),
            i <= n,
            r@ == escape(s@.subrange(0, i as int)),
        decreases n - i,
    {
        let c = s.get_char(i);
        proof {
            reveal_strlit("\\");
            reveal_strlit("\"");
            reveal_strlit("n");
            reveal_strlit("r");
            reveal_strlit("t");
            lemma_escape_push(s@.subrange(0, i as int), c);
            assert(s@.subrange(0, i + 1) =~= s@.subrange(0, i as int).push(c));
        }
        if c == '"' || c == '\\' || c == '\n' || c == '\r' || c == '\t' {
            let second: &str = if c == '"' {
                "\""
            } else if c == '\\' {
                "\\"
            } else if c == '\n' {
                "n"
            } else if c == '\r' {
                "r"
            } else {
                "t"
            };
            assert(seq!['\\'] + second@ =~= escape_char(c));
            r.append("\\");
            r.append(second);
        } else {
            let one = s.substring_char(i, i + 1);
            assert(one@ =~= escape_char(c));
            r.append(one);
        }
        i = i + 1;
    }
    assert(s@.subrange(0, n as int) =~= s@);
    r
}

/// Whether `c` is a decimal digit.
pub open spec fn is_digit(c: char) -> bool {
    48 <= (c as u32) && (c as u32) <= 57
}

/// The value of a decimal digit.
pub open spec fn digit_value(c: char) -> nat {
    ((c as u32) - 48) as nat
}

/// The value of a string of decimal digits.
pub open spec fn digits_value(d: Seq<char>) -> nat
    decreases d.len(),
{
    if d.len() == 0 {
        0
    } else {
        digits_value(d.drop_last()) * 10 + digit_value(d.last())
    }
}

/// How many decimal digits `t` starts with.
pub open spec fn digit_run(t: Seq<char>) -> nat
    decreases t.len(),
{
    if t.len() > 0 && is_digit(t[0]) {
        1 + digit_run(t.drop_first())
    } else {
        0
    }
}

/// Reads the number `t` starts with: its value and what follows its digits;
/// nothing where `t` does not start with a digit.
pub open spec fn parse_num(t: Seq<char>) -> Option<(nat, Seq<char>)> {
    let k = digit_run(t);
    if k == 0 {
        None
    } else {
        Some((digits_value(t.subrange(0, k as int)), t.subrange(k as int, t.len() as int)))
    }
}

proof fn lemma_digit(d: nat)
    requires
        d < 10,
    ensures
        is_digit(digit(d)),
        digit_value(digit(d)) == d,
{
}

proof fn lemma_decimal_digits(n: nat)
    ensures
        digits_value(decimal(n)) == n,
        decimal(n).len() > 0,
        forall|i: int| 0 <= i < decimal(n).len() ==> is_digit(#[trigger] decimal(n)[i]),
    decreases n,
{
    lemma_digit(n % 10);
    if n < 10 {
        assert(decimal(n).drop_last() =~= Seq::<char>::empty());
        assert(digits_value(Seq::<char>::empty()) == 0);
        assert(decimal(n).last() == digit(n));
        assert(digits_value(decimal(n)) == digits_value(decimal(n).drop_last()) * 10
            + digit_value(decimal(n).last()));
    } else {
        lemma_decimal_digits(n / 10);
        assert(n == (n / 10) * 10 + n % 10);
        assert(decimal(n).last() == digit(n % 10));
        assert(digits_value(decimal(n)) == digits_value(decimal(n).drop_last()) * 10
            + digit_value(decimal(n).last()));
        assert(decimal(n).drop_last() =~= decimal(n / 10));
        assert forall|i: int| 0 <= i < decimal(n).len() implies is_digit(
            #[trigger] decimal(n)[i],
        ) by {
            if i < decimal(n).len() - 1 {
                assert(decimal(n)[i] == decimal(n / 10)[i]);
            }
        }
    }
}

proof fn lemma_digit_run(d: Seq<char>, rest: Seq<char>)
    requires
        forall|i: int| 0 <= i < d.len() ==> is_digit(#[trigger] d[i]),
        !(rest.len() > 0 && is_digit(rest[0])),
    ensures
        digit_run(d + rest) == d.len(),
    decreases d.len(),
{
    if d.len() == 0 {
        assert(d + rest =~= rest);
    } else {
        assert((d + rest).drop_first() =~= d.drop_first() + rest);
        assert((d + rest)[0] == d[0]);
        lemma_digit_run(d.drop_first(), rest);
    }
}

/// A number is read back as written: after the decimal digits of `n`, and
/// before anything but a digit, `parse_num` returns `n` and what follows.
pub proof fn lemma_parse_decimal(n: nat, rest: Seq<char>)
    requires
        !(rest.len() > 0 && is_digit(rest[0])),
    ensures
        parse_num(decimal(n) + rest) == Some((n, rest)),
{
    lemma_decimal_digits(n);
    lemma_digit_run(decimal(n), rest);
    let t = decimal(n) + rest;
    assert(t.subrange(0, decimal(n).len() as int) =~= decimal(n));
    assert(t.subrange(decimal(n).len() as int, t.len() as int) =~= rest);
}

/// Reads the number that starts at character `i` of `t`, where it fits in
/// a `u64`: its value and where its digits end.
pub fn parse_u64_at(t: &str, i: usize) -> (r: Option<(u64, usize)>)
    requires
        i <= t@.len(),
    ensures
        r is Some <==> (parse_num(t@.subrange(i as int, t@.len() as int)) matches Some((v, _))
            && v <= u64::MAX),
        r matches Some((v, j)) ==> i < j <= t@.len() && parse_num(
            t@.subrange(i as int, t@.len() as int),
        ) == Some((v as nat, t@.subrange(j as int, t@.len() as int))),
{
    let n = t.unicode_len();
    let ghost ti = t@.subrange(i as int, n as int);
    let mut j: usize = i;
    let mut v: u64 = 0;
    let mut overflow = false;
    assert(t@.subrange(i as int, i as int) =~= Seq::<char>::empty());
    while j < n && 48 <= (t.get_char(j) as u32) && (t.get_char(j) as u32) <= 57
        invariant
            n == t@.len(),
            i <= j <= n,
            ti == t@.subrange(i as int, n as int),
            digit_run(ti) == (j - i) + digit_run(t@.subrange(j as int, n as int)),
            overflow ==> digits_value(t@.subrange(i as int, j as int)) > u64::MAX,
            !overflow ==> v == digits_value(t@.subrange(i as int, j as int)),
        decreases n - j,
    {
        let c = t.get_char(j);
        let d = (c as u32 - 48) as u64;
        let ghost tj = t@.subrange(j as int, n as int);
        assert(tj.drop_first() =~= t@.subrange(j + 1, n as int));
        assert(tj[0] == c);
        let ghost pre = t@.subrange(i as int, j as int);
        assert(t@.subrange(i as int, j + 1).drop_last() =~= pre);
        assert(t@.subrange(i as int, j + 1).last() == c);
        if !overflow {
            if v > (u64::MAX - d) / 10 {
                overflow = true;
                assert(v * 10 + d > u64::MAX) by (nonlinear_arith)
                    requires
                        v > (u64::MAX - d) / 10,
                        d <= 9,
                ;
            } else {
                assert(v * 10 + d <= u64::MAX) by (nonlinear_arith)
                    requires
                        v <= (u64::MAX - d) / 10,
                        d <= 9,
                ;
                v = v * 10 + d;
            }
        } else {
            assert(digits_value(pre) * 10 + d >= digits_value(pre)) by (nonlinear_arith);
        }
        j = j + 1;
    }
    let ghost tj = t@.subrange(j as int, n as int);
    assert(digit_run(tj) == 0);
    assert(ti.subrange(0, (j - i) as int) =~= t@.subrange(i as int, j as int));
    assert(ti.subrange((j - i) as int, ti.len() as int) =~= tj);
    if j == i || overflow {
        None
    } else {
        Some((v, j))
    }
}

/// `a` before the characters of a string that was read, if one was.
pub open spec fn prepend(a: Seq<char>, o: Option<(Seq<char>, Seq<char>)>) -> Option<(Seq<char>, Seq<char>)> {
    match o {
        Some((x, r)) => Some((a + x, r)),
        None => None,
    }
}

proof fn lemma_prepend(a: Seq<char>, c: char, o: Option<(Seq<char>, Seq<char>)>)
    ensures
        prepend(a, prepend(seq![c], o)) == prepend(a.push(c), o),
{
    if let Some((x, r)) = o {
        assert(a + (seq![c] + x) =~= a.push(c) + x);
    }
}

/// Reads the JSON string whose opening quote ends just before character `i`
/// of `t`: its characters and the position after its closing quote.
pub fn parse_str_at(t: &str, i: usize) -> (r: Option<(String, usize)>)
    requires
        i <= t@.len(),
    ensures
        r is Some <==> parse_str(t@.subrange(i as int, t@.len() as int)) is Some,
        r matches Some((x, j)) ==> i < j <= t@.len() && parse_str(
            t@.subrange(i as int, t@.len() as int),
        ) == Some((x@, t@.subrange(j as int, t@.len() as int))),
{
    let n = t.unicode_len();
    let ghost ti = t@.subrange(i as int, n as int);
    let mut acc = String::new();
    let mut j: usize = i;
    assert(prepend(Seq::<char>::empty(), parse_str(ti)) == parse_str(ti)) by {
        if let Some((x, r)) = parse_str(ti) {
            assert(Seq::<char>::empty() + x =~= x);
        }
    }
    while j < n
        invariant
            n == t@.len(),
            i <= j <= n,
            ti == t@.subrange(i as int, n as int),
            parse_str(ti) == prepend(acc@, parse_str(t@.subrange(j as int, n as int))),
        decreases n - j,
    {
        proof {
            reveal_strlit("\"");
            reveal_strlit("\\");
            reveal_strlit("/");
            reveal_strlit("\n");
            reveal_strlit("\r");
            reveal_strlit("\t");
        }
        let ghost tj = t@.subrange(j as int, n as int);
        let c = t.get_char(j);
        assert(tj[0] == c);
        if c == '"' {
            assert(tj.drop_first() =~= t@.subrange(j + 1, n as int));
            assert(acc@ + Seq::<char>::empty() =~= acc@);
            return Some((acc, j + 1));
        } else if c == '\\' {
            if j + 1 >= n {
                return None;
            }
            let e = t.get_char(j + 1);
            assert(tj[1] == e);
            let piece: &str = if e == '"' {
                "\""
            } else if e == '\\' {
                "\\"
            } else if e == '/' {
                "/"
            } else if e == 'n' {
                "\n"
            } else if e == 'r' {
                "\r"
            } else if e == 't' {
                "\t"
            } else {
                return None;
            };
            let ghost ch = unescape_char(e)->Some_0;
            assert(piece@ =~= seq![ch]);
            assert(tj.subrange(2, tj.len() as int) =~= t@.subrange(j + 2, n as int));
            proof {
                lemma_prepend(acc@, ch, parse_str(t@.subrange(j + 2, n as int)));
            }
            acc.append(piece);
            j = j + 2;
        } else {
            let one = t.substring_char(j, j + 1);
            assert(one@ =~= seq![c]);
            assert(tj.drop_first() =~= t@.subrange(j + 1, n as int));
            proof {
                lemma_prepend(acc@, c, parse_str(t@.subrange(j + 1, n as int)));
            }
            acc.append(one);
            j = j + 1;
        }
    }
    None
}

} // verus!
