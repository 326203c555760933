//! Characters, decimal numerals and dash-separated fields.
use vstd::prelude::*;
use vstd::string::{StrSliceExecFns, StringExecFns};

verus! {

broadcast use vstd::string::group_string_axioms;

/// Whether `c` is one of the ASCII digits `0` to `9`.
pub open spec fn is_digit(c: char) -> bool {
    '0' <= c <= '9'
}

/// The value of an ASCII digit (0 for any other character).
pub open spec fn digit_value(c: char) -> int {
    if is_digit(c) {
        c as int - '0' as int
    } else {
        0
    }
}

/// The ASCII digit with value `d` (0 to 9).
pub open spec fn digit_char(d: int) -> char {
    (d + '0' as int) as char
}

/// Whether `s` is a non-empty run of ASCII digits.
pub open spec fn is_numeral(s: Seq<char>) -> bool {
    s.len() > 0 && forall|i: int| 0 <= i < s.len() ==> is_digit(#[trigger] s[i])
}

/// The value of the decimal numeral `s`, leading zeros allowed.
pub open spec fn numeral_value(s: Seq<char>) -> int
    decreases s.len(),
{
    if s.len() == 0 {
        0
    } else {
        numeral_value(s.drop_last()) * 10 + digit_value(s.last())
    }
}

/// The decimal numeral of `n`, without leading zeros.
pub open spec fn decimal_text(n: nat) -> Seq<char>
    decreases n,
{
    if n < 10 {
        seq![digit_char(n as int)]
    } else {
        decimal_text(n / 10).push(digit_char((n % 10) as int))
    }
}

/// The decimal numeral of `n` padded with a leading zero to at least two digits.
pub open spec fn two_digit_text(n: nat) -> Seq<char> {
    if n < 10 {
        seq!['0', digit_char(n as int)]
    } else {
        decimal_text(n)
    }
}

/// `v`, or `cap` where `v` exceeds it.
pub open spec fn capped(v: int, cap: int) -> int {
    if v < cap {
        v
    } else {
        cap
    }
}

/// Whether `s` holds no dash.
pub open spec fn dash_free(s: Seq<char>) -> bool {
    forall|i: int| 0 <= i < s.len() ==> #[trigger] s[i] != '-'
}

/// The fields of `s` between its dashes, in order: one more field than
/// `s` has dashes, empty fields included.
pub open spec fn dash_fields(s: Seq<char>) -> Seq<Seq<char>>
    decreases s.len(),
{
    if s.len() == 0 {
        seq![Seq::<char>::empty()]
    } else {
        let fields = dash_fields(s.drop_last());
        if s.last() == '-' {
            fields.push(Seq::<char>::empty())
        } else {
            fields.update(fields.len() - 1, fields.last().push(s.last()))
        }
    }
}

/// The characters of `s`, in order.
pub fn chars_of(s: &str) -> (v: Vec<char>)
    ensures
        v@ == s@,
{
    let n = s.unicode_len();
    let mut v: Vec<char> = Vec::new();
    let mut i: usize = 0;
    while i < n
        invariant
            n == s@.len(),
            i <= n,
            v@ == s@.take(i as int),
        decreases n - i,
    {
        let c = s.get_char(i);
        v.push(c);
        i = i + 1;
        assert(v@ =~= s@.take(i as int));
    }
    assert(s@.take(n as int) =~= s@);
    v
}

proof fn lemma_dash_fields_nonempty(s: Seq<char>)
    ensures
        dash_fields(s).len() >= 1,
    decreases s.len(),
{
    if s.len() > 0 {
        lemma_dash_fields_nonempty(s.drop_last());
    }
}

/// A text without dashes is a single field.
pub proof fn lemma_dash_free_single_field(s: Seq<char>)
    requires
        dash_free(s),
    ensures
        dash_fields(s) == seq![s],
    decreases s.len(),
{
    if s.len() > 0 {
        lemma_dash_free_single_field(s.drop_last());
        assert(s.drop_last().push(s.last()) =~= s);
        assert(dash_fields(s) =~= seq![s]);
    } else {
        assert(s =~= Seq::<char>::empty());
    }
}

/// Joining two texts with a dash joins their field lists.
pub proof fn lemma_dash_fields_join(a: Seq<char>, b: Seq<char>)
    ensures
        dash_fields(a + seq!['-'] + b) == dash_fields(a) + dash_fields(b),
    decreases b.len(),
{
    let x = a + seq!['-'] + b;
    if b.len() == 0 {
        assert(x.drop_last() =~= a);
        assert(dash_fields(x) =~= dash_fields(a) + dash_fields(b));
    } else {
        lemma_dash_fields_join(a, b.drop_last());
        lemma_dash_fields_nonempty(b.drop_last());
        assert(x.drop_last() =~= a + seq!['-'] + b.drop_last());
        assert(x.last() == b.last());
        assert(dash_fields(x) =~= dash_fields(a) + dash_fields(b));
    }
}

proof fn lemma_digit_char(d: int)
    requires
        0 <= d < 10,
    ensures
        is_digit(digit_char(d)),
        digit_value(digit_char(d)) == d,
        digit_char(d) != '-',
{
    assert(digit_char(d) as int == d + 48);
}

/// A decimal numeral is a dash-free run of digits whose value is the number.
pub proof fn lemma_decimal_text(n: nat)
    ensures
        is_numeral(decimal_text(n)),
        dash_free(decimal_text(n)),
        numeral_value(decimal_text(n)) == n,
    decreases n,
{
    if n >= 10 {
        lemma_decimal_text(n / 10);
        lemma_digit_char((n % 10) as int);
        let t = decimal_text(n);
        assert(t.drop_last() =~= decimal_text(n / 10));
        assert(t.last() == digit_char((n % 10) as int));
        assert(numeral_value(t) == numeral_value(decimal_text(n / 10)) * 10 + (n % 10));
    } else {
        lemma_digit_char(n as int);
        let t = decimal_text(n);
        assert(t.drop_last() =~= Seq::<char>::empty());
        assert(numeral_value(Seq::<char>::empty()) == 0);
        assert(numeral_value(t) == digit_value(t.last()));
    }
}

/// The padded numeral is a dash-free run of digits whose value is the number.
pub proof fn lemma_two_digit_text(n: nat)
    ensures
        is_numeral(two_digit_text(n)),
        dash_free(two_digit_text(n)),
        numeral_value(two_digit_text(n)) == n,
{
    if n < 10 {
        lemma_digit_char(n as int);
        lemma_digit_char(0);
        let t = two_digit_text(n);
        assert(t.drop_last() =~= seq!['0']);
        assert(seq!['0'].drop_last() =~= Seq::<char>::empty());
        assert(numeral_value(Seq::<char>::empty()) == 0);
        assert(numeral_value(seq!['0']) == 0);
        assert(numeral_value(t) == digit_value(t.last()));
    } else {
        lemma_decimal_text(n);
    }
}

/// The fields of `s` between its dashes.
pub fn split_dash_fields(s: &Vec<char>) -> (fields: Vec<Vec<char>>)
    ensures
        fields@.len() == dash_fields(s@).len(),
        forall|i: int| 0 <= i < fields@.len() ==> #[trigger] fields@[i]@ == dash_fields(s@)[i],
{
    let mut done: Vec<Vec<char>> = Vec::new();
    let mut current: Vec<char> = Vec::new();
    let mut i: usize = 0;
    assert(s@.take(0) =~= Seq::<char>::empty());
    while i < s.len()
        invariant
            i <= s@.len(),
            done@.len() + 1 == dash_fields(s@.take(i as int)).len(),
            forall|k: int| 0 <= k < done@.len() ==> #[trigger] done@[k]@ == dash_fields(
                s@.take(i as int),
            )[k],
            current@ == dash_fields(s@.take(i as int)).last(),
        decreases s@.len() - i,
    {
        let c = s[i];
        proof {
            assert(s@.take(i + 1).drop_last() =~= s@.take(i as int));
            assert(s@.take(i + 1).last() == c);
        }
        if c == '-' {
            done.push(current);
            current = Vec::new();
        } else {
            current.push(c);
        }
        i = i + 1;
    }
    assert(s@.take(s@.len() as int) =~= s@);
    done.push(current);
    done
}

/// The value of a digit string, capped at `cap`, if `s` is a numeral.
pub fn numeral_value_capped(s: &Vec<char>, cap: u32) -> (r: Option<u32>)
    requires
        cap <= 1_000_000,
    ensures
        r is Some <==> is_numeral(s@),
        r matches Some(v) ==> v == capped(numeral_value(s@), cap as int),
{
    if s.len() == 0 {
        return None;
    }
    let mut acc: u32 = 0;
    let mut i: usize = 0;
    assert(s@.take(0) =~= Seq::<char>::empty());
    while i < s.len()
        invariant
            i <= s@.len(),
            cap <= 1_000_000,
            acc <= cap,
            forall|k: int| 0 <= k < i ==> is_digit(#[trigger] s@[k]),
            acc == capped(numeral_value(s@.take(i as int)), cap as int),
        decreases s@.len() - i,
    {
        let c = s[i];
        if !('0' <= c && c <= '9') {
            return None;
        }
        let d = (c as u32) - ('0' as u32);
        proof {
            assert(s@.take(i + 1).drop_last() =~= s@.take(i as int));
            assert(s@.take(i + 1).last() == c);
        }
        if acc >= cap {
            acc = cap;
        } else {
            acc = acc * 10 + d;
            if acc > cap {
                acc = cap;
            }
        }
        i = i + 1;
    }
    assert(s@.take(s@.len() as int) =~= s@);
    Some(acc)
}

/// The string made of `chars`, in order. Calls `String::from_iter` over
/// the characters, which the standard library documents as appending each
/// character in turn.
#[verifier::external_body]
pub fn string_from_chars(chars: &Vec<char>) -> (s: String)
    ensures
        s@ == chars@,
{
    String::from_iter(chars.iter())
}

/// Whether the characters `f` spell the word `w`.
pub fn spells(f: &Vec<char>, w: &str) -> (b: bool)
    ensures
        b == (f@ == w@),
{
    let n = w.unicode_len();
    if f.len() != n {
        return false;
    }
    let mut i: usize = 0;
    while i < n
        invariant
            n == w@.len(),
            n == f@.len(),
            i <= n,
            forall|k: int| 0 <= k < i ==> f@[k] == w@[k],
        decreases n - i,
    {
        if f[i] != w.get_char(i) {
            return false;
        }
        i = i + 1;
    }
    assert(f@ =~= w@);
    true
}

/// The text of the digit `d`.
fn digit_str(d: u32) -> (t: &'static str)
    requires
        d < 10,
    ensures
        t@ == seq![digit_char(d as int)],
{
    proof {
        reveal_strlit("0");
        reveal_strlit("1");
        reveal_strlit("2");
        reveal_strlit("3");
        reveal_strlit("4");
        reveal_strlit("5");
        reveal_strlit("6");
        reveal_strlit("7");
        reveal_strlit("8");
        reveal_strlit("9");
    }
    let t = if d == 0 {
        "0"
    } else if d == 1 {
        "1"
    } else if d == 2 {
        "2"
    } else if d == 3 {
        "3"
    } else if d == 4 {
        "4"
    } else if d == 5 {
        "5"
    } else if d == 6 {
        "6"
    } else if d == 7 {
        "7"
    } else if d == 8 {
        "8"
    } else {
        "9"
    };
    assert(t@ =~= seq![digit_char(d as int)]);
    t
}

/// Appends the decimal numeral of `n` to `out`.
pub fn push_decimal(out: &mut String, n: u32)
    ensures
        final(out)@ == old(out)@ + decimal_text(n as nat),
    decreases n,
{
    if n >= 10 {
        push_decimal(out, n / 10);
    }
    out.append(digit_str(n % 10));
    proof {
        if n >= 10 {
            assert(decimal_text(n as nat) == decimal_text((n / 10) as nat).push(
                digit_char((n % 10) as int),
            ));
        }
    }
    assert(out@ =~= old(out)@ + decimal_text(n as nat));
}

/// Appends the numeral of `n` padded to two digits to `out`.
pub fn push_two_digits(out: &mut String, n: u32)
    ensures
        final(out)@ == old(out)@ + two_digit_text(n as nat),
{
    if n < 10 {
        out.append(digit_str(0));
        out.append(digit_str(n));
        assert(out@ =~= old(out)@ + two_digit_text(n as nat));
    } else {
        push_decimal(out, n);
    }
}

} // verus!
