use vstd::prelude::*;
use vstd::std_specs::iter::IteratorSpec;
use vstd::string::StringExecFns;

verus! {

/// Whether `c` has the Unicode `White_Space` property, the set that
/// `char::is_whitespace` and the regex class `\s` stand for.
pub open spec fn is_white_space(c: char) -> bool {
    let u = c as u32;
    (0x09 <= u <= 0x0d) || u == 0x20 || u == 0x85 || u == 0xa0 || u == 0x1680 || (0x2000 <= u
        <= 0x200a) || u == 0x2028 || u == 0x2029 || u == 0x202f || u == 0x205f || u == 0x3000
}

/// Whether `c` has the Unicode `White_Space` property.
pub fn is_whitespace_char(c: char) -> (r: bool)
    ensures
        r == is_white_space(c),
{
    let u = c as u32;
    (0x09 <= u && u <= 0x0d) || u == 0x20 || u == 0x85 || u == 0xa0 || u == 0x1680 || (0x2000
        <= u && u <= 0x200a) || u == 0x2028 || u == 0x2029 || u == 0x202f || u == 0x205f || u
        == 0x3000
}

/// The characters of a string slice, in order.
pub fn chars_of(s: &str) -> (v: Vec<char>)
    ensures
        v@ == s@,
{
    broadcast use vstd::string::group_string_axioms;
    broadcast use vstd::string::next_postcondition;
    let mut v: Vec<char> = Vec::new();
    let mut it = s.chars();
    assert(it.remaining() == s@);
    loop
        invariant
            v@ + it.remaining() == s@,
            it.obeys_prophetic_iter_laws(),
            it.decrease() is Some,
        ensures
            v@ == s@,
        decreases it.decrease()->0,
    {
        match it.next() {
            Some(c) => {
                let ghost before = v@;
                v.push(c);
                assert(v@ + it.remaining() =~= before + seq![c] + it.remaining());
            },
            None => {
                assert(v@ =~= s@);
                break;
            },
        }
    }
    v
}

/// The string made of the given characters.
pub fn string_from_chars(v: &Vec<char>) -> (s: String)
    ensures
        s@ == v@,
{
    let mut s = String::new();
    let mut i: usize = 0;
    while i < v.len()
        invariant
            i <= v@.len(),
            s@ == v@.take(i as int),
        decreases v@.len() - i,
    {
        push_char(&mut s, v[i]);
        assert(s@ =~= v@.take(i + 1));
        i = i + 1;
    }
    assert(v@.take(i as int) =~= v@);
    s
}

/// Appends `t` to `s`.
pub fn push_str(s: &mut String, t: &str)
    ensures
        final(s)@ == old(s)@ + t@,
{
    s.append(t);
}

/// Appends the character `c` to `s` (`String::push`).
#[verifier::external_body]
pub(crate) fn push_char(s: &mut String, c: char)
    ensures
        final(s)@ == old(s)@.push(c),
{
    s.push(c)
}

/// Whether two string slices hold the same characters.
pub fn str_eq(a: &str, b: &str) -> (r: bool)
    ensures
        r == (a@ == b@),
{
    let x = chars_of(a);
    let y = chars_of(b);
    if x.len() != y.len() {
        return false;
    }
    let mut i: usize = 0;
    while i < x.len()
        invariant
            x@ == a@,
            y@ == b@,
            x@.len() == y@.len(),
            i <= x@.len(),
            forall|j: int| 0 <= j < i ==> x@[j] == y@[j],
        decreases x@.len() - i,
    {
        if x[i] != y[i] {
            return false;
        }
        i = i + 1;
    }
    assert(x@ =~= y@);
    true
}

/// The concatenation of two strings.
pub fn concat(a: &str, b: &str) -> (r: String)
    ensures
        r@ == a@ + b@,
{
    let mut r = a.to_owned();
    push_str(&mut r, b);
    r
}

/// The decimal digits of a natural number, most significant first.
pub open spec fn decimal_nat(n: nat) -> Seq<char>
    decreases n,
{
    if n < 10 {
        seq![digit_char(n)]
    } else {
        decimal_nat(n / 10).push(digit_char(n % 10))
    }
}

/// The ASCII digit for `d`, for `d` below ten.
pub open spec fn digit_char(d: nat) -> char {
    ((d + 48) as u8) as char
}

/// The decimal rendering of an integer, with a leading `-` when it is negative,
/// as `format!("{}", n)` writes it.
pub open spec fn decimal(n: int) -> Seq<char> {
    if n < 0 {
        seq!['-'] + decimal_nat((-n) as nat)
    } else {
        decimal_nat(n as nat)
    }
}

fn nat_to_chars(n: u64) -> (v: Vec<char>)
    ensures
        v@ == decimal_nat(n as nat),
    decreases n,
{
    let d = (n % 10) as u8;
    let c = (d + 48) as char;
    if n < 10 {
        let mut v = Vec::new();
        v.push(c);
        v
    } else {
        let mut v = nat_to_chars(n / 10);
        v.push(c);
        v
    }
}

/// The decimal rendering of `n`.
pub fn i64_to_string(n: i64) -> (s: String)
    ensures
        s@ == decimal(n as int),
{
    if n < 0 {
        let m: u64 = if n == i64::MIN {
            9223372036854775808u64
        } else {
            (-n) as u64
        };
        let mut v = Vec::new();
        v.push('-');
        let mut d = nat_to_chars(m);
        v.append(&mut d);
        string_from_chars(&v)
    } else {
        let v = nat_to_chars(n as u64);
        string_from_chars(&v)
    }
}

/// The decimal rendering of `n`.
pub fn u64_to_string(n: u64) -> (s: String)
    ensures
        s@ == decimal(n as int),
{
    let v = nat_to_chars(n);
    string_from_chars(&v)
}


/// `s` with each occurrence of `from`, found from left to right without
/// overlap, replaced by `to`, as `str::replace` does for a non-empty `from`.
pub open spec fn replace_spec(s: Seq<char>, from: Seq<char>, to: Seq<char>) -> Seq<char>
    decreases s.len(),
{
    if s.len() == 0 {
        Seq::empty()
    } else if 0 < from.len() <= s.len() && s.take(from.len() as int) == from {
        to + replace_spec(s.skip(from.len() as int), from, to)
    } else {
        seq![s[0]] + replace_spec(s.skip(1), from, to)
    }
}

fn matches_at(v: &Vec<char>, i: usize, w: &Vec<char>) -> (r: bool)
    requires
        i <= v.len(),
    ensures
        r == (w.len() <= v.len() - i && v@.skip(i as int).take(w.len() as int) == w@),
{
    if w.len() > v.len() - i {
        return false;
    }
    let mut j: usize = 0;
    while j < w.len()
        invariant
            w.len() <= v.len() - i,
            j <= w.len(),
            forall|k: int| 0 <= k < j ==> v@[i + k] == w@[k],
        decreases w.len() - j,
    {
        if v[i + j] != w[j] {
            assert(v@.skip(i as int).take(w.len() as int)[j as int] != w@[j as int]);
            return false;
        }
        j = j + 1;
    }
    assert(v@.skip(i as int).take(w.len() as int) =~= w@);
    true
}

/// `s` with each occurrence of `from` replaced by `to` (`str::replace`).
pub fn replace(s: &str, from: &str, to: &str) -> (r: String)
    requires
        from@.len() > 0,
    ensures
        r@ == replace_spec(s@, from@, to@),
{
    let v = chars_of(s);
    let w = chars_of(from);
    let mut out = String::new();
    let mut i: usize = 0;
    assert(s@.skip(0) =~= s@);
    assert(out@ + replace_spec(s@, from@, to@) =~= replace_spec(s@, from@, to@));
    while i < v.len()
        invariant
            v@ == s@,
            w@ == from@,
            w@.len() > 0,
            i <= v.len(),
            replace_spec(s@, from@, to@) == out@ + replace_spec(s@.skip(i as int), from@, to@),
        decreases v.len() - i,
    {
        let ghost rest = s@.skip(i as int);
        let ghost out0 = out@;
        if matches_at(&v, i, &w) {
            let ghost tail = replace_spec(s@.skip(i + w.len()), from@, to@);
            assert(rest.skip(w.len() as int) =~= s@.skip(i + w.len()));
            assert(replace_spec(rest, from@, to@) == to@ + tail);
            push_str(&mut out, to);
            assert(out0 + (to@ + tail) =~= out@ + tail);
            i = i + w.len();
        } else {
            let ghost tail = replace_spec(s@.skip(i + 1), from@, to@);
            assert(rest.skip(1) =~= s@.skip(i + 1));
            assert(rest[0] == v@[i as int]);
            assert(replace_spec(rest, from@, to@) == seq![v@[i as int]] + tail);
            push_char(&mut out, v[i]);
            assert(out0 + (seq![v@[i as int]] + tail) =~= out@ + tail);
            i = i + 1;
        }
    }
    assert(s@.skip(i as int) =~= Seq::<char>::empty());
    out
}
} // verus!
