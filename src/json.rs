use vstd::prelude::*;

verus! {

/// A JSON document as plain values.
///
/// Numbers keep the text that a JSON printer gives them, so that integers of any size and
/// fractions survive untouched until a reader asks for a particular integer type.
#[derive(Debug)]
pub enum Json {
    Null,
    Bool(bool),
    Number(String),
    Str(String),
    Array(Vec<Json>),
    Object(Vec<Member>),
}

/// One member of a JSON object: its key and its value.
#[derive(Debug)]
pub struct Member {
    pub key: String,
    pub value: Json,
}

/// The document that serde_json reads from a text, or `None` where the text is not JSON.
pub uninterp spec fn parsed_json(s: Seq<char>) -> Option<Json>;

/// The compact text that serde_json prints for a document.
pub uninterp spec fn json_text(j: Json) -> Seq<char>;

/// The indented text that serde_json prints for the document read from a text, or `None`
/// where serde_json cannot read the text.
pub uninterp spec fn pretty_json_text(s: Seq<char>) -> Option<Seq<char>>;

#[verifier::external_type_specification]
#[verifier::external_body]
pub struct ExValue(serde_json::Value);

/// Relies on the variants of serde_json::Value: each is moved into the matching variant of
/// `Json`, a number as the text that serde_json prints for it.
#[verifier::external_body]
fn json_from_value(v: &serde_json::Value) -> Json {
    match v {
        serde_json::Value::Null => Json::Null,
        serde_json::Value::Bool(b) => Json::Bool(*b),
        serde_json::Value::Number(n) => Json::Number(n.to_string()),
        serde_json::Value::String(s) => Json::Str(s.clone()),
        serde_json::Value::Array(a) => Json::Array(a.iter().map(json_from_value).collect()),
        serde_json::Value::Object(m) => Json::Object(
            m.iter().map(|(k, x)| Member { key: k.clone(), value: json_from_value(x) }).collect(),
        ),
    }
}

/// Relies on the variants of serde_json::Value: each variant of `Json` is moved into the
/// matching one, a number read back by serde_json's `Number::from_str`.
#[verifier::external_body]
fn value_from_json(j: &Json) -> serde_json::Value {
    match j {
        Json::Null => serde_json::Value::Null,
        Json::Bool(b) => serde_json::Value::Bool(*b),
        Json::Number(n) => n.parse().map_or(serde_json::Value::Null, serde_json::Value::Number),
        Json::Str(s) => serde_json::Value::String(s.clone()),
        Json::Array(a) => serde_json::Value::Array(a.iter().map(value_from_json).collect()),
        Json::Object(m) => serde_json::Value::Object(
            m.iter().map(|x| (x.key.clone(), value_from_json(&x.value))).collect(),
        ),
    }
}

/// Relies on serde_json::from_str into a `serde_json::Value`: the document depends on the
/// text alone.
#[verifier::external_body]
pub fn parse_json(text: &str) -> (r: Option<Json>)
    ensures
        r == parsed_json(text@),
{
    serde_json::from_str::<serde_json::Value>(text).ok().map(|v| json_from_value(&v))
}

/// Relies on serde_json::to_string of a `serde_json::Value`: the text depends on the
/// document alone.
#[verifier::external_body]
pub fn to_json_text(j: &Json) -> (r: String)
    ensures
        r@ == json_text(*j),
{
    serde_json::to_string(&value_from_json(j)).unwrap_or_default()
}

/// Relies on serde_json::to_string_pretty of the `serde_json::Value` read from the text:
/// `None` exactly where serde_json cannot read the text.
#[verifier::external_body]
pub fn pretty_json(text: &str) -> (r: Option<String>)
    ensures
        r is Some <==> parsed_json(text@) is Some,
        r is Some <==> pretty_json_text(text@) is Some,
        r is Some ==> pretty_json_text(text@) == Some(r->0@),
{
    serde_json::from_str::<serde_json::Value>(text).ok().map(
        |v| serde_json::to_string_pretty(&v).unwrap_or_default(),
    )
}

/// The value of the first member of an object that has the given key.
pub open spec fn member(fields: Seq<Member>, key: Seq<char>) -> Option<Json>
    decreases fields.len(),
{
    if fields.len() == 0 {
        None
    } else if fields[0].key@ == key {
        Some(fields[0].value)
    } else {
        member(fields.drop_first(), key)
    }
}

/// Looks a key up among an object's members; the first match wins.
pub fn get_member<'a>(fields: &'a Vec<Member>, key: &str) -> (r: Option<&'a Json>)
    ensures
        r is Some <==> member(fields@, key@) is Some,
        r is Some ==> member(fields@, key@) == Some(*r->0),
{
    let mut i: usize = 0;
    assert(fields@.subrange(0, fields@.len() as int) =~= fields@);
    while i < fields.len()
        invariant
            0 <= i <= fields@.len(),
            member(fields@, key@) == member(fields@.subrange(i as int, fields@.len() as int), key@),
        decreases fields.len() - i,
    {
        let ghost rest = fields@.subrange(i as int, fields@.len() as int);
        assert(rest.drop_first() =~= fields@.subrange(i + 1, fields@.len() as int));
        if str_eq(fields[i].key.as_str(), key) {
            return Some(&fields[i].value);
        }
        i = i + 1;
    }
    None
}

/// Whether two strings hold the same characters.
pub fn str_eq(a: &str, b: &str) -> (r: bool)
    ensures
        r == (a@ == b@),
{
    let n = a.unicode_len();
    if n != b.unicode_len() {
        return false;
    }
    let mut i: usize = 0;
    while i < n
        invariant
            n == a@.len() == b@.len(),
            0 <= i <= n,
            forall|k: int| 0 <= k < i ==> a@[k] == b@[k],
        decreases n - i,
    {
        if a.get_char(i) != b.get_char(i) {
            return false;
        }
        i = i + 1;
    }
    assert(a@ =~= b@);
    true
}

pub open spec fn is_digit(c: char) -> bool {
    '0' <= c && c <= '9'
}

pub open spec fn all_digits(s: Seq<char>) -> bool {
    s.len() > 0 && forall|i: int| 0 <= i < s.len() ==> is_digit(#[trigger] s[i])
}

/// The number that a run of decimal digits writes.
pub open spec fn digits_value(s: Seq<char>) -> int
    decreases s.len(),
{
    if s.len() == 0 {
        0
    } else {
        digits_value(s.drop_last()) * 10 + (s.last() as int - '0' as int)
    }
}

/// The integer that a JSON number writes, where it writes one: an optional minus sign
/// followed by decimal digits.
pub open spec fn integer_value(s: Seq<char>) -> Option<int> {
    if s.len() > 0 && s[0] == '-' {
        if all_digits(s.drop_first()) {
            Some(-digits_value(s.drop_first()))
        } else {
            None
        }
    } else if all_digits(s) {
        Some(digits_value(s))
    } else {
        None
    }
}

/// The integer that a JSON number writes, where it writes one in the range `lo..=hi`.
pub open spec fn integer_in(s: Seq<char>, lo: int, hi: int) -> Option<int> {
    match integer_value(s) {
        Some(v) => if lo <= v <= hi {
            Some(v)
        } else {
            None
        },
        None => None,
    }
}

/// A ceiling above every `i64` magnitude, at which a running value stops growing.
pub const DIGITS_CAP: i128 = 9223372036854775809;

/// Reads the digits of `s` from position `start` on, with the value capped at
/// `DIGITS_CAP`; `None` where a character is no digit or there is none.
fn capped_digits(s: &str, start: usize) -> (r: Option<i128>)
    requires
        start <= s@.len(),
    ensures
        r is Some <==> all_digits(s@.subrange(start as int, s@.len() as int)),
        r is Some ==> 0 <= r->0 <= DIGITS_CAP,
        r is Some ==> r->0 as int == if digits_value(s@.subrange(start as int, s@.len() as int))
            < DIGITS_CAP {
            digits_value(s@.subrange(start as int, s@.len() as int))
        } else {
            DIGITS_CAP as int
        },
{
    let n = s.unicode_len();
    if start >= n {
        return None;
    }
    let mut acc: i128 = 0;
    let mut i: usize = start;
    while i < n
        invariant
            n == s@.len(),
            start <= i <= n,
            forall|k: int| start <= k < i ==> is_digit(#[trigger] s@[k]),
            0 <= acc <= DIGITS_CAP,
            acc == if digits_value(s@.subrange(start as int, i as int)) < DIGITS_CAP {
                digits_value(s@.subrange(start as int, i as int))
            } else {
                DIGITS_CAP as int
            },
            digits_value(s@.subrange(start as int, i as int)) >= 0,
        decreases n - i,
    {
        let c = s.get_char(i);
        if !('0' <= c && c <= '9') {
            proof {
                let t = s@.subrange(start as int, n as int);
                assert(t[i - start] == c);
            }
            return None;
        }
        let d = (c as u32 - '0' as u32) as i128;
        let ghost prev = digits_value(s@.subrange(start as int, i as int));
        proof {
            let next = s@.subrange(start as int, i + 1);
            assert(next.drop_last() =~= s@.subrange(start as int, i as int));
            assert(next.last() == c);
            assert(digits_value(next) == prev * 10 + d);
            if prev >= DIGITS_CAP {
                assert(prev * 10 + d >= DIGITS_CAP) by (nonlinear_arith)
                    requires prev >= DIGITS_CAP, d >= 0;
            }
        }
        acc = acc * 10 + d;
        if acc > DIGITS_CAP {
            acc = DIGITS_CAP;
        }
        i = i + 1;
    }
    proof {
        let t = s@.subrange(start as int, n as int);
        assert forall|k: int| 0 <= k < t.len() implies is_digit(#[trigger] t[k]) by {
            assert(t[k] == s@[start + k]);
        }
    }
    Some(acc)
}

/// Reads the integer that a JSON number writes, where it writes one in the range `lo..=hi`.
pub fn read_integer(s: &str, lo: i64, hi: i64) -> (r: Option<i64>)
    ensures
        r is Some <==> integer_in(s@, lo as int, hi as int) is Some,
        r is Some ==> integer_in(s@, lo as int, hi as int) == Some(r->0 as int),
{
    let n = s.unicode_len();
    if n > 0 && s.get_char(0) == '-' {
        let ghost rest = s@.subrange(1, n as int);
        assert(rest =~= s@.drop_first());
        match capped_digits(s, 1) {
            None => None,
            Some(m) => {
                if m >= DIGITS_CAP {
                    None
                } else {
                    let v: i128 = -m;
                    if (lo as i128) <= v && v <= (hi as i128) {
                        Some(v as i64)
                    } else {
                        None
                    }
                }
            },
        }
    } else {
        assert(s@.subrange(0, n as int) =~= s@);
        if n > 0 {
            assert(!(s@[0] == '-'));
        }
        match capped_digits(s, 0) {
            None => None,
            Some(m) => {
                if m >= DIGITS_CAP {
                    None
                } else if (lo as i128) <= m && m <= (hi as i128) {
                    Some(m as i64)
                } else {
                    None
                }
            },
        }
    }
}

} // verus!

verus! {

pub open spec fn digit_char(d: nat) -> char {
    ('0' as u8 + (d % 10) as u8) as char
}

/// The decimal digits of a natural number, without leading zeros.
pub open spec fn nat_digits(n: nat) -> Seq<char>
    decreases n,
{
    if n < 10 {
        seq![digit_char(n)]
    } else {
        nat_digits(n / 10).push(digit_char(n % 10))
    }
}

/// The JSON text of an integer.
pub open spec fn int_text(v: int) -> Seq<char> {
    if v < 0 {
        seq!['-'] + nat_digits((-v) as nat)
    } else {
        nat_digits(v as nat)
    }
}

proof fn lemma_digit_char(d: nat)
    ensures
        digit_char(d) as int - '0' as int == d % 10,
        is_digit(digit_char(d)),
{
    assert(('0' as u8) as int == 48);
}

proof fn lemma_nat_digits(n: nat)
    ensures
        all_digits(nat_digits(n)),
        digits_value(nat_digits(n)) == n,
    decreases n,
{
    lemma_digit_char(n % 10);
    lemma_digit_char(n);
    assert(n == (n / 10) * 10 + n % 10);
    if n >= 10 {
        lemma_nat_digits(n / 10);
        let s = nat_digits(n);
        assert(s.drop_last() =~= nat_digits(n / 10));
        assert(s.last() == digit_char(n % 10));
        assert(digits_value(s) == digits_value(s.drop_last()) * 10 + (s.last() as int - '0' as int));
        assert forall|i: int| 0 <= i < s.len() implies is_digit(#[trigger] s[i]) by {
            if i < s.len() - 1 {
                assert(s[i] == nat_digits(n / 10)[i]);
            }
        }
    } else {
        let s = nat_digits(n);
        assert(s.drop_last() =~= Seq::<char>::empty());
        assert(digits_value(s.drop_last()) == 0);
        assert(s.last() == digit_char(n));
        assert(n % 10 == n);
    }
}

/// The text of an integer reads back as that integer.
pub proof fn lemma_int_text_reads_back(v: int)
    ensures
        integer_value(int_text(v)) == Some(v),
{
    if v < 0 {
        lemma_nat_digits((-v) as nat);
        assert(int_text(v).drop_first() =~= nat_digits((-v) as nat));
    } else {
        lemma_nat_digits(v as nat);
        assert(is_digit(nat_digits(v as nat)[0]));
    }
}

fn digit_text(d: u64) -> (r: &'static str)
    requires
        d < 10,
    ensures
        r@ == seq![digit_char(d as nat)],
{
    proof {
        reveal_strlit("0");
        reveal_strlit("1");
        reveal_strlit("2");
        reveal_strlit("3");
        reveal_strlit("4");
        reveal_strlit("5");
        reveal_strlit("6");
        reveal_strlit("7");
        reveal_strlit("8");
        reveal_strlit("9");
    }
    let r = if d == 0 {
        "0"
    } else if d == 1 {
        "1"
    } else if d == 2 {
        "2"
    } else if d == 3 {
        "3"
    } else if d == 4 {
        "4"
    } else if d == 5 {
        "5"
    } else if d == 6 {
        "6"
    } else if d == 7 {
        "7"
    } else if d == 8 {
        "8"
    } else {
        "9"
    };
    assert(r@ =~= seq![digit_char(d as nat)]);
    r
}

fn nat_text(n: u64) -> (r: String)
    ensures
        r@ == nat_digits(n as nat),
    decreases n,
{
    if n < 10 {
        String::from_str(digit_text(n))
    } else {
        let mut s = nat_text(n / 10);
        s.append(digit_text(n % 10));
        s
    }
}

/// Writes an integer as JSON text.
pub fn integer_text(v: i64) -> (r: String)
    ensures
        r@ == int_text(v as int),
{
    if v < 0 {
        let m: u64 = if v == i64::MIN {
            9223372036854775808u64
        } else {
            (-v) as u64
        };
        proof {
            reveal_strlit("-");
        }
        let mut s = String::from_str("-");
        s.append(nat_text(m).as_str());
        assert(s@ =~= int_text(v as int));
        s
    } else {
        nat_text(v as u64)
    }
}

} // verus!
