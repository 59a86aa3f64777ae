//! Content identifiers and the decimal directory names they are stored under.
use vstd::prelude::*;

verus! {

/// Identifier of one content unit. Its directory under the installation
/// root is named by the identifier's canonical decimal representation.
#[derive(Clone, Copy, Debug, PartialEq, Eq, Hash, Structural)]
pub struct ContentId(pub u64);

/// What reading a directory leaf name as a content identifier gives.
pub open spec fn parse_content_id(name: Seq<char>) -> Option<ContentId> {
    if is_decimal_within(name, u64::MAX as int) {
        Some(ContentId(decimal_value(name) as u64))
    } else {
        None
    }
}

/// The digits of an application folder name: one leading `+` is allowed
/// before them, as in the standard reading of unsigned numbers.
pub open spec fn unsigned_digits(name: Seq<char>) -> Seq<char> {
    if name.len() > 0 && name[0] == '+' {
        name.drop_first()
    } else {
        name
    }
}

/// What reading a directory leaf name as an application identifier gives.
pub open spec fn parse_app_id_spec(name: Seq<char>) -> Option<u32> {
    if is_decimal_within(unsigned_digits(name), u32::MAX as int) {
        Some(decimal_value(unsigned_digits(name)) as u32)
    } else {
        None
    }
}

impl ContentId {
    /// The directory name of this identifier.
    pub open spec fn name(self) -> Seq<char> {
        decimal_digits(self.0 as nat)
    }

    /// Reads a directory leaf name as an identifier: it succeeds exactly when
    /// the name is a non-empty run of ASCII digits whose value fits in 64 bits.
    pub fn parse(name: &str) -> (r: Option<ContentId>)
        ensures
            r == parse_content_id(name@),
    {
        match parse_decimal(name, u64::MAX) {
            Some(v) => Some(ContentId(v)),
            None => None,
        }
    }

    /// The canonical decimal representation, used as the directory name.
    pub fn to_string(&self) -> (r: String)
        ensures
            r@ == self.name(),
    {
        let mut out = String::new();
        push_decimal(&mut out, self.0);
        assert(out@ =~= self.name());
        out
    }
}

/// Reads a directory leaf name as an application identifier: an optional
/// leading `+`, then a non-empty run of ASCII digits whose value fits in 32
/// bits.
pub fn parse_app_id(name: &str) -> (r: Option<u32>)
    ensures
        r == parse_app_id_spec(name@),
{
    let n = name.unicode_len();
    let digits = if n > 0 && name.get_char(0) == '+' {
        name.substring_char(1, n)
    } else {
        name
    };
    assert(digits@ =~= unsigned_digits(name@));
    match parse_decimal(digits, 0xffff_ffff) {
        Some(v) => Some(v as u32),
        None => None,
    }
}

/// Every identifier reads back from its own directory name.
pub proof fn lemma_name_round_trip(id: ContentId)
    ensures
        parse_content_id(id.name()) == Some(id),
{
    lemma_decimal_digits_value(id.0 as nat);
}

/// Whatever name an identifier was read from, writing it out and reading it
/// again gives the same identifier.
pub proof fn lemma_parse_round_trip(name: Seq<char>)
    ensures
        parse_content_id(name) matches Some(id) ==> parse_content_id(id.name()) == Some(id),
{
    if let Some(id) = parse_content_id(name) {
        lemma_name_round_trip(id);
    }
}

/// Whether `c` is an ASCII decimal digit.
pub open spec fn is_digit(c: char) -> bool {
    '0' <= c && c <= '9'
}

/// The numeric value of a digit character.
pub open spec fn digit_value(c: char) -> nat {
    (c as int - '0' as int) as nat
}

/// The digit character for a value below ten.
pub open spec fn digit_char(d: nat) -> char {
    (d + '0' as nat) as char
}

/// Every character of `s` is an ASCII decimal digit.
pub open spec fn all_digits(s: Seq<char>) -> bool {
    forall|i: int| 0 <= i < s.len() ==> #[trigger] is_digit(s[i])
}

/// The value of a string of digits read in base ten.
pub open spec fn decimal_value(s: Seq<char>) -> nat
    decreases s.len(),
{
    if s.len() == 0 {
        0
    } else {
        decimal_value(s.drop_last()) * 10 + digit_value(s.last())
    }
}

/// `s` is a non-empty string of decimal digits whose value does not exceed `max`.
pub open spec fn is_decimal_within(s: Seq<char>, max: int) -> bool {
    &&& s.len() > 0
    &&& all_digits(s)
    &&& decimal_value(s) <= max
}

/// The canonical decimal representation of `n`: no sign, no leading zeros.
pub open spec fn decimal_digits(n: nat) -> Seq<char>
    decreases n,
{
    if n < 10 {
        seq![digit_char(n)]
    } else {
        decimal_digits(n / 10).push(digit_char(n % 10))
    }
}

/// Reading the digits of a prefix of a digit string never gives more than
/// reading the whole string.
proof fn lemma_prefix_value_le(s: Seq<char>, k: int)
    requires
        all_digits(s),
        0 <= k <= s.len(),
    ensures
        decimal_value(s.take(k)) <= decimal_value(s),
    decreases s.len(),
{
    if k < s.len() {
        let t = s.drop_last();
        assert(all_digits(t)) by {
            assert forall|i: int| 0 <= i < t.len() implies #[trigger] is_digit(t[i]) by {
                assert(is_digit(s[i]));
            }
        }
        lemma_prefix_value_le(t, k);
        assert(t.take(k) =~= s.take(k));
    } else {
        assert(s.take(k) =~= s);
    }
}

/// The canonical representation is a non-empty digit string that reads back as `n`.
pub proof fn lemma_decimal_digits_value(n: nat)
    ensures
        decimal_digits(n).len() > 0,
        all_digits(decimal_digits(n)),
        decimal_value(decimal_digits(n)) == n,
    decreases n,
{
    if n < 10 {
        let s = decimal_digits(n);
        assert(s.drop_last() =~= Seq::<char>::empty());
        assert(digit_value(digit_char(n)) == n);
        assert(decimal_value(s.drop_last()) == 0);
        assert(s.last() == digit_char(n));
    } else {
        lemma_decimal_digits_value(n / 10);
        let s = decimal_digits(n);
        let p = decimal_digits(n / 10);
        assert(s.drop_last() =~= p);
        assert forall|i: int| 0 <= i < s.len() implies #[trigger] is_digit(s[i]) by {
            if i < p.len() {
                assert(s[i] == p[i]);
            }
        }
        assert(digit_value(digit_char(n % 10)) == n % 10);
        assert(s.last() == digit_char(n % 10));
        assert(decimal_value(s) == decimal_value(p) * 10 + n % 10);
        assert(n == (n / 10) * 10 + n % 10) by (nonlinear_arith);
    }
}

/// The digit string for a value below ten.
fn digit_str(d: u64) -> (r: &'static str)
    requires
        d < 10,
    ensures
        r@ == seq![digit_char(d as nat)],
{
    proof {
        reveal_strlit("0");
        reveal_strlit("1");
        reveal_strlit("2");
        reveal_strlit("3");
        reveal_strlit("4");
        reveal_strlit("5");
        reveal_strlit("6");
        reveal_strlit("7");
        reveal_strlit("8");
        reveal_strlit("9");
    }
    let r = if d == 0 {
        "0"
    } else if d == 1 {
        "1"
    } else if d == 2 {
        "2"
    } else if d == 3 {
        "3"
    } else if d == 4 {
        "4"
    } else if d == 5 {
        "5"
    } else if d == 6 {
        "6"
    } else if d == 7 {
        "7"
    } else if d == 8 {
        "8"
    } else {
        "9"
    };
    assert(r@ =~= seq![digit_char(d as nat)]);
    r
}

/// Appends the canonical decimal representation of `n` to `out`.
pub fn push_decimal(out: &mut String, n: u64)
    ensures
        final(out)@ == old(out)@ + decimal_digits(n as nat),
    decreases n,
{
    if n >= 10 {
        push_decimal(out, n / 10);
        out.append(digit_str(n % 10));
        assert(final(out)@ =~= old(out)@ + decimal_digits(n as nat));
    } else {
        out.append(digit_str(n));
    }
}

/// Reads `s` as a decimal number no larger than `max`. Anything but a
/// non-empty run of ASCII digits, or a value above `max`, gives `None`.
pub fn parse_decimal(s: &str, max: u64) -> (r: Option<u64>)
    ensures
        r is Some <==> is_decimal_within(s@, max as int),
        r matches Some(v) ==> v == decimal_value(s@),
{
    let n = s.unicode_len();
    if n == 0 {
        return None;
    }
    let mut value: u64 = 0;
    let mut i: usize = 0;
    while i < n
        invariant
            n == s@.len(),
            0 <= i <= n,
            all_digits(s@.take(i as int)),
            value == decimal_value(s@.take(i as int)),
            value <= max,
        decreases n - i,
    {
        let c = s.get_char(i);
        if !('0' <= c && c <= '9') {
            assert(!all_digits(s@)) by {
                assert(!is_digit(s@[i as int]));
            }
            return None;
        }
        let d = (c as u32 - '0' as u32) as u64;
        let ghost next = s@.take(i + 1);
        assert(next.drop_last() =~= s@.take(i as int));
        assert(next.last() == c);
        if d > max || value > (max - d) / 10 {
            proof {
                assert(value * 10 + d > max) by (nonlinear_arith)
                    requires
                        d > max || value > (max - d) / 10,
                        value >= 0,
                ;
                assert(all_digits(s@) ==> decimal_value(s@) > max) by {
                    if all_digits(s@) {
                        lemma_prefix_value_le(s@, i + 1);
                    }
                }
            }
            return None;
        }
        proof {
            assert(value * 10 + d <= max) by (nonlinear_arith)
                requires
                    value <= (max - d) / 10,
                    d <= max,
            ;
            assert forall|j: int| 0 <= j < next.len() implies #[trigger] is_digit(next[j]) by {
                if j < i {
                    assert(next[j] == s@.take(i as int)[j]);
                }
            }
        }
        value = value * 10 + d;
        i = i + 1;
    }
    assert(s@.take(n as int) =~= s@);
    Some(value)
}

} // verus!
