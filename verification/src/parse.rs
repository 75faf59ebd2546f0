//! Parsing of the textual values found in environment variables: unsigned
//! integers, booleans and dotted-quad IPv4 addresses, with the same rules and
//! error texts as the standard library's `FromStr` implementations.
use vstd::prelude::*;
use crate::text::chars_of;

verus! {

/// Why a text is not an unsigned integer.
#[derive(Debug, Clone, Copy, PartialEq, Eq)]
pub enum IntErrorKind {
    Empty,
    InvalidDigit,
    PosOverflow,
}

impl IntErrorKind {
    /// The error text the standard library shows for this kind.
    pub open spec fn message_spec(self) -> Seq<char> {
        match self {
            IntErrorKind::Empty => "cannot parse integer from empty string"@,
            IntErrorKind::InvalidDigit => "invalid digit found in string"@,
            IntErrorKind::PosOverflow => "number too large to fit in target type"@,
        }
    }

    pub fn message(&self) -> (r: String)
        ensures
            r@ == self.message_spec(),
    {
        match self {
            IntErrorKind::Empty => {
                proof { reveal_strlit("cannot parse integer from empty string"); }
                String::from_str("cannot parse integer from empty string")
            },
            IntErrorKind::InvalidDigit => {
                proof { reveal_strlit("invalid digit found in string"); }
                String::from_str("invalid digit found in string")
            },
            IntErrorKind::PosOverflow => {
                proof { reveal_strlit("number too large to fit in target type"); }
                String::from_str("number too large to fit in target type")
            },
        }
    }
}

pub open spec fn is_digit(c: char) -> bool {
    '0' <= c && c <= '9'
}

pub open spec fn digit_value(c: char) -> nat {
    (c as int - '0' as int) as nat
}

/// Reads the digits of `d` from left to right; the first character that is
/// not a digit, or the first digit that takes the value above `max`, decides
/// the error.
pub open spec fn digits_value(d: Seq<char>, max: nat) -> Result<nat, IntErrorKind>
    decreases d.len(),
{
    if d.len() == 0 {
        Ok(0)
    } else {
        match digits_value(d.drop_last(), max) {
            Err(e) => Err(e),
            Ok(v) => if !is_digit(d.last()) {
                Err(IntErrorKind::InvalidDigit)
            } else if v * 10 + digit_value(d.last()) > max {
                Err(IntErrorKind::PosOverflow)
            } else {
                Ok(v * 10 + digit_value(d.last()))
            },
        }
    }
}

/// The value of `s` read as an unsigned integer no larger than `max`: an
/// optional `+` followed by decimal digits, nothing else.
pub open spec fn unsigned_from_str(s: Seq<char>, max: nat) -> Result<nat, IntErrorKind> {
    if s.len() == 0 {
        Err(IntErrorKind::Empty)
    } else if s.len() == 1 && (s[0] == '+' || s[0] == '-') {
        Err(IntErrorKind::InvalidDigit)
    } else if s[0] == '+' {
        digits_value(s.drop_first(), max)
    } else {
        digits_value(s, max)
    }
}

proof fn lemma_digits_value_bounded(d: Seq<char>, max: nat)
    ensures
        digits_value(d, max) matches Ok(v) ==> v <= max,
    decreases d.len(),
{
    if d.len() > 0 {
        lemma_digits_value_bounded(d.drop_last(), max);
    }
}

fn parse_unsigned(s: &str, max: u128) -> (r: Result<u128, IntErrorKind>)
    ensures
        match r {
            Ok(v) => unsigned_from_str(s@, max as nat) == Ok::<nat, IntErrorKind>(v as nat),
            Err(e) => unsigned_from_str(s@, max as nat) == Err::<nat, IntErrorKind>(e),
        },
{
    let cs = chars_of(s);
    let n = cs.len();
    if n == 0 {
        return Err(IntErrorKind::Empty);
    }
    if n == 1 && (cs[0] == '+' || cs[0] == '-') {
        return Err(IntErrorKind::InvalidDigit);
    }
    let start: usize = if cs[0] == '+' { 1 } else { 0 };
    let ghost d = if cs@[0] == '+' { cs@.drop_first() } else { cs@ };
    assert(d =~= cs@.subrange(start as int, n as int));
    assert(unsigned_from_str(s@, max as nat) == digits_value(d, max as nat));
    let mut i = start;
    let mut acc: u128 = 0;
    while i < n
        invariant
            start <= i <= n,
            n == cs@.len(),
            cs@ == s@,
            d == cs@.subrange(start as int, n as int),
            unsigned_from_str(s@, max as nat) == digits_value(d, max as nat),
            digits_value(d.take(i - start), max as nat) == Ok::<nat, IntErrorKind>(acc as nat),
        decreases n - i,
    {
        let c = cs[i];
        let ghost pre = d.take(i - start);
        let ghost cur = d.take(i + 1 - start);
        assert(cur.drop_last() =~= pre);
        assert(cur.last() == c);
        if !('0' <= c && c <= '9') {
            proof {
                lemma_prefix_error_persists(d, (i + 1 - start) as nat, max as nat);
            }
            return Err(IntErrorKind::InvalidDigit);
        }
        let dv: u128 = if c == '0' { 0 } else if c == '1' { 1 } else if c == '2' { 2 } else if c == '3' { 3 }
            else if c == '4' { 4 } else if c == '5' { 5 } else if c == '6' { 6 } else if c == '7' { 7 }
            else if c == '8' { 8 } else { 9 };
        assert(dv == digit_value(c));
        let next = match acc.checked_mul(10) {
            Some(m) => m.checked_add(dv),
            None => None,
        };
        match next {
            Some(v) if v <= max => {
                acc = v;
            },
            _ => {
                proof {
                    lemma_prefix_error_persists(d, (i + 1 - start) as nat, max as nat);
                }
                return Err(IntErrorKind::PosOverflow);
            },
        }
        i = i + 1;
    }
    assert(d.take(n - start) =~= d);
    Ok(acc)
}

/// Once a prefix of the digits fails, the whole text fails the same way.
proof fn lemma_prefix_error_persists(d: Seq<char>, k: nat, max: nat)
    requires
        k <= d.len(),
    ensures
        digits_value(d.take(k as int), max) is Err ==> digits_value(d, max) == digits_value(d.take(k as int), max),
    decreases d.len() - k,
{
    if k < d.len() {
        lemma_prefix_error_persists(d, k + 1, max);
        let next = d.take((k + 1) as int);
        assert(next.drop_last() =~= d.take(k as int));
    } else {
        assert(d.take(k as int) =~= d);
    }
}

/// `s` read as a `u64`, as `str::parse::<u64>` reads it.
pub fn parse_u64(s: &str) -> (r: Result<u64, IntErrorKind>)
    ensures
        match r {
            Ok(v) => unsigned_from_str(s@, u64::MAX as nat) == Ok::<nat, IntErrorKind>(v as nat),
            Err(e) => unsigned_from_str(s@, u64::MAX as nat) == Err::<nat, IntErrorKind>(e),
        },
{
    match parse_unsigned(s, 0xffff_ffff_ffff_ffffu128) {
        Ok(v) => Ok(v as u64),
        Err(e) => Err(e),
    }
}

/// `s` read as a `u16`, as `str::parse::<u16>` reads it.
pub fn parse_u16(s: &str) -> (r: Result<u16, IntErrorKind>)
    ensures
        match r {
            Ok(v) => unsigned_from_str(s@, u16::MAX as nat) == Ok::<nat, IntErrorKind>(v as nat),
            Err(e) => unsigned_from_str(s@, u16::MAX as nat) == Err::<nat, IntErrorKind>(e),
        },
{
    match parse_unsigned(s, 0xffffu128) {
        Ok(v) => Ok(v as u16),
        Err(e) => Err(e),
    }
}

/// `s` read as a `u128`, as `str::parse::<u128>` reads it.
pub fn parse_u128(s: &str) -> (r: Result<u128, IntErrorKind>)
    ensures
        match r {
            Ok(v) => unsigned_from_str(s@, u128::MAX as nat) == Ok::<nat, IntErrorKind>(v as nat),
            Err(e) => unsigned_from_str(s@, u128::MAX as nat) == Err::<nat, IntErrorKind>(e),
        },
{
    parse_unsigned(s, u128::MAX)
}

/// The error text of a failed boolean parse.
pub open spec fn bool_error_message() -> Seq<char> {
    "provided string was not `true` or `false`"@
}

pub fn bool_error_text() -> (r: String)
    ensures
        r@ == bool_error_message(),
{
    proof { reveal_strlit("provided string was not `true` or `false`"); }
    String::from_str("provided string was not `true` or `false`")
}

/// `s` read as a boolean: exactly `true` or `false`.
pub open spec fn bool_from_str(s: Seq<char>) -> Option<bool> {
    if s == "true"@ {
        Some(true)
    } else if s == "false"@ {
        Some(false)
    } else {
        None
    }
}

fn chars_equal(a: &Vec<char>, b: &Vec<char>) -> (r: bool)
    ensures
        r == (a@ == b@),
{
    if a.len() != b.len() {
        return false;
    }
    let mut i: usize = 0;
    while i < a.len()
        invariant
            i <= a@.len(),
            a@.len() == b@.len(),
            forall|j: int| 0 <= j < i ==> a@[j] == b@[j],
        decreases a@.len() - i,
    {
        if a[i] != b[i] {
            return false;
        }
        i = i + 1;
    }
    assert(a@ =~= b@);
    true
}

/// Whether two strings hold the same characters.
pub fn str_equal(a: &str, b: &str) -> (r: bool)
    ensures
        r == (a@ == b@),
{
    let ca = chars_of(a);
    let cb = chars_of(b);
    chars_equal(&ca, &cb)
}

/// `s` read as a boolean, as `str::parse::<bool>` reads it.
pub fn parse_bool(s: &str) -> (r: Option<bool>)
    ensures
        r == bool_from_str(s@),
{
    if str_equal(s, "true") {
        Some(true)
    } else if str_equal(s, "false") {
        Some(false)
    } else {
        None
    }
}

/// The error text of a failed IPv4 address parse.
pub open spec fn ipv4_error_message() -> Seq<char> {
    "invalid IPv4 address syntax"@
}

pub fn ipv4_error_text() -> (r: String)
    ensures
        r@ == ipv4_error_message(),
{
    proof { reveal_strlit("invalid IPv4 address syntax"); }
    String::from_str("invalid IPv4 address syntax")
}

/// The pieces of `s` between the occurrences of `c`.
pub open spec fn split_on(s: Seq<char>, c: char) -> Seq<Seq<char>>
    decreases s.len(),
{
    if s.len() == 0 {
        seq![s]
    } else {
        let rest = split_on(s.drop_last(), c);
        if s.last() == c {
            rest.push(seq![])
        } else {
            rest.update(rest.len() - 1, rest.last().push(s.last()))
        }
    }
}

/// One part of a dotted quad: one to three digits, no leading zero unless the
/// part is `0`, and a value that fits in a byte.
pub open spec fn valid_octet(t: Seq<char>) -> bool {
    &&& 1 <= t.len() <= 3
    &&& forall|i: int| 0 <= i < t.len() ==> is_digit(#[trigger] t[i])
    &&& (t.len() > 1 ==> t[0] != '0')
    &&& digits_value(t, 255) is Ok
}

/// `s` read as an IPv4 address in dotted-quad notation: four valid octets
/// separated by dots, nothing else.
pub open spec fn ipv4_from_str(s: Seq<char>) -> Option<Seq<u8>> {
    let parts = split_on(s, '.');
    if parts.len() == 4 && (forall|i: int| 0 <= i < 4 ==> valid_octet(#[trigger] parts[i])) {
        Some(Seq::new(4, |i: int| digits_value(parts[i], 255)->Ok_0 as u8))
    } else {
        None
    }
}

proof fn lemma_split_on_nonempty(s: Seq<char>, c: char)
    ensures
        split_on(s, c).len() >= 1,
    decreases s.len(),
{
    if s.len() > 0 {
        lemma_split_on_nonempty(s.drop_last(), c);
    }
}

proof fn lemma_digits_value_small(t: Seq<char>)
    requires
        forall|i: int| 0 <= i < t.len() ==> is_digit(#[trigger] t[i]),
        t.len() <= 3,
    ensures
        digits_value(t, 1000) is Ok,
        digits_value(t, 1000)->Ok_0 < 1000,
        digits_value(t, 1000)->Ok_0 <= 255 ==> digits_value(t, 255) == digits_value(t, 1000),
        digits_value(t, 1000)->Ok_0 > 255 ==> digits_value(t, 255) is Err,
    decreases t.len(),
{
    if t.len() > 0 {
        let p = t.drop_last();
        assert forall|i: int| 0 <= i < p.len() implies is_digit(#[trigger] p[i]) by {
            assert(p[i] == t[i]);
        }
        lemma_digits_value_small(p);
        assert(is_digit(t[t.len() - 1]));
        let v = digits_value(p, 1000)->Ok_0;
        if t.len() == 1 {
            assert(p.len() == 0);
        } else if t.len() == 2 {
            assert(digits_value(p, 1000) is Ok);
            lemma_digits_value_one(p);
        } else {
            lemma_digits_value_two(p);
        }
        lemma_digits_value_bounded(p, 255);
        lemma_digits_monotone(p);
    }
}

proof fn lemma_digits_value_one(t: Seq<char>)
    requires
        t.len() == 1,
        is_digit(t[0]),
    ensures
        digits_value(t, 1000) == Ok::<nat, IntErrorKind>(digit_value(t[0])),
        digit_value(t[0]) <= 9,
{
    assert(t.drop_last().len() == 0);
    assert(digits_value(t.drop_last(), 1000) == Ok::<nat, IntErrorKind>(0));
}

proof fn lemma_digits_value_two(t: Seq<char>)
    requires
        t.len() == 2,
        is_digit(t[0]),
        is_digit(t[1]),
    ensures
        digits_value(t, 1000) is Ok,
        digits_value(t, 1000)->Ok_0 <= 99,
{
    let p = t.drop_last();
    lemma_digits_value_one(p);
}

/// Reading the same digits against a smaller bound gives the same value while
/// the value stays below it, and an overflow once it goes above.
proof fn lemma_digits_monotone(t: Seq<char>)
    requires
        digits_value(t, 1000) is Ok,
    ensures
        digits_value(t, 1000)->Ok_0 <= 255 ==> digits_value(t, 255) == digits_value(t, 1000),
        digits_value(t, 1000)->Ok_0 > 255 ==> digits_value(t, 255) is Err,
    decreases t.len(),
{
    if t.len() > 0 {
        let p = t.drop_last();
        lemma_digits_monotone(p);
        let v = digits_value(p, 1000)->Ok_0;
        let w = digits_value(t, 1000)->Ok_0;
        assert(w == v * 10 + digit_value(t.last()));
        assert(w >= v);
        if v > 255 {
            assert(digits_value(p, 255) is Err);
        }
    }
}

fn octet_from_chars(cs: &Vec<char>, from: usize, to: usize) -> (r: Option<u8>)
    requires
        from <= to <= cs@.len(),
    ensures
        match r {
            Some(v) => valid_octet(cs@.subrange(from as int, to as int))
                && digits_value(cs@.subrange(from as int, to as int), 255) == Ok::<nat, IntErrorKind>(v as nat),
            None => !valid_octet(cs@.subrange(from as int, to as int)),
        },
{
    let ghost t = cs@.subrange(from as int, to as int);
    let len = to - from;
    if len == 0 || len > 3 {
        return None;
    }
    let mut i = from;
    let mut acc: u64 = 0;
    while i < to
        invariant
            from <= i <= to,
            to <= cs@.len(),
            to - from <= 3,
            t == cs@.subrange(from as int, to as int),
            forall|j: int| from <= j < i ==> is_digit(#[trigger] cs@[j]),
            digits_value(t.take(i - from), 1000) == Ok::<nat, IntErrorKind>(acc as nat),
            acc < 1000,
        decreases to - i,
    {
        let c = cs[i];
        if !('0' <= c && c <= '9') {
            assert(t[i - from] == c);
            return None;
        }
        let dv: u64 = if c == '0' { 0 } else if c == '1' { 1 } else if c == '2' { 2 } else if c == '3' { 3 }
            else if c == '4' { 4 } else if c == '5' { 5 } else if c == '6' { 6 } else if c == '7' { 7 }
            else if c == '8' { 8 } else { 9 };
        let ghost cur = t.take(i + 1 - from);
        assert(cur.drop_last() =~= t.take(i - from));
        assert(cur.last() == c);
        proof {
            assert forall|j: int| 0 <= j < cur.len() implies is_digit(#[trigger] cur[j]) by {
                assert(cur[j] == cs@[from + j]);
            }
            lemma_digits_value_small(cur);
        }
        acc = acc * 10 + dv;
        i = i + 1;
    }
    assert(t.take(to - from) =~= t);
    assert forall|j: int| 0 <= j < t.len() implies is_digit(#[trigger] t[j]) by {
        assert(t[j] == cs@[from + j]);
    }
    proof { lemma_digits_value_small(t); }
    if len > 1 && cs[from] == '0' {
        assert(t[0] == cs@[from as int]);
        return None;
    }
    if acc > 255 {
        return None;
    }
    Some(acc as u8)
}

/// `s` read as an IPv4 address, as `str::parse::<Ipv4Addr>` reads it; the
/// four octets in order.
pub fn parse_ipv4(s: &str) -> (r: Option<[u8; 4]>)
    ensures
        match r {
            Some(a) => ipv4_from_str(s@) == Some(a@),
            None => ipv4_from_str(s@) is None,
        },
{
    let cs = chars_of(s);
    let n = cs.len();
    // Positions of the dots, in order.
    let mut dots: Vec<usize> = Vec::new();
    let mut i: usize = 0;
    while i < n
        invariant
            i <= n,
            n == cs@.len(),
            cs@ == s@,
            split_on(cs@.take(i as int), '.').len() == dots@.len() + 1,
            forall|j: int| 0 <= j < dots@.len() ==> dots@[j] < i && cs@[dots@[j] as int] == '.',
            forall|j: int, k: int| 0 <= j < k < dots@.len() ==> dots@[j] < dots@[k],
            forall|j: int| 0 <= j <= dots@.len() ==> #[trigger] split_on(cs@.take(i as int), '.')[j]
                == cs@.subrange(
                    if j == 0 { 0 } else { dots@[j - 1] + 1 },
                    if j == dots@.len() { i as int } else { dots@[j] as int },
                ),
        decreases n - i,
    {
        let ghost pre = cs@.take(i as int);
        let ghost cur = cs@.take(i + 1);
        assert(cur.drop_last() =~= pre);
        assert(cur.last() == cs@[i as int]);
        let ghost old_dots = dots@;
        if cs[i] == '.' {
            dots.push(i);
            proof {
                let sp = split_on(cur, '.');
                assert(sp == split_on(pre, '.').push(seq![]));
                assert forall|j: int| 0 <= j <= dots@.len() implies #[trigger] split_on(cur, '.')[j]
                    == cs@.subrange(
                        if j == 0 { 0 } else { dots@[j - 1] + 1 },
                        if j == dots@.len() { i + 1 } else { dots@[j] as int },
                    ) by {
                    if j == dots@.len() {
                        assert(cs@.subrange(i + 1, i + 1) =~= Seq::<char>::empty());
                    } else {
                        assert(dots@[j] == old_dots[j] || j == old_dots.len());
                        if j < old_dots.len() {
                            assert(split_on(pre, '.')[j] == cs@.subrange(
                                if j == 0 { 0 } else { old_dots[j - 1] + 1 },
                                old_dots[j] as int,
                            ));
                        } else {
                            assert(split_on(pre, '.')[j] == cs@.subrange(
                                if j == 0 { 0 } else { old_dots[j - 1] + 1 },
                                i as int,
                            ));
                        }
                    }
                }
            }
        } else {
            proof {
                let sp0 = split_on(pre, '.');
                let sp = split_on(cur, '.');
                lemma_split_on_nonempty(pre, '.');
                assert(sp == sp0.update(sp0.len() - 1, sp0.last().push(cs@[i as int])));
                assert forall|j: int| 0 <= j <= dots@.len() implies #[trigger] split_on(cur, '.')[j]
                    == cs@.subrange(
                        if j == 0 { 0 } else { dots@[j - 1] + 1 },
                        if j == dots@.len() { i + 1 } else { dots@[j] as int },
                    ) by {
                    if j == dots@.len() {
                        let lo = if j == 0 { 0 } else { dots@[j - 1] + 1 };
                        assert(sp0[j] == cs@.subrange(lo, i as int));
                        assert(cs@.subrange(lo, i + 1) =~= cs@.subrange(lo, i as int).push(cs@[i as int]));
                    } else {
                        assert(sp0[j] == sp[j]);
                    }
                }
            }
        }
        i = i + 1;
    }
    assert(cs@.take(n as int) =~= cs@);
    if dots.len() != 3 {
        return None;
    }
    let ghost parts = split_on(cs@, '.');
    let o0 = octet_from_chars(&cs, 0, dots[0]);
    let o1 = octet_from_chars(&cs, dots[0] + 1, dots[1]);
    let o2 = octet_from_chars(&cs, dots[1] + 1, dots[2]);
    let o3 = octet_from_chars(&cs, dots[2] + 1, n);
    assert(parts[0] == cs@.subrange(0, dots@[0] as int));
    assert(parts[1] == cs@.subrange(dots@[0] + 1, dots@[1] as int));
    assert(parts[2] == cs@.subrange(dots@[1] + 1, dots@[2] as int));
    assert(parts[3] == cs@.subrange(dots@[2] + 1, n as int));
    match (o0, o1, o2, o3) {
        (Some(a), Some(b), Some(c), Some(d)) => {
            let r = [a, b, c, d];
            proof {
                assert forall|k: int| 0 <= k < 4 implies valid_octet(#[trigger] parts[k]) by {
                    if k == 0 {} else if k == 1 {} else if k == 2 {} else {}
                }
                let expect = Seq::new(4, |k: int| digits_value(parts[k], 255)->Ok_0 as u8);
                assert(r@ =~= expect);
            }
            Some(r)
        },
        _ => {
            proof {
                if o0 is None { assert(!valid_octet(parts[0])); }
                if o1 is None { assert(!valid_octet(parts[1])); }
                if o2 is None { assert(!valid_octet(parts[2])); }
                if o3 is None { assert(!valid_octet(parts[3])); }
            }
            None
        },
    }
}

} // verus!
