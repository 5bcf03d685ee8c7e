//! A byte-level codec for the structured protocol's JSON messages.
//!
//! Commands arrive as one JSON object with the fields `message_type`,
//! `subtype` and `data` in that order; `data` is an array of byte values.
//! ASCII whitespace is allowed between tokens. Responses go out as one JSON
//! object in the fixed canonical form with no whitespace.
//!
//! The grammar is spelled out by spec functions over byte sequences; the
//! executable parser and printer are proved to agree with them exactly.

use vstd::prelude::*;

verus! {

// ---------------------------------------------------------------------------
// Byte classes and token literals
// ---------------------------------------------------------------------------
/// JSON insignificant whitespace: space, tab, line feed, carriage return.
pub open spec fn is_ws_byte(b: u8) -> bool {
    b == 0x20 || b == 0x09 || b == 0x0a || b == 0x0d
}

/// An ASCII decimal digit.
pub open spec fn is_digit_byte(b: u8) -> bool {
    0x30 <= b && b <= 0x39
}

/// The quoted key token `"message_type"`.
pub open spec fn key_message_type() -> Seq<u8> {
    seq![34u8, 109u8, 101u8, 115u8, 115u8, 97u8, 103u8, 101u8, 95u8, 116u8, 121u8, 112u8, 101u8, 34u8]
}

/// The quoted key token `"subtype"`.
pub open spec fn key_subtype() -> Seq<u8> {
    seq![34u8, 115u8, 117u8, 98u8, 116u8, 121u8, 112u8, 101u8, 34u8]
}

/// The quoted key token `"data"`.
pub open spec fn key_data() -> Seq<u8> {
    seq![34u8, 100u8, 97u8, 116u8, 97u8, 34u8]
}

// ---------------------------------------------------------------------------
// The grammar, as spec functions: each takes the input and a position and
// says where parsing lands, or that the input is malformed there.
// ---------------------------------------------------------------------------
/// Index of the first byte at or after `i` that is not whitespace.
pub open spec fn skip_ws(s: Seq<u8>, i: int) -> int
    recommends
        0 <= i <= s.len(),
    decreases s.len() - i,
{
    if i < s.len() && is_ws_byte(s[i]) {
        skip_ws(s, i + 1)
    } else {
        i
    }
}

/// Index of the first byte at or after `i` that is not a digit.
pub open spec fn digits_end(s: Seq<u8>, i: int) -> int
    recommends
        0 <= i <= s.len(),
    decreases s.len() - i,
{
    if i < s.len() && is_digit_byte(s[i]) {
        digits_end(s, i + 1)
    } else {
        i
    }
}

/// Numeric value of the digit run `s[i..j]`.
pub open spec fn digits_value(s: Seq<u8>, i: int, j: int) -> int
    recommends
        0 <= i <= j <= s.len(),
    decreases j - i,
{
    if i < j {
        digits_value(s, i, j - 1) * 10 + (s[j - 1] - 0x30)
    } else {
        0
    }
}

/// The exact bytes `lit` stand at position `i` of `s`.
pub open spec fn has_lit(s: Seq<u8>, i: int, lit: Seq<u8>) -> bool {
    0 <= i && i + lit.len() <= s.len() && s.subrange(i, i + lit.len()) == lit
}

/// A decimal number at `i` whose value fits in a byte: its value and the
/// position after its digits. Values above 255 are out of schema.
pub open spec fn parse_number(s: Seq<u8>, i: int) -> Option<(u8, int)>
    recommends
        0 <= i <= s.len(),
{
    let j = digits_end(s, i);
    if j == i {
        None
    } else if digits_value(s, i, j) > 255 {
        None
    } else {
        Some((digits_value(s, i, j) as u8, j))
    }
}

/// Optional whitespace, then the single byte `b`.
pub open spec fn expect_byte(s: Seq<u8>, i: int, b: u8) -> Option<int>
    recommends
        0 <= i <= s.len(),
{
    let j = skip_ws(s, i);
    if j < s.len() && s[j] == b {
        Some(j + 1)
    } else {
        None
    }
}

/// Optional whitespace, then the exact bytes `lit`.
pub open spec fn expect_lit(s: Seq<u8>, i: int, lit: Seq<u8>) -> Option<int>
    recommends
        0 <= i <= s.len(),
{
    let j = skip_ws(s, i);
    if has_lit(s, j, lit) {
        Some(j + lit.len())
    } else {
        None
    }
}

/// Optional whitespace, then a number that fits in a byte.
pub open spec fn expect_number(s: Seq<u8>, i: int) -> Option<(u8, int)>
    recommends
        0 <= i <= s.len(),
{
    parse_number(s, skip_ws(s, i))
}

/// A quoted key followed by its colon.
pub open spec fn expect_field(s: Seq<u8>, i: int, key: Seq<u8>) -> Option<int>
    recommends
        0 <= i <= s.len(),
{
    match expect_lit(s, i, key) {
        Some(j) => expect_byte(s, j, 0x3a),  // ':'
        None => None,
    }
}

/// The rest of a non-empty array after `acc` elements: either `]` closes it,
/// or `,` and one more element. The guards on `k` only bound the recursion;
/// a number parse always lands inside the input and past where it started.
pub open spec fn parse_items(s: Seq<u8>, i: int, acc: Seq<u8>) -> Option<(Seq<u8>, int)>
    recommends
        0 <= i <= s.len(),
    decreases s.len() - i,
{
    let j = skip_ws(s, i);
    if j < s.len() && s[j] == 0x5d {  // ']'
        Some((acc, j + 1))
    } else if j < s.len() && s[j] == 0x2c {  // ','
        match expect_number(s, j + 1) {
            Some((v, k)) => {
                if i < k && k <= s.len() {
                    parse_items(s, k, acc.push(v))
                } else {
                    None
                }
            },
            None => None,
        }
    } else {
        None
    }
}

/// A whole array of byte values: `[`, elements separated by `,`, `]`.
pub open spec fn parse_array(s: Seq<u8>, i: int) -> Option<(Seq<u8>, int)>
    recommends
        0 <= i <= s.len(),
{
    match expect_byte(s, i, 0x5b) {  // '['
        Some(j) => {
            let k = skip_ws(s, j);
            if k < s.len() && s[k] == 0x5d {  // ']'
                Some((Seq::empty(), k + 1))
            } else {
                match parse_number(s, k) {
                    Some((v, m)) => parse_items(s, m, seq![v]),
                    None => None,
                }
            }
        },
        None => None,
    }
}

/// A whole command object, and nothing but trailing whitespace after it:
/// the `message_type`, `subtype` and `data` field values.
pub open spec fn parse_command(s: Seq<u8>) -> Option<(u8, u8, Seq<u8>)> {
    match expect_byte(s, 0, 0x7b) {  // '{'
        Some(i1) => match expect_field(s, i1, key_message_type()) {
            Some(i2) => match expect_number(s, i2) {
                Some((mt, i3)) => match expect_byte(s, i3, 0x2c) {  // ','
                    Some(i4) => match expect_field(s, i4, key_subtype()) {
                        Some(i5) => match expect_number(s, i5) {
                            Some((st, i6)) => match expect_byte(s, i6, 0x2c) {  // ','
                                Some(i7) => match expect_field(s, i7, key_data()) {
                                    Some(i8) => match parse_array(s, i8) {
                                        Some((data, i9)) => match expect_byte(s, i9, 0x7d) {  // '}'
                                            Some(i10) => {
                                                if skip_ws(s, i10) == s.len() {
                                                    Some((mt, st, data))
                                                } else {
                                                    None
                                                }
                                            },
                                            None => None,
                                        },
                                        None => None,
                                    },
                                    None => None,
                                },
                                None => None,
                            },
                            None => None,
                        },
                        None => None,
                    },
                    None => None,
                },
                None => None,
            },
            None => None,
        },
        None => None,
    }
}

// ---------------------------------------------------------------------------
// The executable parser, step for step against the grammar above.
// ---------------------------------------------------------------------------
fn skip_ws_x(s: &Vec<u8>, i: usize) -> (j: usize)
    requires
        i <= s@.len(),
    ensures
        j == skip_ws(s@, i as int),
        i <= j <= s@.len(),
{
    let mut j = i;
    while j < s.len() && (s[j] == 0x20 || s[j] == 0x09 || s[j] == 0x0a || s[j] == 0x0d)
        invariant
            i <= j <= s@.len(),
            skip_ws(s@, i as int) == skip_ws(s@, j as int),
        decreases s@.len() - j,
    {
        j += 1;
    }
    j
}

fn parse_number_x(s: &Vec<u8>, i: usize) -> (r: Option<(u8, usize)>)
    requires
        i <= s@.len(),
    ensures
        r is None ==> parse_number(s@, i as int) is None,
        r matches Some(p) ==> parse_number(s@, i as int) == Some((p.0, p.1 as int)) && i < p.1
            <= s@.len(),
{
    let mut j = i;
    let mut val: u32 = 0;
    let mut big = false;
    while j < s.len() && s[j] >= 0x30 && s[j] <= 0x39
        invariant
            i <= j <= s@.len(),
            digits_end(s@, i as int) == digits_end(s@, j as int),
            big <==> digits_value(s@, i as int, j as int) > 255,
            !big ==> val == digits_value(s@, i as int, j as int),
        decreases s@.len() - j,
    {
        let d = (s[j] - 0x30) as u32;
        proof {
            assert(digits_value(s@, i as int, j + 1) == digits_value(s@, i as int, j as int) * 10
                + (s@[j as int] - 0x30));
        }
        if !big {
            let nv = val * 10 + d;
            if nv > 255 {
                big = true;
            } else {
                val = nv;
            }
        }
        j += 1;
    }
    if j == i {
        return None;
    }
    if big {
        return None;
    }
    Some((val as u8, j))
}

fn expect_byte_x(s: &Vec<u8>, i: usize, b: u8) -> (r: Option<usize>)
    requires
        i <= s@.len(),
    ensures
        r is None ==> expect_byte(s@, i as int, b) is None,
        r matches Some(j) ==> expect_byte(s@, i as int, b) == Some(j as int) && i < j <= s@.len(),
{
    let j = skip_ws_x(s, i);
    if j < s.len() && s[j] == b {
        Some(j + 1)
    } else {
        None
    }
}

fn expect_lit_x(s: &Vec<u8>, i: usize, lit: &Vec<u8>) -> (r: Option<usize>)
    requires
        i <= s@.len(),
    ensures
        r is None ==> expect_lit(s@, i as int, lit@) is None,
        r matches Some(j) ==> expect_lit(s@, i as int, lit@) == Some(j as int) && i <= j
            <= s@.len(),
{
    let j = skip_ws_x(s, i);
    let slen = s.len();
    if slen - j < lit.len() {
        return None;
    }
    let mut k: usize = 0;
    while k < lit.len()
        invariant
            j == skip_ws(s@, i as int),
            i <= j,
            slen == s@.len(),
            j + lit@.len() <= slen,
            k <= lit@.len(),
            forall|m: int| 0 <= m < k ==> s@[j + m] == lit@[m],
        decreases lit@.len() - k,
    {
        if s[j + k] != lit[k] {
            proof {
                assert(s@.subrange(j as int, j as int + lit@.len())[k as int] == s@[j + k]);
            }
            return None;
        }
        k += 1;
    }
    proof {
        assert(s@.subrange(j as int, j as int + lit@.len()) =~= lit@);
    }
    Some(j + lit.len())
}

fn expect_number_x(s: &Vec<u8>, i: usize) -> (r: Option<(u8, usize)>)
    requires
        i <= s@.len(),
    ensures
        r is None ==> expect_number(s@, i as int) is None,
        r matches Some(p) ==> expect_number(s@, i as int) == Some((p.0, p.1 as int)) && i < p.1
            <= s@.len(),
{
    let j = skip_ws_x(s, i);
    parse_number_x(s, j)
}

fn expect_field_x(s: &Vec<u8>, i: usize, key: &Vec<u8>) -> (r: Option<usize>)
    requires
        i <= s@.len(),
    ensures
        r is None ==> expect_field(s@, i as int, key@) is None,
        r matches Some(j) ==> expect_field(s@, i as int, key@) == Some(j as int) && i <= j
            <= s@.len(),
{
    match expect_lit_x(s, i, key) {
        Some(j) => expect_byte_x(s, j, 0x3a),
        None => None,
    }
}

fn parse_array_x(s: &Vec<u8>, i: usize) -> (r: Option<(Vec<u8>, usize)>)
    requires
        i <= s@.len(),
    ensures
        r is None ==> parse_array(s@, i as int) is None,
        r matches Some(p) ==> parse_array(s@, i as int) == Some((p.0@, p.1 as int)) && p.1
            <= s@.len(),
{
    let j = match expect_byte_x(s, i, 0x5b) {
        Some(j) => j,
        None => {
            return None;
        },
    };
    let k = skip_ws_x(s, j);
    if k < s.len() && s[k] == 0x5d {
        return Some((Vec::new(), k + 1));
    }
    let (v0, m0) = match parse_number_x(s, k) {
        Some(p) => p,
        None => {
            return None;
        },
    };
    let mut acc: Vec<u8> = Vec::new();
    acc.push(v0);
    let mut cur = m0;
    proof {
        assert(acc@ =~= seq![v0]);
    }
    loop
        invariant
            cur <= s@.len(),
            parse_array(s@, i as int) == parse_items(s@, cur as int, acc@),
        decreases s@.len() - cur,
    {
        let j2 = skip_ws_x(s, cur);
        if j2 < s.len() && s[j2] == 0x5d {
            return Some((acc, j2 + 1));
        }
        if !(j2 < s.len() && s[j2] == 0x2c) {
            return None;
        }
        let (v, k2) = match expect_number_x(s, j2 + 1) {
            Some(p) => p,
            None => {
                return None;
            },
        };
        acc.push(v);
        cur = k2;
    }
}

/// Parse a whole command payload: the three field values, or nothing where
/// the payload does not match the grammar.
pub fn parse_command_x(s: &Vec<u8>) -> (r: Option<(u8, u8, Vec<u8>)>)
    ensures
        r is None ==> parse_command(s@) is None,
        r matches Some(c) ==> parse_command(s@) == Some((c.0, c.1, c.2@)),
{
    let key_mt = key_message_type_x();
    let key_st = key_subtype_x();
    let key_da = key_data_x();
    let i1 = match expect_byte_x(s, 0, 0x7b) {
        Some(j) => j,
        None => {
            return None;
        },
    };
    let i2 = match expect_field_x(s, i1, &key_mt) {
        Some(j) => j,
        None => {
            return None;
        },
    };
    let (mt, i3) = match expect_number_x(s, i2) {
        Some(p) => p,
        None => {
            return None;
        },
    };
    let i4 = match expect_byte_x(s, i3, 0x2c) {
        Some(j) => j,
        None => {
            return None;
        },
    };
    let i5 = match expect_field_x(s, i4, &key_st) {
        Some(j) => j,
        None => {
            return None;
        },
    };
    let (st, i6) = match expect_number_x(s, i5) {
        Some(p) => p,
        None => {
            return None;
        },
    };
    let i7 = match expect_byte_x(s, i6, 0x2c) {
        Some(j) => j,
        None => {
            return None;
        },
    };
    let i8 = match expect_field_x(s, i7, &key_da) {
        Some(j) => j,
        None => {
            return None;
        },
    };
    let (data, i9) = match parse_array_x(s, i8) {
        Some(p) => p,
        None => {
            return None;
        },
    };
    let i10 = match expect_byte_x(s, i9, 0x7d) {
        Some(j) => j,
        None => {
            return None;
        },
    };
    let end = skip_ws_x(s, i10);
    if end == s.len() {
        Some((mt, st, data))
    } else {
        None
    }
}

// ---------------------------------------------------------------------------
// Printing: the canonical response object, exact to the byte.
// ---------------------------------------------------------------------------
/// Decimal digits of `n`, most significant first, no leading zeroes.
pub open spec fn dec_digits(n: int) -> Seq<u8>
    recommends
        0 <= n,
    decreases n,
{
    if n <= 9 {
        seq![(0x30 + n) as u8]
    } else {
        dec_digits(n / 10).push((0x30 + n % 10) as u8)
    }
}

/// The elements of a JSON array of byte values, comma separated, no brackets.
pub open spec fn dec_items(data: Seq<u8>) -> Seq<u8>
    decreases data.len(),
{
    if data.len() == 0 {
        Seq::empty()
    } else if data.len() == 1 {
        dec_digits(data[0] as int)
    } else {
        dec_items(data.drop_last()) + seq![0x2cu8] + dec_digits(data.last() as int)
    }
}

/// Bytes that may stand inside a JSON string with no escaping: printable
/// ASCII other than the quote and the backslash.
pub open spec fn json_safe(msg: Seq<u8>) -> bool {
    forall|k: int| 0 <= k < msg.len() ==> 0x20 <= #[trigger] msg[k] <= 0x7e && msg[k] != 0x22 && msg[k] != 0x5c
}

/// The opening of the response object, through the `message_type` colon.
pub open spec fn lit_obj_open() -> Seq<u8> {
    seq![0x7bu8] + key_message_type() + seq![0x3au8]
}

/// The `subtype` field separator and key.
pub open spec fn lit_subtype() -> Seq<u8> {
    seq![0x2cu8] + key_subtype() + seq![0x3au8]
}

/// The `message` field separator, key and opening quote.
pub open spec fn lit_message() -> Seq<u8> {
    seq![0x2cu8, 0x22u8, 109u8, 101u8, 115u8, 115u8, 97u8, 103u8, 101u8, 34u8, 58u8, 34u8]
}

/// The closing quote of `message`, then the `data` key and opening bracket.
pub open spec fn lit_data() -> Seq<u8> {
    seq![0x22u8, 0x2cu8] + key_data() + seq![0x3au8, 0x5bu8]
}

/// The closing bracket and brace.
pub open spec fn lit_close() -> Seq<u8> {
    seq![0x5du8, 0x7du8]
}

/// The canonical JSON bytes of a response object with the given field values.
pub open spec fn json_of_response(mt: u8, st: u8, msg: Seq<u8>, data: Seq<u8>) -> Seq<u8> {
    lit_obj_open() + dec_digits(mt as int) + lit_subtype() + dec_digits(st as int) + lit_message()
        + msg + lit_data() + dec_items(data) + lit_close()
}

/// Append the bytes of `bytes` to `acc`.
#[verifier::loop_isolation(false)]
pub fn append_bytes(acc: Vec<u8>, bytes: &Vec<u8>) -> (out: Vec<u8>)
    ensures
        out@ == acc@ + bytes@,
{
    let mut v = acc;
    let ghost v0 = v@;
    let mut i: usize = 0;
    while i < bytes.len()
        invariant
            i <= bytes@.len(),
            v@ == v0 + bytes@.take(i as int),
        decreases bytes@.len() - i,
    {
        v.push(bytes[i]);
        proof {
            assert(v0 + bytes@.take(i + 1) =~= (v0 + bytes@.take(i as int)).push(
                bytes@[i as int],
            ));
        }
        i += 1;
    }
    proof {
        assert(v0 + bytes@.take(bytes@.len() as int) =~= v0 + bytes@);
    }
    v
}

/// A fresh copy of the bytes of `v`.
pub fn copy_bytes(v: &Vec<u8>) -> (out: Vec<u8>)
    ensures
        out@ == v@,
{
    append_bytes(Vec::new(), v)
}

/// Append the decimal digits of `n` to `acc`.
fn append_decimal(acc: Vec<u8>, n: u8) -> (out: Vec<u8>)
    ensures
        out@ == acc@ + dec_digits(n as int),
{
    let mut v = acc;
    if n <= 9 {
        v.push(0x30 + n);
        proof {
            assert(v@ =~= acc@ + dec_digits(n as int));
        }
    } else if n <= 99 {
        v.push(0x30 + n / 10);
        v.push(0x30 + n % 10);
        proof {
            assert(dec_digits(n as int / 10) =~= seq![(0x30 + n as int / 10) as u8]);
            assert(v@ =~= acc@ + dec_digits(n as int));
        }
    } else {
        v.push(0x30 + n / 100);
        v.push(0x30 + (n / 10) % 10);
        v.push(0x30 + n % 10);
        proof {
            assert(n as int / 10 / 10 == n as int / 100) by (nonlinear_arith);
            assert(dec_digits(n as int / 100) =~= seq![(0x30 + n as int / 100) as u8]);
            assert(dec_digits(n as int / 10) =~= seq![
                (0x30 + n as int / 100) as u8,
                (0x30 + (n as int / 10) % 10) as u8,
            ]);
            assert(v@ =~= acc@ + dec_digits(n as int));
        }
    }
    v
}

/// Append the comma-separated decimal elements of `data` to `acc`.
#[verifier::loop_isolation(false)]
fn append_items(acc: Vec<u8>, data: &Vec<u8>) -> (out: Vec<u8>)
    ensures
        out@ == acc@ + dec_items(data@),
{
    let mut v = acc;
    let ghost v0 = v@;
    let mut i: usize = 0;
    while i < data.len()
        invariant
            i <= data@.len(),
            v@ == v0 + dec_items(data@.take(i as int)),
        decreases data@.len() - i,
    {
        if i > 0 {
            v.push(0x2c);
        }
        v = append_decimal(v, data[i]);
        proof {
            assert(data@.take(i + 1).drop_last() =~= data@.take(i as int));
            assert(data@.take(i + 1).last() == data@[i as int]);
            assert(v@ =~= v0 + dec_items(data@.take(i + 1)));
        }
        i += 1;
    }
    proof {
        assert(data@.take(data@.len() as int) =~= data@);
    }
    v
}

/// The canonical response object as bytes, exactly `json_of_response`.
pub fn encode_object(mt: u8, st: u8, message: &Vec<u8>, data: &Vec<u8>) -> (out: Vec<u8>)
    ensures
        out@ == json_of_response(mt, st, message@, data@),
{
    let mut v: Vec<u8> = Vec::new();
    v.push(0x7b);
    let kmt = key_message_type_x();
    v = append_bytes(v, &kmt);
    v.push(0x3a);
    proof {
        assert(v@ =~= lit_obj_open());
    }
    v = append_decimal(v, mt);
    v.push(0x2c);
    let kst = key_subtype_x();
    v = append_bytes(v, &kst);
    v.push(0x3a);
    proof {
        assert(v@ =~= lit_obj_open() + dec_digits(mt as int) + lit_subtype());
    }
    v = append_decimal(v, st);
    v.push(0x2c);
    v.push(0x22);
    v.push(109);
    v.push(101);
    v.push(115);
    v.push(115);
    v.push(97);
    v.push(103);
    v.push(101);
    v.push(0x22);
    v.push(0x3a);
    v.push(0x22);
    proof {
        assert(v@ =~= lit_obj_open() + dec_digits(mt as int) + lit_subtype() + dec_digits(
            st as int,
        ) + lit_message());
    }
    v = append_bytes(v, message);
    v.push(0x22);
    v.push(0x2c);
    let kda = key_data_x();
    v = append_bytes(v, &kda);
    v.push(0x3a);
    v.push(0x5b);
    proof {
        assert(v@ =~= lit_obj_open() + dec_digits(mt as int) + lit_subtype() + dec_digits(
            st as int,
        ) + lit_message() + message@ + lit_data());
    }
    v = append_items(v, data);
    v.push(0x5d);
    v.push(0x7d);
    proof {
        assert(v@ =~= json_of_response(mt, st, message@, data@));
    }
    v
}

fn key_message_type_x() -> (v: Vec<u8>)
    ensures
        v@ == key_message_type(),
{
    let mut v: Vec<u8> = Vec::new();
    v.push(34);
    v.push(109);
    v.push(101);
    v.push(115);
    v.push(115);
    v.push(97);
    v.push(103);
    v.push(101);
    v.push(95);
    v.push(116);
    v.push(121);
    v.push(112);
    v.push(101);
    v.push(34);
    proof {
        assert(v@ =~= key_message_type());
    }
    v
}

fn key_subtype_x() -> (v: Vec<u8>)
    ensures
        v@ == key_subtype(),
{
    let mut v: Vec<u8> = Vec::new();
    v.push(34);
    v.push(115);
    v.push(117);
    v.push(98);
    v.push(116);
    v.push(121);
    v.push(112);
    v.push(101);
    v.push(34);
    proof {
        assert(v@ =~= key_subtype());
    }
    v
}

fn key_data_x() -> (v: Vec<u8>)
    ensures
        v@ == key_data(),
{
    let mut v: Vec<u8> = Vec::new();
    v.push(34);
    v.push(100);
    v.push(97);
    v.push(116);
    v.push(97);
    v.push(34);
    proof {
        assert(v@ =~= key_data());
    }
    v
}

} // verus!
