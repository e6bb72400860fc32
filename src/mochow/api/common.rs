use vstd::prelude::*;
use vstd::string::*;

use super::enums::ServerErrorCode;

verus! {

/// The decimal text of an integer: a `-` before the digits of a negative one.
pub open spec fn decimal_text(n: int) -> Seq<char>
    decreases (if n < 0 { -n + 1 } else { n }),
{
    if n < 0 {
        seq!['-'] + decimal_text(-n)
    } else if n < 10 {
        seq![digit_char(n)]
    } else {
        decimal_text(n / 10) + seq![digit_char(n % 10)]
    }
}

/// The character of a decimal digit.
pub open spec fn digit_char(d: int) -> char {
    if d == 0 {
        '0'
    } else if d == 1 {
        '1'
    } else if d == 2 {
        '2'
    } else if d == 3 {
        '3'
    } else if d == 4 {
        '4'
    } else if d == 5 {
        '5'
    } else if d == 6 {
        '6'
    } else if d == 7 {
        '7'
    } else if d == 8 {
        '8'
    } else {
        '9'
    }
}

/// The character of a lowercase hexadecimal digit.
pub open spec fn hex_char(d: int) -> char {
    if d < 10 {
        digit_char(d)
    } else if d == 10 {
        'a'
    } else if d == 11 {
        'b'
    } else if d == 12 {
        'c'
    } else if d == 13 {
        'd'
    } else if d == 14 {
        'e'
    } else {
        'f'
    }
}

fn digit_text(d: u32) -> (r: &'static str)
    requires
        d < 16,
    ensures
        r@ == seq![hex_char(d as int)],
{
    proof {
        reveal_strlit("0");
        reveal_strlit("1");
        reveal_strlit("2");
        reveal_strlit("3");
        reveal_strlit("4");
        reveal_strlit("5");
        reveal_strlit("6");
        reveal_strlit("7");
        reveal_strlit("8");
        reveal_strlit("9");
        reveal_strlit("a");
        reveal_strlit("b");
        reveal_strlit("c");
        reveal_strlit("d");
        reveal_strlit("e");
        reveal_strlit("f");
    }
    match d {
        0 => "0",
        1 => "1",
        2 => "2",
        3 => "3",
        4 => "4",
        5 => "5",
        6 => "6",
        7 => "7",
        8 => "8",
        9 => "9",
        10 => "a",
        11 => "b",
        12 => "c",
        13 => "d",
        14 => "e",
        _ => "f",
    }
}

/// The decimal text of a number.
pub fn int_text(n: i32) -> (r: String)
    ensures
        r@ == decimal_text(n as int),
{
    let negative = n < 0;
    let m: u32 = if negative {
        (0i64 - n as i64) as u32
    } else {
        n as u32
    };
    let mut q: u32 = m;
    let mut acc = String::new();
    while q >= 10
        invariant
            decimal_text(m as int) == decimal_text(q as int) + acc@,
        decreases q,
    {
        let d = q % 10;
        let ghost old_acc = acc@;
        acc = String::from_str(digit_text(d)).concat(acc.as_str());
        proof {
            assert(decimal_text(q as int) == decimal_text(q as int / 10) + seq![
                digit_char(q as int % 10),
            ]);
            assert(decimal_text(q as int / 10) + seq![digit_char(q as int % 10)] + old_acc
                =~= decimal_text(q as int / 10) + acc@);
        }
        q = q / 10;
    }
    acc = String::from_str(digit_text(q)).concat(acc.as_str());
    if negative {
        proof {
            reveal_strlit("-");
        }
        String::from_str("-").concat(acc.as_str())
    } else {
        acc
    }
}

/// How a character stands inside the quoted debug form of a string:
/// quotes, backslashes and control characters are escaped.
pub open spec fn escaped_char(c: char) -> Seq<char> {
    if c == '"' {
        seq!['\\', '"']
    } else if c == '\\' {
        seq!['\\', '\\']
    } else if c == '\n' {
        seq!['\\', 'n']
    } else if c == '\r' {
        seq!['\\', 'r']
    } else if c == '\t' {
        seq!['\\', 't']
    } else if c == '\0' {
        seq!['\\', '0']
    } else if (c as u32) < 0x20 || c as u32 == 0x7f {
        seq!['\\', 'u', '{'] + hex_text(c as u32 as int) + seq!['}']
    } else {
        seq![c]
    }
}

/// The lowercase hexadecimal text of a number below 256, without leading zeros.
pub open spec fn hex_text(v: int) -> Seq<char> {
    if v < 16 {
        seq![hex_char(v)]
    } else {
        seq![hex_char(v / 16), hex_char(v % 16)]
    }
}

/// A string with each character escaped.
pub open spec fn escaped(s: Seq<char>) -> Seq<char>
    decreases s.len(),
{
    if s.len() == 0 {
        Seq::empty()
    } else {
        escaped(s.drop_last()) + escaped_char(s.last())
    }
}

/// The debug form of a string: escaped, between double quotes.
pub open spec fn quoted(s: Seq<char>) -> Seq<char> {
    seq!['"'] + escaped(s) + seq!['"']
}

fn escape_char(s: &str, i: usize) -> (r: String)
    requires
        i < s@.len(),
        s@.len() <= usize::MAX,
    ensures
        r@ == escaped_char(s@[i as int]),
{
    let c = s.get_char(i);
    proof {
        reveal_strlit("\\\"");
        reveal_strlit("\\\\");
        reveal_strlit("\\n");
        reveal_strlit("\\r");
        reveal_strlit("\\t");
        reveal_strlit("\\0");
        reveal_strlit("\\u{");
        reveal_strlit("}");
    }
    if c == '"' {
        String::from_str("\\\"")
    } else if c == '\\' {
        String::from_str("\\\\")
    } else if c == '\n' {
        String::from_str("\\n")
    } else if c == '\r' {
        String::from_str("\\r")
    } else if c == '\t' {
        String::from_str("\\t")
    } else if c == '\0' {
        String::from_str("\\0")
    } else if (c as u32) < 0x20 || c as u32 == 0x7f {
        let v = c as u32;
        let hex = if v < 16 {
            String::from_str(digit_text(v))
        } else {
            String::from_str(digit_text(v / 16)).concat(digit_text(v % 16))
        };
        proof {
            assert(hex@ =~= hex_text(v as int));
        }
        let r = String::from_str("\\u{").concat(hex.as_str()).concat("}");
        proof {
            assert(r@ =~= seq!['\\', 'u', '{'] + hex_text(v as int) + seq!['}']);
        }
        r
    } else {
        let r = String::from_str(s.substring_char(i, i + 1));
        proof {
            assert(r@ =~= seq![c]);
        }
        r
    }
}

/// The debug form of a string, as `{:?}` writes a plain text.
pub fn quote(s: &str) -> (r: String)
    ensures
        r@ == quoted(s@),
{
    let n = s.unicode_len();
    let mut acc = String::new();
    let mut i: usize = 0;
    while i < n
        invariant
            n == s@.len(),
            i <= n,
            acc@ == escaped(s@.subrange(0, i as int)),
        decreases n - i,
    {
        let e = escape_char(s, i);
        let ghost old_acc = acc@;
        acc = acc.concat(e.as_str());
        proof {
            let t = s@.subrange(0, i + 1);
            assert(t.drop_last() =~= s@.subrange(0, i as int));
            assert(t.last() == s@[i as int]);
        }
        i = i + 1;
    }
    proof {
        reveal_strlit("\"");
        assert(s@.subrange(0, n as int) =~= s@);
    }
    let r = String::from_str("\"").concat(acc.as_str()).concat("\"");
    proof {
        assert(r@ =~= quoted(s@));
    }
    r
}

/// The common part of every answer of the service: `code` is 0 on success.
#[derive(Debug, Clone)]
pub struct CommonResponse {
    pub code: i32,
    pub msg: String,
}

impl CommonResponse {
    /// The debug form: `CommonResponse { code: <code>, msg: "<msg>" }`.
    pub open spec fn debug_form(&self) -> Seq<char> {
        "CommonResponse { code: "@ + decimal_text(self.code as int) + ", msg: "@ + quoted(self.msg@)
            + " }"@
    }

    pub fn debug_text(&self) -> (r: String)
        ensures
            r@ == self.debug_form(),
    {
        String::from_str("CommonResponse { code: ").concat(int_text(self.code).as_str()).concat(
            ", msg: ",
        ).concat(quote(self.msg.as_str()).as_str()).concat(" }")
    }

    /// The printed form: `code: <code>,  msg: <msg>`.
    pub open spec fn describe(&self) -> Seq<char> {
        "code: "@ + decimal_text(self.code as int) + ",  msg: "@ + self.msg@
    }

    pub fn to_string(&self) -> (r: String)
        ensures
            r@ == self.describe(),
    {
        String::from_str("code: ").concat(int_text(self.code).as_str()).concat(",  msg: ").concat(
            self.msg.as_str(),
        )
    }
}

/// An answer of the service with a 4xx or 5xx status.
#[derive(Debug, Clone)]
pub struct ServiceError {
    /// The HTTP status, such as 404.
    pub status_code: i32,
    /// The `Request-ID` header of the answer; empty when it had none.
    pub request_id: String,
    /// The decoded error body.
    pub resp: CommonResponse,
    /// The symbolic name of `resp.code`.
    pub server_code: ServerErrorCode,
}

impl ServiceError {
    /// The printed form.
    pub open spec fn describe(&self) -> Seq<char> {
        "status_code: "@ + decimal_text(self.status_code as int) + ", request_id: "@
            + self.request_id@ + ", msg: "@ + self.resp.debug_form() + ", server_code: "@
            + self.server_code.name_spec()
    }

    pub fn to_string(&self) -> (r: String)
        ensures
            r@ == self.describe(),
    {
        String::from_str("status_code: ").concat(int_text(self.status_code).as_str()).concat(
            ", request_id: ",
        ).concat(self.request_id.as_str()).concat(", msg: ").concat(
            self.resp.debug_text().as_str(),
        ).concat(", server_code: ").concat(self.server_code.name().as_str())
    }
}

} // verus!
