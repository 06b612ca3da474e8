use vstd::prelude::*;

use crate::text::joined;
use vstd::string::{StrSliceExecFns, StringExecFns};

verus! {

/// Severity of a log record.
#[derive(Debug, Clone, Copy, PartialEq, Eq, Structural)]
pub enum Level {
    Error,
    Info,
    Debug,
}

/// One message for the logging collaborator.
#[derive(Debug)]
pub struct Record {
    pub level: Level,
    pub message: String,
}

impl Record {
    /// A record of the given level that holds `message`.
    pub fn new(level: Level, message: &str) -> (r: Record)
        ensures
            r.level == level,
            r.message@ == message@,
    {
        Record { level, message: message.to_owned() }
    }
}

/// Number of error-level entries among `levels`.
pub open spec fn error_count(levels: Seq<Level>) -> nat
    decreases levels.len(),
{
    if levels.len() == 0 {
        0
    } else {
        error_count(levels.drop_last()) + if levels.last() == Level::Error {
            1nat
        } else {
            0nat
        }
    }
}

/// The record that the windowing library's error callback logs for `description`.
pub fn glfw_error_record(description: &str) -> (r: Record)
    ensures
        r.level == Level::Error,
        r.message@ == "glfw error: "@ + description@,
{
    Record { level: Level::Error, message: joined("glfw error: ", description) }
}

/// The decimal digits, in order.
pub open spec fn digit_chars() -> Seq<char> {
    "0123456789"@
}

/// Decimal text of `n`, without leading zeros.
pub open spec fn decimal(n: nat) -> Seq<char>
    decreases n,
{
    if n < 10 {
        digit_chars().subrange(n as int, n as int + 1)
    } else {
        decimal(n / 10) + digit_chars().subrange((n % 10) as int, (n % 10) as int + 1)
    }
}

/// `k` zeros.
pub open spec fn zeros(k: int) -> Seq<char> {
    Seq::new(if k > 0 { k as nat } else { 0 }, |_i: int| '0')
}

/// Decimal text of `n`, zero-padded on the left to at least `w` digits.
pub open spec fn padded(n: nat, w: nat) -> Seq<char> {
    zeros(w - decimal(n).len()) + decimal(n)
}

/// A year as `%Y` writes it: four digits, zero-padded, with a sign in front
/// when it lies outside 0 to 9999.
pub open spec fn year_text(y: int) -> Seq<char> {
    if 0 <= y < 10000 {
        padded(y as nat, 4)
    } else if y < 0 {
        "-"@ + padded((-y) as nat, 4)
    } else {
        "+"@ + padded(y as nat, 4)
    }
}

/// A moment written as `YYYY-MM-DD HH:MM:SS`.
pub open spec fn time_text(year: int, month: nat, day: nat, hour: nat, minute: nat, second: nat) -> Seq<char> {
    year_text(year) + "-"@ + padded(month, 2) + "-"@ + padded(day, 2) + " "@ + padded(hour, 2) + ":"@
        + padded(minute, 2) + ":"@ + padded(second, 2)
}

/// Decimal text of `n`.
fn decimal_text(n: u32) -> (r: String)
    ensures
        r@ == decimal(n as nat),
    decreases n,
{
    proof {
        reveal_strlit("0123456789");
    }
    let d = n % 10;
    let last = "0123456789".substring_char(d as usize, d as usize + 1);
    if n < 10 {
        String::from_str(last)
    } else {
        decimal_text(n / 10).concat(last)
    }
}

/// Decimal text of `n`, zero-padded on the left to at least `w` digits.
fn padded_text(n: u32, w: usize) -> (r: String)
    ensures
        r@ == padded(n as nat, w as nat),
{
    let digits = decimal_text(n);
    let len = digits.as_str().unicode_len();
    let mut out = String::new();
    let mut k: usize = len;
    proof {
        reveal_strlit("0");
        assert(out@ =~= zeros(0));
    }
    while k < w
        invariant
            len == digits@.len(),
            len <= k,
            k <= w || k == len,
            out@ =~= zeros(k - len),
        decreases w - k,
    {
        out.append("0");
        proof {
            reveal_strlit("0");
            assert(out@ =~= zeros(k + 1 - len));
        }
        k = k + 1;
    }
    proof {
        assert(out@ =~= zeros(w - len));
    }
    out.concat(digits.as_str())
}

/// The text of a moment as log lines carry it, `YYYY-MM-DD HH:MM:SS`, from
/// its calendar fields.
pub fn format_time(year: i32, month: u32, day: u32, hour: u32, minute: u32, second: u32) -> (r: String)
    ensures
        r@ == time_text(year as int, month as nat, day as nat, hour as nat, minute as nat, second as nat),
{
    let magnitude: u32 = if year < 0 { (0i64 - year as i64) as u32 } else { year as u32 };
    let digits = padded_text(magnitude, 4);
    let y = if 0 <= year && year < 10000 {
        digits
    } else if year < 0 {
        joined("-", digits.as_str())
    } else {
        joined("+", digits.as_str())
    };
    y.concat("-").concat(padded_text(month, 2).as_str()).concat("-").concat(padded_text(day, 2).as_str())
        .concat(" ").concat(padded_text(hour, 2).as_str()).concat(":").concat(padded_text(minute, 2).as_str())
        .concat(":").concat(padded_text(second, 2).as_str())
}

} // verus!
