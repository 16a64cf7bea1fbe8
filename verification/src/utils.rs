//! Small helpers: URL schemes, human-readable sizes, and a plain error type.

use vstd::prelude::*;
use crate::browser::navigation::{parse_web_url, url_parse_failure, WebUrl, WebUrlView};
use crate::text::{concat, contains, contains_seq, decimal, has_prefix, starts_with, to_string, write_decimal};

verus! {

/// An error with a message.
#[derive(Debug)]
pub struct Error {
    message: String,
}

impl Error {
    /// An error with message `message`.
    pub fn new(message: String) -> (res: Self)
        ensures
            res.message() == message@,
    {
        Error { message }
    }

    /// The message.
    pub closed spec fn message(&self) -> Seq<char> {
        self.message@
    }

    /// The message, as text.
    pub fn to_string(&self) -> (res: String)
        ensures
            res@ == self.message(),
    {
        self.message.clone()
    }
}

/// `url` with `https://` put in front unless it starts with `http://` or
/// `https://`.
pub fn ensure_url_scheme(url: &str) -> (res: String)
    ensures
        res@ == if !has_prefix(url@, "http://"@) && !has_prefix(url@, "https://"@) {
            "https://"@ + url@
        } else {
            url@
        },
{
    if !starts_with(url, "http://") && !starts_with(url, "https://") {
        concat("https://", url)
    } else {
        to_string(url)
    }
}

/// The text that is parsed as a URL: `url` with `http://` put in front when it
/// has no `://`.
pub open spec fn url_with_scheme(url: Seq<char>) -> Seq<char> {
    if !contains_seq(url, "://"@) {
        "http://"@ + url
    } else {
        url
    }
}

/// Parses `url`, taking `http` where no scheme is written.
pub fn parse_url(url: &str) -> (res: Result<WebUrl, String>)
    ensures
        match url_parse_failure(url_with_scheme(url@)) {
            None => res is Ok,
            Some(m) => res matches Err(e) && e@ == "Invalid URL: "@ + m,
        },
        res matches Ok(u) ==> u@ == crate::browser::navigation::web_url_of(url_with_scheme(url@)),
{
    let text = if !contains(url, "://") {
        concat("http://", url)
    } else {
        to_string(url)
    };
    match parse_web_url(text.as_str()) {
        Ok(u) => Ok(u),
        Err(e) => Err(concat("Invalid URL: ", e.as_str())),
    }
}

/// `1024` to the power `k`.
pub open spec fn pow1024(k: nat) -> nat
    decreases k,
{
    if k == 0 {
        1
    } else {
        1024 * pow1024((k - 1) as nat)
    }
}

/// The unit a size is shown in: the largest of bytes, kilobytes, megabytes,
/// gigabytes and terabytes that the size reaches, starting from `k`.
pub open spec fn unit_from(size: nat, k: nat) -> nat
    decreases 4 - k,
{
    if k < 4 && size >= pow1024(k + 1) {
        unit_from(size, k + 1)
    } else {
        k
    }
}

/// The name of unit `k`.
pub open spec fn unit_name(k: nat) -> Seq<char> {
    if k == 0 {
        "B"@
    } else if k == 1 {
        "KB"@
    } else if k == 2 {
        "MB"@
    } else if k == 3 {
        "GB"@
    } else {
        "TB"@
    }
}

/// `size` in tenths of unit `k`, rounded to the nearest, ties to even.
pub open spec fn tenths(size: nat, k: nat) -> nat {
    let num = 10 * size;
    let d = pow1024(k);
    let q = num / d;
    let r = num % d;
    if 2 * r > d || (2 * r == d && q % 2 == 1) {
        q + 1
    } else {
        q
    }
}

/// A size as people read it: whole bytes below a kilobyte, else one decimal
/// of the largest unit it reaches.
pub open spec fn size_text(size: nat) -> Seq<char> {
    let k = unit_from(size, 0);
    if k == 0 {
        decimal(size) + " B"@
    } else {
        let t = tenths(size, k);
        decimal(t / 10) + "."@ + decimal(t % 10) + " "@ + unit_name(k)
    }
}

proof fn lemma_pow1024_values()
    ensures
        pow1024(0) == 1,
        pow1024(1) == 1024,
        pow1024(2) == 1048576,
        pow1024(3) == 1073741824,
        pow1024(4) == 1099511627776,
{
    reveal_with_fuel(pow1024, 5);
}

/// Formats a size in bytes for people: `512 B`, `1.5 KB`, `2.0 GB`.
pub fn format_size(size: u64) -> (res: String)
    ensures
        res@ == size_text(size as nat),
{
    proof {
        lemma_pow1024_values();
        reveal_with_fuel(unit_from, 5);
    }
    let mut unit: u64 = 0;
    let mut scale: u64 = 1;
    while unit < 4 && size / 1024 >= scale
        invariant
            unit <= 4,
            scale == pow1024(unit as nat),
            unit_from(size as nat, 0) == unit_from(size as nat, unit as nat),
            pow1024(0) == 1,
            pow1024(1) == 1024,
            pow1024(2) == 1048576,
            pow1024(3) == 1073741824,
            pow1024(4) == 1099511627776,
        decreases 4 - unit,
    {
        assert(size / 1024 >= scale <==> size >= 1024 * scale) by (nonlinear_arith);
        assert(pow1024(unit as nat + 1) == 1024 * pow1024(unit as nat));
        scale = scale * 1024;
        unit = unit + 1;
    }
    proof {
        assert(size / 1024 >= scale <==> size >= 1024 * scale) by (nonlinear_arith);
        if unit < 4 {
            assert(pow1024(unit as nat + 1) == 1024 * pow1024(unit as nat));
        }
    }
    let mut out = String::new();
    if unit == 0 {
        write_decimal(&mut out, size);
        out.append(" B");
        return out;
    }
    let num: u128 = 10 * (size as u128);
    let d: u128 = scale as u128;
    let q: u128 = num / d;
    let r: u128 = num % d;
    let t: u128 = if 2 * r > d || (2 * r == d && q % 2 == 1) {
        q + 1
    } else {
        q
    };
    assert(t / 10 <= u64::MAX) by (nonlinear_arith)
        requires
            t <= q + 1,
            q == num / d,
            num == 10 * size,
            d >= 1,
            size <= u64::MAX,
    ;
    write_decimal(&mut out, (t / 10) as u64);
    out.append(".");
    write_decimal(&mut out, (t % 10) as u64);
    out.append(" ");
    let name = if unit == 1 {
        "KB"
    } else if unit == 2 {
        "MB"
    } else if unit == 3 {
        "GB"
    } else {
        "TB"
    };
    out.append(name);
    out
}

} // verus!
