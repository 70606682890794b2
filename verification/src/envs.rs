//! Reading configuration values from a snapshot of the process environment.
use crate::b64::{b64u_bytes, b64u_decode};
use crate::text::str_chars;
use vstd::prelude::*;

verus! {

/// The environment variables, as name/value pairs in the order the process
/// lists them.
pub struct EnvVars {
    pub vars: Vec<(String, String)>,
}

impl View for EnvVars {
    type V = Seq<(Seq<char>, Seq<char>)>;

    open spec fn view(&self) -> Seq<(Seq<char>, Seq<char>)> {
        self.vars@.map_values(|p: (String, String)| (p.0@, p.1@))
    }
}

/// Errors of reading the environment.
#[derive(Debug)]
pub enum EnvError {
    MissingEnv(String),
    WrongFormat(String),
}

/// The mathematical value of an `EnvError`.
pub enum EnvErrorV {
    MissingEnv(Seq<char>),
    WrongFormat(Seq<char>),
}

impl View for EnvError {
    type V = EnvErrorV;

    open spec fn view(&self) -> EnvErrorV {
        match self {
            EnvError::MissingEnv(n) => EnvErrorV::MissingEnv(n@),
            EnvError::WrongFormat(n) => EnvErrorV::WrongFormat(n@),
        }
    }
}

/// The value of the first variable called `name`.
pub open spec fn env_lookup(vars: Seq<(Seq<char>, Seq<char>)>, name: Seq<char>) -> Option<Seq<char>>
    decreases vars.len(),
{
    if vars.len() == 0 {
        None
    } else if vars[0].0 == name {
        Some(vars[0].1)
    } else {
        env_lookup(vars.drop_first(), name)
    }
}

/// The value of `name`, or `MissingEnv(name)`.
pub open spec fn spec_get_env(vars: Seq<(Seq<char>, Seq<char>)>, name: Seq<char>) -> Result<Seq<char>, EnvErrorV> {
    match env_lookup(vars, name) {
        Some(v) => Ok(v),
        None => Err(EnvErrorV::MissingEnv(name)),
    }
}

/// The value of `name` read as base64url (no padding), or the error.
pub open spec fn spec_get_env_b64u(vars: Seq<(Seq<char>, Seq<char>)>, name: Seq<char>) -> Result<Seq<u8>, EnvErrorV> {
    match spec_get_env(vars, name) {
        Err(e) => Err(e),
        Ok(v) => match b64u_bytes(v) {
            Some(b) => Ok(b),
            None => Err(EnvErrorV::WrongFormat(name)),
        },
    }
}

/// The value of `name` read as an `i64`, or the error.
pub open spec fn spec_get_env_i64(vars: Seq<(Seq<char>, Seq<char>)>, name: Seq<char>) -> Result<int, EnvErrorV> {
    match spec_get_env(vars, name) {
        Err(e) => Err(e),
        Ok(v) => match spec_parse_i64(v) {
            Some(n) => Ok(n),
            None => Err(EnvErrorV::WrongFormat(name)),
        },
    }
}

/// The value of the environment variable `name`.
pub fn get_env(env: &EnvVars, name: &str) -> (res: Result<String, EnvError>)
    ensures
        match spec_get_env(env@, name@) {
            Ok(v) => (res matches Ok(s) && s@ == v),
            Err(e) => (res matches Err(r) && r@ == e),
        },
{
    let key = String::from_str(name);
    let mut i: usize = 0;
    assert(env@.skip(0) =~= env@);
    while i < env.vars.len()
        invariant
            0 <= i <= env.vars@.len(),
            key@ == name@,
            env_lookup(env@, name@) == env_lookup(env@.skip(i as int), name@),
        decreases env.vars@.len() - i,
    {
        proof {
            assert(env@.skip(i as int).drop_first() =~= env@.skip(i + 1));
            assert(env@.skip(i as int)[0] == env@[i as int]);
        }
        if env.vars[i].0 == key {
            return Ok(env.vars[i].1.clone());
        }
        i = i + 1;
    }
    Err(EnvError::MissingEnv(key))
}

// ---- decimal integers, as `str::parse::<i64>` reads them

/// An ASCII decimal digit.
pub open spec fn is_digit(c: char) -> bool {
    '0' <= c && c <= '9'
}

/// The value of a string of decimal digits.
pub open spec fn digits_value(s: Seq<char>) -> nat
    decreases s.len(),
{
    if s.len() == 0 {
        0
    } else {
        digits_value(s.drop_last()) * 10 + ((s.last() as nat) - ('0' as nat)) as nat
    }
}

/// Whether every character of `s` is an ASCII digit.
pub open spec fn all_digits(s: Seq<char>) -> bool {
    forall|i: int| 0 <= i < s.len() ==> is_digit(#[trigger] s[i])
}

/// The digits part of a signed decimal: `s` without its leading sign.
pub open spec fn unsigned_part(s: Seq<char>) -> Seq<char> {
    if s.len() > 0 && (s[0] == '-' || s[0] == '+') { s.drop_first() } else { s }
}

/// The integer that `str::parse::<i64>` reads from `s`: an optional `+` or
/// `-`, then one or more ASCII digits, within the range of `i64`.
pub open spec fn spec_parse_i64(s: Seq<char>) -> Option<int> {
    let neg = s.len() > 0 && s[0] == '-';
    let body = unsigned_part(s);
    if body.len() == 0 || !all_digits(body) {
        None
    } else {
        let v: int = if neg { -(digits_value(body) as int) } else { digits_value(body) as int };
        if i64::MIN <= v && v <= i64::MAX {
            Some(v)
        } else {
            None
        }
    }
}

/// Reads a decimal `i64` as `str::parse::<i64>` does.
pub fn parse_i64(s: &str) -> (res: Option<i64>)
    ensures
        match spec_parse_i64(s@) {
            Some(v) => res == Some(v as i64),
            None => res is None,
        },
{
    let cs = str_chars(s);
    let len = cs.len();
    let neg = len > 0 && cs[0] == '-';
    let start: usize = if len > 0 && (cs[0] == '-' || cs[0] == '+') { 1 } else { 0 };
    let ghost body = s@.skip(start as int);
    proof {
        if start == 1 {
            assert(body =~= s@.drop_first());
        } else {
            assert(body =~= s@);
        }
    }
    if start == len {
        assert(body.len() == 0);
        return None;
    }
    let mut i: usize = start;
    while i < len
        invariant
            start <= i <= len,
            len == cs@.len(),
            cs@ == s@,
            body == s@.skip(start as int),
            body == unsigned_part(s@),
            neg == (s@.len() > 0 && s@[0] == '-'),
            forall|j: int| 0 <= j < i - start ==> is_digit(#[trigger] body[j]),
        decreases len - i,
    {
        if !('0' <= cs[i] && cs[i] <= '9') {
            assert(body[i - start] == s@[i as int]);
            assert(!is_digit(body[i - start]));
            assert(!(forall|j: int| 0 <= j < body.len() ==> is_digit(#[trigger] body[j])));
            assert(!all_digits(body));
            return None;
        }
        assert(body[i - start] == s@[i as int]);
        i = i + 1;
    }
    // saturate the magnitude just above 2^63
    let cap: i128 = 9223372036854775809;
    let mut acc: i128 = 0;
    let mut k: usize = start;
    while k < len
        invariant
            start <= k <= len,
            len == cs@.len(),
            cs@ == s@,
            body == s@.skip(start as int),
            body == unsigned_part(s@),
            neg == (s@.len() > 0 && s@[0] == '-'),
            forall|j: int| 0 <= j < body.len() ==> is_digit(#[trigger] body[j]),
            0 <= acc <= cap,
            cap == 9223372036854775809,
            acc == (if digits_value(body.take(k - start)) < cap { digits_value(body.take(k - start)) as int } else { cap as int }),
        decreases len - k,
    {
        let ghost pre = body.take(k - start);
        let ghost next = body.take(k - start + 1);
        proof {
            assert(body[k - start] == s@[k as int]);
            assert(is_digit(cs@[k as int]));
        }
        let d: i128 = (cs[k] as u32 - '0' as u32) as i128;
        proof {
            assert(next.drop_last() =~= pre);
            assert(next.last() == cs@[k as int]);
            assert(is_digit(body[k - start]));
        }
        let nacc = acc * 10 + d;
        acc = if nacc < cap { nacc } else { cap };
        proof {
            let x = digits_value(pre) as int;
            assert(digits_value(next) as int == x * 10 + d);
            if x >= cap {
                assert(x * 10 + d >= cap) by (nonlinear_arith)
                    requires x >= cap, d >= 0, cap > 0;
            }
        }
        k = k + 1;
    }
    proof {
        assert(body.take(len - start) =~= body);
    }
    if neg {
        if acc <= 9223372036854775808 {
            Some((-acc) as i64)
        } else {
            None
        }
    } else {
        if acc <= 9223372036854775807 {
            Some(acc as i64)
        } else {
            None
        }
    }
}

/// The value of `name` read as an `i64`.
pub fn get_env_parse(env: &EnvVars, name: &str) -> (res: Result<i64, EnvError>)
    ensures
        match spec_get_env_i64(env@, name@) {
            Ok(v) => res == Ok::<i64, EnvError>(v as i64),
            Err(e) => (res matches Err(r) && r@ == e),
        },
{
    let val = get_env(env, name)?;
    match parse_i64(val.as_str()) {
        Some(v) => Ok(v),
        None => Err(EnvError::WrongFormat(String::from_str(name))),
    }
}

/// The value of `name` decoded from base64url (no padding).
pub fn get_env_b64u_as_u8s(env: &EnvVars, name: &str) -> (res: Result<Vec<u8>, EnvError>)
    ensures
        match spec_get_env_b64u(env@, name@) {
            Ok(v) => (res matches Ok(b) && b@ == v),
            Err(e) => (res matches Err(r) && r@ == e),
        },
{
    let val = get_env(env, name)?;
    match b64u_decode(val.as_str()) {
        Some(b) => Ok(b),
        None => Err(EnvError::WrongFormat(String::from_str(name))),
    }
}

} // verus!
