//! Password hashing with several schemes. A stored password reads
//! `#<scheme>#<hashed>`; validation names the scheme that was used and says
//! whether it is outdated.
pub mod scheme;

use crate::pwd::scheme::{
    default_scheme, get_scheme, spec_scheme_hash, Scheme, argon2id_default_prefix, spec_scheme_validate, SchemeError,
    SchemeErrorV, SchemeStatus, argon2_max_len, hmac_sha512,
};
use crate::b64::b64u_text;
use crate::text::str_chars;
use vstd::utf8::encode_utf8;
use vstd::prelude::*;
use vstd::string::*;

verus! {

/// The content to hash: the clear password and its salt (the 16 bytes of a
/// UUID).
pub struct ContentToHash {
    pub content: String,
    pub salt: [u8; 16],
}

/// Errors of password hashing and validation.
#[derive(Debug)]
pub enum Error {
    KeyFail,
    NotMatching,
    PwdWithSchemeFailedParse,
    Scheme(SchemeError),
}

/// The mathematical value of an `Error`.
pub enum ErrorV {
    KeyFail,
    NotMatching,
    PwdWithSchemeFailedParse,
    Scheme(SchemeErrorV),
}

impl View for Error {
    type V = ErrorV;

    open spec fn view(&self) -> ErrorV {
        match self {
            Error::KeyFail => ErrorV::KeyFail,
            Error::NotMatching => ErrorV::NotMatching,
            Error::PwdWithSchemeFailedParse => ErrorV::PwdWithSchemeFailedParse,
            Error::Scheme(e) => ErrorV::Scheme(e@),
        }
    }
}

/// The view of a result of this module.
pub open spec fn result_view<T, V>(r: Result<T, Error>, f: spec_fn(T) -> V) -> Result<V, ErrorV> {
    match r {
        Ok(t) => Ok(f(t)),
        Err(e) => Err(e@),
    }
}

// ---- the stored form `#<scheme>#<hashed>`

/// An ASCII word character: a letter, a digit or the underscore.
pub open spec fn is_ascii_word_char(c: char) -> bool {
    ('a' <= c && c <= 'z') || ('A' <= c && c <= 'Z') || ('0' <= c && c <= '9') || c == '_'
}

/// Whether `regex_syntax::is_word_character` counts `c` as a word character
/// (its Unicode table of `\w`: alphabetic characters, marks, decimal
/// digits, connector punctuation and join controls).
pub uninterp spec fn unicode_word_char(c: char) -> bool;

/// A character of the regular-expression class `\w` in its Unicode form. On
/// ASCII it is a letter, a digit or the underscore.
pub open spec fn is_word_char(c: char) -> bool {
    if c <= '\u{7f}' {
        is_ascii_word_char(c)
    } else {
        unicode_word_char(c)
    }
}

/// Calls `regex_syntax::is_word_character`, the test behind `\w` in the
/// `regex` crate. Its result is named by `unicode_word_char`; on ASCII the
/// source answers by `is_word_byte` and its table holds no other ASCII
/// character, so there it is a letter, a digit or `_`.
/// It panics only when the crate's `unicode-perl` feature is off, and that
/// feature is on.
#[verifier::external_body]
fn is_regex_word_char(c: char) -> (res: bool)
    ensures
        res == unicode_word_char(c),
        c <= '\u{7f}' ==> res == is_ascii_word_char(c),
{
    regex_syntax::is_word_character(c)
}

/// The number of word characters at the start of `s`.
pub open spec fn word_run(s: Seq<char>) -> nat
    decreases s.len(),
{
    if s.len() > 0 && is_word_char(s[0]) {
        1 + word_run(s.drop_first())
    } else {
        0
    }
}

/// The part of `s` before its first line break (all of `s` if it has none).
pub open spec fn line_head(s: Seq<char>) -> Seq<char>
    decreases s.len(),
{
    if s.len() == 0 {
        s
    } else if s[0] == '\n' {
        Seq::empty()
    } else {
        seq![s[0]] + line_head(s.drop_first())
    }
}

/// The scheme name and hashed part of a stored password, as the pattern
/// `^#(\w+)#(.*)` captures them: `#`, one or more word characters, `#`,
/// then the rest of the first line.
pub open spec fn spec_pwd_parts(s: Seq<char>) -> Option<(Seq<char>, Seq<char>)> {
    if s.len() > 0 && s[0] == '#' {
        let r = s.drop_first();
        let n = word_run(r);
        if 0 < n && n < r.len() && r[n as int] == '#' {
            Some((r.take(n as int), line_head(r.skip(n + 1int))))
        } else {
            None
        }
    } else {
        None
    }
}

/// The stored form of a password hashed with scheme `name`.
pub open spec fn stored_form(name: Seq<char>, hashed: Seq<char>) -> Seq<char> {
    seq!['#'] + name + seq!['#'] + hashed
}

proof fn lemma_word_run(s: Seq<char>, n: nat)
    requires
        n <= s.len(),
        forall|j: int| 0 <= j < n ==> is_word_char(#[trigger] s[j]),
        n == s.len() || !is_word_char(s[n as int]),
    ensures
        word_run(s) == n,
    decreases n,
{
    if n > 0 {
        assert forall|j: int| 0 <= j < n - 1 implies is_word_char(#[trigger] s.drop_first()[j]) by {
            assert(s.drop_first()[j] == s[j + 1]);
        }
        lemma_word_run(s.drop_first(), (n - 1) as nat);
    }
}

proof fn lemma_line_head(s: Seq<char>, n: nat)
    requires
        n <= s.len(),
        forall|j: int| 0 <= j < n ==> #[trigger] s[j] != '\n',
        n == s.len() || s[n as int] == '\n',
    ensures
        line_head(s) == s.take(n as int),
    decreases n,
{
    if n > 0 {
        assert forall|j: int| 0 <= j < n - 1 implies #[trigger] s.drop_first()[j] != '\n' by {
            assert(s.drop_first()[j] == s[j + 1]);
        }
        lemma_line_head(s.drop_first(), (n - 1) as nat);
        assert(s.take(n as int) =~= seq![s[0]] + s.drop_first().take(n - 1));
    } else if s.len() == 0 {
        assert(s.take(0) =~= s);
    } else {
        assert(s.take(0) =~= Seq::<char>::empty());
    }
}

/// A text with no line break is its own first line.
pub proof fn lemma_line_head_whole(s: Seq<char>)
    requires
        !s.contains('\n'),
    ensures
        line_head(s) == s,
{
    assert forall|j: int| 0 <= j < s.len() implies #[trigger] s[j] != '\n' by {
        if s[j] == '\n' {
            assert(s.contains('\n'));
        }
    }
    lemma_line_head(s, s.len());
    assert(s.take(s.len() as int) =~= s);
}

/// Reading the stored form of a word-character scheme name and a hashed
/// text without line break gives both back.
pub proof fn lemma_stored_form_parts(name: Seq<char>, hashed: Seq<char>)
    requires
        name.len() > 0,
        forall|i: int| 0 <= i < name.len() ==> is_word_char(#[trigger] name[i]),
        !hashed.contains('\n'),
    ensures
        spec_pwd_parts(stored_form(name, hashed)) == Some((name, hashed)),
{
    let s = stored_form(name, hashed);
    let r = s.drop_first();
    assert(r =~= name + seq!['#'] + hashed);
    assert forall|j: int| 0 <= j < name.len() implies is_word_char(#[trigger] r[j]) by {
        assert(r[j] == name[j]);
    }
    assert(r[name.len() as int] == '#');
    lemma_word_run(r, name.len());
    assert(r.take(name.len() as int) =~= name);
    assert(r.skip(name.len() + 1int) =~= hashed);
    lemma_line_head_whole(hashed);
}

/// The parts of a stored password.
pub struct PwdParts {
    /// The scheme only.
    pub scheme_name: String,
    /// The hashed password.
    pub hashed: String,
}

impl PwdParts {
    /// Reads `#<scheme>#<hashed>`; anything else is
    /// `PwdWithSchemeFailedParse`.
    pub fn from_str(pwd_with_scheme: &str) -> (res: Result<PwdParts, Error>)
        ensures
            match spec_pwd_parts(pwd_with_scheme@) {
                Some((name, hashed)) => (res matches Ok(p) && p.scheme_name@ == name && p.hashed@ == hashed),
                None => (res matches Err(e) && e@ == ErrorV::PwdWithSchemeFailedParse),
            },
    {
        let cs = str_chars(pwd_with_scheme);
        let len = cs.len();
        if len == 0 || cs[0] != '#' {
            return Err(Error::PwdWithSchemeFailedParse);
        }
        let ghost s = pwd_with_scheme@;
        let ghost r = s.drop_first();
        // scheme name: word characters from index 1
        let mut i: usize = 1;
        while i < len && is_regex_word_char(cs[i])
            invariant
                1 <= i <= len,
                len == cs@.len(),
                cs@ == s,
                r == s.drop_first(),
                forall|j: int| 0 <= j < i - 1 ==> is_word_char(#[trigger] r[j]),
            decreases len - i,
        {
            assert(r[i - 1] == s[i as int]);
            i = i + 1;
        }
        proof {
            if i < len {
                assert(r[i - 1] == s[i as int]);
            }
            lemma_word_run(r, (i - 1) as nat);
        }
        if i == 1 || i >= len || cs[i] != '#' {
            proof {
                if i < len {
                    assert(r[i - 1] == s[i as int]);
                }
            }
            return Err(Error::PwdWithSchemeFailedParse);
        }
        assert(r[i - 1] == s[i as int]);
        // hashed part: up to the first line break
        let start = i + 1;
        let mut k: usize = start;
        while k < len && cs[k] != '\n'
            invariant
                start <= k <= len,
                len == cs@.len(),
                cs@ == s,
                forall|j: int| start <= j < k ==> #[trigger] s[j] != '\n',
            decreases len - k,
        {
            k = k + 1;
        }
        let ghost tail = r.skip(i as int);
        proof {
            assert forall|j: int| 0 <= j < k - start implies #[trigger] tail[j] != '\n' by {
                assert(tail[j] == s[start + j]);
            }
            if k < len {
                assert(tail[k - start] == s[k as int]);
            }
            lemma_line_head(tail, (k - start) as nat);
        }
        let scheme_name = String::from_str(pwd_with_scheme.substring_char(1, i));
        let hashed = String::from_str(pwd_with_scheme.substring_char(start, k));
        assert(scheme_name@ =~= r.take(i - 1));
        assert(hashed@ =~= tail.take(k - start));
        Ok(PwdParts { scheme_name, hashed })
    }
}

// ---- hashing and validation

/// The stored form that hashing with scheme `name` gives.
pub open spec fn spec_hash_for_scheme(name: Seq<char>, key: Seq<u8>, content: Seq<char>, salt: Seq<u8>) -> Result<Seq<char>, ErrorV> {
    match spec_scheme_hash(name, key, content, salt) {
        Ok(h) => Ok(stored_form(name, h)),
        Err(e) => Err(ErrorV::Scheme(e)),
    }
}

/// The answer of validating `content` with `salt` against the stored
/// password `pwd_ref`.
pub open spec fn spec_validate_pwd(key: Seq<u8>, content: Seq<char>, salt: Seq<u8>, pwd_ref: Seq<char>) -> Result<SchemeStatus, ErrorV> {
    match spec_pwd_parts(pwd_ref) {
        None => Err(ErrorV::PwdWithSchemeFailedParse),
        Some((name, hashed)) => match spec_scheme_validate(name, key, content, salt, hashed) {
            Err(e) => Err(ErrorV::Scheme(e)),
            Ok(_) => Ok(if name == default_scheme() { SchemeStatus::Current } else { SchemeStatus::Outdated }),
        },
    }
}

/// The status that validation reports for a password stored with scheme
/// `name`.
pub open spec fn status_of(name: Seq<char>) -> SchemeStatus {
    if name == default_scheme() { SchemeStatus::Current } else { SchemeStatus::Outdated }
}

/// Hashes `to_hash` with the scheme called `scheme_name` and gives the
/// stored form `#<scheme_name>#<hashed>`. A stored form obtained so
/// validates against the same content, with the status of that scheme.
pub fn hash_for_scheme(key: &[u8], scheme_name: &str, to_hash: &ContentToHash) -> (res: Result<String, Error>)
    requires
        key@.len() <= argon2_max_len(),
    ensures
        result_view(res, |s: String| s@) == spec_hash_for_scheme(scheme_name@, key@, to_hash.content@, to_hash.salt@),
        res matches Ok(h) ==> spec_validate_pwd(key@, to_hash.content@, to_hash.salt@, h@) == Ok::<SchemeStatus, ErrorV>(status_of(scheme_name@)),
        scheme_name@ == default_scheme() ==> (res matches Ok(h) ==> (seq!['#'] + default_scheme() + seq!['#'] + argon2id_default_prefix()).is_prefix_of(h@)),
        scheme_name@ == seq!['0', '1'] ==> (res matches Ok(h)
            && h@ == seq!['#', '0', '1', '#'] + b64u_text(hmac_sha512(key@, encode_utf8(to_hash.content@) + to_hash.salt@))),
{
    let scheme = match get_scheme(scheme_name) {
        Ok(s) => s,
        Err(e) => { return Err(Error::Scheme(e)); },
    };
    let pwd_hashed = match scheme.hash(key, to_hash) {
        Ok(h) => h,
        Err(e) => { return Err(Error::Scheme(e)); },
    };
    proof { reveal_strlit("#"); }
    let mut out = String::from_str("#");
    out.append(scheme_name);
    out.append("#");
    out.append(pwd_hashed.as_str());
    proof {
        assert(out@ =~= stored_form(scheme_name@, pwd_hashed@));
        let name = scheme_name@;
        assert(name == scheme.scheme_name());
        assert forall|i: int| 0 <= i < name.len() implies is_word_char(#[trigger] name[i]) by {}
        lemma_stored_form_parts(name, pwd_hashed@);
        if name == default_scheme() {
            let pre = seq!['#'] + default_scheme() + seq!['#'] + argon2id_default_prefix();
            assert(pre =~= seq!['#'] + name + seq!['#'] + argon2id_default_prefix());
            assert(pre =~= out@.take(pre.len() as int));
        }
    }
    Ok(out)
}

/// Hashes `to_hash` with the current scheme.
pub fn hash_pwd(key: &[u8], to_hash: &ContentToHash) -> (res: Result<String, Error>)
    requires
        key@.len() <= argon2_max_len(),
    ensures
        result_view(res, |s: String| s@) == spec_hash_for_scheme(default_scheme(), key@, to_hash.content@, to_hash.salt@),
        res matches Ok(h) ==> spec_validate_pwd(key@, to_hash.content@, to_hash.salt@, h@) == Ok::<SchemeStatus, ErrorV>(SchemeStatus::Current),
        res matches Ok(h) ==> (seq!['#', '0', '2', '#'] + argon2id_default_prefix()).is_prefix_of(h@),
{
    proof {
        reveal_strlit("02");
        assert("02"@ =~= default_scheme());
    }
    hash_for_scheme(key, "02", to_hash)
}

/// Checks `to_hash` against the stored password `pwd_ref` with the scheme
/// that `pwd_ref` names, and says whether that scheme is the current one.
pub fn validate_pwd(key: &[u8], to_hash: &ContentToHash, pwd_ref: &str) -> (res: Result<SchemeStatus, Error>)
    requires
        key@.len() <= argon2_max_len(),
    ensures
        result_view(res, |s: SchemeStatus| s) == spec_validate_pwd(key@, to_hash.content@, to_hash.salt@, pwd_ref@),
{
    let parts = PwdParts::from_str(pwd_ref)?;
    validate_for_scheme(key, parts.scheme_name.as_str(), to_hash, parts.hashed.as_str())?;
    let default_name = String::from_str("02");
    proof {
        reveal_strlit("02");
        assert("02"@ =~= default_scheme());
    }
    if parts.scheme_name == default_name {
        Ok(SchemeStatus::Current)
    } else {
        Ok(SchemeStatus::Outdated)
    }
}

fn validate_for_scheme(key: &[u8], scheme_name: &str, to_hash: &ContentToHash, pwd_ref: &str) -> (res: Result<(), Error>)
    requires
        key@.len() <= argon2_max_len(),
    ensures
        result_view(res, |u: ()| u) == (match spec_scheme_validate(scheme_name@, key@, to_hash.content@, to_hash.salt@, pwd_ref@) {
            Ok(u) => Ok(u),
            Err(e) => Err(ErrorV::Scheme(e)),
        }),
{
    let scheme = match get_scheme(scheme_name) {
        Ok(s) => s,
        Err(e) => { return Err(Error::Scheme(e)); },
    };
    match scheme.validate(key, to_hash, pwd_ref) {
        Ok(()) => Ok(()),
        Err(e) => Err(Error::Scheme(e)),
    }
}

/// Argon2id validation reads the salt from the stored text: the salt given
/// with the content plays no part for a password stored with scheme `02`.
pub proof fn lemma_scheme02_ignores_given_salt(key: Seq<u8>, content: Seq<char>, salt1: Seq<u8>, salt2: Seq<u8>, pwd_ref: Seq<char>)
    requires
        spec_pwd_parts(pwd_ref) matches Some((name, _)) && name == default_scheme(),
    ensures
        spec_validate_pwd(key, content, salt1, pwd_ref) == spec_validate_pwd(key, content, salt2, pwd_ref),
{
}

} // verus!
