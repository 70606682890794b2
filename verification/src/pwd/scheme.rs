//! The password hashing schemes: `01` (HMAC-SHA512, base64url text) and
//! `02` (Argon2id with a secret, PHC text). `02` is the current scheme.
use crate::b64::{b64u_encode, b64u_text, is_b64u_char};
use crate::pwd::ContentToHash;
use argon2::password_hash::SaltString;
use argon2::{Algorithm, Argon2, Params, PasswordHash, PasswordHasher, PasswordVerifier, Version};
use hmac::{Hmac, Mac};
use sha2::Sha512;
use vstd::prelude::*;
use vstd::utf8::encode_utf8;

verus! {

/// The name of the current scheme: passwords hashed with another scheme are
/// reported as outdated.
pub open spec fn default_scheme() -> Seq<char> {
    seq!['0', '2']
}

/// The name of the HMAC scheme.
pub open spec fn hmac_scheme() -> Seq<char> {
    seq!['0', '1']
}

/// Whether a stored password uses the current scheme.
#[derive(Debug, Clone, Copy, PartialEq, Eq, Structural)]
pub enum SchemeStatus {
    /// The password uses the latest scheme.
    Current,
    /// The password uses an older scheme.
    Outdated,
}

impl SchemeStatus {
    /// The text of the status: `Ok` for the current scheme, `Outdated`
    /// otherwise.
    pub fn to_string(&self) -> (res: String)
        ensures
            res@ == (match self {
                SchemeStatus::Current => seq!['O', 'k'],
                SchemeStatus::Outdated => seq!['O', 'u', 't', 'd', 'a', 't', 'e', 'd'],
            }),
    {
        match self {
            SchemeStatus::Current => {
                proof { reveal_strlit("Ok"); }
                String::from_str("Ok")
            },
            SchemeStatus::Outdated => {
                proof { reveal_strlit("Outdated"); }
                String::from_str("Outdated")
            },
        }
    }
}

/// Errors of the hashing schemes.
#[derive(Debug)]
pub enum SchemeError {
    Key,
    Salt,
    Hash,
    PwdValidate,
    SchemeNotFound(String),
}

/// The mathematical value of a `SchemeError`.
pub enum SchemeErrorV {
    Key,
    Salt,
    Hash,
    PwdValidate,
    SchemeNotFound(Seq<char>),
}

impl View for SchemeError {
    type V = SchemeErrorV;

    open spec fn view(&self) -> SchemeErrorV {
        match self {
            SchemeError::Key => SchemeErrorV::Key,
            SchemeError::Salt => SchemeErrorV::Salt,
            SchemeError::Hash => SchemeErrorV::Hash,
            SchemeError::PwdValidate => SchemeErrorV::PwdValidate,
            SchemeError::SchemeNotFound(s) => SchemeErrorV::SchemeNotFound(s@),
        }
    }
}

/// The view of a scheme result carrying a text.
pub open spec fn text_result_view(r: Result<String, SchemeError>) -> Result<Seq<char>, SchemeErrorV> {
    match r {
        Ok(s) => Ok(s@),
        Err(e) => Err(e@),
    }
}

/// The view of a scheme result carrying nothing.
pub open spec fn unit_result_view(r: Result<(), SchemeError>) -> Result<(), SchemeErrorV> {
    match r {
        Ok(_) => Ok(()),
        Err(e) => Err(e@),
    }
}

// ---- HMAC-SHA512 (scheme 01)

/// What HMAC-SHA512 keyed with `key` computes over `data`.
pub uninterp spec fn hmac_sha512(key: Seq<u8>, data: Seq<u8>) -> Seq<u8>;

/// Wraps `Hmac::<Sha512>::new_from_slice`, `update` and `finalize` of the
/// `hmac` and `sha2` crates. HMAC accepts a key of any length, so creating
/// the MAC never fails (the crate's `new_from_slice` for HMAC always returns
/// `Ok`); the result is named.
#[verifier::external_body]
fn hmac_sha512_bytes(key: &[u8], data: &[u8]) -> (res: Vec<u8>)
    ensures
        res@ == hmac_sha512(key@, data@),
{
    let mut mac = <Hmac<Sha512> as Mac>::new_from_slice(key).unwrap();
    mac.update(data);
    mac.finalize().into_bytes().to_vec()
}

/// The text that scheme 01 stores: the base64url text (no padding) of the
/// HMAC-SHA512, keyed with the password key, of the content's UTF-8 bytes
/// followed by the salt.
pub open spec fn scheme01_text(key: Seq<u8>, content: Seq<char>, salt: Seq<u8>) -> Seq<char> {
    b64u_text(hmac_sha512(key, encode_utf8(content) + salt))
}

// ---- Argon2id (scheme 02)

/// What `Argon2::hash_password` (Argon2id, version 0x13, default parameters,
/// keyed with `secret`) returns as PHC text for the password bytes `pwd` and
/// the salt bytes `salt`, when it succeeds.
pub uninterp spec fn argon2id_phc(secret: Seq<u8>, pwd: Seq<u8>, salt: Seq<u8>) -> Seq<char>;

/// Whether `PasswordHash::new` accepts `phc` as a PHC string.
pub uninterp spec fn phc_parses(phc: Seq<char>) -> bool;

/// Whether `Argon2::verify_password` (instance keyed with `secret`) accepts
/// the password bytes `pwd` against the parsed PHC string `phc`.
pub uninterp spec fn argon2id_accepts(secret: Seq<u8>, pwd: Seq<u8>, phc: Seq<char>) -> bool;

/// The start of the PHC text of Argon2id, version 0x13, with the default
/// parameters; the base64 salt and hash follow.
pub open spec fn argon2id_default_prefix() -> Seq<char> {
    "$argon2id$v=19$m=19456,t=2,p=1$"@
}

/// The largest password or secret, in bytes, that Argon2 takes.
pub open spec fn argon2_max_len() -> int {
    0xFFFF_FFFF
}

/// Wraps `SaltString::encode_b64` and `Argon2::hash_password` of the
/// `argon2` crate, with the instance built by `Argon2::new_with_secret`
/// (Argon2id, version 0x13, default parameters).
/// From the crate's source: `new_with_secret` fails only for a secret over
/// `0xFFFF_FFFF` bytes (left out by `requires`); a 16-byte salt always
/// encodes and is long enough; hashing fails only for a password over
/// `0xFFFF_FFFF` bytes; the PHC text is `$argon2id$v=19$m=19456,t=2,p=1$`
/// (algorithm, version and the default parameters in that order, as
/// `PasswordHash`'s `Display` and `ParamsString` write them) followed by the
/// B64 salt, `$` and the B64 hash, so it holds no line break; and verifying the
/// same password against it with the same secret recomputes the same output
/// and succeeds.
#[verifier::external_body]
fn argon2id_hash(secret: &[u8], pwd: &[u8], salt: &[u8; 16]) -> (res: Result<String, SchemeError>)
    requires
        secret@.len() <= argon2_max_len(),
    ensures
        res is Ok <==> pwd@.len() <= argon2_max_len(),
        res matches Ok(h) ==> h@ == argon2id_phc(secret@, pwd@, salt@),
        res matches Err(e) ==> e is Hash,
        res matches Ok(h) ==> phc_parses(h@) && argon2id_accepts(secret@, pwd@, h@) && !h@.contains('\n'),
        res matches Ok(h) ==> argon2id_default_prefix().is_prefix_of(h@),
{
    let argon2 = Argon2::new_with_secret(secret, Algorithm::Argon2id, Version::V0x13, Params::default()).unwrap();
    let salt_b64 = SaltString::encode_b64(salt).map_err(|_| SchemeError::Salt)?;
    let phc = argon2.hash_password(pwd, &salt_b64).map_err(|_| SchemeError::Hash)?;
    Ok(phc.to_string())
}

/// Wraps `PasswordHash::new` and `Argon2::verify_password` of the `argon2`
/// crate, with the instance built by `Argon2::new_with_secret` (Argon2id,
/// version 0x13, default parameters). A text that does not parse gives
/// `Hash`; a password that does not verify gives `PwdValidate`.
/// Left unsaid: the memory cost is read from `phc`, and the crate allocates
/// that much memory while verifying.
#[verifier::external_body]
fn argon2id_verify(secret: &[u8], pwd: &[u8], phc: &str) -> (res: Result<(), SchemeError>)
    requires
        secret@.len() <= argon2_max_len(),
    ensures
        res is Ok <==> (phc_parses(phc@) && argon2id_accepts(secret@, pwd@, phc@)),
        res matches Err(e) ==> (e is Hash <==> !phc_parses(phc@)),
        res matches Err(e) ==> (e is Hash || e is PwdValidate),
{
    let argon2 = Argon2::new_with_secret(secret, Algorithm::Argon2id, Version::V0x13, Params::default()).unwrap();
    let parsed = PasswordHash::new(phc).map_err(|_| SchemeError::Hash)?;
    argon2.verify_password(pwd, &parsed).map_err(|_| SchemeError::PwdValidate)
}

// ---- the schemes

/// What scheme `name` returns for hashing `content` with `salt`.
pub open spec fn spec_scheme_hash(name: Seq<char>, key: Seq<u8>, content: Seq<char>, salt: Seq<u8>) -> Result<Seq<char>, SchemeErrorV> {
    if name == hmac_scheme() {
        Ok(scheme01_text(key, content, salt))
    } else if name == default_scheme() {
        if encode_utf8(content).len() <= argon2_max_len() {
            Ok(argon2id_phc(key, encode_utf8(content), salt))
        } else {
            Err(SchemeErrorV::Hash)
        }
    } else {
        Err(SchemeErrorV::SchemeNotFound(name))
    }
}

/// What scheme `name` answers when `content` with `salt` is checked against
/// the stored text `pwd_ref`.
pub open spec fn spec_scheme_validate(name: Seq<char>, key: Seq<u8>, content: Seq<char>, salt: Seq<u8>, pwd_ref: Seq<char>) -> Result<(), SchemeErrorV> {
    if name == hmac_scheme() {
        if pwd_ref == scheme01_text(key, content, salt) {
            Ok(())
        } else {
            Err(SchemeErrorV::PwdValidate)
        }
    } else if name == default_scheme() {
        if !phc_parses(pwd_ref) {
            Err(SchemeErrorV::Hash)
        } else if argon2id_accepts(key, encode_utf8(content), pwd_ref) {
            Ok(())
        } else {
            Err(SchemeErrorV::PwdValidate)
        }
    } else {
        Err(SchemeErrorV::SchemeNotFound(name))
    }
}

/// Scheme 01 is HMAC-SHA512 keyed with the password key: its stored text is
/// the base64url text of the MAC, under that key, of the content's UTF-8
/// bytes followed by the salt, and it accepts exactly that text.
pub proof fn lemma_scheme01_is_keyed_hmac(key: Seq<u8>, content: Seq<char>, salt: Seq<u8>, pwd_ref: Seq<char>)
    ensures
        spec_scheme_hash(seq!['0', '1'], key, content, salt)
            == Ok::<Seq<char>, SchemeErrorV>(b64u_text(hmac_sha512(key, encode_utf8(content) + salt))),
        spec_scheme_validate(seq!['0', '1'], key, content, salt, pwd_ref) is Ok
            <==> pwd_ref == b64u_text(hmac_sha512(key, encode_utf8(content) + salt)),
{
}

/// Scheme 02 is Argon2id keyed with the password key: its stored text is the
/// PHC text of the content's UTF-8 bytes with the given salt under that key
/// (content longer than Argon2 takes is a hash error), and it accepts a
/// stored text exactly when that text parses as PHC and Argon2id, under the
/// same key, accepts the content against it.
pub proof fn lemma_scheme02_is_keyed_argon2id(key: Seq<u8>, content: Seq<char>, salt: Seq<u8>, pwd_ref: Seq<char>)
    ensures
        encode_utf8(content).len() <= 0xFFFF_FFFF ==> spec_scheme_hash(seq!['0', '2'], key, content, salt)
            == Ok::<Seq<char>, SchemeErrorV>(argon2id_phc(key, encode_utf8(content), salt)),
        encode_utf8(content).len() > 0xFFFF_FFFF ==> spec_scheme_hash(seq!['0', '2'], key, content, salt)
            == Err::<Seq<char>, SchemeErrorV>(SchemeErrorV::Hash),
        spec_scheme_validate(seq!['0', '2'], key, content, salt, pwd_ref) is Ok
            <==> phc_parses(pwd_ref) && argon2id_accepts(key, encode_utf8(content), pwd_ref),
{
}

/// A password hashing scheme.
pub trait Scheme {
    /// The name of the scheme, as stored in front of its hashes.
    spec fn scheme_name(&self) -> Seq<char>;

    /// Hashes `to_hash` with the password key `key`. The text holds no line
    /// break, and validating the same content against it succeeds.
    fn hash(&self, key: &[u8], to_hash: &ContentToHash) -> (res: Result<String, SchemeError>)
        requires
            key@.len() <= argon2_max_len(),
        ensures
            text_result_view(res) == spec_scheme_hash(self.scheme_name(), key@, to_hash.content@, to_hash.salt@),
            res matches Ok(h) ==> !h@.contains('\n')
                && spec_scheme_validate(self.scheme_name(), key@, to_hash.content@, to_hash.salt@, h@) == Ok::<(), SchemeErrorV>(()),
            self.scheme_name() == default_scheme() ==> (res matches Ok(h) ==> argon2id_default_prefix().is_prefix_of(h@)),
    ;

    /// Checks `to_hash` against the stored hash `pwd_ref`.
    fn validate(&self, key: &[u8], to_hash: &ContentToHash, pwd_ref: &str) -> (res: Result<(), SchemeError>)
        requires
            key@.len() <= argon2_max_len(),
        ensures
            unit_result_view(res) == spec_scheme_validate(self.scheme_name(), key@, to_hash.content@, to_hash.salt@, pwd_ref@),
    ;
}

/// Scheme 01: HMAC-SHA512 of the content and salt, keyed with the password
/// key, as base64url text.
pub struct Scheme01;

/// Scheme 02: Argon2id keyed with the password key; the salt is kept in the
/// PHC text, so validation does not read the salt given with the content.
pub struct Scheme02;

impl Scheme for Scheme01 {
    open spec fn scheme_name(&self) -> Seq<char> {
        hmac_scheme()
    }

    fn hash(&self, key: &[u8], to_hash: &ContentToHash) -> (res: Result<String, SchemeError>)
        ensures
            res matches Ok(h) && h@ == b64u_text(hmac_sha512(key@, encode_utf8(to_hash.content@) + to_hash.salt@)),
    {
        let content = to_hash.content.as_str().as_bytes();
        let mut data: Vec<u8> = Vec::new();
        let mut i: usize = 0;
        while i < content.len()
            invariant
                i <= content@.len(),
                data@ == content@.take(i as int),
            decreases content@.len() - i,
        {
            data.push(content[i]);
            i = i + 1;
        }
        let mut j: usize = 0;
        while j < 16
            invariant
                j <= 16,
                data@ == content@ + to_hash.salt@.take(j as int),
            decreases 16 - j,
        {
            data.push(to_hash.salt[j]);
            j = j + 1;
        }
        assert(content@.take(content@.len() as int) =~= content@);
        assert(to_hash.salt@.take(16) =~= to_hash.salt@);
        let mac = hmac_sha512_bytes(key, data.as_slice());
        let text = b64u_encode(mac.as_slice());
        proof {
            assert forall|i: int| 0 <= i < text@.len() implies text@[i] != '\n' by {
                assert(is_b64u_char(text@[i]));
            }
        }
        Ok(text)
    }

    fn validate(&self, key: &[u8], to_hash: &ContentToHash, pwd_ref: &str) -> (res: Result<(), SchemeError>)
        ensures
            res is Ok <==> pwd_ref@ == b64u_text(hmac_sha512(key@, encode_utf8(to_hash.content@) + to_hash.salt@)),
    {
        let raw_pwd_new = match self.hash(key, to_hash) {
            Ok(h) => h,
            Err(e) => { return Err(e); },
        };
        let raw_pwd_ref = String::from_str(pwd_ref);
        if raw_pwd_new == raw_pwd_ref {
            Ok(())
        } else {
            Err(SchemeError::PwdValidate)
        }
    }
}

impl Scheme for Scheme02 {
    open spec fn scheme_name(&self) -> Seq<char> {
        default_scheme()
    }

    fn hash(&self, key: &[u8], to_hash: &ContentToHash) -> (res: Result<String, SchemeError>) {
        let content = to_hash.content.as_str().as_bytes();
        argon2id_hash(key, content, &to_hash.salt)
    }

    fn validate(&self, key: &[u8], to_hash: &ContentToHash, pwd_ref: &str) -> (res: Result<(), SchemeError>) {
        let content = to_hash.content.as_str().as_bytes();
        argon2id_verify(key, content, pwd_ref)
    }
}

/// A scheme chosen by name.
pub enum SchemeDispatcher {
    Scheme01(Scheme01),
    Scheme02(Scheme02),
}

impl Scheme for SchemeDispatcher {
    open spec fn scheme_name(&self) -> Seq<char> {
        match self {
            SchemeDispatcher::Scheme01(_) => hmac_scheme(),
            SchemeDispatcher::Scheme02(_) => default_scheme(),
        }
    }

    fn hash(&self, key: &[u8], to_hash: &ContentToHash) -> (res: Result<String, SchemeError>) {
        match self {
            SchemeDispatcher::Scheme01(s) => s.hash(key, to_hash),
            SchemeDispatcher::Scheme02(s) => s.hash(key, to_hash),
        }
    }

    fn validate(&self, key: &[u8], to_hash: &ContentToHash, pwd_ref: &str) -> (res: Result<(), SchemeError>) {
        match self {
            SchemeDispatcher::Scheme01(s) => s.validate(key, to_hash, pwd_ref),
            SchemeDispatcher::Scheme02(s) => s.validate(key, to_hash, pwd_ref),
        }
    }
}

/// The scheme called `scheme_name`: `01` or `02`; any other name is
/// `SchemeNotFound` with that name.
pub fn get_scheme(scheme_name: &str) -> (res: Result<SchemeDispatcher, SchemeError>)
    ensures
        scheme_name@ == hmac_scheme() ==> (res matches Ok(d) && d is Scheme01),
        scheme_name@ == default_scheme() ==> (res matches Ok(d) && d is Scheme02),
        scheme_name@ != hmac_scheme() && scheme_name@ != default_scheme()
            ==> (res matches Err(e) && e@ == SchemeErrorV::SchemeNotFound(scheme_name@)),
{
    let name = String::from_str(scheme_name);
    proof {
        reveal_strlit("01");
        reveal_strlit("02");
        assert("01"@ =~= hmac_scheme());
        assert("02"@ =~= default_scheme());
    }
    if name == String::from_str("01") {
        Ok(SchemeDispatcher::Scheme01(Scheme01))
    } else if name == String::from_str("02") {
        Ok(SchemeDispatcher::Scheme02(Scheme02))
    } else {
        Err(SchemeError::SchemeNotFound(name))
    }
}

} // verus!
