use uuid::Uuid;
use base64::engine::general_purpose::URL_SAFE_NO_PAD;
use base64::Engine;
use web_backend::pwd::scheme::{get_scheme, Scheme, Scheme02, SchemeDispatcher, SchemeError, SchemeStatus};
use web_backend::pwd::{hash_for_scheme, hash_pwd, validate_pwd, ContentToHash, Error, PwdParts};

const TEST_PWD_KEY: &str = "c2VjcmV0LXRlc3Qta2V5LWZvci1wYXNzd29yZHM";

fn pwd_key() -> Vec<u8> {
    URL_SAFE_NO_PAD.decode(TEST_PWD_KEY).unwrap()
}

fn fx_to_hash() -> ContentToHash {
    ContentToHash {
        content: "hello world".to_string(),
        salt: *Uuid::parse_str("e5d87716-65d9-4450-8f59-316ce50962fa").unwrap().as_bytes(),
    }
}

#[test]
fn test_multi_scheme_ok() {
    let fx_to_hash = fx_to_hash();
    let key = pwd_key();
    let pwd_hashed = hash_for_scheme(&key, "01", &fx_to_hash).unwrap();
    let pwd_validate = validate_pwd(&key, &fx_to_hash, &pwd_hashed).unwrap();
    assert!(
        matches!(pwd_validate, SchemeStatus::Outdated),
        "status should be outdated"
    );
}

#[test]
fn hash_pwd_validates_with_current_scheme() {
    let key = pwd_key();
    let h = hash_pwd(&key, &fx_to_hash()).unwrap();
    assert!(h.starts_with("#02#$argon2id$v=19$m=19456,t=2,p=1$"));
    assert_eq!(validate_pwd(&key, &fx_to_hash(), &h).unwrap(), SchemeStatus::Current);
}

#[test]
fn scheme_01_hash_is_stable_and_salted() {
    let key = pwd_key();
    let a = hash_for_scheme(&key, "01", &fx_to_hash()).unwrap();
    let b = hash_for_scheme(&key, "01", &fx_to_hash()).unwrap();
    assert_eq!(a, b);
    assert!(a.starts_with("#01#"));
    // 64 bytes of HMAC-SHA512 as base64url without padding: 86 characters
    assert_eq!(a.len(), 4 + 86);
    let mut other = fx_to_hash();
    other.salt[0] ^= 1;
    let c = hash_for_scheme(&key, "01", &other).unwrap();
    assert_ne!(a, c);
    assert!(matches!(
        validate_pwd(&key, &other, &a),
        Err(Error::Scheme(SchemeError::PwdValidate))
    ));
}

#[test]
fn wrong_password_does_not_validate() {
    let key = pwd_key();
    let h = hash_pwd(&key, &fx_to_hash()).unwrap();
    let wrong = ContentToHash { content: "hello world!".to_string(), salt: fx_to_hash().salt };
    assert!(matches!(
        validate_pwd(&key, &wrong, &h),
        Err(Error::Scheme(SchemeError::PwdValidate))
    ));
}

#[test]
fn scheme_02_ignores_given_salt() {
    let key = pwd_key();
    let h = hash_pwd(&key, &fx_to_hash()).unwrap();
    let mut other = fx_to_hash();
    other.salt = [7u8; 16];
    assert_eq!(validate_pwd(&key, &other, &h).unwrap(), SchemeStatus::Current);
}

#[test]
fn stored_form_errors() {
    let key = pwd_key();
    assert!(matches!(validate_pwd(&key, &fx_to_hash(), "no scheme"), Err(Error::PwdWithSchemeFailedParse)));
    assert!(matches!(validate_pwd(&key, &fx_to_hash(), "##abc"), Err(Error::PwdWithSchemeFailedParse)));
    assert!(matches!(validate_pwd(&key, &fx_to_hash(), "#01"), Err(Error::PwdWithSchemeFailedParse)));
    match validate_pwd(&key, &fx_to_hash(), "#03#abc") {
        Err(Error::Scheme(SchemeError::SchemeNotFound(n))) => assert_eq!(n, "03"),
        _ => panic!("expected an unknown scheme"),
    }
    assert!(matches!(
        validate_pwd(&key, &fx_to_hash(), "#02#not a phc string"),
        Err(Error::Scheme(SchemeError::Hash))
    ));
}

#[test]
fn pwd_parts_reads_first_line() {
    let p = PwdParts::from_str("#01#abc#def\nrest").ok().unwrap();
    assert_eq!(p.scheme_name, "01");
    assert_eq!(p.hashed, "abc#def");
    let q = PwdParts::from_str("#a_Z9##").ok().unwrap();
    assert_eq!(q.scheme_name, "a_Z9");
    assert_eq!(q.hashed, "#");
    assert!(PwdParts::from_str("#a-b#x").is_err());
    assert!(PwdParts::from_str("").is_err());
}

#[test]
fn get_scheme_by_name() {
    assert!(matches!(get_scheme("01"), Ok(SchemeDispatcher::Scheme01(_))));
    assert!(matches!(get_scheme("02"), Ok(SchemeDispatcher::Scheme02(_))));
    assert!(matches!(get_scheme("2"), Err(SchemeError::SchemeNotFound(_))));
}

#[test]
fn scheme_status_text() {
    assert_eq!(SchemeStatus::Current.to_string(), "Ok");
    assert_eq!(SchemeStatus::Outdated.to_string(), "Outdated");
}

#[test]
fn scheme_02_hash_shape() {
    let res = Scheme02.hash(&pwd_key(), &fx_to_hash()).ok().unwrap();
    assert!(res.starts_with("$argon2id$v=19$m=19456,t=2,p=1$5dh3FmXZRFCPWTFs5Qli+g$"));
    assert_eq!(Scheme02.hash(&pwd_key(), &fx_to_hash()).ok().unwrap(), res);
    assert!(Scheme02.validate(&pwd_key(), &fx_to_hash(), &res).is_ok());
    assert!(matches!(Scheme02.validate(&[1u8, 2, 3], &fx_to_hash(), &res), Err(SchemeError::PwdValidate)));
}

#[test]
fn unicode_scheme_names_are_read() {
    let key = pwd_key();
    match validate_pwd(&key, &fx_to_hash(), "#é#x") {
        Err(Error::Scheme(SchemeError::SchemeNotFound(n))) => assert_eq!(n, "é"),
        other => panic!("unexpected {other:?}"),
    }
    let parts = PwdParts::from_str("#schéma_2٣#rest").ok().unwrap();
    assert_eq!(parts.scheme_name, "schéma_2٣");
    assert_eq!(parts.hashed, "rest");
    assert!(matches!(PwdParts::from_str("#a-b#x"), Err(Error::PwdWithSchemeFailedParse)));
    assert!(matches!(PwdParts::from_str("#€#x"), Err(Error::PwdWithSchemeFailedParse)));
}
