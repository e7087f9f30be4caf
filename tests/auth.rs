use pointercrate::auth::{
    check_csrf, claimed_id, conclude_basic, conclude_token, token_key, Auth, AuthStep,
    Authorization, Basic, Claims, Invalidate, Token,
};
use pointercrate::cistring::CiString;
use pointercrate::context::User;
use pointercrate::error::PointercrateError;

fn user(salt: Vec<u8>) -> User {
    User { id: 7, name: CiString("Alice".to_string()), salt }
}

fn basic() -> Authorization {
    Authorization::Basic { username: "alice".to_string(), password: "pw".to_string() }
}

fn token(csrf: Option<&str>) -> Authorization {
    Authorization::Token { access_token: "t.o.k".to_string(), csrf_token: csrf.map(|s| s.to_string()) }
}

#[test]
fn basic_credentials_load_the_user_by_name() {
    match Auth::<Basic>::new(basic()).first_step() {
        AuthStep::LoadUserByName { username, password } => {
            assert_eq!(username, "alice");
            assert_eq!(password, "pw");
        },
        _ => panic!("expected a lookup by name"),
    }
}

#[test]
fn token_credentials_decode_the_token() {
    match Auth::<Token>::new(token(Some("c"))).first_step() {
        AuthStep::DecodeToken { access_token, csrf_token } => {
            assert_eq!(access_token, "t.o.k");
            assert_eq!(csrf_token, Some("c".to_string()));
        },
        _ => panic!("expected a token decode"),
    }
}

#[test]
fn mismatched_credentials_are_rejected() {
    assert!(matches!(Auth::<Token>::new(basic()).first_step(), AuthStep::Reject));
    assert!(matches!(Auth::<Basic>::new(token(None)).first_step(), AuthStep::Reject));
}

#[test]
fn basic_outcomes_are_uniform() {
    let unknown = conclude_basic(None, true).unwrap_err();
    let wrong = conclude_basic(Some(user(vec![1])), false).unwrap_err();
    assert_eq!(unknown, PointercrateError::Unauthorized);
    assert_eq!(unknown, wrong);
    assert_eq!(conclude_basic(Some(user(vec![1])), true).unwrap().0.id, 7);
}

#[test]
fn csrf_binding() {
    let c = Claims { id: 7, csrf: Some("v".to_string()) };
    assert!(conclude_token(Some(user(vec![1])), Some(c.clone()), Some("v".to_string())).is_ok());
    assert_eq!(
        conclude_token(Some(user(vec![1])), Some(c.clone()), Some("w".to_string())).unwrap_err(),
        PointercrateError::Unauthorized
    );
    assert!(conclude_token(Some(user(vec![1])), Some(c), None).is_ok());
    assert!(!check_csrf(&None, &Some("v".to_string())));
    assert!(check_csrf(&None, &None));
}

#[test]
fn token_needs_user_and_verification() {
    let c = Claims { id: 7, csrf: None };
    assert!(conclude_token(None, Some(c), None).is_err());
    assert!(conclude_token(Some(user(vec![1])), None, None).is_err());
}

#[test]
fn claimed_id_reads_claims() {
    assert_eq!(claimed_id(Some(Claims { id: 42, csrf: None })), Ok(42));
    assert_eq!(claimed_id(None), Err(PointercrateError::Unauthorized));
}

#[test]
fn token_key_follows_salt() {
    let secret = vec![9, 8];
    assert_eq!(token_key(&secret, &user(vec![1, 2])), vec![9, 8, 1, 2]);
    assert_ne!(token_key(&secret, &user(vec![1, 2])), token_key(&secret, &user(vec![3])));
}

#[test]
fn invalidate_patches_password_with_itself() {
    let (auth, patch) = Invalidate(basic()).plan().unwrap();
    assert!(matches!(auth.0, Authorization::Basic { .. }));
    assert_eq!(patch.password, Some("pw".to_string()));
    assert!(patch.display_name.is_none() && patch.youtube_channel.is_none());
    assert_eq!(Invalidate(token(None)).plan().unwrap_err(), PointercrateError::Unauthorized);
}
