use crate::context::{Me, User};
use crate::error::PointercrateError;
use std::marker::PhantomData;
use vstd::prelude::*;

verus! {

/// Credentials taken from a request.
#[derive(Clone, Debug)]
pub enum Authorization {
    Basic { username: String, password: String },
    Token { access_token: String, csrf_token: Option<String> },
}

/// The two ways of authenticating.
#[derive(Debug, Clone, Copy, PartialEq, Eq, Structural)]
pub enum AuthType {
    Basic,
    Token,
}

/// Selects, at the type level, which way of authenticating a request asks for.
pub trait TAuthType {
    spec fn kind() -> AuthType;

    fn auth_type() -> (r: AuthType)
        ensures
            r == Self::kind(),
    ;
}

/// Selects authentication by name and password.
#[derive(Debug)]
pub struct Basic;

/// Selects authentication by bearer token.
#[derive(Debug)]
pub struct Token;

impl TAuthType for Basic {
    open spec fn kind() -> AuthType {
        AuthType::Basic
    }

    fn auth_type() -> (r: AuthType) {
        AuthType::Basic
    }
}

impl TAuthType for Token {
    open spec fn kind() -> AuthType {
        AuthType::Token
    }

    fn auth_type() -> (r: AuthType) {
        AuthType::Token
    }
}

/// What a bearer token carries.
#[derive(Clone, Debug)]
pub struct Claims {
    pub id: i32,
    pub csrf: Option<String>,
}

/// A request to authenticate the given credentials in the way `T` selects.
#[derive(Debug)]
pub struct Auth<T: TAuthType>(pub Authorization, pub PhantomData<T>);

/// The first thing to do for a credential.
#[derive(Clone, Debug)]
pub enum AuthStep {
    /// Load the user by this name, then check the password against it.
    LoadUserByName { username: String, password: String },
    /// Read the claimed user id out of the token without trusting it, load
    /// that user, then verify the token with the user's key.
    DecodeToken { access_token: String, csrf_token: Option<String> },
    /// Fail without looking anything up.
    Reject,
}

/// The first step owed for credentials when `expected` is asked for.
pub open spec fn auth_step(expected: AuthType, auth: Authorization) -> AuthStep {
    match (expected, auth) {
        (AuthType::Basic, Authorization::Basic { username, password }) => AuthStep::LoadUserByName {
            username,
            password,
        },
        (AuthType::Token, Authorization::Token { access_token, csrf_token }) => AuthStep::DecodeToken {
            access_token,
            csrf_token,
        },
        _ => AuthStep::Reject,
    }
}

impl<T: TAuthType> Auth<T> {
    pub fn new(auth: Authorization) -> (r: Self)
        ensures
            r.0 == auth,
    {
        Auth(auth, PhantomData)
    }

    /// The first step of authenticating this request.
    pub fn first_step(self) -> (r: AuthStep)
        ensures
            r == auth_step(T::kind(), self.0),
    {
        match (T::auth_type(), self.0) {
            (AuthType::Basic, Authorization::Basic { username, password }) => AuthStep::LoadUserByName {
                username,
                password,
            },
            (AuthType::Token, Authorization::Token { access_token, csrf_token }) => AuthStep::DecodeToken {
                access_token,
                csrf_token,
            },
            _ => AuthStep::Reject,
        }
    }
}

/// The result of a password check: the user when one was found under the
/// name and the password matched, `Unauthorized` in every other case.
pub open spec fn basic_outcome(user: Option<User>, password_matches: bool) -> Result<Me, PointercrateError> {
    match user {
        Option::Some(u) => if password_matches {
            Ok(Me(u))
        } else {
            Err(PointercrateError::Unauthorized)
        },
        Option::None => Err(PointercrateError::Unauthorized),
    }
}

/// Whether a CSRF value supplied by the caller fits the one in the token:
/// none supplied is accepted, one supplied must equal the embedded value.
pub open spec fn csrf_accepts(embedded: Option<Seq<char>>, supplied: Option<Seq<char>>) -> bool {
    match supplied {
        Option::None => true,
        Option::Some(s) => embedded == Option::Some(s),
    }
}

/// The characters of an optional string.
pub open spec fn opt_view(s: Option<String>) -> Option<Seq<char>> {
    match s {
        Option::Some(v) => Option::Some(v@),
        Option::None => Option::None,
    }
}

/// The result of a token check: the user when one was found under the claimed
/// id, the token verified with that user's key, and the CSRF value fits.
pub open spec fn token_outcome(
    user: Option<User>,
    verified: Option<Claims>,
    csrf_token: Option<String>,
) -> Result<Me, PointercrateError> {
    match (user, verified) {
        (Option::Some(u), Option::Some(c)) => if csrf_accepts(opt_view(c.csrf), opt_view(csrf_token)) {
            Ok(Me(u))
        } else {
            Err(PointercrateError::Unauthorized)
        },
        _ => Err(PointercrateError::Unauthorized),
    }
}

/// Compares the CSRF value supplied by the caller with the one in the token.
pub fn check_csrf(embedded: &Option<String>, supplied: &Option<String>) -> (r: bool)
    ensures
        r == csrf_accepts(opt_view(*embedded), opt_view(*supplied)),
{
    match supplied {
        None => true,
        Some(s) => match embedded {
            Some(e) => *e == *s,
            None => false,
        },
    }
}

/// Finishes authentication by name and password, given the user found under
/// the name (if any) and whether the password matched that user's hash.
pub fn conclude_basic(user: Option<User>, password_matches: bool) -> (r: Result<Me, PointercrateError>)
    ensures
        r == basic_outcome(user, password_matches),
{
    match user {
        Some(u) => if password_matches {
            Ok(Me(u))
        } else {
            Err(PointercrateError::Unauthorized)
        },
        None => Err(PointercrateError::Unauthorized),
    }
}

/// The user id to load for a token, from the unverified read of its claims;
/// a token that cannot even be read is refused.
pub fn claimed_id(decoded: Option<Claims>) -> (r: Result<i32, PointercrateError>)
    ensures
        r == (match decoded {
            Option::Some(c) => Ok(c.id),
            Option::None => Err(PointercrateError::Unauthorized),
        }),
{
    match decoded {
        Some(c) => Ok(c.id),
        None => Err(PointercrateError::Unauthorized),
    }
}

/// Finishes authentication by token, given the user found under the claimed
/// id (if any), the claims if the token verified with that user's current key,
/// and the CSRF value the caller supplied.
pub fn conclude_token(user: Option<User>, verified: Option<Claims>, csrf_token: Option<String>) -> (r: Result<
    Me,
    PointercrateError,
>)
    ensures
        r == token_outcome(user, verified, csrf_token),
{
    match (user, verified) {
        (Some(u), Some(c)) => if check_csrf(&c.csrf, &csrf_token) {
            Ok(Me(u))
        } else {
            Err(PointercrateError::Unauthorized)
        },
        _ => Err(PointercrateError::Unauthorized),
    }
}

/// The key that a user's tokens are signed and verified with: the service's
/// secret followed by the user's current salt.
pub open spec fn signing_key(secret: Seq<u8>, salt: Seq<u8>) -> Seq<u8> {
    secret + salt
}

/// Derives the key that tokens of `user` are verified with.
pub fn token_key(secret: &Vec<u8>, user: &User) -> (r: Vec<u8>)
    ensures
        r@ == signing_key(secret@, user.salt@),
{
    let mut key: Vec<u8> = Vec::new();
    let mut i: usize = 0;
    while i < secret.len()
        invariant
            i <= secret@.len(),
            key@ == secret@.subrange(0, i as int),
        decreases secret@.len() - i,
    {
        key.push(secret[i]);
        i = i + 1;
    }
    let mut j: usize = 0;
    while j < user.salt.len()
        invariant
            j <= user.salt@.len(),
            key@ == secret@ + user.salt@.subrange(0, j as int),
        decreases user.salt@.len() - j,
    {
        key.push(user.salt[j]);
        j = j + 1;
    }
    assert(user.salt@.subrange(0, user.salt@.len() as int) =~= user.salt@);
    key
}

/// A change to the own account: only the password is set here.
#[derive(Clone, Debug)]
pub struct PatchMe {
    pub password: Option<String>,
    pub display_name: Option<String>,
    pub youtube_channel: Option<String>,
}

/// A request to invalidate every token of the account that the (basic)
/// credentials identify, by setting its password to itself, which draws a
/// new salt.
#[derive(Debug)]
pub struct Invalidate(pub Authorization);

impl Invalidate {
    /// The authentication to run first and the change to apply after it;
    /// anything but basic credentials is refused.
    pub fn plan(self) -> (r: Result<(Auth<Basic>, PatchMe), PointercrateError>)
        ensures
            match self.0 {
                Authorization::Basic { username, password } => r matches Ok((a, p)) && a.0
                    == self.0 && p.password == Option::Some(password) && p.display_name is None
                    && p.youtube_channel is None,
                Authorization::Token { .. } => r == Err::<(Auth<Basic>, PatchMe), PointercrateError>(
                    PointercrateError::Unauthorized,
                ),
            },
    {
        match self.0 {
            Authorization::Basic { username, password } => {
                let patch = PatchMe {
                    password: Some(password.clone()),
                    display_name: None,
                    youtube_channel: None,
                };
                Ok((Auth::new(Authorization::Basic { username, password }), patch))
            },
            Authorization::Token { .. } => Err(PointercrateError::Unauthorized),
        }
    }
}

/// Basic authentication succeeds exactly when a user is found under the name
/// and the password matches that user's hash; an unknown name and a wrong
/// password end in the same `Unauthorized`. The credentials are looked up
/// under the name and checked with the password that they carry.
pub proof fn lemma_basic_uniform(username: String, password: String, user: Option<User>, password_matches: bool)
    ensures
        auth_step(AuthType::Basic, Authorization::Basic { username, password })
            == (AuthStep::LoadUserByName { username, password }),
        basic_outcome(user, password_matches) is Ok <==> (user is Some && password_matches),
        basic_outcome(user, password_matches) is Ok ==> basic_outcome(user, password_matches) == Ok::<
            Me,
            PointercrateError,
        >(Me(user->0)),
        basic_outcome(user, password_matches) is Err ==> basic_outcome(user, password_matches) == Err::<
            Me,
            PointercrateError,
        >(PointercrateError::Unauthorized),
        basic_outcome(Option::None, password_matches) == basic_outcome(user, false),
{
}

/// Tokens are verified with a key made from the user's current salt, so a
/// new salt gives a new key: a token signed under the old salt is checked
/// against a different key once the salt was replaced.
pub proof fn lemma_new_salt_new_key(secret: Seq<u8>, old_salt: Seq<u8>, new_salt: Seq<u8>)
    requires
        old_salt != new_salt,
    ensures
        signing_key(secret, old_salt) != signing_key(secret, new_salt),
{
    if signing_key(secret, old_salt) == signing_key(secret, new_salt) {
        assert(old_salt =~= signing_key(secret, old_salt).subrange(secret.len() as int, signing_key(secret, old_salt).len() as int));
        assert(new_salt =~= signing_key(secret, new_salt).subrange(secret.len() as int, signing_key(secret, new_salt).len() as int));
    }
}

/// A token that embeds the CSRF value `v` and verified for user `u` is
/// accepted with `v` supplied, refused with any other value supplied, and
/// accepted with none supplied.
pub proof fn lemma_csrf_binding(u: User, c: Claims, v: String, other: String)
    requires
        opt_view(c.csrf) == Option::Some(v@),
        other@ != v@,
    ensures
        token_outcome(Option::Some(u), Option::Some(c), Option::Some(v)) == Ok::<Me, PointercrateError>(Me(u)),
        token_outcome(Option::Some(u), Option::Some(c), Option::Some(other)) == Err::<Me, PointercrateError>(
            PointercrateError::Unauthorized,
        ),
        token_outcome(Option::Some(u), Option::Some(c), Option::None) == Ok::<Me, PointercrateError>(Me(u)),
{
}

} // verus!
