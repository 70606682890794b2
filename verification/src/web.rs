//! The decisions of the web routes: logging in, and the echo socket.
use crate::pwd::scheme::argon2_max_len;
use crate::pwd::{spec_validate_pwd, validate_pwd, ContentToHash};
use vstd::prelude::*;

verus! {

/// The name of the authentication token cookie.
pub const AUTH_TOKEN: &'static str = "auth-token";

/// What the login route reads of a user.
pub struct UserForLogin {
    pub id: i64,
    pub username: String,
    pub password: Option<String>,
    pub password_salt: [u8; 16],
    pub token_salt: [u8; 16],
}

/// Why a login failed.
#[derive(Debug, Clone, Copy, PartialEq, Eq, Structural)]
pub enum LoginError {
    LoginFailUsernameNotFound,
    LoginFailUserHasNoPwd { user_id: i64 },
    LoginFailPwdNotMatching { user_id: i64 },
}

/// Checks a login: the user must exist, have a password, and the clear
/// password must validate against it (with any scheme, outdated or not).
/// On success the user is handed back for the token cookie.
pub fn check_login(pwd_key: &[u8], user: Option<UserForLogin>, pwd_clear: &str) -> (res: Result<UserForLogin, LoginError>)
    requires
        pwd_key@.len() <= argon2_max_len(),
    ensures
        match user {
            None => res == Err::<UserForLogin, LoginError>(LoginError::LoginFailUsernameNotFound),
            Some(u) => match u.password {
                None => res == Err::<UserForLogin, LoginError>(LoginError::LoginFailUserHasNoPwd { user_id: u.id }),
                Some(p) => if spec_validate_pwd(pwd_key@, pwd_clear@, u.password_salt@, p@) is Ok {
                    res == Ok::<UserForLogin, LoginError>(u)
                } else {
                    res == Err::<UserForLogin, LoginError>(LoginError::LoginFailPwdNotMatching { user_id: u.id })
                },
            },
        },
{
    let user = match user {
        Some(u) => u,
        None => { return Err(LoginError::LoginFailUsernameNotFound); },
    };
    let user_id = user.id;
    let checked = match &user.password {
        None => { return Err(LoginError::LoginFailUserHasNoPwd { user_id }); },
        Some(pwd) => validate_pwd(
            pwd_key,
            &ContentToHash { content: String::from_str(pwd_clear), salt: user.password_salt },
            pwd.as_str(),
        ),
    };
    match checked {
        Ok(_) => Ok(user),
        Err(_) => Err(LoginError::LoginFailPwdNotMatching { user_id }),
    }
}

// ---- the echo socket

/// The close frame of a socket message.
#[derive(Debug, Clone, PartialEq, Eq)]
pub struct CloseFrame {
    pub code: u16,
    pub reason: String,
}

/// A socket message.
#[derive(Debug, Clone, PartialEq, Eq)]
pub enum Message {
    Text(String),
    Binary(Vec<u8>),
    Close(Option<CloseFrame>),
    Ping(Vec<u8>),
    Pong(Vec<u8>),
}

/// What the socket handler does with a received message.
pub enum SocketAction {
    /// Send this message back.
    Send(Message),
    /// The peer closed the connection: stop.
    Stop,
    /// Nothing to do.
    Skip,
}

/// The echo reply to a text: `Echo: <text>`.
pub open spec fn spec_echo(text: Seq<char>) -> Seq<char> {
    "Echo: "@ + text
}

/// A text is answered with `Echo: <text>`, a close ends the loop, anything
/// else is ignored.
pub fn socket_step(msg: Message) -> (res: SocketAction)
    ensures
        match msg {
            Message::Text(t) => (res matches SocketAction::Send(Message::Text(r)) && r@ == spec_echo(t@)),
            Message::Close(_) => res is Stop,
            _ => res is Skip,
        },
{
    match msg {
        Message::Text(text) => {
            let mut reply = String::from_str("Echo: ");
            reply.append(text.as_str());
            SocketAction::Send(Message::Text(reply))
        },
        Message::Close(_) => SocketAction::Stop,
        _ => SocketAction::Skip,
    }
}

// ---- the response mapper

/// The body of a client error response: the client error's message and
/// detail, and the request's id.
pub struct ClientErrorBody {
    pub message: Option<String>,
    pub req_uuid: String,
    pub detail: Option<String>,
}

/// What the response mapper answers.
pub enum ResponseChoice {
    /// The handler's response goes out as it is.
    Keep,
    /// It is replaced by a client error response.
    Replace { status: u16, body: ClientErrorBody },
}

/// The response mapper's decision: a response that carries a web error is
/// replaced by the client error's status with the body of its message, its
/// detail and the request id; any other response is kept.
pub fn map_response(client_error: Option<(u16, Option<String>, Option<String>)>, req_uuid: String) -> (res: ResponseChoice)
    ensures
        match client_error {
            None => res is Keep,
            Some((status, message, detail)) => (res matches ResponseChoice::Replace { status: st, body }
                && st == status && body.message == message && body.detail == detail && body.req_uuid == req_uuid),
        },
{
    match client_error {
        None => ResponseChoice::Keep,
        Some((status, message, detail)) => ResponseChoice::Replace {
            status,
            body: ClientErrorBody { message, req_uuid, detail },
        },
    }
}

} // verus!
