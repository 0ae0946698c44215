//! Login sessions: single-use refresh tokens, one session key per login,
//! and bearer credentials.
use vstd::prelude::*;
use vstd::string::StrSliceExecFns;
use crate::text::is_hex_char;

verus! {

/// How long a refresh token lives, in seconds (a week).
pub const TTL: u64 = 604_800;

/// Who a refresh token belongs to.
pub struct Identity {
    pub user_id: u64,
    pub openid: String,
    pub sid: String,
}

/// A fresh access token and refresh token.
pub struct Tokens {
    pub token: String,
    pub refresh_token: String,
    pub jwt_expires_in: u64,
}

#[derive(Debug, Clone, Copy, PartialEq, Eq, Structural)]
pub enum SessionError {
    /// Not a refresh token this service issued.
    InvalidRefreshToken,
    /// No `Bearer` credential.
    MissingCredential,
    /// The token was already used, or its session was logged out.
    SessionEnded,
}

/// A refresh goes on only while the token's session still names the
/// presented token.
pub open spec fn refresh_ok(current: Option<Seq<char>>, presented: Seq<char>) -> bool {
    current == Some(presented)
}

/// Checks the token the session currently holds against the presented one.
pub fn refresh_check(current: Option<&str>, presented: &str) -> (r: Result<(), SessionError>)
    ensures
        r == if refresh_ok(
            match current {
                Some(c) => Some(c@),
                None => None,
            },
            presented@,
        ) {
            Ok::<(), SessionError>(())
        } else {
            Err(SessionError::SessionEnded)
        },
{
    match current {
        Some(c) => if crate::text::str_eq(c, presented) {
            Ok(())
        } else {
            Err(SessionError::SessionEnded)
        },
        None => Err(SessionError::SessionEnded),
    }
}

/// A refresh token is single-use: once a refresh moved the session to a
/// new token, the old one is refused, and after logout every token is.
pub proof fn lemma_refresh_token_single_use(old: Seq<char>, new: Seq<char>)
    requires
        old != new,
    ensures
        !refresh_ok(Some(new), old),
        refresh_ok(Some(new), new),
        !refresh_ok(None, old),
{
}

/// The cache key of a login session.
pub open spec fn session_key_spec(sid: Seq<char>) -> Seq<char> {
    "auth:user:session:"@ + sid
}

pub fn session_key(sid: &str) -> (r: String)
    ensures
        r@ == session_key_spec(sid@),
{
    String::from_str("auth:user:session:").concat(sid)
}

/// A refresh token: `RT_` and 64 hexadecimal digits.
pub open spec fn refresh_token_ok(t: Seq<char>) -> bool {
    t.len() == 67 && t.take(3) == "RT_"@ && forall|i: int| 3 <= i < 67 ==> is_hex_char(#[trigger] t[i])
}

/// The cache key of a refresh token.
pub open spec fn refresh_key_spec(t: Seq<char>) -> Seq<char> {
    "auth:user:refresh:"@ + t
}

/// The cache key of a refresh token, where it is one.
pub fn key(token: &str) -> (r: Result<String, SessionError>)
    ensures
        refresh_token_ok(token@) ==> (r matches Ok(k) && k@ == refresh_key_spec(token@)),
        !refresh_token_ok(token@) ==> r == Err::<String, SessionError>(
            SessionError::InvalidRefreshToken,
        ),
{
    let n = token.unicode_len();
    if n != 67 {
        return Err(SessionError::InvalidRefreshToken);
    }
    proof {
        reveal_strlit("RT_");
    }
    if token.get_char(0) != 'R' || token.get_char(1) != 'T' || token.get_char(2) != '_' {
        proof {
            assert(token@.take(3) != "RT_"@ || token@.len() != 67) by {
                if token@.take(3) == "RT_"@ {
                    assert(token@.take(3)[0] == token@[0]);
                    assert(token@.take(3)[1] == token@[1]);
                    assert(token@.take(3)[2] == token@[2]);
                }
            }
        }
        return Err(SessionError::InvalidRefreshToken);
    }
    proof {
        assert(token@.take(3) =~= "RT_"@);
    }
    let mut i: usize = 3;
    while i < n
        invariant
            n == token@.len(),
            n == 67,
            3 <= i <= n,
            forall|j: int| 3 <= j < i ==> is_hex_char(#[trigger] token@[j]),
        decreases n - i,
    {
        let c = token.get_char(i);
        let hex = ('0' <= c && c <= '9') || ('a' <= c && c <= 'f') || ('A' <= c && c <= 'F');
        if !hex {
            return Err(SessionError::InvalidRefreshToken);
        }
        i = i + 1;
    }
    Ok(String::from_str("auth:user:refresh:").concat(token))
}

/// The credential of an `Authorization` header: what follows `Bearer `.
pub open spec fn bearer_spec(v: Seq<char>) -> Option<Seq<char>> {
    if v.len() >= 7 && v.take(7) == "Bearer "@ {
        Some(v.skip(7))
    } else {
        None
    }
}

pub fn bearer(header: Option<&str>) -> (r: Result<&str, SessionError>)
    ensures
        match header {
            Some(v) => match bearer_spec(v@) {
                Some(c) => r matches Ok(t) && t@ == c,
                None => r == Err::<&str, SessionError>(SessionError::MissingCredential),
            },
            None => r == Err::<&str, SessionError>(SessionError::MissingCredential),
        },
{
    let v = match header {
        Some(v) => v,
        None => {
            return Err(SessionError::MissingCredential);
        },
    };
    let n = v.unicode_len();
    proof {
        reveal_strlit("Bearer ");
    }
    if n < 7 {
        return Err(SessionError::MissingCredential);
    }
    let prefix = v.substring_char(0, 7);
    if !crate::text::str_eq(prefix, "Bearer ") {
        proof {
            assert(prefix@ =~= v@.take(7));
        }
        return Err(SessionError::MissingCredential);
    }
    proof {
        assert(prefix@ =~= v@.take(7));
    }
    let rest = v.substring_char(7, n);
    proof {
        assert(rest@ =~= v@.skip(7));
    }
    Ok(rest)
}

} // verus!
