//! The credential codec and the request-level authentication decision.
//!
//! An `Authorization` header value carries `Basic <base64(username:password)>`;
//! the codec strips the scheme, decodes the base64 payload, checks it is
//! valid text, and splits it at the first `:` into username and password.

use vstd::prelude::*;
use vstd::string::*;
use vstd::utf8::{decode_utf8, valid_utf8};

use crate::error::AuthError;
use crate::textenc::{base64_decode, base64_encode, spec_base64_decode, utf8_to_string};

verus! {

/// A username/password pair, produced by the credential codec and consumed
/// once by the backend connector; never persisted beyond the attempt.
#[derive(Debug, Clone, Hash, Eq, PartialEq)]
pub struct Credentials {
    pub username: String,
    pub password: String,
}

/// The verified identity attached to a request after successful
/// authentication; read-only for downstream handlers.
#[derive(Debug, Clone, Hash, Eq, PartialEq)]
pub struct User {
    pub email: String,
}

/// Marker for the authentication stage of the request pipeline; the
/// surrounding server installs it in front of every handler that needs
/// backend access.
pub struct Authentication;

impl Authentication {
    pub fn new() -> Authentication {
        Authentication
    }
}

/// The mathematical value of a credential pair.
#[verifier::ext_equal]
pub struct CredentialsView {
    pub username: Seq<char>,
    pub password: Seq<char>,
}

impl View for Credentials {
    type V = CredentialsView;

    open spec fn view(&self) -> CredentialsView {
        CredentialsView { username: self.username@, password: self.password@ }
    }
}

/// Index of the first `:` in `s`, or `-1` if there is none.
pub open spec fn find_colon(s: Seq<char>) -> int
    decreases s.len(),
{
    if s.len() == 0 {
        -1
    } else if s[0] == ':' {
        0
    } else if find_colon(s.drop_first()) < 0 {
        -1
    } else {
        1 + find_colon(s.drop_first())
    }
}

proof fn lemma_find_colon_none(s: Seq<char>)
    requires
        forall|j: int| 0 <= j < s.len() ==> s[j] != ':',
    ensures
        find_colon(s) == -1,
    decreases s.len(),
{
    if s.len() != 0 {
        assert(forall|j: int|
            0 <= j < s.drop_first().len() ==> s.drop_first()[j] == s[j + 1]);
        lemma_find_colon_none(s.drop_first());
    }
}

proof fn lemma_find_colon_at(s: Seq<char>, i: int)
    requires
        0 <= i < s.len(),
        s[i] == ':',
        forall|j: int| 0 <= j < i ==> s[j] != ':',
    ensures
        find_colon(s) == i,
    decreases i,
{
    if i > 0 {
        assert(s[0] != ':');
        assert(forall|j: int|
            0 <= j < s.drop_first().len() ==> s.drop_first()[j] == s[j + 1]);
        lemma_find_colon_at(s.drop_first(), i - 1);
    }
}

/// What decoding a Basic-Auth parameter (the part after the scheme) yields:
/// `None` on invalid base64, invalid text, or a missing `:` separator;
/// otherwise the username before the first `:` and the password after it.
pub open spec fn spec_decode_param(param: Seq<char>) -> Option<CredentialsView> {
    match spec_base64_decode(param) {
        None => None,
        Some(bytes) => if !valid_utf8(bytes) {
            None
        } else {
            let text = decode_utf8(bytes);
            let i = find_colon(text);
            if i < 0 {
                None
            } else {
                Some(CredentialsView { username: text.take(i), password: text.skip(i + 1) })
            }
        },
    }
}

/// What the authentication bridge concludes from the list of values of the
/// `Authorization` header: absence, multiplicity, a wrong scheme, or a
/// malformed parameter all reject the request.
pub open spec fn spec_check_authorization(values: Seq<Seq<char>>) -> Option<CredentialsView> {
    if values.len() != 1 {
        None
    } else if values[0].len() < 6 {
        None
    } else if values[0].take(6) != "Basic "@ {
        None
    } else {
        spec_decode_param(values[0].skip(6))
    }
}

fn find_colon_index(s: &str) -> (r: Option<usize>)
    ensures
        match r {
            Some(i) => i < s@.len() && find_colon(s@) == i,
            None => find_colon(s@) == -1,
        },
{
    let n = s.unicode_len();
    let mut i: usize = 0;
    loop
        invariant
            i <= n,
            n == s@.len(),
            forall|j: int| 0 <= j < i ==> s@[j] != ':',
        decreases n - i,
    {
        if i == n {
            proof {
                lemma_find_colon_none(s@);
            }
            return None;
        }
        if s.get_char(i) == ':' {
            proof {
                lemma_find_colon_at(s@, i as int);
            }
            return Some(i);
        }
        i = i + 1;
    }
}

/// Decodes the Basic-Auth parameter into credentials.
///
/// Fails with `MalformedCredentials` exactly when the parameter is invalid
/// base64, the decoded bytes are invalid text, or the text has no `:`.
pub fn decode_basic_auth(auth_param: &str) -> (r: Result<Credentials, AuthError>)
    ensures
        match r {
            Ok(c) => spec_decode_param(auth_param@) == Some(c@),
            Err(e) => spec_decode_param(auth_param@) is None && e is MalformedCredentials,
        },
{
    let bytes = match base64_decode(auth_param) {
        Some(b) => b,
        None => {
            return Err(AuthError::MalformedCredentials);
        },
    };
    let ghost bytes_view = bytes@;
    let text = match utf8_to_string(bytes) {
        Some(t) => t,
        None => {
            return Err(AuthError::MalformedCredentials);
        },
    };
    let s = text.as_str();
    match find_colon_index(s) {
        None => Err(AuthError::MalformedCredentials),
        Some(i) => {
            let n = s.unicode_len();
            let username = s.substring_char(0, i).to_owned();
            let password = s.substring_char(i + 1, n).to_owned();
            let c = Credentials { username, password };
            proof {
                let text_view = decode_utf8(bytes_view);
                assert(c@.username == text_view.take(i as int));
                assert(c@.password == text_view.skip(i as int + 1));
            }
            Ok(c)
        },
    }
}

/// The authentication bridge's reading of the `Authorization` header values:
/// requires exactly one value, the `Basic ` scheme, and a well-formed
/// parameter, and yields the credentials to hand to the backend connector.
pub fn check_authorization(values: &Vec<String>) -> (r: Result<Credentials, AuthError>)
    ensures
        match r {
            Ok(c) => spec_check_authorization(values.deep_view()) == Some(c@),
            Err(e) => spec_check_authorization(values.deep_view()) is None
                && e is MalformedCredentials,
        },
{
    if values.len() != 1 {
        return Err(AuthError::MalformedCredentials);
    }
    let s = values[0].as_str();
    let n = s.unicode_len();
    if n < 6 {
        return Err(AuthError::MalformedCredentials);
    }
    proof {
        reveal_strlit("Basic ");
    }
    let scheme = "Basic ";
    let mut i: usize = 0;
    while i < 6
        invariant
            i <= 6,
            s@.len() >= 6,
            values.deep_view().len() == 1,
            s@ == values.deep_view()[0],
            scheme@ == "Basic "@,
            scheme@.len() == 6,
            forall|j: int| 0 <= j < i ==> s@[j] == scheme@[j],
        decreases 6 - i,
    {
        if s.get_char(i) != scheme.get_char(i) {
            proof {
                assert(s@.take(6)[i as int] != "Basic "@[i as int]);
            }
            return Err(AuthError::MalformedCredentials);
        }
        i = i + 1;
    }
    assert(s@.take(6) =~= "Basic "@);
    let param = s.substring_char(6, n);
    match decode_basic_auth(param) {
        Ok(c) => Ok(c),
        Err(e) => Err(e),
    }
}

/// Builds the `Authorization` header value that the codec maps back to the
/// given pair; usernames cannot contain the `:` separator.
pub fn encode_basic_auth(username: &str, password: &str) -> (r: String)
    requires
        !username@.contains(':'),
    ensures
        (spec_check_authorization(seq![r@]) == Some(
            CredentialsView { username: username@, password: password@ },
        )),
{
    broadcast use vstd::utf8::encode_utf8_valid_utf8;
    broadcast use vstd::utf8::encode_utf8_decode_utf8;

    let mut text = username.to_owned();
    text.append(":");
    text.append(password);
    let bytes = text.as_str().as_bytes_vec();
    let enc = base64_encode(&bytes);
    let mut header = String::from_str("Basic ");
    header.append(enc.as_str());
    proof {
        reveal_strlit("Basic ");
        reveal_strlit(":");
        let text_view = username@ + ":"@ + password@;
        assert(text@ == text_view);
        let i = username@.len() as int;
        assert(text_view[i] == ':');
        assert(forall|j: int| 0 <= j < i ==> text_view[j] == username@[j]);
        lemma_find_colon_at(text_view, i);
        assert(text_view.take(i) =~= username@);
        assert(text_view.skip(i + 1) =~= password@);
        assert(header@.take(6) =~= "Basic "@);
        assert(header@.skip(6) =~= enc@);
        assert(spec_decode_param(enc@) == Some(
            CredentialsView { username: username@, password: password@ },
        ));
        assert(seq![header@][0] == header@);
    }
    header
}

} // verus!
