//! Decoding the stored credential into the login request pair.
//!
//! The credential is a transport-encoded `username:password` pair: decoding
//! goes through `base64` and UTF-8, then the text splits at the first
//! colon. The password is everything after that colon, verbatim: a
//! password may itself contain colons.

use vstd::prelude::*;

use base64::Engine;

use crate::error::Error;
use crate::jira_data::{AuthRequest, AuthRequestV};
use vstd::string::StrSliceExecFns;
use vstd::string::StringExecFns;

verus! {

/// What the standard base64 decoding yields on a text; `None` where the
/// text is not valid padded base64. A pure function of the text.
pub uninterp spec fn base64_decoded(s: Seq<char>) -> Option<Seq<u8>>;

/// What UTF-8 decoding yields on bytes; `None` where the bytes are not
/// valid UTF-8. A pure function of the bytes.
pub uninterp spec fn utf8_decoded(b: Seq<u8>) -> Option<Seq<char>>;

/// Relies on `base64::Engine::decode` with the standard alphabet and
/// padding.
#[verifier::external_body]
fn b64_decode(s: &str) -> (r: Option<Vec<u8>>)
    ensures
        r is Some <==> base64_decoded(s@) is Some,
        r matches Some(b) ==> base64_decoded(s@) == Some(b@),
{
    base64::engine::general_purpose::STANDARD.decode(s).ok()
}

/// Relies on `String::from_utf8`.
#[verifier::external_body]
fn utf8_string(b: Vec<u8>) -> (r: Option<String>)
    ensures
        r is Some <==> utf8_decoded(b@) is Some,
        r matches Some(s) ==> utf8_decoded(b@) == Some(s@),
{
    String::from_utf8(b).ok()
}

/// The characters before the first colon; the whole text if it has none.
pub open spec fn split_username(s: Seq<char>) -> Seq<char>
    decreases s.len(),
{
    if s.len() == 0 {
        Seq::empty()
    } else if s[0] == ':' {
        Seq::empty()
    } else {
        seq![s[0]] + split_username(s.drop_first())
    }
}

/// The characters after the first colon, verbatim; empty if the text has
/// no colon.
pub open spec fn split_password(s: Seq<char>) -> Seq<char>
    decreases s.len(),
{
    if s.len() == 0 {
        Seq::empty()
    } else if s[0] == ':' {
        s.drop_first()
    } else {
        split_password(s.drop_first())
    }
}

/// What decoding a credential yields: the username and password split out
/// of the base64- and UTF-8-decoded text.
pub open spec fn spec_credential(auth: Seq<char>) -> Option<AuthRequestV> {
    match base64_decoded(auth) {
        Some(bytes) => match utf8_decoded(bytes) {
            Some(s) => Some(
                AuthRequestV { username: split_username(s), password: split_password(s) },
            ),
            None => None,
        },
        None => None,
    }
}

/// With no colon among the first `idx` characters and a colon (or the end)
/// at `idx`, the username is exactly that prefix.
proof fn lemma_username_prefix(s: Seq<char>, idx: int)
    requires
        0 <= idx <= s.len(),
        forall|k: int| 0 <= k < idx ==> s[k] != ':',
        idx == s.len() || s[idx] == ':',
    ensures
        split_username(s) == s.subrange(0, idx),
    decreases idx,
{
    if idx == 0 {
        assert(s.subrange(0, 0) =~= Seq::<char>::empty());
    } else {
        assert(s[0] != ':');
        lemma_username_prefix(s.drop_first(), idx - 1);
        assert(s.subrange(0, idx) =~= seq![s[0]] + s.drop_first().subrange(0, idx - 1));
    }
}

/// Under the same conditions, the password is exactly the suffix after
/// `idx`, or empty where `idx` is the end.
proof fn lemma_password_suffix(s: Seq<char>, idx: int)
    requires
        0 <= idx <= s.len(),
        forall|k: int| 0 <= k < idx ==> s[k] != ':',
        idx == s.len() || s[idx] == ':',
    ensures
        split_password(s) == if idx == s.len() {
            Seq::<char>::empty()
        } else {
            s.subrange(idx + 1, s.len() as int)
        },
    decreases idx,
{
    if idx == 0 {
        if idx < s.len() {
            assert(s.drop_first() =~= s.subrange(1, s.len() as int));
        }
    } else {
        assert(s[0] != ':');
        lemma_password_suffix(s.drop_first(), idx - 1);
        if idx < s.len() {
            assert(s.drop_first().subrange(idx, s.len() - 1) =~= s.subrange(
                idx + 1,
                s.len() as int,
            ));
        }
    }
}

/// Decodes the stored credential into the login pair. Fails exactly where
/// the text is not valid base64 or does not decode to UTF-8 text.
pub fn decode_credential(auth: &str) -> (r: Result<AuthRequest, Error>)
    ensures
        r is Ok <==> spec_credential(auth@) is Some,
        r matches Ok(a) ==> spec_credential(auth@) == Some(a@),
        r matches Err(e) ==> e is Credential,
{
    let bytes = match b64_decode(auth) {
        Some(b) => b,
        None => {
            return Err(Error::Credential);
        },
    };
    let s = match utf8_string(bytes) {
        Some(s) => s,
        None => {
            return Err(Error::Credential);
        },
    };
    let n: usize = s.as_str().unicode_len();
    let mut idx: usize = 0;
    while idx < n && s.as_str().get_char(idx) != ':'
        invariant
            idx <= n,
            n == s@.len(),
            forall|k: int| 0 <= k < idx ==> s@[k] != ':',
        decreases n - idx,
    {
        idx += 1;
    }
    let username = s.as_str().substring_char(0, idx).to_owned();
    proof {
        lemma_username_prefix(s@, idx as int);
    }
    let password = if idx < n {
        s.as_str().substring_char(idx + 1, n).to_owned()
    } else {
        String::new()
    };
    proof {
        lemma_password_suffix(s@, idx as int);
    }
    Ok(AuthRequest { username, password })
}

} // verus!
