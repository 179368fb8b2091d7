//! The invite token that guards the hub, and the link that carries it.

use vstd::prelude::*;
use rand::distributions::Alphanumeric;
use rand::Rng;

verus! {

/// The number of characters of an invite token.
pub const TOKEN_LEN: usize = 6;

/// `c` is an ASCII letter or digit.
pub open spec fn is_ascii_alphanumeric(c: char) -> bool {
    ||| 'a' <= c <= 'z'
    ||| 'A' <= c <= 'Z'
    ||| '0' <= c <= '9'
}

/// Calls `Rng::sample` with the `Alphanumeric` distribution on the thread's
/// random generator, which draws one byte uniformly among the ASCII letters and
/// digits. Which one is drawn is chance.
#[verifier::external_body]
fn random_alphanumeric() -> (res: u8)
    ensures
        is_ascii_alphanumeric(res as char),
{
    rand::thread_rng().sample(Alphanumeric)
}

/// Calls `String::push`, which appends `c`.
#[verifier::external_body]
fn push_char(s: &mut String, c: char)
    ensures
        final(s)@ == old(s)@.push(c),
{
    s.push(c);
}

/// A fresh invite token: six random ASCII letters and digits.
pub fn generate_invite_token() -> (res: String)
    ensures
        res@.len() == TOKEN_LEN,
        forall|i: int| 0 <= i < res@.len() ==> is_ascii_alphanumeric(#[trigger] res@[i]),
{
    let mut token = String::new();
    for i in 0..TOKEN_LEN
        invariant
            token@.len() == i,
            forall|j: int| 0 <= j < token@.len() ==> is_ascii_alphanumeric(#[trigger] token@[j]),
    {
        let b = random_alphanumeric();
        push_char(&mut token, b as char);
    }
    token
}

/// The link that lets a browser on the local network join the hub on `host`.
pub fn invite_url(host: &str, token: &str) -> (res: String)
    ensures
        res@ == "https://"@ + host@ + ":8443/?token="@ + token@,
{
    let mut url = String::from_str("https://");
    url.append(host);
    url.append(":8443/?token=");
    url.append(token);
    url
}

} // verus!
