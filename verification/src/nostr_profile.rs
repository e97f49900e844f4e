//! What the agent presents on nostr: the keys it signs with and the profile
//! it publishes with every note.

use vstd::prelude::*;
use nostr_sdk::{Keys, ToBech32, Url};
use nostr_sdk::key::Error as KeyError;
use nostr_sdk::types::url::ParseError;

verus! {

#[verifier::external_type_specification]
#[verifier::external_body]
pub struct ExKeys(Keys);

#[verifier::external_type_specification]
#[verifier::external_body]
pub struct ExKeyError(KeyError);

#[verifier::external_type_specification]
#[verifier::external_body]
pub struct ExUrlParseError(ParseError);

/// Whether `Keys::parse` accepts `secret` (a hex or bech32 secret key).
pub uninterp spec fn secret_key_valid(secret: Seq<char>) -> bool;

/// What `Url::parse(text)` followed by serialising the URL gives: `None`
/// when the text is no URL.
pub uninterp spec fn url_serialization(text: Seq<char>) -> Option<Seq<char>>;

/// The bech32 `npub` text of the public key that belongs to the secret key
/// `secret`.
pub uninterp spec fn secret_npub(secret: Seq<char>) -> Seq<char>;

/// The bech32 `npub` text of the public key of `keys`.
pub uninterp spec fn keys_npub(keys: Keys) -> Seq<char>;

/// `Keys::parse`: whether it succeeds is named by [`secret_key_valid`]; the
/// keys it gives have the public key of that secret.
#[verifier::external_body]
fn parse_keys(secret: &str) -> (r: Result<Keys, KeyError>)
    ensures
        r is Ok <==> secret_key_valid(secret@),
        r matches Ok(k) ==> keys_npub(k) == secret_npub(secret@),
{
    Keys::parse(secret)
}

/// `keys.public_key().to_bech32()`, which cannot fail: the `npub` text of
/// the public key, named by [`keys_npub`].
#[verifier::external_body]
fn npub_of(keys: &Keys) -> (r: String)
    ensures
        r@ == keys_npub(*keys),
{
    match keys.public_key().to_bech32() {
        Ok(s) => s,
        Err(e) => match e {},
    }
}

/// `Url::parse`, serialised back to text (as `Metadata::picture` stores it);
/// the result is named by [`url_serialization`].
#[verifier::external_body]
fn parse_url(text: &str) -> (r: Result<String, ParseError>)
    ensures
        r matches Ok(s) ==> url_serialization(text@) == Some(s@),
        r is Err ==> url_serialization(text@) is None,
{
    match Url::parse(text) {
        Ok(u) => Ok(String::from(u)),
        Err(e) => Err(e),
    }
}

/// The agent's signing keys and the `npub` it shows, for a secret key: the
/// bech32 text of the public key that belongs to that secret.
pub fn signing_identity(secret: &str) -> (r: Result<(Keys, String), KeyError>)
    ensures
        r is Ok <==> secret_key_valid(secret@),
        r matches Ok((k, npub)) ==> npub@ == secret_npub(secret@) && keys_npub(k) == secret_npub(secret@),
{
    match parse_keys(secret) {
        Ok(keys) => {
            let npub = npub_of(&keys);
            Ok((keys, npub))
        },
        Err(e) => Err(e),
    }
}

/// The profile fields as the agent's configuration gives them.
#[derive(Clone, Debug, PartialEq, Eq)]
pub struct ProfileFields {
    pub name: String,
    pub display_name: String,
    pub about: String,
    pub picture: String,
    pub banner: String,
    pub nip05: String,
    pub lud16: String,
}

/// The profile the agent publishes: the configured fields, with the two
/// image addresses in the form the URL parser writes them.
#[derive(Clone, Debug, PartialEq, Eq)]
pub struct ProfileMetadata {
    pub name: String,
    pub display_name: String,
    pub about: String,
    pub picture: String,
    pub banner: String,
    pub nip05: String,
    pub lud16: String,
}

/// One of the two image addresses of a profile.
pub enum ImageField {
    Picture,
    Banner,
}

/// Which image address the URL parser refuses first: the picture is parsed
/// before the banner.
pub open spec fn profile_url_failure(f: ProfileFields) -> Option<ImageField> {
    if url_serialization(f.picture@) is None {
        Some(ImageField::Picture)
    } else if url_serialization(f.banner@) is None {
        Some(ImageField::Banner)
    } else {
        None
    }
}

/// Builds the published profile from the configured fields: the picture
/// address is parsed first, then the banner's; the first that is no URL is
/// the error.
pub fn profile_metadata(f: ProfileFields) -> (r: Result<ProfileMetadata, ParseError>)
    ensures
        r is Err <==> profile_url_failure(f) is Some,
        r matches Ok(m) ==> {
            &&& m.name@ == f.name@
            &&& m.display_name@ == f.display_name@
            &&& m.about@ == f.about@
            &&& Some(m.picture@) == url_serialization(f.picture@)
            &&& Some(m.banner@) == url_serialization(f.banner@)
            &&& m.nip05@ == f.nip05@
            &&& m.lud16@ == f.lud16@
        },
{
    let picture = match parse_url(f.picture.as_str()) {
        Ok(p) => p,
        Err(e) => return Err(e),
    };
    let banner = match parse_url(f.banner.as_str()) {
        Ok(b) => b,
        Err(e) => return Err(e),
    };
    Ok(ProfileMetadata {
        name: f.name,
        display_name: f.display_name,
        about: f.about,
        picture,
        banner,
        nip05: f.nip05,
        lud16: f.lud16,
    })
}

/// The picture address is checked before the banner's: a picture that is no
/// URL is the failure whatever the banner holds; a banner that is no URL is
/// the failure when the picture is one; when both are URLs nothing fails.
pub proof fn law_profile_url_failure(f: ProfileFields)
    ensures
        url_serialization(f.picture@) is None ==> profile_url_failure(f) == Some(ImageField::Picture),
        url_serialization(f.picture@) is Some && url_serialization(f.banner@) is None
            ==> profile_url_failure(f) == Some(ImageField::Banner),
        url_serialization(f.picture@) is Some && url_serialization(f.banner@) is Some ==> profile_url_failure(f) is None,
{
}

} // verus!
