//! Registry credentials as the Docker configuration file keeps them: for
//! each registry, `username:password` in base64. Reading and writing the
//! file is left to the caller.
use vstd::prelude::*;
use crate::bytes::slice_to_bytes;
use crate::codec::{base64_decode, base64_decoding, base64_encode, base64_encoding};
use crate::runtime::{assoc_find, has_key, key_at, lemma_key_at_unique};
use crate::storage::{join_path, path_join};
use crate::text::{chars_of, split_once_chars, split_once_spec, string_from_chars};
use crate::yaml::{assoc_delete, assoc_insert, assoc_put, assoc_remove};

verus! {

broadcast use vstd::string::group_string_axioms;

/// The UTF-8 bytes of a text.
pub open spec fn utf8(s: Seq<char>) -> Seq<u8> {
    vstd::utf8::encode_utf8(s)
}

/// std's `String::from_utf8`: the text that `bytes` encode in UTF-8, or
/// nothing when they are not valid UTF-8.
#[verifier::external_body]
fn text_of_utf8(bytes: Vec<u8>) -> (r: Option<String>)
    ensures
        match r {
            Some(s) => vstd::utf8::valid_utf8(bytes@) && s@ == vstd::utf8::decode_utf8(bytes@),
            None => !vstd::utf8::valid_utf8(bytes@),
        },
{
    String::from_utf8(bytes).ok()
}

/// Why an `auth` entry could not be read.
#[derive(Debug, Clone, Copy, PartialEq, Eq, Structural)]
pub enum CredentialError {
    /// The entry is not valid base64.
    InvalidBase64,
    /// The decoded entry is not UTF-8 text.
    InvalidUtf8,
}

/// The `auth` entry of a registry: `username:password` in base64.
pub open spec fn auth_of(username: Seq<char>, password: Seq<char>) -> Seq<char> {
    base64_encoding(utf8(username + ":"@ + password))
}

/// The `auth` entry of a registry for `username` and `password`.
pub fn auth_entry(username: &str, password: &str) -> (r: String)
    ensures
        r@ == auth_of(username@, password@),
        base64_decoding(utf8(r@)) == Some(utf8(username@ + ":"@ + password@)),
{
    let mut v = chars_of(username);
    crate::text::append_str(&mut v, ":");
    crate::text::append_str(&mut v, password);
    let s = string_from_chars(&v);
    let bytes = slice_to_bytes(s.as_str().as_bytes());
    proof {
        reveal_strlit(":");
    }
    base64_encode(bytes.as_slice())
}

/// What an `auth` entry holds: an error when it is not base64 of UTF-8
/// text, otherwise the user name and password around its first `:`, or
/// nothing when it has none.
pub open spec fn credentials_of(auth: Seq<char>) -> Result<Option<(Seq<char>, Seq<char>)>, CredentialError> {
    match base64_decoding(utf8(auth)) {
        None => Err(CredentialError::InvalidBase64),
        Some(bytes) => if !vstd::utf8::valid_utf8(bytes) {
            Err(CredentialError::InvalidUtf8)
        } else {
            Ok(split_once_spec(vstd::utf8::decode_utf8(bytes), ':'))
        },
    }
}

/// The user name and password of an `auth` entry.
pub fn credentials_from_auth(auth: &str) -> (r: Result<Option<(String, String)>, CredentialError>)
    ensures
        match r {
            Ok(Some((u, p))) => credentials_of(auth@) == Ok::<Option<(Seq<char>, Seq<char>)>, CredentialError>(
                Some((u@, p@)),
            ),
            Ok(None) => credentials_of(auth@) == Ok::<Option<(Seq<char>, Seq<char>)>, CredentialError>(None),
            Err(e) => credentials_of(auth@) == Err::<Option<(Seq<char>, Seq<char>)>, CredentialError>(e),
        },
{
    let bytes = slice_to_bytes(auth.as_bytes());
    match base64_decode(bytes.as_slice()) {
        None => Err(CredentialError::InvalidBase64),
        Some(decoded) => match text_of_utf8(decoded) {
            None => Err(CredentialError::InvalidUtf8),
            Some(text) => {
                let cs = chars_of(text.as_str());
                match split_once_chars(&cs, ':') {
                    Some((u, p)) => Ok(Some((string_from_chars(&u), string_from_chars(&p)))),
                    None => Ok(None),
                }
            },
        },
    }
}

/// The credentials of the registries, kept in the file at `path`.
#[derive(Debug)]
pub struct CredentialStore {
    pub path: String,
}

impl CredentialStore {
    /// A store in `.docker/config.json` of the home directory `home`.
    pub fn new(home: &str) -> (s: Self)
        ensures
            s.path@ == path_join(path_join(home@, ".docker"@), "config.json"@),
    {
        let d = join_path(home, ".docker");
        CredentialStore { path: join_path(d.as_str(), "config.json") }
    }

    /// Records the credentials of `registry` in the `auths` read from the
    /// file, replacing earlier ones.
    pub fn store(&self, auths: &mut Vec<(String, String)>, registry: &str, username: &str, password: &str)
        ensures
            final(auths).deep_view() == assoc_insert(old(auths).deep_view(), registry@, auth_of(username@, password@)),
            base64_decoding(utf8(auth_of(username@, password@))) == Some(utf8(username@ + ":"@ + password@)),
    {
        let a = auth_entry(username, password);
        assoc_put(auths, registry.to_string(), a);
    }

    /// The credentials of `registry` in `auths`: none when it has no entry
    /// or its entry has no `:`, an error when the entry does not decode.
    pub fn get(&self, auths: &Vec<(String, String)>, registry: &str) -> (r: Result<Option<(String, String)>, CredentialError>)
        ensures
            !has_key(auths.deep_view(), registry@) ==> r matches Ok(None),
            forall|i: int|
                key_at(auths.deep_view(), registry@, i) ==> match r {
                    Ok(Some((u, p))) => credentials_of(auths.deep_view()[i].1) == Ok::<
                        Option<(Seq<char>, Seq<char>)>,
                        CredentialError,
                    >(Some((u@, p@))),
                    Ok(None) => credentials_of(auths.deep_view()[i].1) == Ok::<
                        Option<(Seq<char>, Seq<char>)>,
                        CredentialError,
                    >(None),
                    Err(e) => credentials_of(auths.deep_view()[i].1) == Err::<
                        Option<(Seq<char>, Seq<char>)>,
                        CredentialError,
                    >(e),
                },
    {
        match assoc_find(auths, registry) {
            None => Ok(None),
            Some(i) => {
                proof {
                    assert forall|j: int| key_at(auths.deep_view(), registry@, j) implies j == i by {
                        lemma_key_at_unique(auths.deep_view(), registry@, i as int, j);
                    }
                }
                assert(auths.deep_view()[i as int].1 == auths@[i as int].1@);
                credentials_from_auth(auths[i].1.as_str())
            },
        }
    }

    /// Forgets the credentials of `registry`.
    pub fn erase(&self, auths: &mut Vec<(String, String)>, registry: &str)
        ensures
            final(auths).deep_view() == assoc_remove(old(auths).deep_view(), registry@),
    {
        assoc_delete(auths, registry);
    }

    /// The registries with credentials, each with an empty value.
    pub fn list(&self, auths: &Vec<(String, String)>) -> (r: Vec<(String, String)>)
        ensures
            r.deep_view() == auths.deep_view().map_values(|e: (Seq<char>, Seq<char>)| (e.0, Seq::<char>::empty())),
    {
        let mut r: Vec<(String, String)> = Vec::new();
        let mut i: usize = 0;
        while i < auths.len()
            invariant
                i <= auths.len(),
                r.deep_view() == auths.deep_view().take(i as int).map_values(
                    |e: (Seq<char>, Seq<char>)| (e.0, Seq::<char>::empty()),
                ),
            decreases auths.len() - i,
        {
            let ghost before = r.deep_view();
            r.push((auths[i].0.clone(), String::new()));
            assert(auths.deep_view()[i as int].0 == auths@[i as int].0@);
            assert(r.deep_view() =~= before.push((auths.deep_view()[i as int].0, Seq::<char>::empty())));
            assert(auths.deep_view().take(i + 1).map_values(|e: (Seq<char>, Seq<char>)| (e.0, Seq::<char>::empty()))
                =~= auths.deep_view().take(i as int).map_values(
                |e: (Seq<char>, Seq<char>)| (e.0, Seq::<char>::empty()),
            ).push((auths.deep_view()[i as int].0, Seq::<char>::empty())));
            i = i + 1;
        }
        assert(auths.deep_view().take(auths.len() as int) =~= auths.deep_view());
        r
    }
}

/// Credentials stored for a registry are read back as stored: an entry
/// that decodes to `username:password`, for a user name without `:`,
/// gives that user name and password.
pub proof fn law_get_after_store(auth: Seq<char>, username: Seq<char>, password: Seq<char>)
    requires
        base64_decoding(utf8(auth)) == Some(utf8(username + ":"@ + password)),
        !crate::text::has_char(username, ':'),
    ensures
        credentials_of(auth) == Ok::<Option<(Seq<char>, Seq<char>)>, CredentialError>(Some((username, password))),
{
    let text = username + ":"@ + password;
    vstd::utf8::encode_utf8_valid_utf8(text);
    vstd::utf8::encode_utf8_decode_utf8(text);
    reveal_strlit(":");
    assert(text[username.len() as int] == ':');
    assert forall|j: int| 0 <= j < username.len() implies text[j] != ':' by {
        assert(text[j] == username[j]);
        if username[j] == ':' {
            assert(crate::text::has_char(username, ':'));
        }
    }
    crate::text::lemma_first_index_unique(text, ':', username.len() as int);
    assert(text.take(username.len() as int) =~= username);
    assert(text.skip(username.len() as int + 1) =~= password);
}

/// Erasing the credentials just stored for a registry that had none gives
/// back the entries as they were.
pub proof fn law_erase_undoes_store(auths: Seq<(Seq<char>, Seq<char>)>, registry: Seq<char>, auth: Seq<char>)
    requires
        !has_key(auths, registry),
    ensures
        assoc_remove(assoc_insert(auths, registry, auth), registry) == auths,
{
    crate::runtime::law_assoc_remove_after_insert(auths, registry, auth);
}

} // verus!
