//! Requests that carry the machine session token.

use tonic::metadata::MetadataMap;
use vstd::prelude::*;

verus! {

/// Declares `tonic::metadata::MetadataMap`, the metadata of a request. It stays opaque; what
/// it holds is spoken of through [`metadata_entries`].
#[verifier::external_type_specification]
#[verifier::external_body]
pub struct ExMetadataMap(MetadataMap);

/// Declares `tonic::metadata::errors::InvalidMetadataValue`, the error of a text that cannot
/// be a metadata value. Nothing is claimed of its contents.
#[verifier::external_type_specification]
#[verifier::external_body]
pub struct ExInvalidMetadataValue(tonic::metadata::errors::InvalidMetadataValue);

/// What a metadata map holds: under each key its values' bytes, in order.
pub uninterp spec fn metadata_entries(map: MetadataMap) -> Map<Seq<char>, Seq<Seq<u8>>>;

/// The contents of an empty metadata map.
pub open spec fn no_entries() -> Map<Seq<char>, Seq<Seq<u8>>> {
    Map::empty()
}

/// Whether a byte may stand in a metadata value: the tab, and everything from the space on
/// but the delete character.
pub open spec fn is_metadata_byte(b: u8) -> bool {
    b == 9 || (b >= 32 && b != 127)
}

/// Whether a text may be a metadata value.
pub open spec fn is_metadata_text(text: Seq<char>) -> bool {
    let bytes = vstd::utf8::encode_utf8(text);
    forall|i: int| 0 <= i < bytes.len() ==> is_metadata_byte(#[trigger] bytes[i])
}

/// Calls `tonic::metadata::MetadataMap::new`. Trusted: the map is empty.
#[verifier::external_body]
fn empty_metadata() -> (map: MetadataMap)
    ensures
        metadata_entries(map) == no_entries(),
{
    MetadataMap::new()
}

/// Parses a `tonic::metadata::MetadataValue<Ascii>` from a text. Trusted: it succeeds
/// exactly on the texts whose UTF-8 bytes may all stand in a metadata value (bytes above
/// ASCII may), and the value then holds those bytes.
#[verifier::external_body]
fn parse_metadata_value(text: &str) -> (value: Result<
    Vec<u8>,
    tonic::metadata::errors::InvalidMetadataValue,
>)
    ensures
        value is Ok <==> is_metadata_text(text@),
        value is Ok ==> value->Ok_0@ == vstd::utf8::encode_utf8(text@),
{
    let parsed: Result<tonic::metadata::MetadataValue<tonic::metadata::Ascii>, _> = text.parse();
    parsed.map(|value| value.as_bytes().to_vec())
}

/// Calls `tonic::metadata::MetadataMap::insert` on a map that is still empty, with a key
/// of lower-case letters and bytes that may stand in a value. Trusted: the map then holds
/// that value under that key, and nothing else.
#[verifier::external_body]
fn insert_metadata(map: &mut MetadataMap, key: &'static str, value: &[u8])
    requires
        metadata_entries(*old(map)) == no_entries(),
        0 < key@.len() < 256,
        forall|i: int| 0 <= i < key@.len() ==> 'a' <= #[trigger] key@[i] <= 'z',
        forall|i: int| 0 <= i < value@.len() ==> is_metadata_byte(#[trigger] value@[i]),
    ensures
        metadata_entries(*final(map)) == metadata_entries(*old(map)).insert(key@, seq![value@]),
{
    map.insert(key, tonic::metadata::MetadataValue::try_from(value).expect("a metadata value"));
}

/// A message together with the metadata that goes with it.
pub struct AuthedRequest<T> {
    pub message: T,
    pub metadata: MetadataMap,
}

/// The metadata that carries a session token: one `authorization` value where the token
/// can stand in one, and none at all where it cannot.
pub open spec fn bearer_entries(token: Seq<char>) -> Map<Seq<char>, Seq<Seq<u8>>> {
    let value = "Bearer "@ + token;
    if is_metadata_text(value) {
        no_entries().insert(
            "authorization"@,
            seq![vstd::utf8::encode_utf8(value)],
        )
    } else {
        no_entries()
    }
}

/// Wraps a message in a request carrying the machine session token.
pub fn authed<T>(token: &str, message: T) -> (request: AuthedRequest<T>)
    ensures
        request.message == message,
        metadata_entries(request.metadata) == bearer_entries(token@),
{
    let mut metadata: MetadataMap = empty_metadata();
    let text: String = "Bearer ".to_owned().concat(token);
    if let Ok(value) = parse_metadata_value(text.as_str()) {
        proof {
            reveal_strlit("authorization");
        }
        insert_metadata(&mut metadata, "authorization", value.as_slice());
    }
    AuthedRequest { message, metadata }
}

/// The UTF-8 bytes of two texts in a row are those of the first, then those of the second.
proof fn lemma_encode_concat(first: Seq<char>, second: Seq<char>)
    ensures
        vstd::utf8::encode_utf8(first + second) == vstd::utf8::encode_utf8(first)
            + vstd::utf8::encode_utf8(second),
    decreases first.len(),
{
    if first.len() == 0 {
        assert(first + second == second);
    } else {
        lemma_encode_concat(first.drop_first(), second);
        assert((first + second).drop_first() == first.drop_first() + second);
        assert((first + second)[0] == first[0]);
    }
}

/// A token travels with a request exactly where its own bytes may stand in a metadata
/// value, and then as the bytes of `Bearer `, then its own. A request with any other token
/// goes out with no metadata at all.
pub proof fn law_bearer_follows_token(token: Seq<char>)
    ensures
        is_metadata_text(token) ==> bearer_entries(token) == no_entries().insert(
            "authorization"@,
            seq![vstd::utf8::encode_utf8("Bearer "@) + vstd::utf8::encode_utf8(token)],
        ),
        !is_metadata_text(token) ==> bearer_entries(token) == no_entries(),
{
    let prefix = "Bearer "@;
    let bytes = vstd::utf8::encode_utf8(prefix);
    let own = vstd::utf8::encode_utf8(token);
    reveal_strlit("Bearer ");
    lemma_encode_concat(prefix, token);
    assert(vstd::utf8::is_ascii_chars(prefix));
    vstd::utf8::is_ascii_chars_encode_utf8(prefix);
    assert forall|i: int| 0 <= i < bytes.len() implies is_metadata_byte(#[trigger] bytes[i]) by {
        assert(prefix[i] as u8 == bytes[i]);
        assert(prefix[i] == 'B' || prefix[i] == 'e' || prefix[i] == 'a' || prefix[i] == 'r'
            || prefix[i] == ' ');
    }
    if !is_metadata_text(token) {
        let i = choose|i: int| 0 <= i < own.len() && !is_metadata_byte(#[trigger] own[i]);
        assert(!is_metadata_byte((bytes + own)[bytes.len() + i]));
    }
}

/// A token all of whose bytes are a tab, or from the space on and not the delete character,
/// goes out as the one value of the one entry `authorization`: the seven bytes of `Bearer `,
/// then the token's. With any other byte in the token there is no entry at all.
pub proof fn law_bearer_value(token: Seq<char>)
    ensures
        ({
            let own = vstd::utf8::encode_utf8(token);
            let entries = bearer_entries(token);
            let travels = forall|i: int|
                0 <= i < own.len() ==> (#[trigger] own[i] == 9 || (own[i] >= 32 && own[i] != 127));
            &&& travels ==> {
                &&& entries.dom() == set!["authorization"@]
                &&& entries["authorization"@].len() == 1
                &&& entries["authorization"@][0] == seq![66u8, 101u8, 97u8, 114u8, 101u8, 114u8, 32u8]
                    + own
            }
            &&& !travels ==> entries.dom() == Set::<Seq<char>>::empty()
        }),
{
    law_bearer_follows_token(token);
    let own = vstd::utf8::encode_utf8(token);
    let travels = forall|i: int|
        0 <= i < own.len() ==> (#[trigger] own[i] == 9 || (own[i] >= 32 && own[i] != 127));
    let prefix = "Bearer "@;
    reveal_strlit("Bearer ");
    assert(vstd::utf8::is_ascii_chars(prefix));
    vstd::utf8::is_ascii_chars_encode_utf8(prefix);
    assert(vstd::utf8::encode_utf8(prefix) == seq![
        66u8,
        101u8,
        97u8,
        114u8,
        101u8,
        114u8,
        32u8,
    ]);
    if travels {
        assert forall|i: int| 0 <= i < own.len() implies is_metadata_byte(#[trigger] own[i]) by {}
        assert(is_metadata_text(token));
    } else {
        let i = choose|i: int|
            0 <= i < own.len() && !(#[trigger] own[i] == 9 || (own[i] >= 32 && own[i] != 127));
        assert(!is_metadata_byte(own[i]));
    }
}

} // verus!
