//! Registering the machine: the request that proves possession of the identity key, and
//! what the server's answer leaves in the state.

use vstd::prelude::*;
use crate::key::MachineKey;
use crate::state::AgentState;

verus! {

/// The bytes that the machine signs at registration: a fixed first line, then the public
/// key, the platform and the label, with a line feed between them.
pub open spec fn canonical_bytes(
    public: Seq<u8>,
    platform: Seq<char>,
    label: Seq<char>,
) -> Seq<u8> {
    vstd::utf8::encode_utf8("sylva-machine-registration:v1\n"@) + public + seq![10u8] + vstd::utf8::encode_utf8(platform)
        + seq![10u8] + vstd::utf8::encode_utf8(label)
}

/// The bytes that the agent signs at registration; the server derives the same bytes from
/// the request it receives.
pub fn canonical_machine_bytes(public: &[u8], platform: &str, label: &str) -> (bytes: Vec<u8>)
    ensures
        bytes@ == canonical_bytes(public@, platform@, label@),
        bytes@.len() == 32int + public@.len() + vstd::utf8::encode_utf8(platform@).len() + vstd::utf8::encode_utf8(label@).len(),
        bytes@.subrange(0, 30) == seq![
                115u8, 121u8, 108u8, 118u8, 97u8, 45u8, 109u8, 97u8, 99u8, 104u8, 105u8, 110u8, 101u8, 45u8,
                114u8, 101u8, 103u8, 105u8, 115u8, 116u8, 114u8, 97u8, 116u8, 105u8, 111u8, 110u8, 58u8, 118u8,
                49u8, 10u8,
            ],
        bytes@.subrange(30, 30int + public@.len()) == public@,
        bytes@[30int + public@.len()] == 10u8,
        bytes@.subrange(31int + public@.len(), 31int + public@.len() + vstd::utf8::encode_utf8(platform@).len()) == vstd::utf8::encode_utf8(platform@),
        bytes@[31int + public@.len() + vstd::utf8::encode_utf8(platform@).len()] == 10u8,
        bytes@.subrange(32int + public@.len() + vstd::utf8::encode_utf8(platform@).len(), bytes@.len() as int) == vstd::utf8::encode_utf8(label@),
{
    let mut bytes: Vec<u8> = Vec::new();
    bytes.extend_from_slice("sylva-machine-registration:v1\n".as_bytes());
    bytes.extend_from_slice(public);
    bytes.push(10u8);
    bytes.extend_from_slice(platform.as_bytes());
    bytes.push(10u8);
    bytes.extend_from_slice(label.as_bytes());
    proof {
        law_canonical_bytes_layout(public@, platform@, label@);
    }
    bytes
}

/// The label that two optional host names give.
pub open spec fn label_of(computer_name: Option<Seq<char>>, host_name: Option<Seq<char>>) -> Seq<
    char,
> {
    match computer_name {
        Some(name) => name,
        None => match host_name {
            Some(name) => name,
            None => "sylva-agent"@,
        },
    }
}

/// A human-ish machine label: the computer name, else the host name, with a stable
/// fallback where the environment gives neither.
pub fn machine_label(computer_name: Option<String>, host_name: Option<String>) -> (label: String)
    ensures
        label@ == label_of(crate::state::text_of(computer_name), crate::state::text_of(host_name)),
        computer_name matches Some(name) ==> label@ == name@,
        computer_name is None ==> (host_name matches Some(name) ==> label@ == name@),
        computer_name is None && host_name is None ==> label@ == "sylva-agent"@,
{
    match computer_name {
        Some(name) => name,
        None => match host_name {
            Some(name) => name,
            None => "sylva-agent".to_owned(),
        },
    }
}

/// What the agent sends to register.
#[derive(Debug)]
pub struct RegisterMachineRequest {
    pub machine_identity_public: Vec<u8>,
    pub platform: String,
    pub label: String,
    pub signature: Vec<u8>,
}

/// The mathematical content of a [`RegisterMachineRequest`].
#[verifier::ext_equal]
pub struct RegistrationView {
    pub machine_identity_public: Seq<u8>,
    pub platform: Seq<char>,
    pub label: Seq<char>,
    pub signature: Seq<u8>,
}

impl View for RegisterMachineRequest {
    type V = RegistrationView;

    open spec fn view(&self) -> RegistrationView {
        RegistrationView {
            machine_identity_public: self.machine_identity_public@,
            platform: self.platform@,
            label: self.label@,
            signature: self.signature@,
        }
    }
}

/// The request by which the machine whose key has this seed registers.
pub open spec fn registration(seed: Seq<u8>, platform: Seq<char>, label: Seq<char>) -> RegistrationView {
    let public = crate::key::ed25519_public_key(seed);
    RegistrationView {
        machine_identity_public: public,
        platform,
        label,
        signature: crate::key::ed25519_signature(seed, canonical_bytes(public, platform, label)),
    }
}

/// Puts a registration together from its parts.
pub fn assemble_registration(
    public: &[u8; 32],
    platform: &str,
    label: &str,
    signature: &[u8; 64],
) -> (request: RegisterMachineRequest)
    ensures
        request@ == (RegistrationView {
            machine_identity_public: public@,
            platform: platform@,
            label: label@,
            signature: signature@,
        }),
{
    RegisterMachineRequest {
        machine_identity_public: vstd::slice::slice_to_vec(public.as_slice()),
        platform: platform.to_owned(),
        label: label.to_owned(),
        signature: vstd::slice::slice_to_vec(signature.as_slice()),
    }
}

/// The registration of this machine, signed with its identity key.
pub fn registration_request(key: &MachineKey, platform: &str, label: &str) -> (request:
    RegisterMachineRequest)
    ensures
        request@ == registration(key@, platform@, label@),
        request.machine_identity_public@ == crate::key::ed25519_public_key(key@),
        request.platform@ == platform@,
        request.label@ == label@,
{
    let public: [u8; 32] = key.public();
    let message: Vec<u8> = canonical_machine_bytes(public.as_slice(), platform, label);
    let signature: [u8; 64] = key.sign(message.as_slice());
    assemble_registration(&public, platform, label, &signature)
}

/// The server's answer to a registration.
#[derive(Debug)]
pub struct MachineSession {
    pub machine_id: String,
    pub token: String,
}

/// Records a registration in the state, to be persisted, and gives the session token.
pub fn record_registration(state: &mut AgentState, session: &MachineSession) -> (token: String)
    ensures
        token@ == session.token@,
        final(state)@ == old(state)@.with_session(session.machine_id@, session.token@),
        final(state).machine_id is Some && final(state).machine_id->Some_0@ == session.machine_id@,
        final(state).session_token is Some && final(state).session_token->Some_0@
            == session.token@,
        final(state).machine_key_seed == old(state).machine_key_seed,
        final(state).server_identity == old(state).server_identity,
{
    state.machine_id = Some(session.machine_id.clone());
    state.session_token = Some(session.token.clone());
    session.token.clone()
}

/// In UTF-8 only the line feed itself has a line feed byte.
proof fn lemma_line_feed_byte(text: Seq<char>)
    requires
        !text.contains('\n'),
    ensures
        !vstd::utf8::encode_utf8(text).contains(10u8),
    decreases text.len(),
{
    if text.len() > 0 {
        let rest = text.drop_first();
        assert(!rest.contains('\n')) by {
            if rest.contains('\n') {
                let i = choose|i: int| 0 <= i < rest.len() && rest[i] == '\n';
                assert(text[i + 1] == '\n');
            }
        }
        lemma_line_feed_byte(rest);
        assert(text[0] != '\n');
        lemma_scalar_line_feed(text[0]);
        let head = vstd::utf8::encode_scalar(text[0] as u32);
        let tail = vstd::utf8::encode_utf8(rest);
        assert(vstd::utf8::encode_utf8(text) == head + tail);
        if vstd::utf8::encode_utf8(text).contains(10u8) {
            let i = choose|i: int| 0 <= i < (head + tail).len() && (head + tail)[i] == 10u8;
            if i < head.len() {
                assert(head.contains(10u8));
            } else {
                assert(tail[i - head.len()] == 10u8);
                assert(tail.contains(10u8));
            }
        }
    }
}

/// No character but the line feed is encoded with a line feed byte.
proof fn lemma_scalar_line_feed(c: char)
    requires
        c != '\n',
    ensures
        !vstd::utf8::encode_scalar(c as u32).contains(10u8),
{
    let s = c as u32;
    assert(s != 10);
    assert(s <= 0x7f && s != 10 ==> vstd::utf8::leading_byte_width_1(s) != 10u8) by (bit_vector);
    assert(vstd::utf8::leading_byte_width_2(s) != 10u8) by (bit_vector);
    assert(vstd::utf8::leading_byte_width_3(s) != 10u8) by (bit_vector);
    assert(vstd::utf8::leading_byte_width_4(s) != 10u8) by (bit_vector);
    assert(vstd::utf8::last_continuation_byte(s) != 10u8) by (bit_vector);
    assert(vstd::utf8::second_last_continuation_byte(s) != 10u8) by (bit_vector);
    assert(vstd::utf8::third_last_continuation_byte(s) != 10u8) by (bit_vector);
}

/// Two sequences cut at their first separator have the same parts.
proof fn lemma_split_at_separator(a: Seq<u8>, b: Seq<u8>, c: Seq<u8>, d: Seq<u8>, separator: u8)
    requires
        !a.contains(separator),
        !c.contains(separator),
        a + seq![separator] + b == c + seq![separator] + d,
    ensures
        a == c,
        b == d,
{
    let left = a + seq![separator] + b;
    let right = c + seq![separator] + d;
    assert(left[a.len() as int] == separator);
    assert(right[c.len() as int] == separator);
    if a.len() < c.len() {
        assert(right[a.len() as int] == c[a.len() as int]);
        assert(c.contains(separator));
    } else if c.len() < a.len() {
        assert(left[c.len() as int] == a[c.len() as int]);
        assert(a.contains(separator));
    }
    assert(a == left.take(a.len() as int));
    assert(c == right.take(c.len() as int));
    assert(b == left.skip(a.len() as int + 1));
    assert(d == right.skip(c.len() as int + 1));
}

/// The signed bytes, part by part: the thirty bytes of the first line with its line feed, the
/// public key from there on, a line feed, the platform, a line feed, and the label to the
/// end.
pub proof fn law_canonical_bytes_layout(public: Seq<u8>, platform: Seq<char>, label: Seq<char>)
    ensures
        ({
            let bytes = canonical_bytes(public, platform, label);
            &&& bytes.len() == 32int + public.len() + vstd::utf8::encode_utf8(platform).len() + vstd::utf8::encode_utf8(label).len()
            &&& bytes.subrange(0, 30) == seq![
                    115u8, 121u8, 108u8, 118u8, 97u8, 45u8, 109u8, 97u8, 99u8, 104u8, 105u8, 110u8, 101u8, 45u8,
                    114u8, 101u8, 103u8, 105u8, 115u8, 116u8, 114u8, 97u8, 116u8, 105u8, 111u8, 110u8, 58u8, 118u8,
                    49u8, 10u8,
                ]
            &&& bytes.subrange(30, 30int + public.len()) == public
            &&& bytes[30int + public.len()] == 10u8
            &&& bytes.subrange(31int + public.len(), 31int + public.len() + vstd::utf8::encode_utf8(platform).len()) == vstd::utf8::encode_utf8(platform)
            &&& bytes[31int + public.len() + vstd::utf8::encode_utf8(platform).len()] == 10u8
            &&& bytes.subrange(32int + public.len() + vstd::utf8::encode_utf8(platform).len(), bytes.len() as int) == vstd::utf8::encode_utf8(label)
        }),
{
    let line = "sylva-machine-registration:v1\n"@;
    let first = vstd::utf8::encode_utf8(line);
    reveal_strlit("sylva-machine-registration:v1\n");
    assert(vstd::utf8::is_ascii_chars(line));
    vstd::utf8::is_ascii_chars_encode_utf8(line);
    assert(first == seq![
        115u8, 121u8, 108u8, 118u8, 97u8, 45u8, 109u8, 97u8, 99u8, 104u8, 105u8, 110u8, 101u8, 45u8,
        114u8, 101u8, 103u8, 105u8, 115u8, 116u8, 114u8, 97u8, 116u8, 105u8, 111u8, 110u8, 58u8, 118u8,
        49u8, 10u8,
    ]);
    let p = vstd::utf8::encode_utf8(platform);
    let l = vstd::utf8::encode_utf8(label);
    let bytes = canonical_bytes(public, platform, label);
    assert(bytes.subrange(0, 30) == first);
    assert(bytes.subrange(30, 30int + public.len()) == public);
    assert(bytes.subrange(31int + public.len(), 31int + public.len() + p.len()) == p);
    assert(bytes.subrange(32int + public.len() + p.len(), bytes.len() as int) == l);
}

/// What a registration carries: the public key of the seed, the platform and the label as
/// they are, and the seed's signature over the bytes that a server lays out from those
/// three: the first line, the key, a line feed, the platform, a line feed, the label.
pub proof fn law_signature_covers_the_request(
    seed: Seq<u8>,
    platform: Seq<char>,
    label: Seq<char>,
    message: Seq<u8>,
)
    requires
        ({
            let public = crate::key::ed25519_public_key(seed);
            &&& message.len() == 32int + public.len() + vstd::utf8::encode_utf8(platform).len() + vstd::utf8::encode_utf8(label).len()
            &&& message.subrange(0, 30) == seq![
                    115u8, 121u8, 108u8, 118u8, 97u8, 45u8, 109u8, 97u8, 99u8, 104u8, 105u8, 110u8, 101u8, 45u8,
                    114u8, 101u8, 103u8, 105u8, 115u8, 116u8, 114u8, 97u8, 116u8, 105u8, 111u8, 110u8, 58u8, 118u8,
                    49u8, 10u8,
                ]
            &&& message.subrange(30, 30int + public.len()) == public
            &&& message[30int + public.len()] == 10u8
            &&& message.subrange(31int + public.len(), 31int + public.len() + vstd::utf8::encode_utf8(platform).len()) == vstd::utf8::encode_utf8(platform)
            &&& message[31int + public.len() + vstd::utf8::encode_utf8(platform).len()] == 10u8
            &&& message.subrange(32int + public.len() + vstd::utf8::encode_utf8(platform).len(), message.len() as int) == vstd::utf8::encode_utf8(label)
        }),
    ensures
        registration(seed, platform, label).machine_identity_public
            == crate::key::ed25519_public_key(seed),
        registration(seed, platform, label).platform == platform,
        registration(seed, platform, label).label == label,
        registration(seed, platform, label).signature == crate::key::ed25519_signature(
            seed,
            message,
        ),
{
    let public = crate::key::ed25519_public_key(seed);
    let p = vstd::utf8::encode_utf8(platform);
    let l = vstd::utf8::encode_utf8(label);
    law_canonical_bytes_layout(public, platform, label);
    let bytes = canonical_bytes(public, platform, label);
    let a = 30int + public.len();
    let b = 31int + public.len() + p.len();
    assert(message == message.subrange(0, 30) + message.subrange(30, a) + seq![message[a]]
        + message.subrange(a + 1, b) + seq![message[b]] + message.subrange(
        b + 1,
        message.len() as int,
    ));
    assert(bytes == bytes.subrange(0, 30) + bytes.subrange(30, a) + seq![bytes[a]] + bytes.subrange(
        a + 1,
        b,
    ) + seq![bytes[b]] + bytes.subrange(b + 1, bytes.len() as int));
}

/// The label is the computer name wherever there is one, else the host name wherever there
/// is one, and `sylva-agent` only where there is neither.
pub proof fn law_label_prefers_the_computer_name(
    computer_name: Option<Seq<char>>,
    host_name: Option<Seq<char>>,
)
    ensures
        computer_name is None && host_name is None ==> label_of(computer_name, host_name)
            == "sylva-agent"@,
        computer_name is Some ==> label_of(computer_name, host_name) == computer_name->Some_0,
        computer_name is None && host_name is Some ==> label_of(computer_name, host_name)
            == host_name->Some_0,
{
}

/// A registration's signed bytes stand for one public key, one platform and one label: two
/// keys of one length and two platforms without a line feed give the same bytes only if all
/// three parts agree. So a signature over them cannot be moved to another registration.
pub proof fn law_canonical_bytes_unambiguous(
    public1: Seq<u8>,
    platform1: Seq<char>,
    label1: Seq<char>,
    public2: Seq<u8>,
    platform2: Seq<char>,
    label2: Seq<char>,
)
    requires
        public1.len() == public2.len(),
        !platform1.contains('\n'),
        !platform2.contains('\n'),
        canonical_bytes(public1, platform1, label1) == canonical_bytes(public2, platform2, label2),
    ensures
        public1 == public2,
        platform1 == platform2,
        label1 == label2,
{
    let first = vstd::utf8::encode_utf8("sylva-machine-registration:v1\n"@);
    let tail1 = vstd::utf8::encode_utf8(platform1) + seq![10u8] + vstd::utf8::encode_utf8(label1);
    let tail2 = vstd::utf8::encode_utf8(platform2) + seq![10u8] + vstd::utf8::encode_utf8(label2);
    let whole1 = canonical_bytes(public1, platform1, label1);
    let whole2 = canonical_bytes(public2, platform2, label2);
    assert(whole1 == first + public1 + seq![10u8] + tail1);
    assert(whole2 == first + public2 + seq![10u8] + tail2);
    let cut = (first.len() + public1.len()) as int;
    assert(public1 == whole1.subrange(first.len() as int, cut));
    assert(public2 == whole2.subrange(first.len() as int, cut));
    assert(tail1 == whole1.skip(cut + 1));
    assert(tail2 == whole2.skip(cut + 1));
    lemma_line_feed_byte(platform1);
    lemma_line_feed_byte(platform2);
    lemma_split_at_separator(
        vstd::utf8::encode_utf8(platform1),
        vstd::utf8::encode_utf8(label1),
        vstd::utf8::encode_utf8(platform2),
        vstd::utf8::encode_utf8(label2),
        10u8,
    );
    vstd::utf8::encode_utf8_decode_utf8(platform1);
    vstd::utf8::encode_utf8_decode_utf8(platform2);
    vstd::utf8::encode_utf8_decode_utf8(label1);
    vstd::utf8::encode_utf8_decode_utf8(label2);
}

/// A registration proves possession of the key it names: its signature is the one that
/// the key's own seed makes, over bytes that are rebuilt from the request's own fields.
pub proof fn law_registration_proves_possession(
    seed: Seq<u8>,
    platform: Seq<char>,
    label: Seq<char>,
)
    ensures
        ({
            let request = registration(seed, platform, label);
            &&& request.machine_identity_public == crate::key::ed25519_public_key(seed)
            &&& request.signature == crate::key::ed25519_signature(
                seed,
                canonical_bytes(request.machine_identity_public, request.platform, request.label),
            )
        }),
{
}

} // verus!
