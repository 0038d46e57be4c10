//! The discovery codec: typed messages to and from wire bytes.
//!
//! A message travels as text, `"<Tag>:<name>"`. Decoding first demands that
//! the payload be valid text, then classifies it by substring: any payload
//! containing `"Searching"` counts as a search announcement, any other
//! payload containing `"RoomHost"` counts as a host announcement. That loose
//! substring rule is the wire contract this library keeps.

use vstd::prelude::*;

verus! {

/// `"Searching"` as bytes.
pub open spec fn searching_tag() -> Seq<u8> {
    seq![83u8, 101u8, 97u8, 114u8, 99u8, 104u8, 105u8, 110u8, 103u8]
}

/// `"RoomHost"` as bytes.
pub open spec fn room_host_tag() -> Seq<u8> {
    seq![82u8, 111u8, 111u8, 109u8, 72u8, 111u8, 115u8, 116u8]
}

/// `"JoinRoom"` as bytes.
pub open spec fn join_room_tag() -> Seq<u8> {
    seq![74u8, 111u8, 105u8, 110u8, 82u8, 111u8, 111u8, 109u8]
}

/// `"LeaveRoom"` as bytes.
pub open spec fn leave_room_tag() -> Seq<u8> {
    seq![76u8, 101u8, 97u8, 118u8, 101u8, 82u8, 111u8, 111u8, 109u8]
}

/// The byte of `':'`.
pub open spec fn colon() -> u8 {
    58u8
}

/// A discovery message: an operation tag and the sender's display name.
/// `JoinRoom` and `LeaveRoom` are reserved kinds: encodable, but nothing
/// sends or reacts to them yet.
pub enum Message {
    Searching(Vec<u8>),
    RoomHost(Vec<u8>),
    JoinRoom(Vec<u8>),
    LeaveRoom(Vec<u8>),
}

/// What a received payload was recognized as.
#[derive(Clone, Copy, Debug, PartialEq, Eq, Structural)]
pub enum MessageClass {
    Searching,
    RoomHost,
    Other,
}

/// Why a payload failed to decode.
#[derive(Clone, Copy, Debug, PartialEq, Eq, Structural)]
pub enum DecodeError {
    InvalidEncoding,
}

/// The pattern `p` occurs in `s` starting at index `i`.
pub open spec fn is_match_at(s: Seq<u8>, p: Seq<u8>, i: int) -> bool {
    &&& 0 <= i
    &&& i + p.len() <= s.len()
    &&& forall|k: int| 0 <= k < p.len() ==> s[i + k] == p[k]
}

/// The pattern `p` occurs somewhere in `s`.
pub open spec fn contains_seq(s: Seq<u8>, p: Seq<u8>) -> bool {
    exists|i: int| is_match_at(s, p, i)
}

/// The wire text of a `Searching` message with the given name.
pub open spec fn encoded_searching(name: Seq<u8>) -> Seq<u8> {
    searching_tag() + seq![colon()] + name
}

/// The wire text of a `RoomHost` message with the given name.
pub open spec fn encoded_room_host(name: Seq<u8>) -> Seq<u8> {
    room_host_tag() + seq![colon()] + name
}

/// The wire text of any message: its tag, a colon, the name.
pub open spec fn spec_encode(m: Message) -> Seq<u8> {
    match m {
        Message::Searching(name) => encoded_searching(name@),
        Message::RoomHost(name) => encoded_room_host(name@),
        Message::JoinRoom(name) => join_room_tag() + seq![colon()] + name@,
        Message::LeaveRoom(name) => leave_room_tag() + seq![colon()] + name@,
    }
}

/// The decoder's report of what a payload contains, testing `Searching`
/// before `RoomHost`. Each receive loop still looks only for its own tag —
/// the host serves anything containing `"Searching"`, the client records
/// anything containing `"RoomHost"` — so this order decides nothing when a
/// payload holds both.
pub open spec fn classify(s: Seq<u8>) -> MessageClass {
    if contains_seq(s, searching_tag()) {
        MessageClass::Searching
    } else if contains_seq(s, room_host_tag()) {
        MessageClass::RoomHost
    } else {
        MessageClass::Other
    }
}

/// Every byte is ASCII. Such payloads are always valid text, so decoding
/// them is owed to succeed; all the wire tags are ASCII.
pub open spec fn all_ascii(s: Seq<u8>) -> bool {
    forall|i: int| 0 <= i < s.len() ==> s[i] < 128
}

/// The payload is valid UTF-8 text.
pub uninterp spec fn utf8_ok(bytes: Seq<u8>) -> bool;

/// Relies on `core::str::from_utf8`: it returns `Ok` exactly when the bytes
/// are valid UTF-8, and ASCII bytes (all below 128) are always valid UTF-8.
#[verifier::external_body]
fn is_valid_text(bytes: &Vec<u8>) -> (r: bool)
    ensures
        r == utf8_ok(bytes@),
        all_ascii(bytes@) ==> r,
{
    core::str::from_utf8(bytes.as_slice()).is_ok()
}

/// The bytes of `"Searching"`.
pub fn searching_tag_vec() -> (v: Vec<u8>)
    ensures
        v@ == searching_tag(),
{
    let mut v: Vec<u8> = Vec::new();
    v.push(83);
    v.push(101);
    v.push(97);
    v.push(114);
    v.push(99);
    v.push(104);
    v.push(105);
    v.push(110);
    v.push(103);
    proof {
        assert(v@ =~= searching_tag());
    }
    v
}

/// The bytes of `"RoomHost"`.
pub fn room_host_tag_vec() -> (v: Vec<u8>)
    ensures
        v@ == room_host_tag(),
{
    let mut v: Vec<u8> = Vec::new();
    v.push(82);
    v.push(111);
    v.push(111);
    v.push(109);
    v.push(72);
    v.push(111);
    v.push(115);
    v.push(116);
    proof {
        assert(v@ =~= room_host_tag());
    }
    v
}

/// The bytes of `"JoinRoom"`.
fn join_room_tag_vec() -> (v: Vec<u8>)
    ensures
        v@ == join_room_tag(),
{
    let mut v: Vec<u8> = Vec::new();
    v.push(74);
    v.push(111);
    v.push(105);
    v.push(110);
    v.push(82);
    v.push(111);
    v.push(111);
    v.push(109);
    proof {
        assert(v@ =~= join_room_tag());
    }
    v
}

/// The bytes of `"LeaveRoom"`.
fn leave_room_tag_vec() -> (v: Vec<u8>)
    ensures
        v@ == leave_room_tag(),
{
    let mut v: Vec<u8> = Vec::new();
    v.push(76);
    v.push(101);
    v.push(97);
    v.push(118);
    v.push(101);
    v.push(82);
    v.push(111);
    v.push(111);
    v.push(109);
    proof {
        assert(v@ =~= leave_room_tag());
    }
    v
}

/// Does `p` match `s` at position `i`?
fn match_at(s: &Vec<u8>, p: &Vec<u8>, i: usize) -> (r: bool)
    requires
        i + p@.len() <= s@.len(),
    ensures
        r == is_match_at(s@, p@, i as int),
{
    let n = s.len();
    let mut k: usize = 0;
    while k < p.len()
        invariant
            i + p@.len() <= s@.len(),
            s@.len() == n,
            k <= p@.len(),
            forall|t: int| 0 <= t < k ==> s@[i + t] == p@[t],
        decreases p@.len() - k,
    {
        if s[i + k] != p[k] {
            assert(!is_match_at(s@, p@, i as int)) by {
                assert(s@[i + k] != p@[k as int]);
            }
            return false;
        }
        k += 1;
    }
    true
}

/// Substring search: does `p` occur anywhere in `s`?
pub fn contains_sub(s: &Vec<u8>, p: &Vec<u8>) -> (r: bool)
    ensures
        r == contains_seq(s@, p@),
{
    if p.len() > s.len() {
        assert(!contains_seq(s@, p@)) by {
            assert(forall|i: int| !is_match_at(s@, p@, i));
        }
        return false;
    }
    let bound: usize = s.len() - p.len();
    let mut i: usize = 0;
    loop
        invariant
            p@.len() <= s@.len(),
            bound == s@.len() - p@.len(),
            i <= bound,
            forall|j: int| 0 <= j < i ==> !is_match_at(s@, p@, j),
        ensures
            forall|j: int| 0 <= j <= bound ==> !is_match_at(s@, p@, j),
        decreases bound - i,
    {
        if match_at(s, p, i) {
            return true;
        }
        if i == bound {
            break;
        }
        i += 1;
    }
    assert(!contains_seq(s@, p@)) by {
        assert(forall|j: int| is_match_at(s@, p@, j) ==> 0 <= j <= bound);
    }
    false
}

/// Join a tag, the `':'` separator, and a name into one payload.
fn encode_parts(tag: &Vec<u8>, name: &Vec<u8>) -> (r: Vec<u8>)
    ensures
        r@ == tag@ + seq![58u8] + name@,
{
    let mut v: Vec<u8> = Vec::new();
    let mut j: usize = 0;
    while j < tag.len()
        invariant
            j <= tag@.len(),
            v@ == tag@.subrange(0, j as int),
        decreases tag@.len() - j,
    {
        v.push(tag[j]);
        proof {
            assert(v@ =~= tag@.subrange(0, j + 1));
        }
        j += 1;
    }
    proof {
        assert(v@ =~= tag@);
    }
    v.push(58);
    let mut k: usize = 0;
    while k < name.len()
        invariant
            k <= name@.len(),
            v@ == tag@ + seq![58u8] + name@.subrange(0, k as int),
        decreases name@.len() - k,
    {
        v.push(name[k]);
        proof {
            assert(v@ =~= tag@ + seq![58u8] + name@.subrange(0, k + 1));
        }
        k += 1;
    }
    proof {
        assert(v@ =~= tag@ + seq![58u8] + name@);
    }
    v
}

/// Encode a message as its wire bytes, `"<Tag>:<name>"`.
pub fn encode(m: &Message) -> (r: Vec<u8>)
    ensures
        r@ == spec_encode(*m),
{
    match m {
        Message::Searching(n) => {
            let tag = searching_tag_vec();
            let r = encode_parts(&tag, n);
            proof {
                assert(r@ =~= spec_encode(*m));
            }
            r
        },
        Message::RoomHost(n) => {
            let tag = room_host_tag_vec();
            let r = encode_parts(&tag, n);
            proof {
                assert(r@ =~= spec_encode(*m));
            }
            r
        },
        Message::JoinRoom(n) => {
            let tag = join_room_tag_vec();
            let r = encode_parts(&tag, n);
            proof {
                assert(r@ =~= spec_encode(*m));
            }
            r
        },
        Message::LeaveRoom(n) => {
            let tag = leave_room_tag_vec();
            let r = encode_parts(&tag, n);
            proof {
                assert(r@ =~= spec_encode(*m));
            }
            r
        },
    }
}

/// Decode wire bytes: reject anything that is not valid text, then classify
/// by the substring rule. A payload that is text but matches no tag decodes
/// to `Other`, which the receive loops merely observe.
pub fn decode(bytes: &Vec<u8>) -> (r: Result<MessageClass, DecodeError>)
    ensures
        r is Err <==> !utf8_ok(bytes@),
        r is Err ==> r == Err::<MessageClass, DecodeError>(DecodeError::InvalidEncoding),
        r is Ok ==> r == Ok::<MessageClass, DecodeError>(classify(bytes@)),
        all_ascii(bytes@) ==> r is Ok,
{
    if !is_valid_text(bytes) {
        return Err(DecodeError::InvalidEncoding);
    }
    let searching = searching_tag_vec();
    if contains_sub(bytes, &searching) {
        return Ok(MessageClass::Searching);
    }
    let room_host = room_host_tag_vec();
    if contains_sub(bytes, &room_host) {
        return Ok(MessageClass::RoomHost);
    }
    Ok(MessageClass::Other)
}

/// Law: whatever the name, the encoding of a `Searching` message classifies
/// as `Searching` — the tag itself is the witness substring.
pub proof fn lemma_searching_round_trip(name: Seq<u8>)
    ensures
        classify(encoded_searching(name)) == MessageClass::Searching,
{
    let enc = encoded_searching(name);
    assert(is_match_at(enc, searching_tag(), 0)) by {
        assert(forall|k: int|
            0 <= k < searching_tag().len() ==> enc[k] == searching_tag()[k]);
    }
}

/// Law: an ASCII name yields an ASCII payload — the tags and the separator
/// are ASCII themselves — so the encodings of such messages are owed to
/// decode successfully.
pub proof fn lemma_encoded_ascii(name: Seq<u8>)
    requires
        all_ascii(name),
    ensures
        all_ascii(encoded_searching(name)),
        all_ascii(encoded_room_host(name)),
{
    assert forall|i: int| 0 <= i < encoded_searching(name).len() implies encoded_searching(
        name,
    )[i] < 128 by {
        let prefix = searching_tag() + seq![colon()];
        if i >= prefix.len() {
            assert(encoded_searching(name)[i] == name[i - prefix.len()]);
        }
    }
    assert forall|i: int| 0 <= i < encoded_room_host(name).len() implies encoded_room_host(
        name,
    )[i] < 128 by {
        let prefix = room_host_tag() + seq![colon()];
        if i >= prefix.len() {
            assert(encoded_room_host(name)[i] == name[i - prefix.len()]);
        }
    }
}

/// Law: the encoding of a `RoomHost` message classifies as `RoomHost`,
/// provided the name does not itself contain `"Searching"` (the decoder
/// reports such a payload as `Searching`; the client's own rule tests only
/// the `RoomHost` substring and records it either way).
pub proof fn lemma_room_host_round_trip(name: Seq<u8>)
    requires
        !contains_seq(name, searching_tag()),
    ensures
        classify(encoded_room_host(name)) == MessageClass::RoomHost,
{
    let enc = encoded_room_host(name);
    let prefix = room_host_tag() + seq![colon()];
    assert(enc =~= prefix + name);
    assert(is_match_at(enc, room_host_tag(), 0)) by {
        assert(forall|k: int|
            0 <= k < room_host_tag().len() ==> enc[k] == room_host_tag()[k]);
    }
    assert(!contains_seq(enc, searching_tag())) by {
        assert forall|i: int| !is_match_at(enc, searching_tag(), i) by {
            if is_match_at(enc, searching_tag(), i) {
                assert(enc[i + 0] == searching_tag()[0]);
                assert(searching_tag()[0] == 83);
                if i < prefix.len() {
                    // No byte of "RoomHost:" is 'S' (83), so no occurrence
                    // of the search tag can start inside the prefix.
                    assert(enc[i] == prefix[i]);
                    assert(prefix[i] != 83);
                } else {
                    // An occurrence past the prefix lies wholly in the name.
                    let j = i - prefix.len();
                    assert(is_match_at(name, searching_tag(), j)) by {
                        assert(forall|k: int|
                            0 <= k < searching_tag().len() ==> name[j + k] == #[trigger] enc[i
                                + k]);
                    }
                }
            }
        }
    }
}

} // verus!
