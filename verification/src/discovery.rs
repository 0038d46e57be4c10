//! The peer role state machine.
//!
//! A peer is `Idle` until it either starts hosting or starts searching. The
//! receive loops themselves run outside the library, because receiving is
//! I/O; each datagram they take off the socket is handed to [`P2PClient::host_step`]
//! or [`P2PClient::client_step`], which decides everything: whether the loop
//! stops, fails, replies, or goes on, and how the local state changes.

use vstd::prelude::*;

use crate::addr::PeerAddr;
use crate::codec::{
    classify, contains_seq, contains_sub, decode, encode, encoded_room_host, encoded_searching,
    is_match_at, room_host_tag, room_host_tag_vec, utf8_ok, DecodeError, Message, MessageClass,
};

verus! {

/// The role a peer currently plays. A client becomes `Connected` once it
/// has recorded a host address; nothing returns a peer to `Idle` short of
/// dropping it.
#[derive(Clone, Copy, Debug, PartialEq, Eq, Structural)]
pub enum Role {
    Idle,
    Hosting,
    Searching,
    Connected,
}

/// What the receive loop must do with the datagram just processed.
///
/// `Reply(bytes)` asks the loop to send the bytes to the multicast group;
/// `Stop` ends the loop cleanly; `Fail` ends it with the decode error, as
/// the current design propagates a malformed datagram as a fatal error.
#[derive(Debug)]
pub enum LoopAction {
    Continue,
    Reply(Vec<u8>),
    Stop,
    Fail(DecodeError),
}

/// A discovery session: the local display name, the role played, and the
/// address of the last host heard from.
pub struct P2PClient {
    pub name: Vec<u8>,
    pub role: Role,
    pub host: Option<PeerAddr>,
}

/// The datagram is text and contains `"RoomHost"`: the one kind of event
/// that moves a client's host pointer. The client tests its own substring
/// and nothing else — a payload containing both tags still counts, since
/// each receive loop looks only for the tag it serves.
pub open spec fn is_room_host_event(data: Seq<u8>) -> bool {
    data.len() > 0 && utf8_ok(data) && contains_seq(data, room_host_tag())
}

/// The host pointer after a client processes one datagram: the sender of a
/// `RoomHost` message replaces whatever was recorded before — last writer
/// wins — and every other datagram leaves the pointer alone.
pub open spec fn client_next_host(
    prev: Option<PeerAddr>,
    data: Seq<u8>,
    sender: PeerAddr,
) -> Option<PeerAddr> {
    if is_room_host_event(data) {
        Some(sender)
    } else {
        prev
    }
}

/// The role after a client processes one datagram: a `RoomHost` message
/// makes it `Connected`; nothing else changes it.
pub open spec fn client_next_role(prev: Role, data: Seq<u8>) -> Role {
    if is_room_host_event(data) {
        Role::Connected
    } else {
        prev
    }
}

impl P2PClient {
    /// A fresh session: idle, with no host known.
    pub fn new(name: Vec<u8>) -> (r: P2PClient)
        ensures
            r.name@ == name@,
            r.role == Role::Idle,
            r.host is None,
    {
        P2PClient { name, role: Role::Idle, host: None }
    }

    /// Take the host role. The host forgets any previously recorded host
    /// address: it serves searches, it does not follow other hosts.
    pub fn start_hosting(&mut self)
        ensures
            final(self).name@ == old(self).name@,
            final(self).role == Role::Hosting,
            final(self).host is None,
    {
        self.role = Role::Hosting;
        self.host = None;
    }

    /// Take the searching role, and produce the one `Searching` broadcast
    /// the client sends before it starts listening for replies.
    pub fn start_search(&mut self) -> (msg: Vec<u8>)
        ensures
            final(self).name@ == old(self).name@,
            final(self).role == Role::Searching,
            final(self).host == old(self).host,
            msg@ == encoded_searching(old(self).name@),
    {
        self.role = Role::Searching;
        let name = self.name.clone();
        encode(&Message::Searching(name))
    }

    /// One turn of the host loop, for one received datagram.
    ///
    /// A zero-length datagram is the shutdown signal and stops the loop
    /// cleanly. A payload that is not text fails the loop with the decode
    /// error. A payload classified as `Searching` is answered with this
    /// host's own `RoomHost` announcement, sent to the whole group. Any
    /// other payload is merely observed. Host state never changes.
    pub fn host_step(&self, data: &Vec<u8>) -> (r: LoopAction)
        ensures
            data@.len() == 0 ==> r is Stop,
            data@.len() > 0 && !utf8_ok(data@) ==> (r matches LoopAction::Fail(e) && e
                == DecodeError::InvalidEncoding),
            data@.len() > 0 && utf8_ok(data@) && classify(data@) == MessageClass::Searching ==> (
            r matches LoopAction::Reply(m) && m@ == encoded_room_host(self.name@)),
            data@.len() > 0 && utf8_ok(data@) && classify(data@) != MessageClass::Searching ==> r
                is Continue,
            data@.len() > 0 && crate::codec::all_ascii(data@) ==> utf8_ok(data@),
    {
        if data.len() == 0 {
            return LoopAction::Stop;
        }
        match decode(data) {
            Err(e) => LoopAction::Fail(e),
            Ok(MessageClass::Searching) => {
                let name = self.name.clone();
                LoopAction::Reply(encode(&Message::RoomHost(name)))
            },
            Ok(_) => LoopAction::Continue,
        }
    }

    /// One turn of the client loop, for one received datagram.
    ///
    /// A zero-length datagram stops the loop cleanly; a non-text payload
    /// fails it. A payload containing `"RoomHost"` records the sender as
    /// the current host — overwriting any earlier one — and makes the
    /// client `Connected`; the loop keeps listening all the same.
    pub fn client_step(&mut self, data: &Vec<u8>, sender: PeerAddr) -> (r: LoopAction)
        ensures
            final(self).name@ == old(self).name@,
            final(self).host == client_next_host(old(self).host, data@, sender),
            final(self).role == client_next_role(old(self).role, data@),
            data@.len() == 0 ==> r is Stop,
            data@.len() > 0 && !utf8_ok(data@) ==> (r matches LoopAction::Fail(e) && e
                == DecodeError::InvalidEncoding),
            data@.len() > 0 && utf8_ok(data@) ==> r is Continue,
            data@.len() > 0 && crate::codec::all_ascii(data@) ==> utf8_ok(data@),
    {
        if data.len() == 0 {
            return LoopAction::Stop;
        }
        match decode(data) {
            Err(e) => LoopAction::Fail(e),
            Ok(_) => {
                let room_host = room_host_tag_vec();
                if contains_sub(data, &room_host) {
                    self.host = Some(sender);
                    self.role = Role::Connected;
                }
                LoopAction::Continue
            },
        }
    }
}

/// Law: last writer wins. Whatever the client had recorded, and whatever
/// the first datagram was, a second datagram that is a `RoomHost` message
/// leaves the second sender as the recorded host.
pub proof fn lemma_last_writer_wins(
    first: Option<PeerAddr>,
    d1: Seq<u8>,
    a1: PeerAddr,
    d2: Seq<u8>,
    a2: PeerAddr,
)
    ensures
        is_room_host_event(d2) ==> client_next_host(
            client_next_host(first, d1, a1),
            d2,
            a2,
        ) == Some(a2),
{
}

/// Law: a host's reply reaches the searching client. The reply a host sends
/// for a search is its `RoomHost` announcement; when the client processes
/// that reply — arriving from the host's address, as text — it records the
/// host's address, whatever the host's name and whatever it held before:
/// the announcement carries its own tag as the witness substring.
pub proof fn lemma_host_reply_connects(
    host_name: Seq<u8>,
    prev: Option<PeerAddr>,
    host_addr: PeerAddr,
)
    ensures
        utf8_ok(encoded_room_host(host_name)) ==> client_next_host(
            prev,
            encoded_room_host(host_name),
            host_addr,
        ) == Some(host_addr),
{
    let enc = encoded_room_host(host_name);
    assert(is_match_at(enc, room_host_tag(), 0)) by {
        assert(forall|k: int| 0 <= k < room_host_tag().len() ==> enc[k] == room_host_tag()[k]);
    }
}

} // verus!
