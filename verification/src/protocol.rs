//! Wire envelopes exchanged between federation peers, and their byte codec.
//!
//! The encoding is self-describing: a one-byte discriminator names which of
//! the three envelope shapes follows, and every field is written in a fixed
//! order with an explicit length or presence flag, so the sync engine can
//! dispatch on bytes alone. Decoding of truncated or structurally invalid
//! input yields [`DecodeError`]; it never panics. The round-trip law
//! `decode(encode(e)) == e` is proved for every representable envelope.

use vstd::prelude::*;
use vstd::bytes::*;
use vstd::utf8::*;
use vstd::slice::{slice_subrange, slice_to_vec, slice_index_get};

verus! {

/// Error returned when a byte buffer does not hold a well-formed envelope.
#[derive(Clone, Copy, PartialEq, Eq, Debug)]
pub struct DecodeError;

/// Discriminator byte opening the encoding of a thread announcement.
pub const TAG_THREAD: u8 = 1;

/// Discriminator byte opening the encoding of a credential link announcement.
pub const TAG_CREDENTIAL_LINK: u8 = 2;

/// Discriminator byte opening the encoding of a thread sync request.
pub const TAG_SYNC_REQUEST: u8 = 3;

/// Message for a thread announcement.
#[derive(Clone, PartialEq, Eq, Debug)]
pub struct ThreadMessage {
    /// Thread unique identifier.
    pub thread_id: String,
    /// Thread title.
    pub title: String,
    /// Optional proposal CID reference.
    pub proposal_cid: Option<String>,
    /// Created timestamp (Unix seconds).
    pub created_at: i64,
    /// Thread author DID.
    pub author_did: String,
    /// Message signature by author; reserved, currently unverified.
    pub signature: Option<String>,
}

/// Message for a credential link announcement.
#[derive(Clone, PartialEq, Eq, Debug)]
pub struct CredentialLinkMessage {
    /// Link unique identifier.
    pub link_id: String,
    /// Thread ID this credential is linked to.
    pub thread_id: String,
    /// Credential CID.
    pub credential_cid: String,
    /// The DID of the entity linking the credential.
    pub linked_by: String,
    /// Created timestamp (Unix seconds).
    pub created_at: i64,
    /// Message signature; reserved, currently unverified.
    pub signature: Option<String>,
}

/// Message requesting a replay of everything known about one thread.
#[derive(Clone, PartialEq, Eq, Debug)]
pub struct ThreadSyncRequestMessage {
    /// Thread ID to sync.
    pub thread_id: String,
    /// Last known update timestamp.
    pub last_update: Option<i64>,
    /// Requesting peer DID.
    pub requester: String,
}

/// Wrapper for all sync messages.
#[derive(Clone, PartialEq, Eq, Debug)]
pub enum SyncMessage {
    Thread(ThreadMessage),
    CredentialLink(CredentialLinkMessage),
    SyncRequest(ThreadSyncRequestMessage),
}

/// Mathematical image of a [`ThreadMessage`]: each string as its character
/// sequence.
#[verifier::ext_equal]
pub struct ThreadMessageView {
    pub thread_id: Seq<char>,
    pub title: Seq<char>,
    pub proposal_cid: Option<Seq<char>>,
    pub created_at: i64,
    pub author_did: Seq<char>,
    pub signature: Option<Seq<char>>,
}

/// Mathematical image of a [`CredentialLinkMessage`].
#[verifier::ext_equal]
pub struct CredentialLinkMessageView {
    pub link_id: Seq<char>,
    pub thread_id: Seq<char>,
    pub credential_cid: Seq<char>,
    pub linked_by: Seq<char>,
    pub created_at: i64,
    pub signature: Option<Seq<char>>,
}

/// Mathematical image of a [`ThreadSyncRequestMessage`].
#[verifier::ext_equal]
pub struct ThreadSyncRequestMessageView {
    pub thread_id: Seq<char>,
    pub last_update: Option<i64>,
    pub requester: Seq<char>,
}

/// Mathematical image of a [`SyncMessage`].
#[verifier::ext_equal]
pub enum SyncMessageView {
    Thread(ThreadMessageView),
    CredentialLink(CredentialLinkMessageView),
    SyncRequest(ThreadSyncRequestMessageView),
}

/// View of an optional string as an optional character sequence.
pub open spec fn opt_str_view(s: &Option<String>) -> Option<Seq<char>> {
    match s {
        Some(x) => Some(x@),
        None => None,
    }
}

impl View for ThreadMessage {
    type V = ThreadMessageView;

    open spec fn view(&self) -> ThreadMessageView {
        ThreadMessageView {
            thread_id: self.thread_id@,
            title: self.title@,
            proposal_cid: opt_str_view(&self.proposal_cid),
            created_at: self.created_at,
            author_did: self.author_did@,
            signature: opt_str_view(&self.signature),
        }
    }
}

impl View for CredentialLinkMessage {
    type V = CredentialLinkMessageView;

    open spec fn view(&self) -> CredentialLinkMessageView {
        CredentialLinkMessageView {
            link_id: self.link_id@,
            thread_id: self.thread_id@,
            credential_cid: self.credential_cid@,
            linked_by: self.linked_by@,
            created_at: self.created_at,
            signature: opt_str_view(&self.signature),
        }
    }
}

impl View for ThreadSyncRequestMessage {
    type V = ThreadSyncRequestMessageView;

    open spec fn view(&self) -> ThreadSyncRequestMessageView {
        ThreadSyncRequestMessageView {
            thread_id: self.thread_id@,
            last_update: self.last_update,
            requester: self.requester@,
        }
    }
}

impl View for SyncMessage {
    type V = SyncMessageView;

    open spec fn view(&self) -> SyncMessageView {
        match self {
            SyncMessage::Thread(m) => SyncMessageView::Thread(m@),
            SyncMessage::CredentialLink(m) => SyncMessageView::CredentialLink(m@),
            SyncMessage::SyncRequest(m) => SyncMessageView::SyncRequest(m@),
        }
    }
}

// ------------------------------------------------------------------
// The encoding, as a mathematical function on views.
// ------------------------------------------------------------------

/// A length-prefixed byte field: eight little-endian length bytes, then the
/// bytes themselves.
pub open spec fn spec_encode_bytes(b: Seq<u8>) -> Seq<u8> {
    spec_u64_to_le_bytes(b.len() as u64) + b
}

/// A string field: its UTF-8 bytes, length-prefixed.
pub open spec fn spec_encode_str(s: Seq<char>) -> Seq<u8> {
    spec_encode_bytes(encode_utf8(s))
}

/// An optional string field: a presence flag, then the string if present.
pub open spec fn spec_encode_opt_str(s: Option<Seq<char>>) -> Seq<u8> {
    match s {
        None => seq![0u8],
        Some(v) => seq![1u8] + spec_encode_str(v),
    }
}

/// A timestamp field: the two's-complement bits, little-endian.
pub open spec fn spec_encode_i64(x: i64) -> Seq<u8> {
    spec_u64_to_le_bytes(x as u64)
}

/// An optional timestamp field: a presence flag, then the timestamp if
/// present.
pub open spec fn spec_encode_opt_i64(x: Option<i64>) -> Seq<u8> {
    match x {
        None => seq![0u8],
        Some(v) => seq![1u8] + spec_encode_i64(v),
    }
}

/// Field encoding of a thread announcement, without the discriminator.
pub open spec fn spec_encode_thread(m: ThreadMessageView) -> Seq<u8> {
    spec_encode_str(m.thread_id) + spec_encode_str(m.title) + spec_encode_opt_str(m.proposal_cid)
        + spec_encode_i64(m.created_at) + spec_encode_str(m.author_did) + spec_encode_opt_str(
        m.signature,
    )
}

/// Field encoding of a credential link announcement, without the
/// discriminator.
pub open spec fn spec_encode_credential_link(m: CredentialLinkMessageView) -> Seq<u8> {
    spec_encode_str(m.link_id) + spec_encode_str(m.thread_id) + spec_encode_str(m.credential_cid)
        + spec_encode_str(m.linked_by) + spec_encode_i64(m.created_at) + spec_encode_opt_str(
        m.signature,
    )
}

/// Field encoding of a sync request, without the discriminator.
pub open spec fn spec_encode_sync_request(m: ThreadSyncRequestMessageView) -> Seq<u8> {
    spec_encode_str(m.thread_id) + spec_encode_opt_i64(m.last_update) + spec_encode_str(m.requester)
}

/// The complete encoding of an envelope: discriminator byte, then fields.
pub open spec fn spec_encode(m: SyncMessageView) -> Seq<u8> {
    match m {
        SyncMessageView::Thread(t) => seq![TAG_THREAD] + spec_encode_thread(t),
        SyncMessageView::CredentialLink(c) => seq![TAG_CREDENTIAL_LINK]
            + spec_encode_credential_link(c),
        SyncMessageView::SyncRequest(r) => seq![TAG_SYNC_REQUEST] + spec_encode_sync_request(r),
    }
}

// ------------------------------------------------------------------
// Executable encoders.
// ------------------------------------------------------------------

/// Appends one length-prefixed string field.
fn enc_push_str(out: &mut Vec<u8>, s: &String)
    ensures
        final(out)@ == old(out)@ + spec_encode_str(s@),
{
    let bytes = s.as_str().as_bytes_vec();
    let mut lenb = u64_to_le_bytes(bytes.len() as u64);
    out.append(&mut lenb);
    let mut payload = bytes;
    out.append(&mut payload);
}

/// Appends one optional string field.
fn enc_push_opt_str(out: &mut Vec<u8>, s: &Option<String>)
    ensures
        final(out)@ == old(out)@ + spec_encode_opt_str(opt_str_view(s)),
{
    match s {
        None => {
            out.push(0u8);
            assert(final(out)@ =~= old(out)@ + seq![0u8]);
        },
        Some(v) => {
            out.push(1u8);
            assert(out@ =~= old(out)@ + seq![1u8]);
            enc_push_str(out, v);
            assert(final(out)@ =~= old(out)@ + (seq![1u8] + spec_encode_str(v@)));
        },
    }
}

/// Appends one timestamp field.
fn enc_push_i64(out: &mut Vec<u8>, x: i64)
    ensures
        final(out)@ == old(out)@ + spec_encode_i64(x),
{
    let mut b = u64_to_le_bytes(x as u64);
    out.append(&mut b);
}

/// Appends one optional timestamp field.
fn enc_push_opt_i64(out: &mut Vec<u8>, x: &Option<i64>)
    ensures
        final(out)@ == old(out)@ + spec_encode_opt_i64(*x),
{
    match x {
        None => {
            out.push(0u8);
            assert(final(out)@ =~= old(out)@ + seq![0u8]);
        },
        Some(v) => {
            out.push(1u8);
            assert(out@ =~= old(out)@ + seq![1u8]);
            enc_push_i64(out, *v);
            assert(final(out)@ =~= old(out)@ + (seq![1u8] + spec_encode_i64(*v)));
        },
    }
}

impl ThreadMessage {
    /// Encodes the fields of this message, without the discriminator.
    fn push_fields(&self, out: &mut Vec<u8>)
        ensures
            final(out)@ == old(out)@ + spec_encode_thread(self@),
    {
        enc_push_str(out, &self.thread_id);
        enc_push_str(out, &self.title);
        enc_push_opt_str(out, &self.proposal_cid);
        enc_push_i64(out, self.created_at);
        enc_push_str(out, &self.author_did);
        enc_push_opt_str(out, &self.signature);
        assert(final(out)@ =~= old(out)@ + spec_encode_thread(self@));
    }
}

impl CredentialLinkMessage {
    /// Encodes the fields of this message, without the discriminator.
    fn push_fields(&self, out: &mut Vec<u8>)
        ensures
            final(out)@ == old(out)@ + spec_encode_credential_link(self@),
    {
        enc_push_str(out, &self.link_id);
        enc_push_str(out, &self.thread_id);
        enc_push_str(out, &self.credential_cid);
        enc_push_str(out, &self.linked_by);
        enc_push_i64(out, self.created_at);
        enc_push_opt_str(out, &self.signature);
        assert(final(out)@ =~= old(out)@ + spec_encode_credential_link(self@));
    }
}

impl ThreadSyncRequestMessage {
    /// Encodes the fields of this message, without the discriminator.
    fn push_fields(&self, out: &mut Vec<u8>)
        ensures
            final(out)@ == old(out)@ + spec_encode_sync_request(self@),
    {
        enc_push_str(out, &self.thread_id);
        enc_push_opt_i64(out, &self.last_update);
        enc_push_str(out, &self.requester);
        assert(final(out)@ =~= old(out)@ + spec_encode_sync_request(self@));
    }
}

impl SyncMessage {
    /// Encodes this envelope as bytes: the discriminator, then the fields.
    /// The encoding fits every length prefix, so decoding it gives back this
    /// envelope.
    pub fn to_bytes(&self) -> (r: Vec<u8>)
        ensures
            r@ == spec_encode(self@),
            msg_fits(self@),
    {
        let mut out: Vec<u8> = Vec::new();
        match self {
            SyncMessage::Thread(m) => {
                out.push(TAG_THREAD);
                assert(out@ =~= seq![TAG_THREAD]);
                m.push_fields(&mut out);
            },
            SyncMessage::CredentialLink(m) => {
                out.push(TAG_CREDENTIAL_LINK);
                assert(out@ =~= seq![TAG_CREDENTIAL_LINK]);
                m.push_fields(&mut out);
            },
            SyncMessage::SyncRequest(m) => {
                out.push(TAG_SYNC_REQUEST);
                assert(out@ =~= seq![TAG_SYNC_REQUEST]);
                m.push_fields(&mut out);
            },
        }
        let n = out.len();
        proof {
            assert(spec_encode(self@).len() == n);
            lemma_encode_fits(self@);
        }
        out
    }
}

// ------------------------------------------------------------------
// The decoding, as a mathematical function on byte sequences. Each
// step decoder consumes a prefix and returns the value together with
// the remaining suffix, or nothing if the bytes are malformed.
// ------------------------------------------------------------------

/// Reads one length-prefixed byte field.
pub open spec fn dec_bytes(data: Seq<u8>) -> Option<(Seq<u8>, Seq<u8>)> {
    if data.len() >= 8 {
        let n = spec_u64_from_le_bytes(data.subrange(0, 8)) as int;
        if 8 + n <= data.len() {
            Some((data.subrange(8, 8 + n), data.subrange(8 + n, data.len() as int)))
        } else {
            None
        }
    } else {
        None
    }
}

/// Reads one string field: a byte field that must hold valid UTF-8.
pub open spec fn dec_str(data: Seq<u8>) -> Option<(Seq<char>, Seq<u8>)> {
    match dec_bytes(data) {
        Some((b, rest)) => if valid_utf8(b) {
            Some((decode_utf8(b), rest))
        } else {
            None
        },
        None => None,
    }
}

/// Reads one optional string field: a presence flag, then the string.
pub open spec fn dec_opt_str(data: Seq<u8>) -> Option<(Option<Seq<char>>, Seq<u8>)> {
    if data.len() >= 1 {
        if data[0] == 0u8 {
            Some((None, data.subrange(1, data.len() as int)))
        } else if data[0] == 1u8 {
            match dec_str(data.subrange(1, data.len() as int)) {
                Some((s, rest)) => Some((Some(s), rest)),
                None => None,
            }
        } else {
            None
        }
    } else {
        None
    }
}

/// Reads one timestamp field.
pub open spec fn dec_i64(data: Seq<u8>) -> Option<(i64, Seq<u8>)> {
    if data.len() >= 8 {
        Some(
            (
                spec_u64_from_le_bytes(data.subrange(0, 8)) as i64,
                data.subrange(8, data.len() as int),
            ),
        )
    } else {
        None
    }
}

/// Reads one optional timestamp field.
pub open spec fn dec_opt_i64(data: Seq<u8>) -> Option<(Option<i64>, Seq<u8>)> {
    if data.len() >= 1 {
        if data[0] == 0u8 {
            Some((None, data.subrange(1, data.len() as int)))
        } else if data[0] == 1u8 {
            match dec_i64(data.subrange(1, data.len() as int)) {
                Some((x, rest)) => Some((Some(x), rest)),
                None => None,
            }
        } else {
            None
        }
    } else {
        None
    }
}

/// Reads the fields of a thread announcement.
pub open spec fn dec_thread(data: Seq<u8>) -> Option<(ThreadMessageView, Seq<u8>)> {
    match dec_str(data) {
        Some((thread_id, d1)) => match dec_str(d1) {
            Some((title, d2)) => match dec_opt_str(d2) {
                Some((proposal_cid, d3)) => match dec_i64(d3) {
                    Some((created_at, d4)) => match dec_str(d4) {
                        Some((author_did, d5)) => match dec_opt_str(d5) {
                            Some((signature, d6)) => Some(
                                (
                                    ThreadMessageView {
                                        thread_id,
                                        title,
                                        proposal_cid,
                                        created_at,
                                        author_did,
                                        signature,
                                    },
                                    d6,
                                ),
                            ),
                            None => None,
                        },
                        None => None,
                    },
                    None => None,
                },
                None => None,
            },
            None => None,
        },
        None => None,
    }
}

/// Reads the fields of a credential link announcement.
pub open spec fn dec_credential_link(data: Seq<u8>) -> Option<
    (CredentialLinkMessageView, Seq<u8>),
> {
    match dec_str(data) {
        Some((link_id, d1)) => match dec_str(d1) {
            Some((thread_id, d2)) => match dec_str(d2) {
                Some((credential_cid, d3)) => match dec_str(d3) {
                    Some((linked_by, d4)) => match dec_i64(d4) {
                        Some((created_at, d5)) => match dec_opt_str(d5) {
                            Some((signature, d6)) => Some(
                                (
                                    CredentialLinkMessageView {
                                        link_id,
                                        thread_id,
                                        credential_cid,
                                        linked_by,
                                        created_at,
                                        signature,
                                    },
                                    d6,
                                ),
                            ),
                            None => None,
                        },
                        None => None,
                    },
                    None => None,
                },
                None => None,
            },
            None => None,
        },
        None => None,
    }
}

/// Reads the fields of a sync request.
pub open spec fn dec_sync_request(data: Seq<u8>) -> Option<
    (ThreadSyncRequestMessageView, Seq<u8>),
> {
    match dec_str(data) {
        Some((thread_id, d1)) => match dec_opt_i64(d1) {
            Some((last_update, d2)) => match dec_str(d2) {
                Some((requester, d3)) => Some(
                    (ThreadSyncRequestMessageView { thread_id, last_update, requester }, d3),
                ),
                None => None,
            },
            None => None,
        },
        None => None,
    }
}

/// The complete decoding of an envelope: the discriminator selects the shape,
/// the fields follow, and nothing may trail them.
pub open spec fn spec_decode(data: Seq<u8>) -> Option<SyncMessageView> {
    if data.len() >= 1 {
        let body = data.subrange(1, data.len() as int);
        if data[0] == TAG_THREAD {
            match dec_thread(body) {
                Some((m, rest)) => if rest.len() == 0 {
                    Some(SyncMessageView::Thread(m))
                } else {
                    None
                },
                None => None,
            }
        } else if data[0] == TAG_CREDENTIAL_LINK {
            match dec_credential_link(body) {
                Some((m, rest)) => if rest.len() == 0 {
                    Some(SyncMessageView::CredentialLink(m))
                } else {
                    None
                },
                None => None,
            }
        } else if data[0] == TAG_SYNC_REQUEST {
            match dec_sync_request(body) {
                Some((m, rest)) => if rest.len() == 0 {
                    Some(SyncMessageView::SyncRequest(m))
                } else {
                    None
                },
                None => None,
            }
        } else {
            None
        }
    } else {
        None
    }
}

// ------------------------------------------------------------------
// Executable decoders. Each keeps a cursor into the input slice; its
// contract ties the outcome to the step decoder applied to the suffix
// at the cursor.
// ------------------------------------------------------------------

/// The suffix of a byte sequence from a cursor to its end.
pub open spec fn suffix_from(data: Seq<u8>, i: int) -> Seq<u8> {
    data.subrange(i, data.len() as int)
}

/// Relies on alloc::string::String::from_utf8: it returns `Ok` exactly when
/// the bytes are valid UTF-8, and the returned string is their decoding.
#[verifier::external_body]
fn bytes_to_string(v: Vec<u8>) -> (r: Option<String>)
    ensures
        r is Some <==> valid_utf8(v@),
        r is Some ==> r.unwrap()@ == decode_utf8(v@),
{
    match String::from_utf8(v) {
        Ok(s) => Some(s),
        Err(_) => None,
    }
}

/// Reads one length-prefixed byte field at the cursor.
fn read_bytes(data: &[u8], i: usize) -> (r: Option<(Vec<u8>, usize)>)
    requires
        i <= data@.len(),
    ensures
        match r {
            Some(p) => {
                &&& i <= p.1 <= data@.len()
                &&& dec_bytes(suffix_from(data@, i as int)) == Some(
                    (p.0@, suffix_from(data@, p.1 as int)),
                )
            },
            None => dec_bytes(suffix_from(data@, i as int)) is None,
        },
{
    let len = data.len();
    if len - i >= 8 {
        let lenslice = slice_subrange(data, i, i + 8);
        let n = u64_from_le_bytes(lenslice);
        proof {
            assert(suffix_from(data@, i as int).subrange(0, 8) =~= data@.subrange(
                i as int,
                i as int + 8,
            ));
        }
        let remaining_bytes = (len - i - 8) as u64;
        if n <= remaining_bytes {
            let nu = n as usize;
            let payload = slice_to_vec(slice_subrange(data, i + 8, i + 8 + nu));
            proof {
                let sfx = suffix_from(data@, i as int);
                assert(payload@ =~= sfx.subrange(8, 8 + nu as int));
                assert(suffix_from(data@, (i + 8 + nu) as int) =~= sfx.subrange(
                    8 + nu as int,
                    sfx.len() as int,
                ));
            }
            Some((payload, i + 8 + nu))
        } else {
            None
        }
    } else {
        None
    }
}

/// Reads one string field at the cursor.
fn read_str(data: &[u8], i: usize) -> (r: Option<(String, usize)>)
    requires
        i <= data@.len(),
    ensures
        match r {
            Some(p) => {
                &&& i <= p.1 <= data@.len()
                &&& dec_str(suffix_from(data@, i as int)) == Some(
                    (p.0@, suffix_from(data@, p.1 as int)),
                )
            },
            None => dec_str(suffix_from(data@, i as int)) is None,
        },
{
    match read_bytes(data, i) {
        Some((b, j)) => match bytes_to_string(b) {
            Some(s) => Some((s, j)),
            None => None,
        },
        None => None,
    }
}

/// Reads one optional string field at the cursor.
fn read_opt_str(data: &[u8], i: usize) -> (r: Option<(Option<String>, usize)>)
    requires
        i <= data@.len(),
    ensures
        match r {
            Some(p) => {
                &&& i <= p.1 <= data@.len()
                &&& dec_opt_str(suffix_from(data@, i as int)) == Some(
                    (opt_str_view(&p.0), suffix_from(data@, p.1 as int)),
                )
            },
            None => dec_opt_str(suffix_from(data@, i as int)) is None,
        },
{
    if i < data.len() {
        let flag = *slice_index_get(data, i);
        proof {
            assert(suffix_from(data@, i as int)[0] == data@[i as int]);
            assert(suffix_from(data@, i as int + 1) =~= suffix_from(data@, i as int).subrange(
                1,
                suffix_from(data@, i as int).len() as int,
            ));
        }
        if flag == 0u8 {
            Some((None, i + 1))
        } else if flag == 1u8 {
            match read_str(data, i + 1) {
                Some((s, j)) => Some((Some(s), j)),
                None => None,
            }
        } else {
            None
        }
    } else {
        None
    }
}

/// Reads one timestamp field at the cursor.
fn read_i64(data: &[u8], i: usize) -> (r: Option<(i64, usize)>)
    requires
        i <= data@.len(),
    ensures
        match r {
            Some(p) => {
                &&& i <= p.1 <= data@.len()
                &&& dec_i64(suffix_from(data@, i as int)) == Some(
                    (p.0, suffix_from(data@, p.1 as int)),
                )
            },
            None => dec_i64(suffix_from(data@, i as int)) is None,
        },
{
    let len = data.len();
    if len - i >= 8 {
        let x = u64_from_le_bytes(slice_subrange(data, i, i + 8));
        proof {
            assert(suffix_from(data@, i as int).subrange(0, 8) =~= data@.subrange(
                i as int,
                i as int + 8,
            ));
            assert(suffix_from(data@, (i + 8) as int) =~= suffix_from(data@, i as int).subrange(
                8,
                suffix_from(data@, i as int).len() as int,
            ));
        }
        Some((x as i64, i + 8))
    } else {
        None
    }
}

/// Reads one optional timestamp field at the cursor.
fn read_opt_i64(data: &[u8], i: usize) -> (r: Option<(Option<i64>, usize)>)
    requires
        i <= data@.len(),
    ensures
        match r {
            Some(p) => {
                &&& i <= p.1 <= data@.len()
                &&& dec_opt_i64(suffix_from(data@, i as int)) == Some(
                    (p.0, suffix_from(data@, p.1 as int)),
                )
            },
            None => dec_opt_i64(suffix_from(data@, i as int)) is None,
        },
{
    if i < data.len() {
        let flag = *slice_index_get(data, i);
        proof {
            assert(suffix_from(data@, i as int)[0] == data@[i as int]);
            assert(suffix_from(data@, i as int + 1) =~= suffix_from(data@, i as int).subrange(
                1,
                suffix_from(data@, i as int).len() as int,
            ));
        }
        if flag == 0u8 {
            Some((None, i + 1))
        } else if flag == 1u8 {
            match read_i64(data, i + 1) {
                Some((x, j)) => Some((Some(x), j)),
                None => None,
            }
        } else {
            None
        }
    } else {
        None
    }
}

impl ThreadMessage {
    /// Reads the fields of a thread announcement at the cursor.
    fn read_fields(data: &[u8], i: usize) -> (r: Option<(ThreadMessage, usize)>)
        requires
            i <= data@.len(),
        ensures
            match r {
                Some(p) => {
                    &&& i <= p.1 <= data@.len()
                    &&& dec_thread(suffix_from(data@, i as int)) == Some(
                        (p.0@, suffix_from(data@, p.1 as int)),
                    )
                },
                None => dec_thread(suffix_from(data@, i as int)) is None,
            },
    {
        let (thread_id, i1) = match read_str(data, i) {
            Some(p) => p,
            None => { return None },
        };
        let (title, i2) = match read_str(data, i1) {
            Some(p) => p,
            None => { return None },
        };
        let (proposal_cid, i3) = match read_opt_str(data, i2) {
            Some(p) => p,
            None => { return None },
        };
        let (created_at, i4) = match read_i64(data, i3) {
            Some(p) => p,
            None => { return None },
        };
        let (author_did, i5) = match read_str(data, i4) {
            Some(p) => p,
            None => { return None },
        };
        let (signature, i6) = match read_opt_str(data, i5) {
            Some(p) => p,
            None => { return None },
        };
        Some(
            (
                ThreadMessage {
                    thread_id,
                    title,
                    proposal_cid,
                    created_at,
                    author_did,
                    signature,
                },
                i6,
            ),
        )
    }
}

impl CredentialLinkMessage {
    /// Reads the fields of a credential link announcement at the cursor.
    fn read_fields(data: &[u8], i: usize) -> (r: Option<(CredentialLinkMessage, usize)>)
        requires
            i <= data@.len(),
        ensures
            match r {
                Some(p) => {
                    &&& i <= p.1 <= data@.len()
                    &&& dec_credential_link(suffix_from(data@, i as int)) == Some(
                        (p.0@, suffix_from(data@, p.1 as int)),
                    )
                },
                None => dec_credential_link(suffix_from(data@, i as int)) is None,
            },
    {
        let (link_id, i1) = match read_str(data, i) {
            Some(p) => p,
            None => { return None },
        };
        let (thread_id, i2) = match read_str(data, i1) {
            Some(p) => p,
            None => { return None },
        };
        let (credential_cid, i3) = match read_str(data, i2) {
            Some(p) => p,
            None => { return None },
        };
        let (linked_by, i4) = match read_str(data, i3) {
            Some(p) => p,
            None => { return None },
        };
        let (created_at, i5) = match read_i64(data, i4) {
            Some(p) => p,
            None => { return None },
        };
        let (signature, i6) = match read_opt_str(data, i5) {
            Some(p) => p,
            None => { return None },
        };
        Some(
            (
                CredentialLinkMessage {
                    link_id,
                    thread_id,
                    credential_cid,
                    linked_by,
                    created_at,
                    signature,
                },
                i6,
            ),
        )
    }
}

impl ThreadSyncRequestMessage {
    /// Reads the fields of a sync request at the cursor.
    fn read_fields(data: &[u8], i: usize) -> (r: Option<(ThreadSyncRequestMessage, usize)>)
        requires
            i <= data@.len(),
        ensures
            match r {
                Some(p) => {
                    &&& i <= p.1 <= data@.len()
                    &&& dec_sync_request(suffix_from(data@, i as int)) == Some(
                        (p.0@, suffix_from(data@, p.1 as int)),
                    )
                },
                None => dec_sync_request(suffix_from(data@, i as int)) is None,
            },
    {
        let (thread_id, i1) = match read_str(data, i) {
            Some(p) => p,
            None => { return None },
        };
        let (last_update, i2) = match read_opt_i64(data, i1) {
            Some(p) => p,
            None => { return None },
        };
        let (requester, i3) = match read_str(data, i2) {
            Some(p) => p,
            None => { return None },
        };
        Some((ThreadSyncRequestMessage { thread_id, last_update, requester }, i3))
    }
}

impl SyncMessage {
    /// Decodes an envelope from bytes. Truncated, trailing or otherwise
    /// malformed input yields a [`DecodeError`]; this function never panics.
    pub fn from_bytes(bytes: &[u8]) -> (r: Result<SyncMessage, DecodeError>)
        ensures
            match r {
                Ok(m) => spec_decode(bytes@) == Some(m@),
                Err(_) => spec_decode(bytes@) is None,
            },
    {
        if bytes.len() < 1 {
            return Err(DecodeError);
        }
        let tag = *slice_index_get(bytes, 0);
        proof {
            assert(suffix_from(bytes@, 1) =~= bytes@.subrange(1, bytes@.len() as int));
        }
        if tag == TAG_THREAD {
            match ThreadMessage::read_fields(bytes, 1) {
                Some((m, j)) => if j == bytes.len() {
                    proof {
                        assert(suffix_from(bytes@, j as int).len() == 0);
                    }
                    Ok(SyncMessage::Thread(m))
                } else {
                    Err(DecodeError)
                },
                None => Err(DecodeError),
            }
        } else if tag == TAG_CREDENTIAL_LINK {
            match CredentialLinkMessage::read_fields(bytes, 1) {
                Some((m, j)) => if j == bytes.len() {
                    proof {
                        assert(suffix_from(bytes@, j as int).len() == 0);
                    }
                    Ok(SyncMessage::CredentialLink(m))
                } else {
                    Err(DecodeError)
                },
                None => Err(DecodeError),
            }
        } else if tag == TAG_SYNC_REQUEST {
            match ThreadSyncRequestMessage::read_fields(bytes, 1) {
                Some((m, j)) => if j == bytes.len() {
                    proof {
                        assert(suffix_from(bytes@, j as int).len() == 0);
                    }
                    Ok(SyncMessage::SyncRequest(m))
                } else {
                    Err(DecodeError)
                },
                None => Err(DecodeError),
            }
        } else {
            Err(DecodeError)
        }
    }
}

// ------------------------------------------------------------------
// Constructors and per-message codecs.
// ------------------------------------------------------------------

/// Relies on chrono::Utc::now, read through DateTime::timestamp: the current
/// Unix time in whole seconds. The result depends on the clock, so nothing
/// is promised of it.
#[verifier::external_body]
pub(crate) fn unix_now() -> i64 {
    chrono::Utc::now().timestamp()
}

/// Decoding of a bare thread announcement, without discriminator: its fields,
/// with nothing trailing them.
pub open spec fn spec_decode_thread(data: Seq<u8>) -> Option<ThreadMessageView> {
    match dec_thread(data) {
        Some((m, rest)) => if rest.len() == 0 {
            Some(m)
        } else {
            None
        },
        None => None,
    }
}

/// Decoding of a bare credential link announcement, without discriminator.
pub open spec fn spec_decode_credential_link(data: Seq<u8>) -> Option<CredentialLinkMessageView> {
    match dec_credential_link(data) {
        Some((m, rest)) => if rest.len() == 0 {
            Some(m)
        } else {
            None
        },
        None => None,
    }
}

/// Decoding of a bare sync request, without discriminator.
pub open spec fn spec_decode_sync_request(data: Seq<u8>) -> Option<ThreadSyncRequestMessageView> {
    match dec_sync_request(data) {
        Some((m, rest)) => if rest.len() == 0 {
            Some(m)
        } else {
            None
        },
        None => None,
    }
}

impl ThreadMessage {
    /// Builds a thread announcement stamped with the current time and no
    /// signature.
    pub fn new(thread_id: String, title: String, proposal_cid: Option<String>, author_did: String)
        -> (r: ThreadMessage)
        ensures
            r@.thread_id == thread_id@,
            r@.title == title@,
            r@.proposal_cid == opt_str_view(&proposal_cid),
            r@.author_did == author_did@,
            r@.signature is None,
    {
        ThreadMessage {
            thread_id,
            title,
            proposal_cid,
            created_at: unix_now(),
            author_did,
            signature: None,
        }
    }

    /// Encodes the fields of this message, without a discriminator.
    pub fn to_bytes(&self) -> (r: Vec<u8>)
        ensures
            r@ == spec_encode_thread(self@),
            thread_fits(self@),
    {
        let mut out: Vec<u8> = Vec::new();
        self.push_fields(&mut out);
        let n = out.len();
        proof {
            assert(spec_encode_thread(self@).len() == n);
            lemma_thread_encode_fits(self@);
        }
        out
    }

    /// Decodes a bare thread announcement; trailing bytes are an error.
    pub fn from_bytes(bytes: &[u8]) -> (r: Result<ThreadMessage, DecodeError>)
        ensures
            match r {
                Ok(m) => spec_decode_thread(bytes@) == Some(m@),
                Err(_) => spec_decode_thread(bytes@) is None,
            },
    {
        proof {
            assert(suffix_from(bytes@, 0) =~= bytes@);
        }
        match ThreadMessage::read_fields(bytes, 0) {
            Some((m, j)) => if j == bytes.len() {
                proof {
                    assert(suffix_from(bytes@, j as int).len() == 0);
                }
                Ok(m)
            } else {
                Err(DecodeError)
            },
            None => Err(DecodeError),
        }
    }
}

impl CredentialLinkMessage {
    /// Builds a credential link announcement stamped with the current time
    /// and no signature.
    pub fn new(link_id: String, thread_id: String, credential_cid: String, linked_by: String) -> (r:
        CredentialLinkMessage)
        ensures
            r@.link_id == link_id@,
            r@.thread_id == thread_id@,
            r@.credential_cid == credential_cid@,
            r@.linked_by == linked_by@,
            r@.signature is None,
    {
        CredentialLinkMessage {
            link_id,
            thread_id,
            credential_cid,
            linked_by,
            created_at: unix_now(),
            signature: None,
        }
    }

    /// Encodes the fields of this message, without a discriminator.
    pub fn to_bytes(&self) -> (r: Vec<u8>)
        ensures
            r@ == spec_encode_credential_link(self@),
            credential_link_fits(self@),
    {
        let mut out: Vec<u8> = Vec::new();
        self.push_fields(&mut out);
        let n = out.len();
        proof {
            assert(spec_encode_credential_link(self@).len() == n);
            lemma_credential_link_encode_fits(self@);
        }
        out
    }

    /// Decodes a bare credential link announcement; trailing bytes are an
    /// error.
    pub fn from_bytes(bytes: &[u8]) -> (r: Result<CredentialLinkMessage, DecodeError>)
        ensures
            match r {
                Ok(m) => spec_decode_credential_link(bytes@) == Some(m@),
                Err(_) => spec_decode_credential_link(bytes@) is None,
            },
    {
        proof {
            assert(suffix_from(bytes@, 0) =~= bytes@);
        }
        match CredentialLinkMessage::read_fields(bytes, 0) {
            Some((m, j)) => if j == bytes.len() {
                proof {
                    assert(suffix_from(bytes@, j as int).len() == 0);
                }
                Ok(m)
            } else {
                Err(DecodeError)
            },
            None => Err(DecodeError),
        }
    }
}

impl ThreadSyncRequestMessage {
    /// Builds a sync request.
    pub fn new(thread_id: String, last_update: Option<i64>, requester: String) -> (r:
        ThreadSyncRequestMessage)
        ensures
            r@.thread_id == thread_id@,
            r@.last_update == last_update,
            r@.requester == requester@,
    {
        ThreadSyncRequestMessage { thread_id, last_update, requester }
    }

    /// Encodes the fields of this message, without a discriminator.
    pub fn to_bytes(&self) -> (r: Vec<u8>)
        ensures
            r@ == spec_encode_sync_request(self@),
            sync_request_fits(self@),
    {
        let mut out: Vec<u8> = Vec::new();
        self.push_fields(&mut out);
        let n = out.len();
        proof {
            assert(spec_encode_sync_request(self@).len() == n);
            lemma_sync_request_encode_fits(self@);
        }
        out
    }

    /// Decodes a bare sync request; trailing bytes are an error.
    pub fn from_bytes(bytes: &[u8]) -> (r: Result<ThreadSyncRequestMessage, DecodeError>)
        ensures
            match r {
                Ok(m) => spec_decode_sync_request(bytes@) == Some(m@),
                Err(_) => spec_decode_sync_request(bytes@) is None,
            },
    {
        proof {
            assert(suffix_from(bytes@, 0) =~= bytes@);
        }
        match ThreadSyncRequestMessage::read_fields(bytes, 0) {
            Some((m, j)) => if j == bytes.len() {
                proof {
                    assert(suffix_from(bytes@, j as int).len() == 0);
                }
                Ok(m)
            } else {
                Err(DecodeError)
            },
            None => Err(DecodeError),
        }
    }
}

// ------------------------------------------------------------------
// The round-trip law: decoding an encoding gives back the envelope.
// ------------------------------------------------------------------

/// A string field fits its eight-byte length prefix.
pub open spec fn str_fits(s: Seq<char>) -> bool {
    encode_utf8(s).len() < 0x1_0000_0000_0000_0000
}

/// An optional string field fits its length prefix if present.
pub open spec fn opt_str_fits(s: Option<Seq<char>>) -> bool {
    match s {
        Some(v) => str_fits(v),
        None => true,
    }
}

/// Every string field of a thread announcement fits its length prefix.
pub open spec fn thread_fits(m: ThreadMessageView) -> bool {
    &&& str_fits(m.thread_id)
    &&& str_fits(m.title)
    &&& opt_str_fits(m.proposal_cid)
    &&& str_fits(m.author_did)
    &&& opt_str_fits(m.signature)
}

/// Every string field of a credential link announcement fits its length
/// prefix.
pub open spec fn credential_link_fits(m: CredentialLinkMessageView) -> bool {
    &&& str_fits(m.link_id)
    &&& str_fits(m.thread_id)
    &&& str_fits(m.credential_cid)
    &&& str_fits(m.linked_by)
    &&& opt_str_fits(m.signature)
}

/// Every string field of a sync request fits its length prefix.
pub open spec fn sync_request_fits(m: ThreadSyncRequestMessageView) -> bool {
    &&& str_fits(m.thread_id)
    &&& str_fits(m.requester)
}

/// Every string field of an envelope fits its length prefix. This always
/// holds of an envelope built in running code, whose strings are bounded by
/// the address space; it can fail only of a mathematical view with an
/// astronomically long field.
pub open spec fn msg_fits(m: SyncMessageView) -> bool {
    match m {
        SyncMessageView::Thread(t) => thread_fits(t),
        SyncMessageView::CredentialLink(c) => credential_link_fits(c),
        SyncMessageView::SyncRequest(r) => sync_request_fits(r),
    }
}

proof fn lemma_dec_bytes_enc(b: Seq<u8>, rest: Seq<u8>)
    requires
        b.len() < 0x1_0000_0000_0000_0000,
    ensures
        dec_bytes(spec_encode_bytes(b) + rest) == Some((b, rest)),
{
    lemma_auto_spec_u64_to_from_le_bytes();
    let lenb = spec_u64_to_le_bytes(b.len() as u64);
    let data = spec_encode_bytes(b) + rest;
    assert(data.subrange(0, 8) =~= lenb);
    assert(spec_u64_from_le_bytes(lenb) == b.len() as u64);
    assert(data.subrange(8, 8 + b.len() as int) =~= b);
    assert(data.subrange(8 + b.len() as int, data.len() as int) =~= rest);
}

proof fn lemma_dec_str_enc(s: Seq<char>, rest: Seq<u8>)
    requires
        str_fits(s),
    ensures
        dec_str(spec_encode_str(s) + rest) == Some((s, rest)),
{
    encode_utf8_valid_utf8(s);
    encode_utf8_decode_utf8(s);
    lemma_dec_bytes_enc(encode_utf8(s), rest);
}

proof fn lemma_dec_opt_str_enc(s: Option<Seq<char>>, rest: Seq<u8>)
    requires
        opt_str_fits(s),
    ensures
        dec_opt_str(spec_encode_opt_str(s) + rest) == Some((s, rest)),
{
    match s {
        None => {
            let data = spec_encode_opt_str(s) + rest;
            assert(data[0] == 0u8);
            assert(data.subrange(1, data.len() as int) =~= rest);
        },
        Some(v) => {
            let data = spec_encode_opt_str(s) + rest;
            assert(data[0] == 1u8);
            assert(data.subrange(1, data.len() as int) =~= spec_encode_str(v) + rest);
            lemma_dec_str_enc(v, rest);
        },
    }
}

proof fn lemma_dec_i64_enc(x: i64, rest: Seq<u8>)
    ensures
        dec_i64(spec_encode_i64(x) + rest) == Some((x, rest)),
{
    lemma_auto_spec_u64_to_from_le_bytes();
    let data = spec_encode_i64(x) + rest;
    assert(data.subrange(0, 8) =~= spec_u64_to_le_bytes(x as u64));
    assert(((x as u64) as i64) == x) by (bit_vector);
    assert(data.subrange(8, data.len() as int) =~= rest);
}

proof fn lemma_dec_opt_i64_enc(x: Option<i64>, rest: Seq<u8>)
    ensures
        dec_opt_i64(spec_encode_opt_i64(x) + rest) == Some((x, rest)),
{
    match x {
        None => {
            let data = spec_encode_opt_i64(x) + rest;
            assert(data[0] == 0u8);
            assert(data.subrange(1, data.len() as int) =~= rest);
        },
        Some(v) => {
            let data = spec_encode_opt_i64(x) + rest;
            assert(data[0] == 1u8);
            assert(data.subrange(1, data.len() as int) =~= spec_encode_i64(v) + rest);
            lemma_dec_i64_enc(v, rest);
        },
    }
}

/// Reading thread announcement fields back from their encoding, followed by
/// anything, gives the fields and leaves exactly that remainder.
pub proof fn lemma_dec_thread_enc(m: ThreadMessageView, rest: Seq<u8>)
    requires
        thread_fits(m),
    ensures
        dec_thread(spec_encode_thread(m) + rest) == Some((m, rest)),
{
    let e2 = spec_encode_str(m.title);
    let e3 = spec_encode_opt_str(m.proposal_cid);
    let e4 = spec_encode_i64(m.created_at);
    let e5 = spec_encode_str(m.author_did);
    let e6 = spec_encode_opt_str(m.signature);
    let data = spec_encode_thread(m) + rest;
    assert(data =~= spec_encode_str(m.thread_id) + (e2 + (e3 + (e4 + (e5 + (e6 + rest))))));
    lemma_dec_str_enc(m.thread_id, e2 + (e3 + (e4 + (e5 + (e6 + rest)))));
    lemma_dec_str_enc(m.title, e3 + (e4 + (e5 + (e6 + rest))));
    lemma_dec_opt_str_enc(m.proposal_cid, e4 + (e5 + (e6 + rest)));
    lemma_dec_i64_enc(m.created_at, e5 + (e6 + rest));
    lemma_dec_str_enc(m.author_did, e6 + rest);
    lemma_dec_opt_str_enc(m.signature, rest);
}

/// Reading credential link fields back from their encoding, followed by
/// anything, gives the fields and leaves exactly that remainder.
pub proof fn lemma_dec_credential_link_enc(m: CredentialLinkMessageView, rest: Seq<u8>)
    requires
        credential_link_fits(m),
    ensures
        dec_credential_link(spec_encode_credential_link(m) + rest) == Some((m, rest)),
{
    let e2 = spec_encode_str(m.thread_id);
    let e3 = spec_encode_str(m.credential_cid);
    let e4 = spec_encode_str(m.linked_by);
    let e5 = spec_encode_i64(m.created_at);
    let e6 = spec_encode_opt_str(m.signature);
    let data = spec_encode_credential_link(m) + rest;
    assert(data =~= spec_encode_str(m.link_id) + (e2 + (e3 + (e4 + (e5 + (e6 + rest))))));
    lemma_dec_str_enc(m.link_id, e2 + (e3 + (e4 + (e5 + (e6 + rest)))));
    lemma_dec_str_enc(m.thread_id, e3 + (e4 + (e5 + (e6 + rest))));
    lemma_dec_str_enc(m.credential_cid, e4 + (e5 + (e6 + rest)));
    lemma_dec_str_enc(m.linked_by, e5 + (e6 + rest));
    lemma_dec_i64_enc(m.created_at, e6 + rest);
    lemma_dec_opt_str_enc(m.signature, rest);
}

/// Reading sync request fields back from their encoding, followed by
/// anything, gives the fields and leaves exactly that remainder.
pub proof fn lemma_dec_sync_request_enc(m: ThreadSyncRequestMessageView, rest: Seq<u8>)
    requires
        sync_request_fits(m),
    ensures
        dec_sync_request(spec_encode_sync_request(m) + rest) == Some((m, rest)),
{
    let e2 = spec_encode_opt_i64(m.last_update);
    let e3 = spec_encode_str(m.requester);
    let data = spec_encode_sync_request(m) + rest;
    assert(data =~= spec_encode_str(m.thread_id) + (e2 + (e3 + rest)));
    lemma_dec_str_enc(m.thread_id, e2 + (e3 + rest));
    lemma_dec_opt_i64_enc(m.last_update, e3 + rest);
    lemma_dec_str_enc(m.requester, rest);
}

/// Thread announcement fields whose whole encoding fits the length prefix's
/// range each fit their own prefix.
pub proof fn lemma_thread_encode_fits(t: ThreadMessageView)
    requires
        spec_encode_thread(t).len() < 0x1_0000_0000_0000_0000,
    ensures
        thread_fits(t),
{
    match t.proposal_cid {
        Some(_) => {},
        None => {},
    }
    match t.signature {
        Some(_) => {},
        None => {},
    }
}

/// Credential link fields whose whole encoding fits the length prefix's
/// range each fit their own prefix.
pub proof fn lemma_credential_link_encode_fits(c: CredentialLinkMessageView)
    requires
        spec_encode_credential_link(c).len() < 0x1_0000_0000_0000_0000,
    ensures
        credential_link_fits(c),
{
    match c.signature {
        Some(_) => {},
        None => {},
    }
}

/// Sync request fields whose whole encoding fits the length prefix's range
/// each fit their own prefix.
pub proof fn lemma_sync_request_encode_fits(r: ThreadSyncRequestMessageView)
    requires
        spec_encode_sync_request(r).len() < 0x1_0000_0000_0000_0000,
    ensures
        sync_request_fits(r),
{
}

/// An envelope whose whole encoding fits the length prefix's range has every
/// string field within its own prefix, so the round-trip law applies to it.
/// In particular it applies to every envelope encoded in running code, whose
/// encoding fits in memory.
pub proof fn lemma_encode_fits(m: SyncMessageView)
    requires
        spec_encode(m).len() < 0x1_0000_0000_0000_0000,
    ensures
        msg_fits(m),
{
    match m {
        SyncMessageView::Thread(t) => {
            assert(spec_encode(m).len() == 1 + spec_encode_thread(t).len());
            lemma_thread_encode_fits(t);
        },
        SyncMessageView::CredentialLink(c) => {
            assert(spec_encode(m).len() == 1 + spec_encode_credential_link(c).len());
            lemma_credential_link_encode_fits(c);
        },
        SyncMessageView::SyncRequest(r) => {
            assert(spec_encode(m).len() == 1 + spec_encode_sync_request(r).len());
            lemma_sync_request_encode_fits(r);
        },
    }
}

/// The round-trip law: for every representable envelope, decoding its
/// encoding gives back exactly that envelope.
pub proof fn lemma_decode_encode(m: SyncMessageView)
    requires
        msg_fits(m),
    ensures
        spec_decode(spec_encode(m)) == Some(m),
{
    let data = spec_encode(m);
    match m {
        SyncMessageView::Thread(t) => {
            assert(data.subrange(1, data.len() as int) =~= spec_encode_thread(t)
                + Seq::<u8>::empty());
            lemma_dec_thread_enc(t, Seq::<u8>::empty());
        },
        SyncMessageView::CredentialLink(c) => {
            assert(data.subrange(1, data.len() as int) =~= spec_encode_credential_link(c)
                + Seq::<u8>::empty());
            lemma_dec_credential_link_enc(c, Seq::<u8>::empty());
        },
        SyncMessageView::SyncRequest(r) => {
            assert(data.subrange(1, data.len() as int) =~= spec_encode_sync_request(r)
                + Seq::<u8>::empty());
            lemma_dec_sync_request_enc(r, Seq::<u8>::empty());
        },
    }
}

} // verus!
