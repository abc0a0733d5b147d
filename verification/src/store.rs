//! Local durable state the federation engine replicates against.
//!
//! Two narrow repository interfaces stand between the engine and the rest of
//! the platform: one for threads, one for credential links. This module holds
//! the verified stores behind those interfaces. Thread ids and link ids are
//! opaque unique strings chosen by the originating node, so a caller creating
//! a row supplies its id: a locally created row gets a fresh id, a replicated
//! row keeps the id it was announced under.

use vstd::prelude::*;
use vstd::seq_lib::*;
use vstd::string::StringExecFns;

use crate::protocol::opt_str_view;
use crate::strcmp::str_eq;

verus! {

/// Errors from the storage collaborators.
#[derive(Clone, PartialEq, Eq, Debug)]
pub enum StorageError {
    /// The database refused an operation; the text names the violation.
    Database(String),
    /// Item not found.
    NotFound,
    /// Unexpected failure.
    Other(String),
}

/// A deliberation thread row.
#[derive(PartialEq, Eq, Debug)]
pub struct Thread {
    /// Opaque unique identifier.
    pub id: String,
    /// Thread title.
    pub title: String,
    /// Optional proposal CID the thread is about.
    pub proposal_cid: Option<String>,
    /// Creation timestamp (Unix seconds).
    pub created_at: i64,
    /// Last-update timestamp (Unix seconds).
    pub updated_at: i64,
}

/// A credential link row: a verifiable credential attached to a thread.
#[derive(PartialEq, Eq, Debug)]
pub struct CredentialLink {
    /// Opaque unique identifier.
    pub id: String,
    /// The thread the credential is linked to.
    pub thread_id: String,
    /// Credential CID.
    pub credential_cid: String,
    /// DID of the entity that linked the credential.
    pub linked_by: String,
    /// Creation timestamp (Unix seconds).
    pub created_at: i64,
}

/// Mathematical image of a [`Thread`].
#[verifier::ext_equal]
pub struct ThreadView {
    pub id: Seq<char>,
    pub title: Seq<char>,
    pub proposal_cid: Option<Seq<char>>,
    pub created_at: i64,
    pub updated_at: i64,
}

/// Mathematical image of a [`CredentialLink`].
#[verifier::ext_equal]
pub struct CredentialLinkView {
    pub id: Seq<char>,
    pub thread_id: Seq<char>,
    pub credential_cid: Seq<char>,
    pub linked_by: Seq<char>,
    pub created_at: i64,
}

impl View for Thread {
    type V = ThreadView;

    open spec fn view(&self) -> ThreadView {
        ThreadView {
            id: self.id@,
            title: self.title@,
            proposal_cid: opt_str_view(&self.proposal_cid),
            created_at: self.created_at,
            updated_at: self.updated_at,
        }
    }
}

impl DeepView for Thread {
    type V = ThreadView;

    open spec fn deep_view(&self) -> ThreadView {
        self.view()
    }
}

impl View for CredentialLink {
    type V = CredentialLinkView;

    open spec fn view(&self) -> CredentialLinkView {
        CredentialLinkView {
            id: self.id@,
            thread_id: self.thread_id@,
            credential_cid: self.credential_cid@,
            linked_by: self.linked_by@,
            created_at: self.created_at,
        }
    }
}

impl DeepView for CredentialLink {
    type V = CredentialLinkView;

    open spec fn deep_view(&self) -> CredentialLinkView {
        self.view()
    }
}

impl Thread {
    /// A field-for-field copy.
    pub fn duplicate(&self) -> (r: Thread)
        ensures
            r@ == self@,
    {
        Thread {
            id: self.id.clone(),
            title: self.title.clone(),
            proposal_cid: clone_opt_string(&self.proposal_cid),
            created_at: self.created_at,
            updated_at: self.updated_at,
        }
    }
}

impl CredentialLink {
    /// A field-for-field copy.
    pub fn duplicate(&self) -> (r: CredentialLink)
        ensures
            r@ == self@,
    {
        CredentialLink {
            id: self.id.clone(),
            thread_id: self.thread_id.clone(),
            credential_cid: self.credential_cid.clone(),
            linked_by: self.linked_by.clone(),
            created_at: self.created_at,
        }
    }
}

/// Copies an optional string.
pub(crate) fn clone_opt_string(s: &Option<String>) -> (r: Option<String>)
    ensures
        opt_str_view(&r) == opt_str_view(s),
{
    match s {
        Some(v) => Some(v.clone()),
        None => None,
    }
}

// ------------------------------------------------------------------
// Thread repository.
// ------------------------------------------------------------------

/// Whether some thread in the sequence carries the id.
pub open spec fn has_thread_id(s: Seq<ThreadView>, id: Seq<char>) -> bool {
    exists|k: int| 0 <= k < s.len() && s[k].id == id
}

/// The index of the thread carrying the id.
pub open spec fn thread_index(s: Seq<ThreadView>, id: Seq<char>) -> int {
    choose|k: int| 0 <= k < s.len() && s[k].id == id
}

/// The thread carrying the id, if any.
pub open spec fn spec_get_thread(s: Seq<ThreadView>, id: Seq<char>) -> Option<ThreadView> {
    if has_thread_id(s, id) {
        Some(s[thread_index(s, id)])
    } else {
        None
    }
}

/// The verified thread repository: rows in insertion order, ids unique.
pub struct ThreadRepository {
    threads: Vec<Thread>,
}

impl View for ThreadRepository {
    type V = Seq<ThreadView>;

    closed spec fn view(&self) -> Seq<ThreadView> {
        self.threads.deep_view()
    }
}

/// Finds the position of a thread id in a list of rows.
fn find_thread(v: &Vec<Thread>, id: &str) -> (r: Option<usize>)
    ensures
        match r {
            Some(i) => i < v@.len() && v@[i as int]@.id == id@,
            None => forall|k: int| 0 <= k < v@.len() ==> v@[k]@.id != id@,
        },
{
    let mut i: usize = 0;
    while i < v.len()
        invariant
            i <= v@.len(),
            forall|k: int| 0 <= k < i ==> v@[k]@.id != id@,
        decreases v@.len() - i,
    {
        if str_eq(v[i].id.as_str(), id) {
            return Some(i);
        }
        i = i + 1;
    }
    None
}

/// Thread ids are unique across a sequence of rows.
pub open spec fn thread_ids_unique(s: Seq<ThreadView>) -> bool {
    forall|i: int, j: int| 0 <= i < j < s.len() ==> s[i].id != s[j].id
}

impl ThreadRepository {
    /// Ids are unique across the rows.
    pub open spec fn wf(self) -> bool {
        thread_ids_unique(self@)
    }

    /// An empty repository.
    pub fn new() -> (r: ThreadRepository)
        ensures
            r.wf(),
            r@ == Seq::<ThreadView>::empty(),
    {
        let r = ThreadRepository { threads: Vec::new() };
        proof {
            assert(r@ =~= Seq::<ThreadView>::empty());
        }
        r
    }

    /// Looks a thread up by id: the stored row, or `NotFound` exactly when no
    /// row carries the id.
    pub fn get_thread(&self, id: &str) -> (r: Result<Thread, StorageError>)
        requires
            self.wf(),
        ensures
            match r {
                Ok(t) => spec_get_thread(self@, id@) == Some(t@),
                Err(e) => e == StorageError::NotFound && !has_thread_id(self@, id@),
            },
    {
        match find_thread(&self.threads, id) {
            Some(i) => {
                let t = self.threads[i].duplicate();
                proof {
                    assert(self@[i as int].id == id@);
                    let k = thread_index(self@, id@);
                    assert(self@[k].id == id@);
                    assert(k == i as int);
                }
                Ok(t)
            },
            None => {
                proof {
                    if has_thread_id(self@, id@) {
                        let k = thread_index(self@, id@);
                        assert(self@[k].id == id@);
                        assert(false);
                    }
                }
                Err(StorageError::NotFound)
            },
        }
    }

    /// Creates a thread row under the given id, stamped with the given time.
    /// Fails, leaving the repository unchanged, exactly when the id is
    /// already taken.
    pub fn create_thread(
        &mut self,
        id: String,
        title: String,
        proposal_cid: Option<String>,
        now: i64,
    ) -> (r: Result<Thread, StorageError>)
        requires
            old(self).wf(),
        ensures
            final(self).wf(),
            match r {
                Ok(t) => {
                    &&& !has_thread_id(old(self)@, id@)
                    &&& t@ == (ThreadView {
                        id: id@,
                        title: title@,
                        proposal_cid: opt_str_view(&proposal_cid),
                        created_at: now,
                        updated_at: now,
                    })
                    &&& final(self)@ == old(self)@.push(t@)
                },
                Err(e) => {
                    &&& has_thread_id(old(self)@, id@)
                    &&& e is Database
                    &&& final(self)@ == old(self)@
                },
            },
    {
        match find_thread(&self.threads, id.as_str()) {
            Some(i) => {
                proof {
                    assert(old(self)@[i as int].id == id@);
                }
                Err(StorageError::Database(String::from_str("duplicate thread id")))
            },
            None => {
                proof {
                    if has_thread_id(old(self)@, id@) {
                        let k = thread_index(old(self)@, id@);
                        assert(old(self)@[k].id == id@);
                        assert(false);
                    }
                }
                let t = Thread { id, title, proposal_cid, created_at: now, updated_at: now };
                let out = t.duplicate();
                self.threads.push(t);
                proof {
                    assert(self@ =~~= old(self)@.push(out@));
                    assert forall|i: int, j: int|
                        0 <= i < j < self@.len() implies self@[i].id != self@[j].id by {
                        if j == old(self)@.len() {
                            assert(self@[i] == old(self)@[i]);
                        }
                    }
                }
                Ok(out)
            },
        }
    }

    /// Retitles the thread carrying the id and stamps its update time.
    /// Fails with `NotFound`, leaving the repository unchanged, exactly when
    /// no row carries the id.
    pub fn update_thread(&mut self, id: &str, title: &str, now: i64) -> (r: Result<
        Thread,
        StorageError,
    >)
        requires
            old(self).wf(),
        ensures
            final(self).wf(),
            match r {
                Ok(t) => {
                    &&& has_thread_id(old(self)@, id@)
                    &&& t@ == (ThreadView {
                        title: title@,
                        updated_at: now,
                        ..old(self)@[thread_index(old(self)@, id@)]
                    })
                    &&& final(self)@ == old(self)@.update(thread_index(old(self)@, id@), t@)
                },
                Err(e) => {
                    &&& e == StorageError::NotFound
                    &&& !has_thread_id(old(self)@, id@)
                    &&& final(self)@ == old(self)@
                },
            },
    {
        match find_thread(&self.threads, id) {
            Some(i) => {
                proof {
                    assert(old(self)@[i as int].id == id@);
                    let k = thread_index(old(self)@, id@);
                    assert(old(self)@[k].id == id@);
                    assert(k == i as int);
                }
                let prev = self.threads.remove(i);
                let t = Thread {
                    id: prev.id,
                    title: title.to_owned(),
                    proposal_cid: prev.proposal_cid,
                    created_at: prev.created_at,
                    updated_at: now,
                };
                let out = t.duplicate();
                self.threads.insert(i, t);
                proof {
                    assert(self@ =~~= old(self)@.update(i as int, out@));
                    assert forall|a: int, b: int|
                        0 <= a < b < self@.len() implies self@[a].id != self@[b].id by {
                        assert(old(self)@[a].id != old(self)@[b].id);
                        assert(self@[a].id == old(self)@[a].id);
                        assert(self@[b].id == old(self)@[b].id);
                    }
                }
                Ok(out)
            },
            None => {
                proof {
                    if has_thread_id(old(self)@, id@) {
                        let k = thread_index(old(self)@, id@);
                        assert(old(self)@[k].id == id@);
                        assert(false);
                    }
                }
                Err(StorageError::NotFound)
            },
        }
    }

    /// The first thread, in insertion order, whose proposal CID is the given
    /// one; `NotFound` exactly when no thread references it.
    pub fn find_thread_by_proposal_cid(&self, proposal_cid: &str) -> (r: Result<
        Thread,
        StorageError,
    >)
        requires
            self.wf(),
        ensures
            match r {
                Ok(t) => first_with_cid(self@, proposal_cid@) == Some(t@),
                Err(e) => e == StorageError::NotFound && first_with_cid(self@, proposal_cid@)
                    is None,
            },
    {
        let n = self.threads.len();
        proof {
            assert(self@.subrange(0, n as int) =~= self@);
        }
        let mut i: usize = 0;
        while i < n
            invariant
                i <= n,
                n == self@.len(),
                self.wf(),
                first_with_cid(self@, proposal_cid@) == first_with_cid(
                    self@.subrange(i as int, n as int),
                    proposal_cid@,
                ),
            decreases n - i,
        {
            proof {
                assert(self@.subrange(i as int, n as int).drop_first() =~= self@.subrange(
                    i as int + 1,
                    n as int,
                ));
                assert(self@.subrange(i as int, n as int)[0] == self@[i as int]);
            }
            let matches_cid = match &self.threads[i].proposal_cid {
                Some(c) => str_eq(c.as_str(), proposal_cid),
                None => false,
            };
            if matches_cid {
                let t = self.threads[i].duplicate();
                return Ok(t);
            }
            i = i + 1;
        }
        proof {
            assert(self@.subrange(i as int, n as int).len() == 0);
        }
        Err(StorageError::NotFound)
    }
}

/// The first thread in the sequence whose proposal CID is the given one.
pub open spec fn first_with_cid(s: Seq<ThreadView>, cid: Seq<char>) -> Option<ThreadView>
    decreases s.len(),
{
    if s.len() == 0 {
        None
    } else if s[0].proposal_cid == Some(cid) {
        Some(s[0])
    } else {
        first_with_cid(s.drop_first(), cid)
    }
}

/// A found thread is one of the rows, and it references the CID it was
/// looked up by.
pub proof fn lemma_first_with_cid_mem(s: Seq<ThreadView>, cid: Seq<char>)
    requires
        first_with_cid(s, cid) is Some,
    ensures
        exists|k: int| 0 <= k < s.len() && s[k] == first_with_cid(s, cid).unwrap(),
        first_with_cid(s, cid).unwrap().proposal_cid == Some(cid),
    decreases s.len(),
{
    if s.len() == 0 {
    } else if s[0].proposal_cid == Some(cid) {
        assert(s[0] == first_with_cid(s, cid).unwrap());
    } else {
        lemma_first_with_cid_mem(s.drop_first(), cid);
        let k = choose|k: int|
            0 <= k < s.drop_first().len() && s.drop_first()[k] == first_with_cid(
                s.drop_first(),
                cid,
            ).unwrap();
        assert(s[k + 1] == first_with_cid(s, cid).unwrap());
    }
}

// ------------------------------------------------------------------
// Credential link repository.
// ------------------------------------------------------------------

/// Whether some link in the sequence carries the id.
pub open spec fn has_link_id(s: Seq<CredentialLinkView>, id: Seq<char>) -> bool {
    exists|k: int| 0 <= k < s.len() && s[k].id == id
}

/// Whether a link row repeats the identifying triple of a link announcement:
/// same thread, same credential, same signer.
pub open spec fn link_matches_triple(
    l: CredentialLinkView,
    thread_id: Seq<char>,
    credential_cid: Seq<char>,
    linked_by: Seq<char>,
) -> bool {
    &&& l.thread_id == thread_id
    &&& l.credential_cid == credential_cid
    &&& l.linked_by == linked_by
}

/// Whether some link in the sequence carries the triple.
pub open spec fn has_link_triple(
    s: Seq<CredentialLinkView>,
    thread_id: Seq<char>,
    credential_cid: Seq<char>,
    linked_by: Seq<char>,
) -> bool {
    exists|k: int|
        0 <= k < s.len() && link_matches_triple(s[k], thread_id, credential_cid, linked_by)
}

/// The index of the link carrying the triple.
pub open spec fn link_triple_index(
    s: Seq<CredentialLinkView>,
    thread_id: Seq<char>,
    credential_cid: Seq<char>,
    linked_by: Seq<char>,
) -> int {
    choose|k: int|
        0 <= k < s.len() && link_matches_triple(s[k], thread_id, credential_cid, linked_by)
}

/// The links attached to a thread, in insertion order.
pub open spec fn links_for_thread_spec(s: Seq<CredentialLinkView>, thread_id: Seq<char>) -> Seq<
    CredentialLinkView,
>
    decreases s.len(),
{
    if s.len() == 0 {
        Seq::<CredentialLinkView>::empty()
    } else {
        let rest = links_for_thread_spec(s.drop_first(), thread_id);
        if s[0].thread_id == thread_id {
            seq![s[0]] + rest
        } else {
            rest
        }
    }
}

/// The verified credential link repository: rows in insertion order, ids
/// unique, and no two rows repeating one announcement triple.
pub struct CredentialLinkRepository {
    links: Vec<CredentialLink>,
}

impl View for CredentialLinkRepository {
    type V = Seq<CredentialLinkView>;

    closed spec fn view(&self) -> Seq<CredentialLinkView> {
        self.links.deep_view()
    }
}

/// Finds the position of a link id in a list of rows.
fn find_link(v: &Vec<CredentialLink>, id: &str) -> (r: Option<usize>)
    ensures
        match r {
            Some(i) => i < v@.len() && v@[i as int]@.id == id@,
            None => forall|k: int| 0 <= k < v@.len() ==> v@[k]@.id != id@,
        },
{
    let mut i: usize = 0;
    while i < v.len()
        invariant
            i <= v@.len(),
            forall|k: int| 0 <= k < i ==> v@[k]@.id != id@,
        decreases v@.len() - i,
    {
        if str_eq(v[i].id.as_str(), id) {
            return Some(i);
        }
        i = i + 1;
    }
    None
}

/// Finds the position of an announcement triple in a list of rows.
fn find_triple(v: &Vec<CredentialLink>, thread_id: &str, credential_cid: &str, linked_by: &str)
    -> (r: Option<usize>)
    ensures
        match r {
            Some(i) => i < v@.len() && link_matches_triple(
                v@[i as int]@,
                thread_id@,
                credential_cid@,
                linked_by@,
            ),
            None => forall|k: int|
                0 <= k < v@.len() ==> !link_matches_triple(
                    v@[k]@,
                    thread_id@,
                    credential_cid@,
                    linked_by@,
                ),
        },
{
    let mut i: usize = 0;
    while i < v.len()
        invariant
            i <= v@.len(),
            forall|k: int|
                0 <= k < i ==> !link_matches_triple(
                    v@[k]@,
                    thread_id@,
                    credential_cid@,
                    linked_by@,
                ),
        decreases v@.len() - i,
    {
        if str_eq(v[i].thread_id.as_str(), thread_id) && str_eq(
            v[i].credential_cid.as_str(),
            credential_cid,
        ) && str_eq(v[i].linked_by.as_str(), linked_by) {
            return Some(i);
        }
        i = i + 1;
    }
    None
}

/// Link ids are unique across a sequence of rows, and no two rows repeat an
/// announcement triple.
pub open spec fn link_rows_unique(s: Seq<CredentialLinkView>) -> bool {
    &&& forall|i: int, j: int| 0 <= i < j < s.len() ==> s[i].id != s[j].id
    &&& forall|i: int, j: int|
        0 <= i < j < s.len() ==> !link_matches_triple(
            s[i],
            s[j].thread_id,
            s[j].credential_cid,
            s[j].linked_by,
        )
}

impl CredentialLinkRepository {
    /// Ids are unique across the rows, and no two rows repeat a triple.
    pub open spec fn wf(self) -> bool {
        link_rows_unique(self@)
    }

    /// An empty repository.
    pub fn new() -> (r: CredentialLinkRepository)
        ensures
            r.wf(),
            r@ == Seq::<CredentialLinkView>::empty(),
    {
        let r = CredentialLinkRepository { links: Vec::new() };
        proof {
            assert(r@ =~= Seq::<CredentialLinkView>::empty());
        }
        r
    }

    /// The links attached to a thread, in insertion order.
    pub fn get_links_for_thread(&self, thread_id: &str) -> (r: Result<
        Vec<CredentialLink>,
        StorageError,
    >)
        ensures
            r is Ok,
            r.unwrap().deep_view() == links_for_thread_spec(self@, thread_id@),
    {
        let n = self.links.len();
        proof {
            assert(self@.subrange(0, n as int) =~= self@);
        }
        let mut out: Vec<CredentialLink> = Vec::new();
        let mut i: usize = 0;
        while i < n
            invariant
                i <= n,
                n == self@.len(),
                links_for_thread_spec(self@, thread_id@) == out.deep_view()
                    + links_for_thread_spec(self@.subrange(i as int, n as int), thread_id@),
            decreases n - i,
        {
            proof {
                assert(self@.subrange(i as int, n as int).drop_first() =~= self@.subrange(
                    i as int + 1,
                    n as int,
                ));
                assert(self@.subrange(i as int, n as int)[0] == self@[i as int]);
            }
            let ghost pre = out.deep_view();
            if str_eq(self.links[i].thread_id.as_str(), thread_id) {
                out.push(self.links[i].duplicate());
                proof {
                    assert(out.deep_view() =~~= pre.push(self@[i as int]));
                    assert(pre.push(self@[i as int]) =~= pre + seq![self@[i as int]]);
                    assert(pre + (seq![self@[i as int]] + links_for_thread_spec(
                        self@.subrange(i as int + 1, n as int),
                        thread_id@,
                    )) =~= (pre + seq![self@[i as int]]) + links_for_thread_spec(
                        self@.subrange(i as int + 1, n as int),
                        thread_id@,
                    ));
                }
            }
            i = i + 1;
        }
        proof {
            assert(self@.subrange(n as int, n as int).len() == 0);
            assert(out.deep_view() + links_for_thread_spec(
                self@.subrange(n as int, n as int),
                thread_id@,
            ) =~= out.deep_view());
        }
        Ok(out)
    }

    /// Creates a credential link row, deduplicating on the announcement
    /// triple: if a row with the same thread, credential and signer already
    /// exists, that row is returned unchanged — a storage-level conflict is
    /// success, not error. A fresh triple under an id that is already taken
    /// fails, leaving the repository unchanged.
    pub fn create_credential_link(
        &mut self,
        id: String,
        thread_id: String,
        credential_cid: String,
        linked_by: String,
        now: i64,
    ) -> (r: Result<CredentialLink, StorageError>)
        requires
            old(self).wf(),
        ensures
            final(self).wf(),
            match r {
                Ok(l) => {
                    if has_link_triple(old(self)@, thread_id@, credential_cid@, linked_by@) {
                        &&& final(self)@ == old(self)@
                        &&& l@ == old(self)@[link_triple_index(
                            old(self)@,
                            thread_id@,
                            credential_cid@,
                            linked_by@,
                        )]
                    } else {
                        &&& !has_link_id(old(self)@, id@)
                        &&& l@ == (CredentialLinkView {
                            id: id@,
                            thread_id: thread_id@,
                            credential_cid: credential_cid@,
                            linked_by: linked_by@,
                            created_at: now,
                        })
                        &&& final(self)@ == old(self)@.push(l@)
                    }
                },
                Err(e) => {
                    &&& !has_link_triple(old(self)@, thread_id@, credential_cid@, linked_by@)
                    &&& has_link_id(old(self)@, id@)
                    &&& e is Database
                    &&& final(self)@ == old(self)@
                },
            },
    {
        match find_triple(
            &self.links,
            thread_id.as_str(),
            credential_cid.as_str(),
            linked_by.as_str(),
        ) {
            Some(i) => {
                let l = self.links[i].duplicate();
                proof {
                    assert(link_matches_triple(
                        old(self)@[i as int],
                        thread_id@,
                        credential_cid@,
                        linked_by@,
                    ));
                    let k = link_triple_index(old(self)@, thread_id@, credential_cid@, linked_by@);
                    assert(link_matches_triple(
                        old(self)@[k],
                        thread_id@,
                        credential_cid@,
                        linked_by@,
                    ));
                    if k < i as int {
                        assert(!link_matches_triple(
                            old(self)@[k],
                            old(self)@[i as int].thread_id,
                            old(self)@[i as int].credential_cid,
                            old(self)@[i as int].linked_by,
                        ));
                        assert(false);
                    }
                    if (i as int) < k {
                        assert(!link_matches_triple(
                            old(self)@[i as int],
                            old(self)@[k].thread_id,
                            old(self)@[k].credential_cid,
                            old(self)@[k].linked_by,
                        ));
                        assert(false);
                    }
                }
                Ok(l)
            },
            None => {
                proof {
                    if has_link_triple(old(self)@, thread_id@, credential_cid@, linked_by@) {
                        let k = link_triple_index(
                            old(self)@,
                            thread_id@,
                            credential_cid@,
                            linked_by@,
                        );
                        assert(link_matches_triple(
                            old(self)@[k],
                            thread_id@,
                            credential_cid@,
                            linked_by@,
                        ));
                        assert(false);
                    }
                }
                match find_link(&self.links, id.as_str()) {
                    Some(j) => {
                        proof {
                            assert(old(self)@[j as int].id == id@);
                        }
                        Err(StorageError::Database(String::from_str("duplicate link id")))
                    },
                    None => {
                        proof {
                            if has_link_id(old(self)@, id@) {
                                let k = choose|k: int|
                                    0 <= k < old(self)@.len() && old(self)@[k].id == id@;
                                assert(old(self)@[k].id == id@);
                                assert(false);
                            }
                        }
                        let l = CredentialLink {
                            id,
                            thread_id,
                            credential_cid,
                            linked_by,
                            created_at: now,
                        };
                        let out = l.duplicate();
                        self.links.push(l);
                        proof {
                            assert(self@ =~~= old(self)@.push(out@));
                            assert forall|a: int, b: int|
                                0 <= a < b < self@.len() implies self@[a].id != self@[b].id by {
                                if b == old(self)@.len() {
                                    assert(self@[a] == old(self)@[a]);
                                }
                            }
                            assert forall|a: int, b: int|
                                0 <= a < b < self@.len() implies !link_matches_triple(
                                self@[a],
                                self@[b].thread_id,
                                self@[b].credential_cid,
                                self@[b].linked_by,
                            ) by {
                                if b == old(self)@.len() {
                                    assert(self@[a] == old(self)@[a]);
                                }
                            }
                        }
                        Ok(out)
                    },
                }
            },
        }
    }
}

} // verus!
