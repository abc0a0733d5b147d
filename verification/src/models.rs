//! The richer thread model of the platform: a discussion thread with body
//! text, tags, status and free-form metadata, as the in-memory API layer
//! shapes it.

use vstd::prelude::*;

verus! {

/// Status of a thread.
#[derive(Clone, Copy, Debug, PartialEq, Eq, Structural)]
pub enum ThreadStatus {
    /// Open for discussion.
    Open,
    /// Closed to new comments.
    Closed,
    /// Archived, read-only.
    Archived,
    /// Hidden but not deleted.
    Hidden,
}

/// Mathematical image of a [`Thread`].
#[verifier::ext_equal]
pub struct ThreadView {
    pub id: Seq<char>,
    pub title: Seq<char>,
    pub content: Seq<char>,
    pub author_did: Seq<char>,
    pub created_at: Seq<char>,
    pub updated_at: Seq<char>,
    pub tags: Seq<Seq<char>>,
    pub proposal_id: Option<Seq<char>>,
    pub federation_id: Option<Seq<char>>,
    pub status: ThreadStatus,
    pub metadata: Seq<(Seq<char>, Seq<char>)>,
}

/// A discussion thread.
#[derive(PartialEq, Eq, Debug)]
pub struct Thread {
    /// Unique identifier.
    pub id: String,
    /// Title.
    pub title: String,
    /// Body text.
    pub content: String,
    /// Author's DID.
    pub author_did: String,
    /// Creation timestamp, RFC 3339.
    pub created_at: String,
    /// Last-update timestamp, RFC 3339.
    pub updated_at: String,
    /// Tags, each held once.
    pub tags: Vec<String>,
    /// Optional proposal this thread is about.
    pub proposal_id: Option<String>,
    /// Optional federation this thread belongs to.
    pub federation_id: Option<String>,
    /// Status.
    pub status: ThreadStatus,
    /// Metadata key-value pairs, each key held once.
    pub metadata: Vec<(String, String)>,
}

impl View for Thread {
    type V = ThreadView;

    open spec fn view(&self) -> ThreadView {
        ThreadView {
            id: self.id@,
            title: self.title@,
            content: self.content@,
            author_did: self.author_did@,
            created_at: self.created_at@,
            updated_at: self.updated_at@,
            tags: self.tags.deep_view(),
            proposal_id: crate::protocol::opt_str_view(&self.proposal_id),
            federation_id: crate::protocol::opt_str_view(&self.federation_id),
            status: self.status,
            metadata: Seq::new(
                self.metadata@.len(),
                |k: int| (self.metadata@[k].0@, self.metadata@[k].1@),
            ),
        }
    }
}

/// Relies on chrono::Utc::now, rendered with DateTime::to_rfc3339: the
/// current time as an RFC 3339 string. The result depends on the clock, so
/// nothing is promised of it.
#[verifier::external_body]
fn rfc3339_now() -> String {
    chrono::Utc::now().to_rfc3339()
}

/// Whether a tag sequence holds a tag.
pub open spec fn has_tag(tags: Seq<Seq<char>>, tag: Seq<char>) -> bool {
    exists|k: int| 0 <= k < tags.len() && tags[k] == tag
}

/// Whether a metadata sequence holds a key.
pub open spec fn has_meta_key(md: Seq<(Seq<char>, Seq<char>)>, key: Seq<char>) -> bool {
    exists|k: int| 0 <= k < md.len() && md[k].0 == key
}

/// The position of a key in a metadata sequence.
pub open spec fn meta_key_index(md: Seq<(Seq<char>, Seq<char>)>, key: Seq<char>) -> int {
    choose|k: int| 0 <= k < md.len() && md[k].0 == key
}

impl Thread {
    /// Tags and metadata keys are each held at most once.
    pub open spec fn wf(self) -> bool {
        &&& forall|i: int, j: int| 0 <= i < j < self@.tags.len() ==> self@.tags[i] != self@.tags[j]
        &&& forall|i: int, j: int|
            0 <= i < j < self@.metadata.len() ==> self@.metadata[i].0 != self@.metadata[j].0
    }

    /// A fresh open thread, stamped with the current time, without tags,
    /// metadata or federation assignment.
    pub fn new(
        id: String,
        title: String,
        content: String,
        author_did: String,
        proposal_id: Option<String>,
    ) -> (r: Thread)
        ensures
            r.wf(),
            r@.id == id@,
            r@.title == title@,
            r@.content == content@,
            r@.author_did == author_did@,
            r@.created_at == r@.updated_at,
            r@.tags == Seq::<Seq<char>>::empty(),
            r@.proposal_id == crate::protocol::opt_str_view(&proposal_id),
            r@.federation_id is None,
            r@.status == ThreadStatus::Open,
            r@.metadata == Seq::<(Seq<char>, Seq<char>)>::empty(),
    {
        let now = rfc3339_now();
        let now2 = now.clone();
        let r = Thread {
            id,
            title,
            content,
            author_did,
            created_at: now,
            updated_at: now2,
            tags: Vec::new(),
            proposal_id,
            federation_id: None,
            status: ThreadStatus::Open,
            metadata: Vec::new(),
        };
        proof {
            assert(r@.tags =~= Seq::<Seq<char>>::empty());
            assert(r@.metadata =~= Seq::<(Seq<char>, Seq<char>)>::empty());
        }
        r
    }

    /// Adds a tag unless the thread already carries it, so no tag is held
    /// twice.
    pub fn add_tag(&mut self, tag: String)
        requires
            old(self).wf(),
        ensures
            final(self).wf(),
            final(self)@ == (ThreadView {
                tags: if has_tag(old(self)@.tags, tag@) {
                    old(self)@.tags
                } else {
                    old(self)@.tags.push(tag@)
                },
                ..old(self)@
            }),
            has_tag(final(self)@.tags, tag@),
    {
        let ghost oldtags = self@.tags;
        let mut i: usize = 0;
        while i < self.tags.len()
            invariant
                i <= self.tags@.len(),
                self == old(self),
                old(self).wf(),
                oldtags == self@.tags,
                forall|k: int| 0 <= k < i ==> oldtags[k] != tag@,
            decreases self.tags@.len() - i,
        {
            if self.tags[i] == tag {
                proof {
                    assert(oldtags[i as int] == tag@);
                    assert(self@ =~= (ThreadView { tags: oldtags, ..old(self)@ }));
                }
                return ;
            }
            i = i + 1;
        }
        proof {
            if has_tag(oldtags, tag@) {
                let k = choose|k: int| 0 <= k < oldtags.len() && oldtags[k] == tag@;
                assert(oldtags[k] == tag@);
                assert(false);
            }
        }
        let ghost t = tag@;
        self.tags.push(tag);
        proof {
            assert(self@.tags =~~= oldtags.push(t));
            assert(self@ =~= (ThreadView { tags: oldtags.push(t), ..old(self)@ }));
            assert(self@.tags[oldtags.len() as int] == t);
            assert forall|i: int, j: int| 0 <= i < j < self@.tags.len() implies self@.tags[i]
                != self@.tags[j] by {
                if j == oldtags.len() {
                    assert(self@.tags[i] == oldtags[i]);
                }
            }
        }
    }

    /// Sets a metadata value: an existing key is overwritten in place, a new
    /// key is appended, so no key is held twice.
    pub fn set_metadata(&mut self, key: String, value: String)
        requires
            old(self).wf(),
        ensures
            final(self).wf(),
            final(self)@ == (ThreadView {
                metadata: if has_meta_key(old(self)@.metadata, key@) {
                    old(self)@.metadata.update(
                        meta_key_index(old(self)@.metadata, key@),
                        (key@, value@),
                    )
                } else {
                    old(self)@.metadata.push((key@, value@))
                },
                ..old(self)@
            }),
    {
        let ghost oldmd = self@.metadata;
        let ghost kv = (key@, value@);
        let mut i: usize = 0;
        while i < self.metadata.len()
            invariant
                i <= self.metadata@.len(),
                self == old(self),
                old(self).wf(),
                oldmd == self@.metadata,
                kv == (key@, value@),
                forall|k: int| 0 <= k < i ==> oldmd[k].0 != key@,
            decreases self.metadata@.len() - i,
        {
            if self.metadata[i].0 == key {
                proof {
                    assert(oldmd[i as int].0 == key@);
                    let k = meta_key_index(oldmd, key@);
                    assert(oldmd[k].0 == key@);
                    if k != i as int {
                        assert(oldmd[k].0 != oldmd[i as int].0);
                        assert(false);
                    }
                }
                let ghost prevec = self.metadata@;
                let pair = (key, value);
                let ghost pv = pair;
                self.metadata.remove(i);
                self.metadata.insert(i, pair);
                proof {
                    assert(self.metadata@ =~= prevec.update(
                        i as int,
                        self.metadata@[i as int],
                    ));
                    assert(self.metadata@[i as int] == pv);
                    assert(pv.0@ == kv.0);
                    assert(pv.1@ == kv.1);
                    assert(self@.metadata =~~= oldmd.update(i as int, kv));
                    assert(self@ =~= (ThreadView {
                        metadata: oldmd.update(i as int, kv),
                        ..old(self)@
                    }));
                    assert forall|a: int, b: int|
                        0 <= a < b < self@.metadata.len() implies self@.metadata[a].0
                        != self@.metadata[b].0 by {
                        assert(oldmd[a].0 != oldmd[b].0);
                        assert(self@.metadata[a].0 == oldmd[a].0);
                        assert(self@.metadata[b].0 == oldmd[b].0);
                    }
                }
                return ;
            }
            i = i + 1;
        }
        proof {
            if has_meta_key(oldmd, key@) {
                let k = choose|k: int| 0 <= k < oldmd.len() && oldmd[k].0 == key@;
                assert(oldmd[k].0 == key@);
                assert(false);
            }
        }
        self.metadata.push((key, value));
        proof {
            assert(self@.metadata =~~= oldmd.push(kv));
            assert(self@ =~= (ThreadView { metadata: oldmd.push(kv), ..old(self)@ }));
            assert forall|a: int, b: int|
                0 <= a < b < self@.metadata.len() implies self@.metadata[a].0
                != self@.metadata[b].0 by {
                if b == oldmd.len() {
                    assert(self@.metadata[a].0 == oldmd[a].0);
                }
            }
        }
    }
}

} // verus!
