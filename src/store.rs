use vstd::prelude::*;

use crate::address::Address;
use crate::summary::{EmailSummary, SummaryView};

verus! {

/// Which of an identity's two lists.
#[derive(Clone, Copy, Debug, PartialEq, Eq, Structural)]
pub enum ListKind {
    Inbox,
    Sent,
}

/// The views of a list of summaries, in order.
pub open spec fn views(s: Seq<EmailSummary>) -> Seq<SummaryView> {
    s.map_values(|e: EmailSummary| e@)
}

/// `list` after a send of `rec`, where `list` is the list of kind `kind` of `who`.
pub open spec fn appended(list: Seq<SummaryView>, who: Seq<u8>, kind: ListKind, rec: SummaryView) -> Seq<SummaryView> {
    if (kind == ListKind::Inbox && who == rec.to) || (kind == ListKind::Sent && who == rec.from) {
        list.push(rec)
    } else {
        list
    }
}

/// The two lists of one identity.
pub struct Mailbox {
    owner: Address,
    inbox: Vec<EmailSummary>,
    sent: Vec<EmailSummary>,
}

impl Mailbox {
    pub closed spec fn owner_view(self) -> Seq<u8> {
        self.owner@
    }

    pub closed spec fn list(self, kind: ListKind) -> Seq<SummaryView> {
        match kind {
            ListKind::Inbox => views(self.inbox@),
            ListKind::Sent => views(self.sent@),
        }
    }
}

/// For every identity that has sent or received a message, its inbox and its
/// sent list, each in the order of insertion.
pub struct MailStore {
    boxes: Vec<Mailbox>,
}

impl MailStore {
    /// No two mailboxes belong to the same identity.
    pub closed spec fn wf(self) -> bool {
        forall|i: int, j: int|
            0 <= i < self.boxes@.len() && 0 <= j < self.boxes@.len() && i != j
                ==> self.boxes@[i].owner_view() != self.boxes@[j].owner_view()
    }

    closed spec fn has_box(self, who: Seq<u8>) -> bool {
        exists|i: int| 0 <= i < self.boxes@.len() && self.boxes@[i].owner_view() == who
    }

    closed spec fn box_index(self, who: Seq<u8>) -> int {
        choose|i: int| 0 <= i < self.boxes@.len() && self.boxes@[i].owner_view() == who
    }

    /// The list of kind `kind` of the identity `who`; empty for an identity
    /// that has never sent nor received.
    pub closed spec fn list(self, who: Seq<u8>, kind: ListKind) -> Seq<SummaryView> {
        if self.has_box(who) {
            self.boxes@[self.box_index(who)].list(kind)
        } else {
            Seq::empty()
        }
    }

    proof fn lemma_index_unique(self, who: Seq<u8>, i: int)
        requires
            self.wf(),
            0 <= i < self.boxes@.len(),
            self.boxes@[i].owner_view() == who,
        ensures
            self.has_box(who),
            self.box_index(who) == i,
    {
        let j = self.box_index(who);
        assert(0 <= j < self.boxes@.len() && self.boxes@[j].owner_view() == who);
    }

    /// A store in which every list is empty.
    pub fn new() -> (r: MailStore)
        ensures
            r.wf(),
            forall|who: Seq<u8>, kind: ListKind| (#[trigger] r.list(who, kind)) == Seq::<SummaryView>::empty(),
    {
        MailStore { boxes: Vec::new() }
    }

    fn find(&self, who: &Address) -> (r: Option<usize>)
        requires
            self.wf(),
        ensures
            match r {
                Some(i) => i < self.boxes@.len() && self.boxes@[i as int].owner_view() == who@
                    && self.box_index(who@) == i && self.has_box(who@),
                None => !self.has_box(who@),
            },
    {
        let mut i: usize = 0;
        while i < self.boxes.len()
            invariant
                i <= self.boxes@.len(),
                self.wf(),
                forall|k: int| 0 <= k < i ==> self.boxes@[k].owner_view() != who@,
            decreases self.boxes@.len() - i,
        {
            if self.boxes[i].owner.same(who) {
                proof {
                    self.lemma_index_unique(who@, i as int);
                }
                return Some(i);
            }
            i = i + 1;
        }
        None
    }

    /// The position of the mailbox of `who`, made empty if it did not exist.
    fn find_or_open(&mut self, who: &Address) -> (r: usize)
        requires
            old(self).wf(),
        ensures
            final(self).wf(),
            r < final(self).boxes@.len(),
            final(self).boxes@[r as int].owner_view() == who@,
            final(self).box_index(who@) == r,
            final(self).has_box(who@),
            forall|a: Seq<u8>, kind: ListKind| #[trigger] final(self).list(a, kind) == old(self).list(a, kind),
            forall|k: int| 0 <= k < old(self).boxes@.len() && k != r ==> final(self).boxes@[k] == old(self).boxes@[k],
            final(self).boxes@.len() >= old(self).boxes@.len(),
    {
        match self.find(who) {
            Some(i) => i,
            None => {
                let ghost before = *self;
                let mb = Mailbox { owner: *who, inbox: Vec::new(), sent: Vec::new() };
                self.boxes.push(mb);
                let r = self.boxes.len() - 1;
                proof {
                    assert(self.wf()) by {
                        assert forall|i: int, j: int|
                            0 <= i < self.boxes@.len() && 0 <= j < self.boxes@.len() && i != j
                            implies self.boxes@[i].owner_view() != self.boxes@[j].owner_view() by {
                            if i < r && j < r {
                                assert(before.boxes@[i] == self.boxes@[i]);
                                assert(before.boxes@[j] == self.boxes@[j]);
                            } else if i == r {
                                assert(self.boxes@[j] == before.boxes@[j]);
                            } else {
                                assert(self.boxes@[i] == before.boxes@[i]);
                            }
                        }
                    }
                    self.lemma_index_unique(who@, r as int);
                    assert forall|a: Seq<u8>, kind: ListKind| #[trigger] self.list(a, kind) == before.list(a, kind) by {
                        if a == who@ {
                            assert(self.boxes@[r as int].list(kind) =~= Seq::<SummaryView>::empty());
                        } else if before.has_box(a) {
                            let k = before.box_index(a);
                            assert(self.boxes@[k] == before.boxes@[k]);
                            self.lemma_index_unique(a, k);
                        } else {
                            if self.has_box(a) {
                                let k = self.box_index(a);
                                assert(before.boxes@[k] == self.boxes@[k]);
                            }
                        }
                    }
                }
                r
            },
        }
    }
    /// Appends `rec` to the list of kind `kind` of the mailbox at position `i`.
    fn push_at(&mut self, i: usize, kind: ListKind, rec: EmailSummary)
        requires
            old(self).wf(),
            i < old(self).boxes@.len(),
        ensures
            final(self).wf(),
            final(self).boxes@.len() == old(self).boxes@.len(),
            forall|a: Seq<u8>, k: ListKind| #[trigger] final(self).list(a, k) == if a == old(self).boxes@[i as int].owner_view() && k == kind {
                old(self).list(a, k).push(rec@)
            } else {
                old(self).list(a, k)
            },
    {
        let ghost before = *self;
        match kind {
            ListKind::Inbox => self.boxes[i].inbox.push(rec),
            ListKind::Sent => self.boxes[i].sent.push(rec),
        }
        proof {
            assert forall|k: int| 0 <= k < self.boxes@.len()
                implies #[trigger] self.boxes@[k].owner_view() == before.boxes@[k].owner_view() by {
                if k == i {
                } else {
                    assert(self.boxes@[k] == before.boxes@[k]);
                }
            }
            let who = before.boxes@[i as int].owner_view();
            before.lemma_index_unique(who, i as int);
            self.lemma_index_unique(who, i as int);
            assert forall|a: Seq<u8>, k: ListKind| #[trigger] self.list(a, k) == if a == who && k == kind {
                before.list(a, k).push(rec@)
            } else {
                before.list(a, k)
            } by {
                if a == who {
                    if k == kind {
                        assert(self.list(a, k) =~= before.list(a, k).push(rec@));
                    }
                } else if before.has_box(a) {
                    let m = before.box_index(a);
                    self.lemma_index_unique(a, m);
                    assert(self.boxes@[m] == before.boxes@[m]);
                } else if self.has_box(a) {
                    let m = self.box_index(a);
                    assert(before.boxes@[m].owner_view() == a);
                }
            }
        }
    }

    /// Appends a copy of `record` to the inbox of its recipient and one to
    /// the sent list of its sender; every other list stays as it was.
    pub fn append(&mut self, record: EmailSummary)
        requires
            old(self).wf(),
        ensures
            final(self).wf(),
            forall|a: Seq<u8>, k: ListKind| #[trigger] final(self).list(a, k) == appended(
                old(self).list(a, k),
                a,
                k,
                record@,
            ),
    {
        let copy = record.duplicate();
        let i = self.find_or_open(&record.to);
        self.push_at(i, ListKind::Inbox, record);
        let j = self.find_or_open(&copy.from);
        self.push_at(j, ListKind::Sent, copy);
    }

    /// The number of records in the list of kind `kind` of `who`.
    pub fn len(&self, who: &Address, kind: ListKind) -> (r: usize)
        requires
            self.wf(),
        ensures
            r == self.list(who@, kind).len(),
    {
        match self.find(who) {
            Some(i) => match kind {
                ListKind::Inbox => self.boxes[i].inbox.len(),
                ListKind::Sent => self.boxes[i].sent.len(),
            },
            None => 0,
        }
    }

    /// Copies of the records at positions `start` to `end` (exclusive) of the
    /// list of kind `kind` of `who`, in order.
    pub fn range(&self, who: &Address, kind: ListKind, start: usize, end: usize) -> (r: Vec<EmailSummary>)
        requires
            self.wf(),
            start <= end <= self.list(who@, kind).len(),
        ensures
            views(r@) == self.list(who@, kind).subrange(start as int, end as int),
    {
        let mut r: Vec<EmailSummary> = Vec::new();
        match self.find(who) {
            Some(b) => {
                let mb = &self.boxes[b];
                let src = match kind {
                    ListKind::Inbox => &mb.inbox,
                    ListKind::Sent => &mb.sent,
                };
                assert(views(src@) == self.list(who@, kind));
                let mut i: usize = start;
                while i < end
                    invariant
                        start <= i <= end,
                        end <= src@.len(),
                        views(r@) =~= views(src@).subrange(start as int, i as int),
                    decreases end - i,
                {
                    let e = src[i].duplicate();
                    let ghost prev = r@;
                    r.push(e);
                    assert(views(r@) =~= views(prev).push(e@));
                    i = i + 1;
                    assert(views(r@) =~= views(src@).subrange(start as int, i as int));
                }
            },
            None => {
                assert(views(r@) =~= self.list(who@, kind).subrange(start as int, end as int));
            },
        }
        r
    }

    /// Copies of all the records in the list of kind `kind` of `who`, in order.
    pub fn records(&self, who: &Address, kind: ListKind) -> (r: Vec<EmailSummary>)
        requires
            self.wf(),
        ensures
            views(r@) == self.list(who@, kind),
    {
        let n = self.len(who, kind);
        let r = self.range(who, kind, 0, n);
        assert(self.list(who@, kind).subrange(0, n as int) =~= self.list(who@, kind));
        r
    }
}

} // verus!
