use vstd::prelude::*;

use crate::address::Address;
use crate::codec::{encode_all, serialize};
use crate::store::{appended, views, ListKind, MailStore};
use crate::summary::{summary_of, EmailSummary, SummaryView};

verus! {

/// Smallest preview limit that the administrator may set, in bytes.
pub const MIN_PREVIEW_SIZE: u32 = 50;

/// Largest preview limit that the administrator may set: 500 KiB.
pub const MAX_PREVIEW_SIZE: u32 = 500 * 1024;

/// Smallest content limit that the administrator may set, in bytes.
pub const MIN_CONTENT_SIZE: u32 = 1;

/// Largest content limit that the administrator may set: 5 MiB.
pub const MAX_CONTENT_SIZE: u32 = 5 * 1024 * 1024;

/// Preview limit in force after initialization.
pub const DEFAULT_PREVIEW_SIZE: u32 = 100;

/// Content limit in force after initialization.
pub const DEFAULT_CONTENT_SIZE: u32 = 5 * 1024 * 1024;

/// Why an operation was rejected; a rejected operation changes nothing.
#[derive(Clone, Copy, Debug, PartialEq, Eq, Structural)]
pub enum EmailError {
    /// The message body is longer than the content limit.
    ContentTooLarge,
    /// The requested preview limit lies outside its valid range.
    PreviewSizeOutOfRange,
    /// The requested content limit lies outside its valid range.
    ContentSizeOutOfRange,
    /// Only the administrator may change a limit.
    Unauthorized,
}

/// The part of `list` from `min(offset, len)` to `min(offset + limit, len)`.
pub open spec fn page(list: Seq<SummaryView>, limit: u32, offset: u32) -> Seq<SummaryView> {
    let total = list.len() as int;
    let start = if (offset as int) < total { offset as int } else { total };
    let end = if (offset as int) + (limit as int) < total {
        (offset as int) + (limit as int)
    } else {
        total
    };
    list.subrange(start, end)
}

/// The mail record store: its administrator, its two size limits, and every
/// identity's inbox and sent list.
pub struct EmailBox {
    owner: Address,
    max_preview_size: u32,
    max_content_size: u32,
    store: MailStore,
}

impl EmailBox {
    /// Both limits lie in their valid ranges and the store is well formed.
    pub closed spec fn wf(self) -> bool {
        &&& self.store.wf()
        &&& MIN_PREVIEW_SIZE <= self.max_preview_size <= MAX_PREVIEW_SIZE
        &&& MIN_CONTENT_SIZE <= self.max_content_size <= MAX_CONTENT_SIZE
    }

    /// The administrator's address.
    pub closed spec fn admin(self) -> Seq<u8> {
        self.owner@
    }

    /// The preview limit in force.
    pub closed spec fn preview_limit(self) -> u32 {
        self.max_preview_size
    }

    /// The content limit in force.
    pub closed spec fn content_limit(self) -> u32 {
        self.max_content_size
    }

    /// The list of kind `kind` of the identity `who`.
    pub closed spec fn list(self, who: Seq<u8>, kind: ListKind) -> Seq<SummaryView> {
        self.store.list(who, kind)
    }

    /// Every list of `self` equals that of `other`.
    pub open spec fn same_lists(self, other: EmailBox) -> bool {
        forall|a: Seq<u8>, k: ListKind| #[trigger] self.list(a, k) == other.list(a, k)
    }

    /// A store administered by `owner`, with the default limits and no mail.
    pub fn init(owner: Address) -> (r: EmailBox)
        ensures
            r.wf(),
            r.admin() == owner@,
            r.preview_limit() == DEFAULT_PREVIEW_SIZE,
            r.content_limit() == DEFAULT_CONTENT_SIZE,
            forall|a: Seq<u8>, k: ListKind| (#[trigger] r.list(a, k)) == Seq::<SummaryView>::empty(),
    {
        EmailBox {
            owner,
            max_preview_size: DEFAULT_PREVIEW_SIZE,
            max_content_size: DEFAULT_CONTENT_SIZE,
            store: MailStore::new(),
        }
    }

    /// The bounds, both inclusive, of the preview limit.
    pub fn valid_preview_range(&self) -> (r: (u32, u32))
        ensures
            r == (MIN_PREVIEW_SIZE, MAX_PREVIEW_SIZE),
    {
        (MIN_PREVIEW_SIZE, MAX_PREVIEW_SIZE)
    }

    /// The bounds, both inclusive, of the content limit.
    pub fn valid_content_range(&self) -> (r: (u32, u32))
        ensures
            r == (MIN_CONTENT_SIZE, MAX_CONTENT_SIZE),
    {
        (MIN_CONTENT_SIZE, MAX_CONTENT_SIZE)
    }

    /// The administrator's address.
    pub fn owner(&self) -> (r: Address)
        ensures
            r@ == self.admin(),
    {
        self.owner
    }

    /// The preview limit in force.
    pub fn get_max_preview_size(&self) -> (r: u32)
        ensures
            r == self.preview_limit(),
    {
        self.max_preview_size
    }

    /// The content limit in force.
    pub fn get_max_content_size(&self) -> (r: u32)
        ensures
            r == self.content_limit(),
    {
        self.max_content_size
    }
    /// Sends a message from `from` to `to`: builds its summary, with the
    /// first bytes of `full_content` as preview, and appends a copy to the
    /// recipient's inbox and one to the sender's sent list. Returns the
    /// summary, which is what the send publishes. A body longer than the
    /// content limit is rejected and nothing changes.
    pub fn send_email(
        &mut self,
        from: Address,
        to: Address,
        subject: Vec<u8>,
        full_content: Vec<u8>,
        ipfs_hash: Vec<u8>,
        timestamp: u64,
    ) -> (r: Result<EmailSummary, EmailError>)
        requires
            old(self).wf(),
        ensures
            final(self).wf(),
            final(self).admin() == old(self).admin(),
            final(self).preview_limit() == old(self).preview_limit(),
            final(self).content_limit() == old(self).content_limit(),
            full_content@.len() > old(self).content_limit() ==> r == Err::<EmailSummary, EmailError>(
                EmailError::ContentTooLarge,
            ) && final(self).same_lists(*old(self)),
            full_content@.len() <= old(self).content_limit() ==> r is Ok,
            r matches Ok(rec) ==> {
                &&& rec@ == summary_of(
                    from@,
                    to@,
                    subject@,
                    full_content@,
                    ipfs_hash@,
                    timestamp,
                    old(self).preview_limit() as nat,
                )
                &&& rec@.preview.len() == if full_content@.len() <= old(self).preview_limit() {
                    full_content@.len()
                } else {
                    old(self).preview_limit() as nat
                }
                &&& final(self).list(to@, ListKind::Inbox) == old(self).list(
                    to@,
                    ListKind::Inbox,
                ).push(rec@)
                &&& final(self).list(from@, ListKind::Sent) == old(self).list(
                    from@,
                    ListKind::Sent,
                ).push(rec@)
                &&& final(self).list(to@, ListKind::Inbox).len() == old(self).list(
                    to@,
                    ListKind::Inbox,
                ).len() + 1
                &&& final(self).list(from@, ListKind::Sent).len() == old(self).list(
                    from@,
                    ListKind::Sent,
                ).len() + 1
                &&& forall|a: Seq<u8>, k: ListKind| #[trigger] final(self).list(a, k) == appended(
                    old(self).list(a, k),
                    a,
                    k,
                    rec@,
                )
            },
    {
        if full_content.len() > self.max_content_size as usize {
            return Err(EmailError::ContentTooLarge);
        }
        let summary = EmailSummary::build(
            from,
            to,
            subject,
            &full_content,
            ipfs_hash,
            timestamp,
            self.max_preview_size,
        );
        let event = summary.duplicate();
        self.store.append(summary);
        Ok(event)
    }

    /// Sets the preview limit to `size`, on behalf of `caller`. Only the
    /// administrator may, and only to a size in the valid range.
    pub fn set_max_preview_size(&mut self, caller: &Address, size: u32) -> (r: Result<(), EmailError>)
        requires
            old(self).wf(),
        ensures
            final(self).wf(),
            final(self).admin() == old(self).admin(),
            final(self).content_limit() == old(self).content_limit(),
            final(self).same_lists(*old(self)),
            caller@ != old(self).admin() ==> r == Err::<(), EmailError>(EmailError::Unauthorized),
            caller@ == old(self).admin() && !(MIN_PREVIEW_SIZE <= size <= MAX_PREVIEW_SIZE) ==> r
                == Err::<(), EmailError>(EmailError::PreviewSizeOutOfRange),
            caller@ == old(self).admin() && MIN_PREVIEW_SIZE <= size <= MAX_PREVIEW_SIZE ==> r
                == Ok::<(), EmailError>(()),
            r is Ok ==> final(self).preview_limit() == size,
            r is Err ==> final(self).preview_limit() == old(self).preview_limit(),
    {
        if !caller.same(&self.owner) {
            return Err(EmailError::Unauthorized);
        }
        let (min, max) = self.valid_preview_range();
        if size < min || size > max {
            return Err(EmailError::PreviewSizeOutOfRange);
        }
        self.max_preview_size = size;
        Ok(())
    }

    /// Sets the content limit to `size`, on behalf of `caller`. Only the
    /// administrator may, and only to a size in the valid range.
    pub fn set_max_content_size(&mut self, caller: &Address, size: u32) -> (r: Result<(), EmailError>)
        requires
            old(self).wf(),
        ensures
            final(self).wf(),
            final(self).admin() == old(self).admin(),
            final(self).preview_limit() == old(self).preview_limit(),
            final(self).same_lists(*old(self)),
            caller@ != old(self).admin() ==> r == Err::<(), EmailError>(EmailError::Unauthorized),
            caller@ == old(self).admin() && !(MIN_CONTENT_SIZE <= size <= MAX_CONTENT_SIZE) ==> r
                == Err::<(), EmailError>(EmailError::ContentSizeOutOfRange),
            caller@ == old(self).admin() && MIN_CONTENT_SIZE <= size <= MAX_CONTENT_SIZE ==> r
                == Ok::<(), EmailError>(()),
            r is Ok ==> final(self).content_limit() == size,
            r is Err ==> final(self).content_limit() == old(self).content_limit(),
    {
        if !caller.same(&self.owner) {
            return Err(EmailError::Unauthorized);
        }
        let (min, max) = self.valid_content_range();
        if size < min || size > max {
            return Err(EmailError::ContentSizeOutOfRange);
        }
        self.max_content_size = size;
        Ok(())
    }

    /// The number of records in the list of kind `kind` of `who`.
    pub fn list_len(&self, who: &Address, kind: ListKind) -> (r: usize)
        requires
            self.wf(),
        ensures
            r == self.list(who@, kind).len(),
    {
        self.store.len(who, kind)
    }

    /// Copies of all the records in the list of kind `kind` of `who`, in order.
    pub fn records(&self, who: &Address, kind: ListKind) -> (r: Vec<EmailSummary>)
        requires
            self.wf(),
        ensures
            views(r@) == self.list(who@, kind),
    {
        self.store.records(who, kind)
    }

    /// The records of the inbox of `who` from position `offset` on, at most
    /// `limit` of them, in order; positions past the end are left out.
    pub fn inbox_page(&self, who: &Address, limit: u32, offset: u32) -> (r: Vec<EmailSummary>)
        requires
            self.wf(),
        ensures
            views(r@) == page(self.list(who@, ListKind::Inbox), limit, offset),
    {
        let total = self.store.len(who, ListKind::Inbox);
        let start: usize = if (offset as usize) < total {
            offset as usize
        } else {
            total
        };
        let remaining = total - start;
        let count: usize = if (limit as usize) < remaining {
            limit as usize
        } else {
            remaining
        };
        self.store.range(who, ListKind::Inbox, start, start + count)
    }

    /// The encoding of a page of the caller's own inbox (see `inbox_page`).
    pub fn get_inbox(&self, caller: &Address, limit: u32, offset: u32) -> (r: Vec<u8>)
        requires
            self.wf(),
        ensures
            r@ == encode_all(page(self.list(caller@, ListKind::Inbox), limit, offset)),
    {
        let selected = self.inbox_page(caller, limit, offset);
        serialize(&selected)
    }
}

} // verus!
