use vstd::prelude::*;

use crate::address::Address;

verus! {

/// The stored summary of one message: who sent it to whom, its subject, a
/// bounded preview of its body, when it was sent and where the full body lives.
#[derive(Clone, Debug, PartialEq, Eq)]
pub struct EmailSummary {
    pub from: Address,
    pub to: Address,
    pub subject: Vec<u8>,
    pub preview: Vec<u8>,
    pub timestamp: u64,
    pub ipfs_hash: Vec<u8>,
}

/// A summary as plain values.
pub struct SummaryView {
    pub from: Seq<u8>,
    pub to: Seq<u8>,
    pub subject: Seq<u8>,
    pub preview: Seq<u8>,
    pub timestamp: u64,
    pub ipfs_hash: Seq<u8>,
}

impl View for EmailSummary {
    type V = SummaryView;

    open spec fn view(&self) -> SummaryView {
        SummaryView {
            from: self.from@,
            to: self.to@,
            subject: self.subject@,
            preview: self.preview@,
            timestamp: self.timestamp,
            ipfs_hash: self.ipfs_hash@,
        }
    }
}

/// The first `min(max_preview, content.len())` bytes of `content`.
pub open spec fn preview_of(content: Seq<u8>, max_preview: nat) -> Seq<u8> {
    if content.len() <= max_preview {
        content
    } else {
        content.subrange(0, max_preview as int)
    }
}

/// The summary that a send of `content` yields under the preview limit `max_preview`.
pub open spec fn summary_of(
    from: Seq<u8>,
    to: Seq<u8>,
    subject: Seq<u8>,
    content: Seq<u8>,
    ipfs_hash: Seq<u8>,
    timestamp: u64,
    max_preview: nat,
) -> SummaryView {
    SummaryView {
        from,
        to,
        subject,
        preview: preview_of(content, max_preview),
        timestamp,
        ipfs_hash,
    }
}

/// A copy of a byte buffer.
pub fn copy_bytes(b: &Vec<u8>) -> (r: Vec<u8>)
    ensures
        r@ == b@,
{
    let r = b.clone();
    assert(r@ =~= b@);
    r
}

/// The first `n` bytes of `b`.
pub fn prefix(b: &Vec<u8>, n: usize) -> (r: Vec<u8>)
    requires
        n <= b@.len(),
    ensures
        r@ == b@.subrange(0, n as int),
{
    let mut r: Vec<u8> = Vec::with_capacity(n);
    let mut i: usize = 0;
    while i < n
        invariant
            i <= n,
            n <= b@.len(),
            r@ == b@.subrange(0, i as int),
        decreases n - i,
    {
        r.push(b[i]);
        i = i + 1;
        assert(r@ =~= b@.subrange(0, i as int));
    }
    r
}

impl EmailSummary {
    /// A copy of this summary, field for field.
    pub fn duplicate(&self) -> (r: EmailSummary)
        ensures
            r@ == self@,
    {
        EmailSummary {
            from: self.from,
            to: self.to,
            subject: copy_bytes(&self.subject),
            preview: copy_bytes(&self.preview),
            timestamp: self.timestamp,
            ipfs_hash: copy_bytes(&self.ipfs_hash),
        }
    }

    /// Builds the summary of a message body, keeping only its first
    /// `max_preview` bytes as the preview.
    pub fn build(
        from: Address,
        to: Address,
        subject: Vec<u8>,
        full_content: &Vec<u8>,
        ipfs_hash: Vec<u8>,
        timestamp: u64,
        max_preview: u32,
    ) -> (r: EmailSummary)
        ensures
            r@ == summary_of(
                from@,
                to@,
                subject@,
                full_content@,
                ipfs_hash@,
                timestamp,
                max_preview as nat,
            ),
            r@.preview.len() == if full_content@.len() <= max_preview as nat {
                full_content@.len()
            } else {
                max_preview as nat
            },
    {
        let limit = max_preview as usize;
        let preview = if full_content.len() > limit {
            prefix(full_content, limit)
        } else {
            copy_bytes(full_content)
        };
        EmailSummary { from, to, subject, preview, timestamp, ipfs_hash }
    }
}

} // verus!
