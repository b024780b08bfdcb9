use vstd::prelude::*;

use crate::store::views;
use crate::summary::{EmailSummary, SummaryView};

verus! {

/// The low `n` bytes of `v`, most significant first.
pub open spec fn be_bytes(v: nat, n: nat) -> Seq<u8>
    decreases n,
{
    if n == 0 {
        Seq::empty()
    } else {
        be_bytes(v / 256, (n - 1) as nat).push((v % 256) as u8)
    }
}

/// A byte buffer as it stands nested in a larger encoding: its length in
/// four big-endian bytes, then its bytes.
pub open spec fn framed(b: Seq<u8>) -> Seq<u8> {
    be_bytes(b.len(), 4) + b
}

/// The encoding of one summary: both addresses as raw bytes, the subject and
/// the preview framed, the timestamp in eight big-endian bytes, then the
/// content reference framed.
pub open spec fn summary_bytes(s: SummaryView) -> Seq<u8> {
    s.from + s.to + framed(s.subject) + framed(s.preview) + be_bytes(s.timestamp as nat, 8)
        + framed(s.ipfs_hash)
}

/// The encodings of the summaries in `s`, one after another in order.
pub open spec fn encode_all(s: Seq<SummaryView>) -> Seq<u8>
    decreases s.len(),
{
    if s.len() == 0 {
        Seq::empty()
    } else {
        encode_all(s.drop_last()) + summary_bytes(s.last())
    }
}

/// Relies on `multiversx_sc::codec::dep_encode_to_vec` applied to the tuple of
/// the six fields: a tuple encodes its items in order; a byte array is written
/// raw; a `Vec<u8>` is written as its length (`as u32`, big-endian) followed by
/// its bytes; a `u64` as its eight big-endian bytes. None of these encodings
/// fails on a `Vec<u8>` output.
#[verifier::external_body]
fn encode_fields(
    from: &[u8; 32],
    to: &[u8; 32],
    subject: &Vec<u8>,
    preview: &Vec<u8>,
    timestamp: u64,
    ipfs_hash: &Vec<u8>,
) -> (r: Vec<u8>)
    ensures
        r@ == summary_bytes(
            (SummaryView {
                from: from@,
                to: to@,
                subject: subject@,
                preview: preview@,
                timestamp,
                ipfs_hash: ipfs_hash@,
            }),
        ),
{
    let fields = (from, to, subject, preview, timestamp, ipfs_hash);
    multiversx_sc::codec::dep_encode_to_vec(&fields).unwrap_or_default()
}

/// The encoding of one summary.
pub fn encode_summary(s: &EmailSummary) -> (r: Vec<u8>)
    ensures
        r@ == summary_bytes(s@),
{
    let from = s.from.to_bytes();
    let to = s.to.to_bytes();
    encode_fields(&from, &to, &s.subject, &s.preview, s.timestamp, &s.ipfs_hash)
}

/// The encodings of `records`, one after another in order; each encoding
/// frames its variable-length fields, so the boundaries between records stay
/// readable.
pub fn serialize(records: &Vec<EmailSummary>) -> (r: Vec<u8>)
    ensures
        r@ == encode_all(views(records@)),
{
    let mut out: Vec<u8> = Vec::new();
    let mut i: usize = 0;
    while i < records.len()
        invariant
            i <= records@.len(),
            out@ == encode_all(views(records@).subrange(0, i as int)),
        decreases records@.len() - i,
    {
        let mut bytes = encode_summary(&records[i]);
        let ghost done = views(records@).subrange(0, i as int);
        out.append(&mut bytes);
        i = i + 1;
        proof {
            let next = views(records@).subrange(0, i as int);
            assert(next.drop_last() =~= done);
            assert(next.last() == records@[i - 1]@);
        }
    }
    assert(views(records@).subrange(0, records@.len() as int) =~= views(records@));
    out
}

} // verus!
