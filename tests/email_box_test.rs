use email_box::{
    encode_summary, serialize, Address, EmailBox, EmailError, EmailSummary, ListKind, MailStore,
};

/// An address named like a test account: the name, padded with `_` to 32 bytes.
fn named(name: &[u8]) -> Address {
    let mut bytes = [b'_'; 32];
    bytes[..name.len()].copy_from_slice(name);
    Address::new(bytes)
}

fn owner() -> Address {
    named(b"owner")
}

fn user2() -> Address {
    named(b"user2")
}

fn deployed() -> EmailBox {
    EmailBox::init(owner())
}

fn send(b: &mut EmailBox, from: Address, to: Address, content: &[u8]) -> Result<EmailSummary, EmailError> {
    b.send_email(from, to, b"subject".to_vec(), content.to_vec(), b"hash".to_vec(), 1_000)
}

#[test]
fn email_box_deploy_test() {
    let b = deployed();
    assert_eq!(b.get_max_preview_size(), 100u32);
    assert_eq!(b.get_max_content_size(), 5242880u32);
}

#[test]
fn email_box_send_email_test() {
    let mut b = deployed();
    let r = b.send_email(
        owner(),
        user2(),
        b"Hello, World!".to_vec(),
        b"Hello, World!".to_vec(),
        b"Hello, World!".to_vec(),
        0,
    );
    assert!(r.is_ok());
}

#[test]
fn hello_world_end_to_end() {
    let mut b = deployed();
    let rec = b
        .send_email(
            owner(),
            user2(),
            b"Hello, World!".to_vec(),
            b"Hello, World!".to_vec(),
            b"Hello, World!".to_vec(),
            42,
        )
        .unwrap();
    assert_eq!(rec.preview, b"Hello, World!".to_vec());
    assert_eq!(rec.subject, b"Hello, World!".to_vec());
    assert_eq!(rec.ipfs_hash, b"Hello, World!".to_vec());
    assert_eq!(rec.timestamp, 42);
    assert_eq!(rec.from, owner());
    assert_eq!(rec.to, user2());
    assert_eq!(b.list_len(&user2(), ListKind::Inbox), 1);
    assert_eq!(b.list_len(&owner(), ListKind::Sent), 1);
    assert_eq!(b.list_len(&owner(), ListKind::Inbox), 0);
    assert_eq!(b.list_len(&user2(), ListKind::Sent), 0);
}

#[test]
fn both_copies_equal_the_published_record() {
    let mut b = deployed();
    let rec = send(&mut b, owner(), user2(), b"first").unwrap();
    let inbox = b.records(&user2(), ListKind::Inbox);
    let sent = b.records(&owner(), ListKind::Sent);
    assert_eq!(inbox, vec![rec.clone()]);
    assert_eq!(sent, vec![rec]);
    send(&mut b, owner(), user2(), b"second").unwrap();
    assert_eq!(b.list_len(&user2(), ListKind::Inbox), 2);
    assert_eq!(b.list_len(&owner(), ListKind::Sent), 2);
    assert_eq!(b.records(&user2(), ListKind::Inbox)[1].preview, b"second".to_vec());
}

#[test]
fn send_to_self_fills_both_own_lists() {
    let mut b = deployed();
    send(&mut b, owner(), owner(), b"note").unwrap();
    assert_eq!(b.list_len(&owner(), ListKind::Inbox), 1);
    assert_eq!(b.list_len(&owner(), ListKind::Sent), 1);
}

#[test]
fn content_at_limit_is_accepted_and_one_more_byte_is_not() {
    let mut b = deployed();
    b.set_max_content_size(&owner(), 10).unwrap();
    assert!(send(&mut b, owner(), user2(), &[7u8; 10]).is_ok());
    assert_eq!(
        send(&mut b, owner(), user2(), &[7u8; 11]),
        Err(EmailError::ContentTooLarge)
    );
    assert_eq!(b.list_len(&user2(), ListKind::Inbox), 1);
    assert_eq!(b.list_len(&owner(), ListKind::Sent), 1);
}

#[test]
fn default_content_limit_boundary() {
    let mut b = deployed();
    let at_limit = vec![0u8; 5 * 1024 * 1024];
    let over = vec![0u8; 5 * 1024 * 1024 + 1];
    assert!(send(&mut b, owner(), user2(), &at_limit).is_ok());
    assert_eq!(send(&mut b, owner(), user2(), &over), Err(EmailError::ContentTooLarge));
    assert_eq!(b.list_len(&user2(), ListKind::Inbox), 1);
}

#[test]
fn preview_is_truncated_to_the_limit() {
    let mut b = deployed();
    let content: Vec<u8> = (0u8..150).collect();
    let rec = send(&mut b, owner(), user2(), &content).unwrap();
    assert_eq!(rec.preview, content[..100].to_vec());
    b.set_max_preview_size(&owner(), 50).unwrap();
    let rec = send(&mut b, owner(), user2(), &content).unwrap();
    assert_eq!(rec.preview, content[..50].to_vec());
    let rec = send(&mut b, owner(), user2(), &content[..50]).unwrap();
    assert_eq!(rec.preview, content[..50].to_vec());
    let rec = send(&mut b, owner(), user2(), b"").unwrap();
    assert!(rec.preview.is_empty());
}

#[test]
fn preview_limit_change_leaves_stored_records() {
    let mut b = deployed();
    let content = [9u8; 80];
    send(&mut b, owner(), user2(), &content).unwrap();
    b.set_max_preview_size(&owner(), 50).unwrap();
    assert_eq!(b.records(&user2(), ListKind::Inbox)[0].preview.len(), 80);
}

#[test]
fn preview_limit_range() {
    let mut b = deployed();
    assert_eq!(b.set_max_preview_size(&owner(), 49), Err(EmailError::PreviewSizeOutOfRange));
    assert_eq!(b.get_max_preview_size(), 100);
    assert_eq!(b.set_max_preview_size(&owner(), 50), Ok(()));
    assert_eq!(b.get_max_preview_size(), 50);
    assert_eq!(b.set_max_preview_size(&owner(), 512000), Ok(()));
    assert_eq!(b.get_max_preview_size(), 512000);
    assert_eq!(
        b.set_max_preview_size(&owner(), 512001),
        Err(EmailError::PreviewSizeOutOfRange)
    );
    assert_eq!(b.get_max_preview_size(), 512000);
}

#[test]
fn content_limit_range() {
    let mut b = deployed();
    assert_eq!(b.set_max_content_size(&owner(), 0), Err(EmailError::ContentSizeOutOfRange));
    assert_eq!(b.set_max_content_size(&owner(), 1), Ok(()));
    assert_eq!(b.get_max_content_size(), 1);
    assert_eq!(b.set_max_content_size(&owner(), 5242880), Ok(()));
    assert_eq!(b.get_max_content_size(), 5242880);
    assert_eq!(
        b.set_max_content_size(&owner(), 5242881),
        Err(EmailError::ContentSizeOutOfRange)
    );
    assert_eq!(b.get_max_content_size(), 5242880);
}

#[test]
fn valid_ranges() {
    let b = deployed();
    assert_eq!(b.valid_preview_range(), (50, 512000));
    assert_eq!(b.valid_content_range(), (1, 5242880));
}

#[test]
fn only_the_administrator_may_set_limits() {
    let mut b = deployed();
    for size in [0u32, 1, 49, 50, 100, 512000, 5242880, u32::MAX] {
        assert_eq!(b.set_max_preview_size(&user2(), size), Err(EmailError::Unauthorized));
        assert_eq!(b.set_max_content_size(&user2(), size), Err(EmailError::Unauthorized));
    }
    assert_eq!(b.get_max_preview_size(), 100);
    assert_eq!(b.get_max_content_size(), 5242880);
    assert_eq!(b.owner(), owner());
}

fn inbox_of_three() -> EmailBox {
    let mut b = deployed();
    for c in [b"one".as_slice(), b"two", b"three"] {
        send(&mut b, owner(), user2(), c).unwrap();
    }
    b
}

fn previews(rs: &[EmailSummary]) -> Vec<Vec<u8>> {
    rs.iter().map(|r| r.preview.clone()).collect()
}

#[test]
fn pagination_clamps_to_the_inbox() {
    let b = inbox_of_three();
    let all = b.inbox_page(&user2(), 10, 0);
    assert_eq!(previews(&all), vec![b"one".to_vec(), b"two".to_vec(), b"three".to_vec()]);
    assert!(b.inbox_page(&user2(), 2, 5).is_empty());
    assert!(b.inbox_page(&user2(), 0, 0).is_empty());
    let mid = b.inbox_page(&user2(), 1, 1);
    assert_eq!(previews(&mid), vec![b"two".to_vec()]);
    let tail = b.inbox_page(&user2(), u32::MAX, 2);
    assert_eq!(previews(&tail), vec![b"three".to_vec()]);
    assert!(b.inbox_page(&owner(), 10, 0).is_empty());
}

#[test]
fn summary_encoding_layout() {
    let rec = EmailSummary {
        from: named(b"a"),
        to: named(b"b"),
        subject: b"hi".to_vec(),
        preview: vec![0xAB],
        timestamp: 0x0102030405060708,
        ipfs_hash: vec![],
    };
    let mut expected = Vec::new();
    expected.extend_from_slice(&named(b"a").to_bytes());
    expected.extend_from_slice(&named(b"b").to_bytes());
    expected.extend_from_slice(&[0, 0, 0, 2, b'h', b'i']);
    expected.extend_from_slice(&[0, 0, 0, 1, 0xAB]);
    expected.extend_from_slice(&[1, 2, 3, 4, 5, 6, 7, 8]);
    expected.extend_from_slice(&[0, 0, 0, 0]);
    assert_eq!(encode_summary(&rec), expected);
    assert_eq!(expected.len(), 32 + 32 + 6 + 5 + 8 + 4);
}

#[test]
fn inbox_encoding_concatenates_the_page() {
    let b = inbox_of_three();
    let page = b.inbox_page(&user2(), 2, 1);
    let mut expected = encode_summary(&page[0]);
    expected.extend(encode_summary(&page[1]));
    assert_eq!(b.get_inbox(&user2(), 2, 1), expected);
    assert_eq!(serialize(&page), expected);
    assert!(b.get_inbox(&user2(), 2, 5).is_empty());
    assert!(serialize(&Vec::new()).is_empty());
}

#[test]
fn store_appends_to_both_lists() {
    let mut s = MailStore::new();
    let rec = EmailSummary {
        from: owner(),
        to: user2(),
        subject: vec![],
        preview: vec![1],
        timestamp: 5,
        ipfs_hash: vec![],
    };
    s.append(rec.clone());
    assert_eq!(s.len(&user2(), ListKind::Inbox), 1);
    assert_eq!(s.len(&owner(), ListKind::Sent), 1);
    assert_eq!(s.len(&owner(), ListKind::Inbox), 0);
    assert_eq!(s.records(&user2(), ListKind::Inbox), vec![rec.clone()]);
    assert_eq!(s.range(&owner(), ListKind::Sent, 0, 1), vec![rec]);
}

#[test]
fn address_comparison() {
    assert!(owner().same(&owner()));
    assert!(!owner().same(&user2()));
}
