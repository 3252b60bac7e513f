use bipper::blob_store::blob_path;
use bipper::decoder::{DecoderState, FrameDecoder, Request};
use bipper::encryption::Encryptor;
use bipper::error::BlobError;
use bipper::handlers::delete::{DeleteAction, DeleteEvent, DeletePhase, DeleteSession};
use bipper::handlers::retrieve::{RetrieveAction, RetrieveEvent, RetrievePhase, RetrieveSession};
use bipper::handlers::store::{StoreAction, StoreEvent, StorePhase, StoreSession};
use bipper::handlers::AccessInfo;
use bipper::key_material::{entropy_to_hash, mnemonic_to_hash};
use bipper::mnemonic::entropy_to_mnemonic;
use bipper::models::BlobMetadata;
use std::collections::HashMap;

/// A repository and a blob store held in memory, with switches to make
/// single requests fail.
#[derive(Default)]
struct Service {
    records: HashMap<String, BlobMetadata>,
    blobs: HashMap<String, Vec<u8>>,
    fail_append_at: Option<usize>,
    fail_insert: bool,
    appended: usize,
    log: Vec<String>,
}

/// What became of the caller's input.
enum Input<'a> {
    Whole(&'a [&'a [u8]]),
    BrokenAfter(&'a [&'a [u8]]),
}

fn drive_store(
    service: &mut Service,
    begun: Result<(StoreSession, StoreAction), BlobError>,
    input: Input,
) -> Result<String, BlobError> {
    let (mut session, mut action) = begun?;
    let (chunks, broken) = match input {
        Input::Whole(chunks) => (chunks, false),
        Input::BrokenAfter(chunks) => (chunks, true),
    };
    let mut next_chunk: usize = 0;
    let mut address = String::new();
    loop {
        let event = match action {
            StoreAction::CreateBlob(a) => {
                service.log.push(format!("create {}", a));
                address = a.clone();
                if service.blobs.contains_key(&a) {
                    StoreEvent::BlobExists
                } else {
                    service.blobs.insert(a, Vec::new());
                    StoreEvent::BlobCreated
                }
            }
            StoreAction::NextChunk => {
                if next_chunk < chunks.len() {
                    next_chunk += 1;
                    StoreEvent::Chunk(chunks[next_chunk - 1].to_vec())
                } else if broken {
                    StoreEvent::InputFailed
                } else {
                    StoreEvent::InputEnded
                }
            }
            StoreAction::AppendFrame(frame) => {
                service.log.push(format!("append {}", frame.len()));
                service.appended += 1;
                if service.fail_append_at == Some(service.appended) {
                    StoreEvent::Fault
                } else {
                    service.blobs.get_mut(&address).expect("blob").extend(frame);
                    StoreEvent::FrameAppended
                }
            }
            StoreAction::InsertRecord(record) => {
                service.log.push(format!("insert {}", record.entropy_hash));
                if service.fail_insert {
                    StoreEvent::Fault
                } else if service.records.contains_key(&record.entropy_hash) {
                    StoreEvent::RecordExists
                } else {
                    service.records.insert(record.entropy_hash.clone(), record);
                    StoreEvent::RecordInserted
                }
            }
            StoreAction::RemoveBlob(a) => {
                service.log.push(format!("remove {}", a));
                service.blobs.remove(&a);
                StoreEvent::BlobRemoved
            }
            StoreAction::Respond(mnemonic) => {
                assert_eq!(session.phase(), StorePhase::Finished);
                return Ok(mnemonic);
            }
            StoreAction::Fail(e) => {
                assert_eq!(session.phase(), StorePhase::Finished);
                return Err(e);
            }
        };
        action = session.step(event);
    }
}

fn store(service: &mut Service, filename: &str, chunks: &[&[u8]]) -> Result<String, BlobError> {
    drive_store(service, StoreSession::begin(filename), Input::Whole(chunks))
}

/// Reads a blob through a decoder as a service reads a file: as many bytes
/// as are asked for, fewer at the end.
fn stream(mut decoder: FrameDecoder, blob: &[u8]) -> Vec<Result<Vec<u8>, BlobError>> {
    let mut items = Vec::new();
    let mut position: usize = 0;
    loop {
        match decoder.request() {
            Request::Stop => return items,
            Request::Read(wanted) => {
                let left = blob.len() - position;
                let count = if wanted < left as u64 { wanted as usize } else { left };
                let input = &blob[position..position + count];
                position += count;
                if let Some(item) = decoder.feed(input) {
                    items.push(item);
                }
            }
        }
    }
}

fn retrieve(service: &mut Service, mnemonic: &str) -> Result<(String, Vec<u8>), BlobError> {
    let access = AccessInfo::new(mnemonic.to_string());
    let (mut session, mut action) = RetrieveSession::begin(&access)?;
    loop {
        let event = match action {
            RetrieveAction::FindRecord(a) => {
                service.log.push(format!("find {}", a));
                match service.records.get(&a) {
                    Some(record) => RetrieveEvent::RecordFound(record.clone()),
                    None => RetrieveEvent::RecordMissing,
                }
            }
            RetrieveAction::OpenBlob(a) => {
                service.log.push(format!("open {}", a));
                if service.blobs.contains_key(&a) {
                    RetrieveEvent::BlobOpened
                } else {
                    RetrieveEvent::BlobMissing
                }
            }
            RetrieveAction::Stream { filename, decoder } => {
                assert_eq!(session.phase(), RetrievePhase::Finished);
                let address = mnemonic_to_hash(mnemonic)?;
                let mut content = Vec::new();
                for item in stream(decoder, &service.blobs[&address]) {
                    content.extend(item?);
                }
                return Ok((filename, content));
            }
            RetrieveAction::Fail(e) => return Err(e),
        };
        action = session.step(event);
    }
}

fn delete(service: &mut Service, mnemonic: &str) -> Result<(), BlobError> {
    let access = AccessInfo::new(mnemonic.to_string());
    let (mut session, mut action) = DeleteSession::begin(&access)?;
    loop {
        let event = match action {
            DeleteAction::DeleteRecord(a) => {
                service.log.push(format!("delete {}", a));
                match service.records.remove(&a) {
                    Some(_) => DeleteEvent::RecordDeleted,
                    None => DeleteEvent::RecordMissing,
                }
            }
            DeleteAction::RemoveBlob(a) => {
                service.log.push(format!("remove {}", a));
                match service.blobs.remove(&a) {
                    Some(_) => DeleteEvent::BlobRemoved,
                    None => DeleteEvent::BlobMissing,
                }
            }
            DeleteAction::Succeed => {
                assert_eq!(session.phase(), DeletePhase::Finished);
                return Ok(());
            }
            DeleteAction::Fail(e) => return Err(e),
        };
        action = session.step(event);
    }
}

fn counting_secret() -> [u8; 32] {
    let mut secret = [0u8; 32];
    for (i, byte) in secret.iter_mut().enumerate() {
        *byte = i as u8;
    }
    secret
}

#[test]
fn scenario_store_retrieve_delete() {
    let mut service = Service::default();
    let mnemonic = store(&mut service, "hello.txt", &[b"abc"]).expect("store");
    let address = mnemonic_to_hash(&mnemonic).expect("address");
    assert_eq!(service.blobs[&address].len(), 39);
    assert_eq!(service.records[&address].entropy_hash, address);
    assert_eq!(
        retrieve(&mut service, &mnemonic),
        Ok(("hello.txt".to_string(), b"abc".to_vec()))
    );
    let other = entropy_to_mnemonic(&counting_secret());
    assert_eq!(retrieve(&mut service, &other), Err(BlobError::NotFound));
    assert_eq!(delete(&mut service, &mnemonic), Ok(()));
    assert!(service.blobs.is_empty());
    assert!(service.records.is_empty());
    assert_eq!(retrieve(&mut service, &mnemonic), Err(BlobError::NotFound));
    assert_eq!(delete(&mut service, &mnemonic), Err(BlobError::NotFound));
}

#[test]
fn store_asks_in_order() {
    let mut service = Service::default();
    let mnemonic = store(&mut service, "f", &[b"abc", b"", b"defgh"]).expect("store");
    let address = mnemonic_to_hash(&mnemonic).expect("address");
    assert_eq!(
        service.log,
        vec![
            format!("create {}", address),
            "append 39".to_string(),
            "append 36".to_string(),
            "append 41".to_string(),
            format!("insert {}", address),
        ]
    );
    assert_eq!(service.blobs[&address].len(), 39 + 36 + 41);
}

#[test]
fn store_of_an_empty_file() {
    let mut service = Service::default();
    let mnemonic = store(&mut service, "empty", &[]).expect("store");
    let address = mnemonic_to_hash(&mnemonic).expect("address");
    assert!(service.blobs[&address].is_empty());
    assert_eq!(
        retrieve(&mut service, &mnemonic),
        Ok(("empty".to_string(), Vec::new()))
    );
}

#[test]
fn store_never_overwrites_a_blob() {
    let mut service = Service::default();
    let secret = counting_secret();
    let first = Encryptor::with_secret("first", secret, [1u8; 12]).expect("begin");
    let mnemonic =
        drive_store(&mut service, StoreSession::adopt(first), Input::Whole(&[b"one"]))
            .expect("store");
    let address = entropy_to_hash(&secret);
    let blob = service.blobs[&address].clone();
    let record = service.records[&address].clone();

    let second = Encryptor::with_secret("second", secret, [2u8; 12]).expect("begin");
    assert_eq!(
        drive_store(&mut service, StoreSession::adopt(second), Input::Whole(&[b"two"])),
        Err(BlobError::DuplicateBlob)
    );
    assert_eq!(service.blobs[&address], blob);
    assert_eq!(service.records[&address], record);
    assert_eq!(
        retrieve(&mut service, &mnemonic),
        Ok(("first".to_string(), b"one".to_vec()))
    );
}

#[test]
fn store_with_a_record_in_the_way_removes_its_blob() {
    let mut service = Service::default();
    let secret = counting_secret();
    let address = entropy_to_hash(&secret);
    let stale = BlobMetadata {
        entropy_hash: address.clone(),
        filename_cipher: vec![0u8; 16],
        filename_nonce: [0u8; 12],
    };
    service.records.insert(address.clone(), stale.clone());
    let writer = Encryptor::with_secret("f", secret, [1u8; 12]).expect("begin");
    assert_eq!(
        drive_store(&mut service, StoreSession::adopt(writer), Input::Whole(&[b"abc"])),
        Err(BlobError::DuplicateBlob)
    );
    assert!(!service.blobs.contains_key(&address));
    assert_eq!(service.records[&address], stale);
    assert_eq!(service.log.last(), Some(&format!("remove {}", address)));
}

#[test]
fn store_that_breaks_off_leaves_nothing_behind() {
    let mut service = Service::default();
    assert_eq!(
        drive_store(
            &mut service,
            StoreSession::begin("f"),
            Input::BrokenAfter(&[b"abc", b"def"])
        ),
        Err(BlobError::IoFailure)
    );
    assert!(service.blobs.is_empty());
    assert!(service.records.is_empty());
    assert!(service.log.iter().all(|line| !line.starts_with("insert")));
    assert!(service.log.last().expect("log").starts_with("remove"));
}

#[test]
fn store_whose_append_fails_leaves_nothing_behind() {
    let mut service = Service::default();
    service.fail_append_at = Some(2);
    assert_eq!(
        store(&mut service, "f", &[b"abc", b"def", b"ghi"]),
        Err(BlobError::IoFailure)
    );
    assert!(service.blobs.is_empty());
    assert!(service.records.is_empty());
    assert!(service.log.iter().all(|line| !line.starts_with("insert")));
}

#[test]
fn store_whose_insert_fails_removes_its_blob() {
    let mut service = Service::default();
    service.fail_insert = true;
    assert_eq!(store(&mut service, "f", &[b"abc"]), Err(BlobError::IoFailure));
    assert!(service.blobs.is_empty());
    assert!(service.records.is_empty());
}

#[test]
fn store_whose_creation_fails_removes_nothing() {
    let (mut session, action) = StoreSession::begin("f").expect("begin");
    assert!(matches!(action, StoreAction::CreateBlob(_)));
    assert_eq!(session.phase(), StorePhase::Creating);
    assert_eq!(
        session.step(StoreEvent::Fault),
        StoreAction::Fail(BlobError::IoFailure)
    );
    assert_eq!(session.phase(), StorePhase::Finished);
    assert_eq!(
        session.step(StoreEvent::BlobCreated),
        StoreAction::Fail(BlobError::IllegalState)
    );
}

#[test]
fn store_told_something_out_of_turn_cleans_up() {
    let (mut session, action) = StoreSession::begin("f").expect("begin");
    let address = match action {
        StoreAction::CreateBlob(a) => a,
        other => panic!("unexpected {:?}", other),
    };
    assert_eq!(session.step(StoreEvent::BlobCreated), StoreAction::NextChunk);
    assert_eq!(session.phase(), StorePhase::Reading);
    assert_eq!(
        session.step(StoreEvent::RecordInserted),
        StoreAction::RemoveBlob(address)
    );
    assert_eq!(session.phase(), StorePhase::Cleaning);
    assert_eq!(
        session.step(StoreEvent::Fault),
        StoreAction::Fail(BlobError::IllegalState)
    );
}

#[test]
fn store_seals_a_chunk_under_a_given_nonce() {
    let secret = counting_secret();
    let mut nonce = [0u8; 12];
    for (i, byte) in nonce.iter_mut().enumerate() {
        *byte = 100 + i as u8;
    }
    let writer = Encryptor::with_secret("f", secret, nonce).expect("begin");
    let (mut session, action) = StoreSession::adopt(writer).expect("adopt");
    assert_eq!(action, StoreAction::CreateBlob(entropy_to_hash(&secret)));
    assert_eq!(session.step(StoreEvent::BlobCreated), StoreAction::NextChunk);
    let mut expected = vec![0u8, 0, 0, 0, 0, 0, 0, 19];
    expected.extend_from_slice(&nonce);
    expected.extend_from_slice(&[
        0x29, 0x79, 0xbd, 0xc5, 0x35, 0x93, 0x08, 0x06, 0xce, 0x39, 0x3a, 0x0e, 0x68, 0x37, 0xf4,
        0xef, 0xf3, 0x9d, 0x1b,
    ]);
    assert_eq!(
        session.take_chunk(b"abc".to_vec(), nonce),
        StoreAction::AppendFrame(expected)
    );
    assert_eq!(session.phase(), StorePhase::Appending);
    // A second chunk before the frame is reported appended is out of turn.
    assert_eq!(
        session.take_chunk(b"def".to_vec(), nonce),
        StoreAction::RemoveBlob(entropy_to_hash(&secret))
    );
    assert_eq!(
        session.step(StoreEvent::BlobRemoved),
        StoreAction::Fail(BlobError::IllegalState)
    );
}

#[test]
fn store_answers_with_the_mnemonic_of_its_secret() {
    let secret = counting_secret();
    let writer = Encryptor::with_secret("f", secret, [3u8; 12]).expect("begin");
    let mut service = Service::default();
    assert_eq!(
        drive_store(&mut service, StoreSession::adopt(writer), Input::Whole(&[b"abc"])),
        Ok(entropy_to_mnemonic(&secret))
    );
}

#[test]
fn store_refuses_a_finalized_writer() {
    let mut writer = Encryptor::new("f").expect("begin");
    writer.finalize().expect("finalize");
    assert!(matches!(
        StoreSession::adopt(writer),
        Err(BlobError::IllegalState)
    ));
}

#[test]
fn two_stores_are_separately_deletable() {
    let mut service = Service::default();
    let first = store(&mut service, "hello.txt", &[b"abc"]).expect("store");
    let second = store(&mut service, "hello.txt", &[b"abc"]).expect("store");
    assert_ne!(first, second);
    assert_ne!(mnemonic_to_hash(&first), mnemonic_to_hash(&second));
    assert_eq!(service.blobs.len(), 2);
    assert_eq!(delete(&mut service, &first), Ok(()));
    assert_eq!(retrieve(&mut service, &first), Err(BlobError::NotFound));
    assert_eq!(
        retrieve(&mut service, &second),
        Ok(("hello.txt".to_string(), b"abc".to_vec()))
    );
    assert_eq!(delete(&mut service, &second), Ok(()));
    assert_eq!(service.blobs.len(), 0);
}

#[test]
fn retrieve_with_a_bad_mnemonic() {
    let mut service = Service::default();
    assert_eq!(
        retrieve(&mut service, "not a mnemonic"),
        Err(BlobError::InvalidMnemonic)
    );
    assert_eq!(
        delete(&mut service, "not a mnemonic"),
        Err(BlobError::InvalidMnemonic)
    );
    assert!(service.log.is_empty());
}

#[test]
fn retrieve_checks_the_filename_before_the_blob() {
    let mut service = Service::default();
    let mnemonic = store(&mut service, "hello.txt", &[b"abc"]).expect("store");
    let address = mnemonic_to_hash(&mnemonic).expect("address");
    service
        .records
        .get_mut(&address)
        .expect("record")
        .filename_cipher[0] ^= 1;
    service.log.clear();
    assert_eq!(
        retrieve(&mut service, &mnemonic),
        Err(BlobError::AuthenticationFailure)
    );
    assert_eq!(service.log, vec![format!("find {}", address)]);
}

#[test]
fn retrieve_without_a_blob_is_not_found() {
    let mut service = Service::default();
    let mnemonic = store(&mut service, "hello.txt", &[b"abc"]).expect("store");
    service.blobs.clear();
    assert_eq!(retrieve(&mut service, &mnemonic), Err(BlobError::NotFound));
}

#[test]
fn retrieve_reports_faults() {
    let access = AccessInfo::new(entropy_to_mnemonic(&counting_secret()));
    let (mut session, action) = RetrieveSession::begin(&access).expect("begin");
    assert!(matches!(action, RetrieveAction::FindRecord(a) if a == entropy_to_hash(&counting_secret())));
    assert_eq!(session.phase(), RetrievePhase::Record);
    assert!(matches!(
        session.step(RetrieveEvent::Fault),
        RetrieveAction::Fail(BlobError::IoFailure)
    ));
    assert_eq!(session.phase(), RetrievePhase::Finished);
    assert!(matches!(
        session.step(RetrieveEvent::BlobOpened),
        RetrieveAction::Fail(BlobError::IllegalState)
    ));
}

#[test]
fn retrieve_of_a_tampered_blob_fails_in_the_stream() {
    let mut service = Service::default();
    let mnemonic = store(&mut service, "f", &[b"first", b"second"]).expect("store");
    let address = mnemonic_to_hash(&mnemonic).expect("address");
    service.blobs.get_mut(&address).expect("blob")[36 + 5 + 30] ^= 4;
    assert_eq!(
        retrieve(&mut service, &mnemonic),
        Err(BlobError::AuthenticationFailure)
    );
}

#[test]
fn delete_takes_the_record_first() {
    let mut service = Service::default();
    let mnemonic = store(&mut service, "f", &[b"abc"]).expect("store");
    let address = mnemonic_to_hash(&mnemonic).expect("address");
    service.log.clear();
    assert_eq!(delete(&mut service, &mnemonic), Ok(()));
    assert_eq!(
        service.log,
        vec![format!("delete {}", address), format!("remove {}", address)]
    );
}

#[test]
fn delete_tolerates_a_blob_that_is_gone() {
    let mut service = Service::default();
    let mnemonic = store(&mut service, "f", &[b"abc"]).expect("store");
    service.blobs.clear();
    assert_eq!(delete(&mut service, &mnemonic), Ok(()));
    assert!(service.records.is_empty());
}

#[test]
fn delete_steps_one_by_one() {
    let access = AccessInfo::new(entropy_to_mnemonic(&counting_secret()));
    let address = entropy_to_hash(&counting_secret());
    let (mut session, action) = DeleteSession::begin(&access).expect("begin");
    assert_eq!(action, DeleteAction::DeleteRecord(address.clone()));
    assert_eq!(session.phase(), DeletePhase::Record);
    assert_eq!(
        session.step(DeleteEvent::RecordDeleted),
        DeleteAction::RemoveBlob(address.clone())
    );
    assert_eq!(session.phase(), DeletePhase::Blob);
    assert_eq!(
        session.step(DeleteEvent::Fault),
        DeleteAction::Fail(BlobError::IoFailure)
    );
    assert_eq!(session.phase(), DeletePhase::Finished);
    assert_eq!(
        session.step(DeleteEvent::BlobRemoved),
        DeleteAction::Fail(BlobError::IllegalState)
    );

    let (mut session, _) = DeleteSession::begin(&access).expect("begin");
    assert_eq!(
        session.step(DeleteEvent::BlobRemoved),
        DeleteAction::Fail(BlobError::IllegalState)
    );
    let (mut session, _) = DeleteSession::begin(&access).expect("begin");
    assert_eq!(
        session.step(DeleteEvent::Fault),
        DeleteAction::Fail(BlobError::IoFailure)
    );
}

#[test]
fn decoder_asks_for_header_then_body() {
    let secret = counting_secret();
    let mut writer = Encryptor::with_secret("f", secret, [0u8; 12]).expect("begin");
    let frame = writer.update(b"abc").expect("update");
    let mut decoder = FrameDecoder::with_entropy(secret);
    assert!(matches!(decoder.state(), DecoderState::Header));
    assert_eq!(decoder.request(), Request::Read(20));
    assert_eq!(decoder.feed(&frame[..20]), None);
    assert!(matches!(
        decoder.state(),
        DecoderState::Body { length: 19, .. }
    ));
    assert_eq!(decoder.request(), Request::Read(19));
    assert_eq!(decoder.feed(&frame[20..]), Some(Ok(b"abc".to_vec())));
    assert_eq!(decoder.request(), Request::Read(20));
    assert_eq!(decoder.feed(&[]), None);
    assert!(matches!(decoder.state(), DecoderState::Exhausted));
    assert_eq!(decoder.request(), Request::Stop);
    assert_eq!(decoder.feed(&frame[..20]), None);
}

#[test]
fn decoder_reports_short_reads() {
    let secret = counting_secret();
    let mut writer = Encryptor::with_secret("f", secret, [0u8; 12]).expect("begin");
    let frame = writer.update(b"abc").expect("update");

    let mut decoder = FrameDecoder::with_entropy(secret);
    assert_eq!(
        decoder.feed(&frame[..7]),
        Some(Err(BlobError::TruncatedFrame))
    );
    assert!(matches!(
        decoder.state(),
        DecoderState::Failed(BlobError::TruncatedFrame)
    ));
    assert_eq!(decoder.request(), Request::Stop);
    assert_eq!(decoder.feed(&frame[..20]), None);

    let mut decoder = FrameDecoder::with_entropy(secret);
    assert_eq!(decoder.feed(&frame[..20]), None);
    assert_eq!(
        decoder.feed(&frame[20..38]),
        Some(Err(BlobError::TruncatedFrame))
    );
    assert_eq!(decoder.request(), Request::Stop);

    let mut decoder = FrameDecoder::with_entropy(secret);
    assert_eq!(decoder.feed(&frame[..20]), None);
    assert_eq!(decoder.feed(&[]), Some(Err(BlobError::TruncatedFrame)));
}

#[test]
fn decoder_streams_what_the_writer_wrote() {
    let secret = counting_secret();
    let mut writer = Encryptor::with_secret("f", secret, [0u8; 12]).expect("begin");
    let mut blob = Vec::new();
    let chunks: [&[u8]; 4] = [b"one", b"", b"three", &[7u8; 4096]];
    for chunk in chunks {
        blob.extend(writer.update(chunk).expect("update"));
    }
    let items = stream(FrameDecoder::with_entropy(secret), &blob);
    let expected: Vec<Result<Vec<u8>, BlobError>> =
        chunks.iter().map(|chunk| Ok(chunk.to_vec())).collect();
    assert_eq!(items, expected);

    let cut = stream(FrameDecoder::with_entropy(secret), &blob[..blob.len() - 1]);
    assert_eq!(cut.len(), 4);
    assert_eq!(cut[3], Err(BlobError::TruncatedFrame));

    let wrong = stream(FrameDecoder::with_entropy([9u8; 32]), &blob);
    assert_eq!(wrong, vec![Err(BlobError::AuthenticationFailure)]);
}

#[test]
fn decoder_from_a_mnemonic() {
    let secret = counting_secret();
    let mut writer = Encryptor::with_secret("f", secret, [0u8; 12]).expect("begin");
    let blob = writer.update(b"abc").expect("update");
    let decoder = FrameDecoder::new(&entropy_to_mnemonic(&secret)).expect("decoder");
    assert_eq!(stream(decoder, &blob), vec![Ok(b"abc".to_vec())]);
    assert!(matches!(
        FrameDecoder::new("abandon"),
        Err(BlobError::InvalidMnemonic)
    ));
}

#[test]
fn blob_path_is_directory_slash_address() {
    let address = entropy_to_hash(&[0u8; 32]);
    assert_eq!(
        blob_path("store", &address),
        "store/66687aadf862bd776c8fc18b8e9f8e20089714856ee233b3902a591d0d5f2925"
    );
    assert_eq!(blob_path("/var/lib/blobs", "ab"), "/var/lib/blobs/ab");
    assert_eq!(blob_path("", ""), "/");
}
