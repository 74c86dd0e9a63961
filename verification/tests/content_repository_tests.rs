use bytes::Bytes;
use rusk::config::ContentRepositoryConfig;
use rusk::content_repository::content_repository_manager::{file_path, ContentRepository};
use rusk::content_repository::models::Command;
use rusk::content_repository::server::{
    client_response, encode_offset, handle_client_request, READ_CHUNK_SIZE,
};

fn config(base_path: &str, file_name_prefix: &str) -> ContentRepositoryConfig {
    ContentRepositoryConfig {
        base_path: base_path.to_string(),
        file_name_prefix: file_name_prefix.to_string(),
        server_port: 8080,
    }
}

fn offset_in(bytes: &[u8]) -> u64 {
    let mut buffer = [0u8; 8];
    buffer.copy_from_slice(bytes);
    u64::from_be_bytes(buffer)
}

#[test]
fn test_init() {
    assert_eq!(file_path(&config("/tmp", "test_wal_init")), "/tmp/test_wal_init.txt");
    assert_eq!(file_path(&config("data/repo", "wal")), "data/repo/wal.txt");
    assert_eq!(file_path(&config("", "")), "/.txt");
}

#[test]
fn test_append_data() {
    let mut repository = ContentRepository::new(0);
    assert_eq!(
        repository.append_data("test line 1".as_bytes()),
        Some(b"test line 1\n".to_vec())
    );
    assert_eq!(
        repository.append_data("test line 2".as_bytes()),
        Some(b"test line 2\n".to_vec())
    );
    assert_eq!(repository.length(), 24);
    assert_eq!(repository.append_data(b""), Some(b"\n".to_vec()));
    assert_eq!(repository.length(), 25);
    assert_eq!(repository.append_data(b"a\nb"), Some(b"a\nb\n".to_vec()));
    assert_eq!(repository.length(), 29);
}

#[test]
fn each_record_starts_where_the_file_ended() {
    let mut repository = ContentRepository::new(0);
    let mut file: Vec<u8> = Vec::new();
    let payloads: Vec<&[u8]> = vec![b"abc", b"defgh", b"", b"x"];
    let mut offsets = Vec::new();
    for (ticket, payload) in payloads.iter().enumerate() {
        let written = repository
            .process_data(Command::Data { content: Bytes::copy_from_slice(payload), tx: ticket })
            .unwrap();
        assert_eq!(written.tx, ticket);
        assert_eq!(written.offset, file.len() as u64);
        file.extend_from_slice(&written.record);
        assert_eq!(repository.length(), file.len() as u64);
        offsets.push(written.offset);
    }
    assert_eq!(offsets, vec![0, 4, 10, 11]);
    assert_eq!(file, b"abc\ndefgh\n\nx\n".to_vec());
    for (payload, offset) in payloads.iter().zip(offsets) {
        let start = offset as usize;
        assert_eq!(&file[start..start + payload.len()], *payload);
        assert_eq!(file[start + payload.len()], b'\n');
    }
}

#[test]
fn a_writer_continues_an_existing_file() {
    let mut repository = ContentRepository::new(1000);
    let written = repository
        .process_data(Command::Data { content: Bytes::from_static(b"abc"), tx: () })
        .unwrap();
    assert_eq!(written.offset, 1000);
    assert_eq!(written.record, b"abc\n".to_vec());
    assert_eq!(repository.length(), 1004);
}

#[test]
fn a_record_that_would_pass_the_largest_offset_is_refused() {
    let mut repository = ContentRepository::new(u64::MAX - 3);
    assert_eq!(repository.append_data(b"abc"), None);
    assert_eq!(repository.length(), u64::MAX - 3);
    let refused =
        repository.process_data(Command::Data { content: Bytes::from_static(b"abc"), tx: "reply" });
    assert_eq!(refused.err(), Some("reply"));
    assert_eq!(repository.length(), u64::MAX - 3);
    assert_eq!(repository.append_data(b"ab"), Some(b"ab\n".to_vec()));
    assert_eq!(repository.length(), u64::MAX);
    assert_eq!(repository.append_data(b""), None);
}

#[test]
fn test_accept_client_connections() {
    assert_eq!(
        handle_client_request(b"data_to_write"),
        Some(Bytes::from_static(b"data_to_write"))
    );
    assert_eq!(handle_client_request(b"\0").unwrap().as_ref(), &[0u8]);
    let chunk = vec![7u8; READ_CHUNK_SIZE];
    assert_eq!(handle_client_request(&chunk).unwrap().to_vec(), chunk);
    assert_eq!(READ_CHUNK_SIZE, 1024);
}

#[test]
fn a_read_of_no_bytes_makes_no_request() {
    assert_eq!(handle_client_request(b""), None);
}

#[test]
fn offsets_are_sent_as_eight_big_endian_bytes() {
    assert_eq!(encode_offset(0), vec![0, 0, 0, 0, 0, 0, 0, 0]);
    assert_eq!(encode_offset(1), vec![0, 0, 0, 0, 0, 0, 0, 1]);
    assert_eq!(encode_offset(258), vec![0, 0, 0, 0, 0, 0, 1, 2]);
    assert_eq!(
        encode_offset(0x0102030405060708),
        vec![1, 2, 3, 4, 5, 6, 7, 8]
    );
    assert_eq!(encode_offset(u64::MAX), vec![255; 8]);
    for offset in [0u64, 4, 10, 255, 256, 65535, 1 << 32, (1 << 56) + 1, u64::MAX - 1] {
        let bytes = encode_offset(offset);
        assert_eq!(bytes, offset.to_be_bytes().to_vec());
        assert_eq!(offset_in(&bytes), offset);
    }
}

#[test]
fn a_client_that_closed_gets_zero() {
    assert_eq!(client_response(None), vec![0; 8]);
    assert_eq!(client_response(Some(4)), vec![0, 0, 0, 0, 0, 0, 0, 4]);
    assert_eq!(offset_in(&client_response(Some(1234567))), 1234567);
}

#[test]
fn two_clients_get_distinct_offsets_in_arrival_order() {
    let mut repository = ContentRepository::new(0);
    let mut file: Vec<u8> = Vec::new();
    let first = handle_client_request(b"abc").unwrap();
    let second = handle_client_request(b"defgh").unwrap();
    let first = repository.process_data(Command::Data { content: first, tx: 1 }).unwrap();
    file.extend_from_slice(&first.record);
    let second = repository.process_data(Command::Data { content: second, tx: 2 }).unwrap();
    file.extend_from_slice(&second.record);
    let o1 = offset_in(&client_response(Some(first.offset)));
    let o2 = offset_in(&client_response(Some(second.offset)));
    assert_ne!(o1, o2);
    assert_eq!(&file[o1.min(o2) as usize..], b"abc\ndefgh\n");
}
