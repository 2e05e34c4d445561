use wftpg::packet::{
    build_attrs, build_attrs_from_metadata, FileMeta, build_data_packet, build_handle_packet, build_packet, build_status_packet,
    parse_string, parse_string_checked, parse_u32, parse_u32_checked, parse_u64_checked, PacketError,
    SSH_FX_EOF, SSH_FX_FAILURE, SSH_FX_NO_SUCH_FILE, SSH_FX_OK, SSH_FX_OP_UNSUPPORTED, SSH_FX_PERMISSION_DENIED,
};
use wftpg::sftp::access::{
    additional_bytes, check_permission, close_record, open_permitted, open_plan, parse_open, parse_read,
    parse_write, quota_allows, quota_applies, read_chunk_len, session_speed_limit, write_refusal,
    OpenParse, OpenPlan, Permission, Permissions, ReadParse, UploadRecord, WriteParse,
};
use wftpg::sftp::attrs::{
    build_statvfs_reply, format_longname, limits_reply, readdir_reply, realpath_reply, setstat_step, DirEntry,
    SetstatStep, StatvfsInfo,
};
use wftpg::sftp::auth::{public_key_file_name, AuthDecision, HomeMeta, SftpAuthState, SubsystemStep};
use wftpg::sftp::extended::{
    copy_growth, copy_permitted, copy_source_refusal, extended_step, file_handle_refusal,
    handle_arg, hash_reply, md5sum_reply, parse_copy_args, path_arg, path_pair_arg, sha256sum_reply,
    statvfs_error, statvfs_error_reply, CopyParse, Destination, Extension, ExtendedStep, HandleTarget, PairParse, PathArg,
};
use wftpg::sftp::links::{
    link_target_allowed, lock_step, parse_rename, parse_symlink, readlink_reply, unlock_step, LockStep,
    TwoPathParse,
};
use wftpg::sftp::handles::{HandleTable, OpenHandle};
use wftpg::sftp::framing::{Frame, SftpFramer, MAX_PACKET_SIZE};
use wftpg::sftp::requests::{dispatch, status, Dispatch, SftpRequest, SftpSession};
use wftpg::sftp::status::{ErrnoCodes, IoErrorKind, io_error_to_sftp_status, basic_io_error_status};
use wftpg::speed_limiter::SpeedLimiter;
use wftpg::sftp::serve::{
    close_step, path_outcome, path_request_step, read_done, read_step, write_done, write_step, PathOp, PathStep, ReadOutcome,
    ReadStep, WriteStep,
};

fn full() -> Permissions {
    Permissions {
        can_read: true,
        can_write: true,
        can_append: true,
        can_delete: true,
        can_list: true,
        can_mkdir: true,
        can_rmdir: true,
        can_rename: true,
        quota_mb: None,
        speed_limit_kbps: None,
    }
}

fn payload(packet: &[u8]) -> &[u8] {
    assert!(packet.len() >= 4);
    let len = u32::from_be_bytes(packet[0..4].try_into().unwrap()) as usize;
    assert_eq!(packet.len(), len + 4);
    &packet[4..]
}

fn parse_status(packet: &[u8]) -> (u32, String) {
    let payload = payload(packet);
    assert_eq!(payload[0], 101);
    let status = parse_u32(payload, 5);
    let msg_len = parse_u32(payload, 9) as usize;
    let message = String::from_utf8_lossy(&payload[13..13 + msg_len]).into_owned();
    (status, message)
}

fn string_field(value: &str) -> Vec<u8> {
    let mut buf = Vec::new();
    buf.extend_from_slice(&(value.len() as u32).to_be_bytes());
    buf.extend_from_slice(value.as_bytes());
    buf
}

fn extended_packet(id: u32, extension: &str, extra: &[u8]) -> Vec<u8> {
    let mut packet = vec![200u8];
    packet.extend_from_slice(&id.to_be_bytes());
    packet.extend_from_slice(&string_field(extension));
    packet.extend_from_slice(extra);
    packet
}

fn write_packet(id: u32, handle: &str, offset: u64, data: &[u8]) -> Vec<u8> {
    let mut packet = vec![6u8];
    packet.extend_from_slice(&id.to_be_bytes());
    packet.extend_from_slice(&string_field(handle));
    packet.extend_from_slice(&offset.to_be_bytes());
    packet.extend_from_slice(&(data.len() as u32).to_be_bytes());
    packet.extend_from_slice(data);
    packet
}

#[test]
fn field_parsers_read_big_endian() {
    let data = [0u8, 0, 1, 2, 0, 0, 0, 0, 0, 0, 0, 9];
    assert_eq!(parse_u32(&data, 0), 258);
    assert_eq!(parse_u32(&data, 10), 0);
    assert_eq!(parse_u32_checked(&data, 9), Err(PacketError::InsufficientU32(9)));
    assert_eq!(parse_u64_checked(&data, 4), Ok(9));
    assert_eq!(parse_u64_checked(&data, 5), Err(PacketError::InsufficientU64(5)));
    assert_eq!(PacketError::InsufficientU64(5).message(), "Insufficient data for u64 at offset 5");
}

#[test]
fn strings_round_trip_through_fields() {
    let mut buf = vec![7u8];
    buf.extend_from_slice(&string_field("héllo"));
    assert_eq!(parse_string(&buf, 1), "héllo");
    assert_eq!(parse_string_checked(&buf, 1), Ok(("héllo".to_string(), 6)));
    assert_eq!(parse_string(&buf, 4), "");
    assert_eq!(parse_string_checked(&buf, 5), Err(PacketError::StringExceedsBuffer(5)));
    assert_eq!(parse_string_checked(&buf, 8), Err(PacketError::MissingStringLength(8)));
    let bad = [0u8, 0, 0, 2, 0xff, b'a'];
    assert_eq!(parse_string(&bad, 0), "\u{fffd}a");
}

#[test]
fn reply_packets_have_exact_bytes() {
    assert_eq!(build_packet(&[9, 8]), vec![0, 0, 0, 2, 9, 8]);
    let st = build_status_packet(5, SSH_FX_EOF, "End", "");
    assert_eq!(st, vec![0, 0, 0, 20, 101, 0, 0, 0, 5, 0, 0, 0, 1, 0, 0, 0, 3, b'E', b'n', b'd', 0, 0, 0, 0]);
    let h = build_handle_packet(1, "h1");
    assert_eq!(h, vec![0, 0, 0, 11, 102, 0, 0, 0, 1, 0, 0, 0, 2, b'h', b'1']);
    let d = build_data_packet(2, &[0xaa]);
    assert_eq!(d, vec![0, 0, 0, 10, 103, 0, 0, 0, 2, 0, 0, 0, 1, 0xaa]);
    let a = build_attrs(true, 513);
    assert_eq!(a.len(), 32);
    assert_eq!(&a[0..4], &[0, 0, 0, 0x1f]);
    assert_eq!(&a[4..12], &[0, 0, 0, 0, 0, 0, 2, 1]);
    assert_eq!(parse_u32(&a, 20), 0o40755);
    assert_eq!(parse_u32(&build_attrs(false, 0), 20), 0o100644);
}

#[test]
fn framer_cuts_whole_packets() {
    let mut f = SftpFramer::new();
    let p1 = build_packet(&[1, 0, 0, 0, 3]);
    let p2 = build_packet(&[16, 0, 0, 0, 9, 0, 0, 0, 0]);
    let mut stream = p1.clone();
    stream.extend_from_slice(&p2);
    f.push(&stream[..6]);
    assert!(matches!(f.next_frame(), Frame::Incomplete));
    f.push(&stream[6..]);
    match f.next_frame() {
        Frame::Packet(p) => assert_eq!(p, vec![1, 0, 0, 0, 3]),
        _ => panic!("first packet expected"),
    }
    match f.next_frame() {
        Frame::Packet(p) => assert_eq!(p, vec![16, 0, 0, 0, 9, 0, 0, 0, 0]),
        _ => panic!("second packet expected"),
    }
    assert!(matches!(f.next_frame(), Frame::Incomplete));
}

#[test]
fn framer_drops_input_after_an_invalid_length() {
    let mut f = SftpFramer::new();
    f.push(&[0, 0, 0, 0, 1, 2, 3]);
    match f.next_frame() {
        Frame::Invalid(reply) => {
            assert_eq!(parse_status(&reply), (SSH_FX_FAILURE, "Invalid packet length".to_string()));
        }
        _ => panic!("invalid expected"),
    }
    assert!(matches!(f.next_frame(), Frame::Incomplete));
    let too_big = (MAX_PACKET_SIZE as u32 + 1).to_be_bytes();
    f.push(&too_big);
    assert!(matches!(f.next_frame(), Frame::Invalid(_)));
}

#[test]
fn dispatch_names_requests_and_refuses_bad_packets() {
    assert!(matches!(dispatch(&[3, 0, 0, 0, 1]), Dispatch::Serve(SftpRequest::Open)));
    assert!(matches!(dispatch(&[200, 0, 0, 0, 1]), Dispatch::Serve(SftpRequest::Extended)));
    match dispatch(&[]) {
        Dispatch::Reply(r) => assert_eq!(parse_status(&r), (SSH_FX_FAILURE, "Bad packet: empty data".to_string())),
        _ => panic!(),
    }
    match dispatch(&[3, 0]) {
        Dispatch::Reply(r) => assert_eq!(parse_status(&r), (SSH_FX_FAILURE, "Bad packet: too short".to_string())),
        _ => panic!(),
    }
    match dispatch(&[99, 0, 0, 0, 1]) {
        Dispatch::Reply(r) => assert_eq!(parse_status(&r), (SSH_FX_OP_UNSUPPORTED, "Unsupported operation".to_string())),
        _ => panic!(),
    }
}

#[test]
fn init_advertises_supported_extensions() {
    let mut state = SftpSession::new();
    let response = state.handle_init(&[1, 0, 0, 0, 3]);
    let payload = payload(&response);
    assert_eq!(payload[0], 2);
    assert_eq!(parse_u32(payload, 1), 3);
    let mut offset = 5;
    let mut extensions = Vec::new();
    while offset < payload.len() {
        let (name, consumed_name) = parse_string_checked(payload, offset).unwrap();
        offset += 4 + consumed_name;
        let (version, consumed_version) = parse_string_checked(payload, offset).unwrap();
        offset += 4 + consumed_version;
        extensions.push((name, version));
    }
    assert!(extensions.iter().any(|(name, _)| name == "limits@openssh.com"));
    assert!(extensions.iter().any(|(name, _)| name == "copy-file"));
    assert!(extensions.iter().any(|(name, _)| name == "fsync@openssh.com"));
    assert!(extensions.iter().any(|(name, _)| name == "fstatvfs@openssh.com"));
    assert_eq!(extensions.len(), 9);
}

#[test]
fn init_caps_the_version_at_three() {
    let mut state = SftpSession::new();
    let r = state.handle_init(&[1, 0, 0, 0, 6]);
    assert_eq!(state.sftp_version, 3);
    assert_eq!(parse_u32(payload(&r), 1), 3);
    let r2 = state.handle_init(&[1, 0, 0, 0, 2]);
    assert_eq!(state.sftp_version, 2);
    assert_eq!(parse_u32(payload(&r2), 1), 2);
}

#[test]
fn handles_are_numbered_in_hex_and_skip_taken_names() {
    let mut s = SftpSession::new();
    assert_eq!(s.generate_handle(&vec![]), "h00000000");
    assert_eq!(s.generate_handle(&vec!["h00000001".to_string()]), "h00000002");
    s.next_handle_id = 0xfffffffe;
    assert_eq!(s.generate_handle(&vec![]), "hfffffffe");
    assert_eq!(s.generate_handle(&vec![]), "hffffffff");
    assert_eq!(s.next_handle_id, 0);
}

#[test]
fn open_flags_map_to_open_options() {
    assert_eq!(open_plan(0x1), OpenPlan { read: true, write: false, create_new: false, create: false, truncate: false, append: false, existed: true });
    assert_eq!(open_plan(0x2 | 0x8 | 0x20), OpenPlan { read: false, write: true, create_new: true, create: false, truncate: false, append: false, existed: false });
    assert_eq!(open_plan(0x1 | 0x2 | 0x8 | 0x10), OpenPlan { read: true, write: true, create_new: false, create: true, truncate: true, append: false, existed: true });
    assert_eq!(open_plan(0x2 | 0x4), OpenPlan { read: false, write: true, create_new: false, create: false, truncate: false, append: true, existed: true });
    let mut p = full();
    assert!(open_permitted(Some(p), 0x7));
    p.can_append = false;
    assert!(!open_permitted(Some(p), 0x6));
    assert!(open_permitted(Some(p), 0x3));
    assert!(!open_permitted(None, 0x1));
}

#[test]
fn write_requests_are_read_and_checked() {
    let packet = write_packet(1, "h00000001", 0, &[1u8; 512]);
    match parse_write(&packet).unwrap() {
        WriteParse::Request(w) => {
            assert_eq!(w.id, 1);
            assert_eq!(w.handle, "h00000001");
            assert_eq!(w.offset, 0);
            assert_eq!(w.len, 512);
            assert_eq!(&packet[w.data_start..w.data_start + w.len], &[1u8; 512][..]);
        }
        _ => panic!(),
    }
    let short = &packet[..packet.len() - 1];
    match parse_write(short).unwrap() {
        WriteParse::Reply(r) => assert_eq!(parse_status(&r), (SSH_FX_FAILURE, "Invalid packet: write data truncated".to_string())),
        _ => panic!(),
    }
    assert_eq!(parse_write(&[6, 0, 0]).err(), Some(PacketError::InsufficientU32(1)));
    let mut p = full();
    p.can_append = false;
    let r = write_refusal(Some(p), 4, 10).unwrap();
    assert_eq!(parse_status(&r), (SSH_FX_PERMISSION_DENIED, "Permission denied (append)".to_string()));
    assert!(write_refusal(Some(p), 4, 0).is_none());
    assert!(write_refusal(None, 4, 0).is_some());
}

#[test]
fn write_rejects_when_quota_is_exceeded() {
    let mut permissions = full();
    permissions.quota_mb = Some(1);
    let usage = 1_048_326u64;
    let added = additional_bytes(0, 0, 512);
    assert_eq!(added, 512);
    assert!(quota_applies(Some(permissions), added));
    assert!(!quota_allows(Some(permissions), added, usage));
    let response = status(1, SSH_FX_FAILURE, "Quota exceeded");
    let (code, message) = parse_status(&response);
    assert_eq!(code, SSH_FX_FAILURE);
    assert!(message.contains("Quota exceeded"));
    assert!(quota_allows(Some(permissions), 250, usage));
    assert!(quota_allows(Some(full()), u64::MAX, u64::MAX));
    assert_eq!(additional_bytes(100, 90, 20), 10);
    assert_eq!(additional_bytes(100, 10, 20), 0);
}

#[test]
fn copy_file_respects_overwrite_flag() {
    let mut args = Vec::new();
    args.extend_from_slice(&string_field("/src.txt"));
    args.extend_from_slice(&string_field("/dst.txt"));
    args.push(0);
    let packet = extended_packet(7, "copy-file", &args);
    let (ext, id, off) = match extended_step(&packet) {
        ExtendedStep::Serve { ext, id, ext_offset } => (ext, id, ext_offset),
        _ => panic!(),
    };
    assert_eq!(ext, Extension::CopyFile);
    assert_eq!(id, 7);
    let parsed = match parse_copy_args(id, &packet, off) {
        CopyParse::Args(a) => a,
        _ => panic!(),
    };
    assert_eq!(parsed.src, "/src.txt");
    assert_eq!(parsed.dst, "/dst.txt");
    assert!(!parsed.overwrite);
    let refusal = copy_growth(Destination::File(8), parsed.overwrite, 8).unwrap_err();
    let (code, message) = parse_status(&status(id, SSH_FX_FAILURE, refusal));
    assert_eq!(code, SSH_FX_FAILURE);
    assert!(message.contains("already exists"));
    assert_eq!(copy_growth(Destination::File(3), true, 8), Ok(5));
    assert_eq!(copy_growth(Destination::Directory, true, 8), Err("Destination is a directory"));
}

#[test]
fn copy_file_rejects_when_quota_is_exceeded() {
    let mut args = Vec::new();
    args.extend_from_slice(&string_field("/src.txt"));
    args.extend_from_slice(&string_field("/dst.txt"));
    args.push(1);
    let packet = extended_packet(8, "copy-file", &args);
    let off = match extended_step(&packet) {
        ExtendedStep::Serve { ext_offset, .. } => ext_offset,
        _ => panic!(),
    };
    let parsed = match parse_copy_args(8, &packet, off) {
        CopyParse::Args(a) => a,
        _ => panic!(),
    };
    assert!(parsed.overwrite);
    let mut permissions = full();
    permissions.quota_mb = Some(1);
    assert!(copy_permitted(Some(permissions)));
    let added = copy_growth(Destination::Missing, parsed.overwrite, 200).unwrap();
    // the home holds the 200-byte source and a 1_048_326-byte filler
    assert!(!quota_allows(Some(permissions), added, 1_048_526));
    let (code, message) = parse_status(&status(8, SSH_FX_FAILURE, "Quota exceeded"));
    assert_eq!(code, SSH_FX_FAILURE);
    assert!(message.contains("Quota exceeded"));
}

#[test]
fn extended_requests_are_checked_before_dispatch() {
    match extended_step(&[200, 0, 0, 0]) {
        ExtendedStep::Reply(r) => assert_eq!(parse_status(&r).1, "Invalid extended packet: too short"),
        _ => panic!(),
    }
    let p = extended_packet(3, "statvfs@openssh.com", &[]);
    match extended_step(&p) {
        ExtendedStep::Reply(r) => assert_eq!(parse_status(&r).1, "Invalid extended packet: missing data"),
        _ => panic!(),
    }
    let p = extended_packet(3, "limits@openssh.com", &[]);
    assert!(matches!(extended_step(&p), ExtendedStep::Serve { ext: Extension::Limits, id: 3, .. }));
    let p = extended_packet(4, "nope@example", &[0, 0, 0, 0]);
    match extended_step(&p) {
        ExtendedStep::Reply(r) => assert_eq!(parse_status(&r), (SSH_FX_OP_UNSUPPORTED, "Unsupported extension: nope@example".to_string())),
        _ => panic!(),
    }
    let p = extended_packet(5, "md5-hash@openssh.com", &string_field("/a"));
    let off = match extended_step(&p) {
        ExtendedStep::Serve { ext: Extension::Md5sum, ext_offset, .. } => ext_offset,
        _ => panic!(),
    };
    match path_arg(5, &p, off, "md5sum") {
        PathArg::Path(s) => assert_eq!(s, "/a"),
        _ => panic!(),
    }
    let mut bad = extended_packet(6, "md5sum@openssh.com", &[0, 0, 0, 9]);
    bad.push(b'x');
    let off = match extended_step(&bad) {
        ExtendedStep::Serve { ext_offset, .. } => ext_offset,
        _ => panic!(),
    };
    match path_arg(6, &bad, off, "md5sum") {
        PathArg::Reply(r) => assert_eq!(parse_status(&r).1, "Invalid path: String data exceeds buffer at offset 27"),
        _ => panic!(),
    }
}

#[test]
fn hash_replies_carry_hex_digests() {
    let r = md5sum_reply(9, b"abc");
    let p = payload(&r);
    assert_eq!(p[0], 201);
    assert_eq!(parse_u32(p, 1), 9);
    assert_eq!(parse_string(p, 5), "900150983cd24fb0d6963f7d28e17f72");
    let r = sha256sum_reply(9, b"abc");
    assert_eq!(parse_string(payload(&r), 5), "ba7816bf8f01cfea414140de5dae2223b00361a396177a9cb410ff61f20015ad");
    let r = hash_reply(1, &[0x0f, 0xa0]);
    assert_eq!(parse_string(payload(&r), 5), "0fa0");
}

#[test]
fn setstat_refuses_special_bits_and_keeps_access_bits() {
    let mut data = vec![9u8, 0, 0, 0, 1];
    data.extend_from_slice(&string_field("/f"));
    let attrs = data.len();
    data.extend_from_slice(&4u32.to_be_bytes());
    data.extend_from_slice(&0o4755u32.to_be_bytes());
    match setstat_step(1, &data, attrs, "Invalid SETSTAT packet") {
        SetstatStep::Reply(r) => assert_eq!(
            parse_status(&r),
            (SSH_FX_PERMISSION_DENIED, "Special permission bits (setuid/setgid/sticky) are not allowed".to_string())
        ),
        _ => panic!(),
    }
    let mut ok = data[..attrs].to_vec();
    ok.extend_from_slice(&(1u32 | 4).to_be_bytes());
    ok.extend_from_slice(&7u64.to_be_bytes());
    ok.extend_from_slice(&0o100640u32.to_be_bytes());
    assert!(matches!(setstat_step(1, &ok, attrs, "Invalid SETSTAT packet"), SetstatStep::Apply(Some(0o640))));
    match setstat_step(1, &data[..attrs + 2], attrs, "Invalid SETSTAT packet") {
        SetstatStep::Reply(r) => assert_eq!(parse_status(&r).1, "Invalid SETSTAT packet"),
        _ => panic!(),
    }
}

#[test]
fn longnames_and_listings() {
    assert_eq!(format_longname("a.txt", false, 42, 0, 0o644), "-rw-r--r-- 1 user user         42 Jan 01 00:00 a.txt");
    assert_eq!(format_longname("d", true, 4096, 0, 0), "drwxr-xr-x 1 user user       4096 Jan 01 00:00 d");
    assert_eq!(format_longname("x", false, 12345678901, 0, 0o751), "-rwxr-x--x 1 user user 12345678901 Jan 01 00:00 x");
    let entries: Vec<DirEntry> = (0..150)
        .map(|i| DirEntry { name: format!("f{i}"), is_dir: false, size: i })
        .collect();
    let (first, idx) = readdir_reply(3, &entries, 0);
    assert_eq!(idx, 100);
    let p = payload(&first);
    assert_eq!(p[0], 104);
    assert_eq!(parse_u32(p, 5), 100);
    assert_eq!(parse_string(p, 9), "f0");
    let (_, idx2) = readdir_reply(3, &entries, idx);
    assert_eq!(idx2, 150);
    let (eof, idx3) = readdir_reply(3, &entries, idx2);
    assert_eq!(idx3, 150);
    assert_eq!(parse_status(&eof), (SSH_FX_EOF, "End of directory".to_string()));
}

#[test]
fn limits_and_statvfs_replies() {
    let l = limits_reply(4);
    let p = payload(&l);
    assert_eq!(p.len(), 45);
    assert_eq!(p[0], 201);
    assert_eq!(parse_u64_checked(p, 5), Ok(32768));
    assert_eq!(parse_u64_checked(p, 29), Ok(1000));
    assert_eq!(parse_u64_checked(p, 37), Ok(100));
    let s = StatvfsInfo {
        block_size: 4096,
        fragment_size: 4096,
        blocks: 10,
        blocks_free: 5,
        blocks_available: 4,
        files: 100,
        files_free: 50,
        files_available: 49,
        filesystem_id: 7,
        read_only: true,
        name_max: 255,
    };
    let r = build_statvfs_reply(10, &s);
    let p = payload(&r);
    assert_eq!(p.len(), 93);
    assert_eq!(parse_u32(p, 1), 10);
    assert_eq!(parse_u64_checked(p, 77), Ok(1));
    assert_eq!(parse_u64_checked(p, 85), Ok(255));
}

#[test]
fn io_error_statuses() {
    assert_eq!(basic_io_error_status(IoErrorKind::NotFound), (SSH_FX_NO_SUCH_FILE, "No such file or directory"));
    assert_eq!(basic_io_error_status(IoErrorKind::Other), (SSH_FX_FAILURE, "Operation failed"));
    let codes = ErrnoCodes { exdev: 18, enospc: 28, erofs: 30, eacces: 13, enoent: 2, enotdir: 20, eisdir: 21, eexist: 17, emlink: 31 };
    assert_eq!(io_error_to_sftp_status(IoErrorKind::Other, Some(30), &codes), (SSH_FX_PERMISSION_DENIED, "Read-only file system"));
    assert_eq!(io_error_to_sftp_status(IoErrorKind::Other, Some(18), &codes), (SSH_FX_FAILURE, "Cross-device link not supported"));
    assert_eq!(io_error_to_sftp_status(IoErrorKind::Other, None, &codes), (SSH_FX_FAILURE, "Operation failed"));
    assert_eq!(io_error_to_sftp_status(IoErrorKind::AlreadyExists, Some(30), &codes), (SSH_FX_FAILURE, "File already exists"));
    assert_eq!(io_error_to_sftp_status(IoErrorKind::NotFound, None, &codes), (SSH_FX_NO_SUCH_FILE, "No such file or directory"));
    assert_eq!(io_error_to_sftp_status(IoErrorKind::Other, Some(28), &codes).1, "No space left on device");
    assert_eq!(io_error_to_sftp_status(IoErrorKind::Other, Some(31), &codes), (SSH_FX_FAILURE, "Too many links"));
    assert_eq!(io_error_to_sftp_status(IoErrorKind::Other, Some(99), &codes), (SSH_FX_FAILURE, "Operation failed"));
    assert_eq!(basic_io_error_status(IoErrorKind::PermissionDenied), (SSH_FX_PERMISSION_DENIED, "Permission denied"));
}

#[test]
fn sftp_logins_check_the_home_directory() {
    assert_eq!(SftpAuthState::precheck("bad name"), Some(AuthDecision::Reject));
    assert_eq!(SftpAuthState::precheck("alice"), None);
    assert_eq!(SftpAuthState::user_gate(None), Some(AuthDecision::Reject));
    assert_eq!(SftpAuthState::user_gate(Some(false)), Some(AuthDecision::Reject));
    assert_eq!(SftpAuthState::user_gate(Some(true)), None);
    let mut st = SftpAuthState::new();
    st.credentials_accepted("alice");
    assert!(st.authenticated);
    let (d, m) = st.home_checked("alice", "  ", HomeMeta::Directory, Ok("/x"));
    assert_eq!(d, AuthDecision::Reject);
    assert_eq!(m.unwrap(), "home directory not configured for user 'alice'");
    let (d, m) = st.home_checked("alice", "/h", HomeMeta::Unreachable("gone".to_string()), Ok("/h"));
    assert_eq!(d, AuthDecision::Reject);
    assert_eq!(m.unwrap(), "home directory '/h' does not exist or cannot be accessed: gone");
    let (d, m) = st.home_checked("alice", "/h", HomeMeta::Directory, Ok("/real/h"));
    assert_eq!(d, AuthDecision::Accept);
    assert!(m.is_none());
    assert_eq!(st.home_dir.as_deref(), Some("/real/h"));
    assert_eq!(public_key_file_name("alice"), "alice.pub");
}

#[test]
fn speed_limiter_is_initialized_from_permissions() {
    let mut permissions = full();
    permissions.speed_limit_kbps = Some(128);
    let limited = session_speed_limit(Some(permissions)).map(SpeedLimiter::new);
    assert!(limited.is_some());
    assert_eq!(limited.unwrap().get_limit(), 128);
    let unlimited = session_speed_limit(Some(full()));
    assert!(unlimited.is_none());
    permissions.speed_limit_kbps = Some(0);
    assert!(session_speed_limit(Some(permissions)).is_none());
}

#[test]
fn fsync_and_fstatvfs_succeed_for_file_handle() {
    let fsync = extended_packet(9, "fsync@openssh.com", &string_field("h00000002"));
    let off = match extended_step(&fsync) {
        ExtendedStep::Serve { ext: Extension::Fsync, id: 9, ext_offset } => ext_offset,
        _ => panic!(),
    };
    match handle_arg(9, &fsync, off, "fsync") {
        PathArg::Path(h) => assert_eq!(h, "h00000002"),
        _ => panic!(),
    }
    assert!(file_handle_refusal(9, HandleTarget::File).is_none());
    let (fsync_status, _) = parse_status(&status(9, SSH_FX_OK, "OK"));
    assert_eq!(fsync_status, SSH_FX_OK);

    let fstatvfs = extended_packet(10, "fstatvfs@openssh.com", &string_field("h00000002"));
    let off = match extended_step(&fstatvfs) {
        ExtendedStep::Serve { ext: Extension::Fstatvfs, id: 10, ext_offset } => ext_offset,
        _ => panic!(),
    };
    match handle_arg(10, &fstatvfs, off, "fstatvfs") {
        PathArg::Path(h) => assert_eq!(h, "h00000002"),
        _ => panic!(),
    }
    assert!(file_handle_refusal(10, HandleTarget::File).is_none());
    let info = StatvfsInfo {
        block_size: 4096,
        fragment_size: 4096,
        blocks: 100,
        blocks_free: 50,
        blocks_available: 40,
        files: 10,
        files_free: 5,
        files_available: 5,
        filesystem_id: 1,
        read_only: false,
        name_max: 255,
    };
    let reply = build_statvfs_reply(10, &info);
    let fstatvfs_payload = payload(&reply);
    assert_eq!(fstatvfs_payload[0], 201);
    assert_eq!(parse_u32(fstatvfs_payload, 1), 10);
}

#[test]
fn handle_arguments_and_targets_are_checked() {
    let short = extended_packet(3, "fsync@openssh.com", &[0, 0]);
    let off = 4 + "fsync@openssh.com".len();
    match handle_arg(3, &short, off, "fsync") {
        PathArg::Reply(r) => assert_eq!(
            parse_status(&r),
            (SSH_FX_FAILURE, "Invalid fsync packet: missing handle length".to_string())
        ),
        _ => panic!(),
    }
    let cut = extended_packet(4, "fstatvfs@openssh.com", &[0, 0, 0, 9, b'h']);
    let off = 4 + "fstatvfs@openssh.com".len();
    match handle_arg(4, &cut, off, "fstatvfs") {
        PathArg::Reply(r) => {
            let (code, msg) = parse_status(&r);
            assert_eq!(code, SSH_FX_FAILURE);
            assert!(msg.starts_with("Invalid handle: "));
        },
        _ => panic!(),
    }
    assert_eq!(
        parse_status(&file_handle_refusal(5, HandleTarget::Directory).unwrap()),
        (SSH_FX_FAILURE, "Handle does not reference a file".to_string())
    );
    assert_eq!(
        parse_status(&file_handle_refusal(5, HandleTarget::Missing).unwrap()),
        (SSH_FX_FAILURE, "Invalid handle".to_string())
    );
}

#[test]
fn statvfs_errors_are_mapped_by_errno() {
    let c = ErrnoCodes {
        exdev: 18,
        enospc: 28,
        erofs: 30,
        eacces: 13,
        enoent: 2,
        enotdir: 20,
        eisdir: 21,
        eexist: 17,
        emlink: 31,
    };
    assert_eq!(statvfs_error(2, &c), (SSH_FX_NO_SUCH_FILE, "No such file or directory"));
    assert_eq!(statvfs_error(13, &c), (SSH_FX_PERMISSION_DENIED, "Permission denied"));
    assert_eq!(statvfs_error(20, &c), (SSH_FX_FAILURE, "Not a directory"));
    assert_eq!(statvfs_error(28, &c), (SSH_FX_FAILURE, "Failed to get filesystem stats"));
    assert_eq!(
        parse_status(&statvfs_error_reply(9, 13, &c)),
        (SSH_FX_PERMISSION_DENIED, "Permission denied".to_string())
    );
}

fn read_packet(id: u32, handle: &str, offset: u64, len: u32) -> Vec<u8> {
    let mut packet = vec![5u8];
    packet.extend_from_slice(&id.to_be_bytes());
    packet.extend_from_slice(&string_field(handle));
    packet.extend_from_slice(&offset.to_be_bytes());
    packet.extend_from_slice(&len.to_be_bytes());
    packet
}

#[test]
fn read_requests_are_parsed() {
    match parse_read(&read_packet(12, "h00000001", 4096, 70000)) {
        Ok(ReadParse::Request(q)) => {
            assert_eq!(q.id, 12);
            assert_eq!(q.handle, "h00000001");
            assert_eq!(q.offset, 4096);
            assert_eq!(q.len, 70000);
            assert_eq!(read_chunk_len(q.len), 32768);
        },
        _ => panic!(),
    }
    assert_eq!(read_chunk_len(100), 100);
    let mut short = read_packet(13, "h", 0, 0);
    short.truncate(short.len() - 1);
    match parse_read(&short) {
        Ok(ReadParse::Reply(r)) => assert_eq!(
            parse_status(&r),
            (SSH_FX_FAILURE, "Invalid packet: too short for read".to_string())
        ),
        _ => panic!(),
    }
    assert!(parse_read(&[5, 0, 0]).is_err());
    assert!(parse_read(&[5, 0, 0, 0, 1, 0, 0, 0, 9, b'h']).is_err());
}

#[test]
fn permissions_are_checked_per_request() {
    let mut p = full();
    assert!(check_permission(Some(p), Permission::Delete));
    p.can_delete = false;
    assert!(!check_permission(Some(p), Permission::Delete));
    assert!(check_permission(Some(p), Permission::List));
    p.can_rename = false;
    assert!(!check_permission(Some(p), Permission::Rename));
    assert!(!check_permission(None, Permission::Read));
}

#[test]
fn closed_uploads_are_recorded() {
    assert_eq!(close_record(false, 10, true), UploadRecord::Update);
    assert_eq!(close_record(false, 10, false), UploadRecord::Upload);
    assert_eq!(close_record(false, 0, false), UploadRecord::Nothing);
    assert_eq!(close_record(true, 10, false), UploadRecord::Nothing);
}

#[test]
fn attributes_from_metadata() {
    let m = FileMeta { size: 7, uid: 1001, gid: 1002, mode: 0o100600, atime: Some((1u64 << 32) + 5), mtime: None };
    let a = build_attrs_from_metadata(&m);
    assert_eq!(a.len(), 32);
    assert_eq!(&a[0..4], &0x1fu32.to_be_bytes());
    assert_eq!(&a[4..12], &7u64.to_be_bytes());
    assert_eq!(&a[12..16], &1001u32.to_be_bytes());
    assert_eq!(&a[16..20], &1002u32.to_be_bytes());
    assert_eq!(&a[20..24], &0o100600u32.to_be_bytes());
    assert_eq!(&a[24..28], &5u32.to_be_bytes());
    assert_eq!(&a[28..32], &0u32.to_be_bytes());
}

fn two_path_packet(kind: u8, id: u32, a: &str, b: &str) -> Vec<u8> {
    let mut packet = vec![kind];
    packet.extend_from_slice(&id.to_be_bytes());
    packet.extend_from_slice(&string_field(a));
    packet.extend_from_slice(&string_field(b));
    packet
}

#[test]
fn rename_and_symlink_arguments() {
    match parse_rename(&two_path_packet(18, 4, "/a", "/b")) {
        Ok(TwoPathParse::Paths(p)) => {
            assert_eq!((p.id, p.first.as_str(), p.second.as_str()), (4, "/a", "/b"));
        },
        _ => panic!(),
    }
    match parse_rename(&[18, 0, 0, 0, 4]) {
        Ok(TwoPathParse::Reply(r)) => assert_eq!(parse_status(&r), (SSH_FX_FAILURE, "Invalid packet".to_string())),
        _ => panic!(),
    }
    let mut one = vec![18, 0, 0, 0, 5];
    one.extend_from_slice(&string_field("/a"));
    match parse_rename(&one) {
        Ok(TwoPathParse::Reply(r)) => assert_eq!(parse_status(&r), (SSH_FX_FAILURE, "Invalid packet".to_string())),
        _ => panic!(),
    }
    assert!(parse_rename(&[18, 0, 0]).is_err());
    let p = parse_symlink(&two_path_packet(20, 7, "target", "/link")).unwrap();
    assert_eq!((p.id, p.first.as_str(), p.second.as_str()), (7, "target", "/link"));
    assert!(parse_symlink(&one).is_err());
}

#[test]
fn links_stay_inside_home() {
    assert!(link_target_allowed("relative/file", "/home/u"));
    assert!(link_target_allowed("../up", "/home/u"));
    assert!(link_target_allowed("/home/u/docs/a", "/home/u"));
    assert!(!link_target_allowed("/etc/passwd", "/home/u"));
    assert!(!link_target_allowed("/home/user2/a", "/home/u"));
}

#[test]
fn readlink_and_realpath_replies() {
    let r = readlink_reply(3, "target.txt");
    let p = payload(&r);
    assert_eq!(p[0], 104);
    assert_eq!(parse_u32(p, 1), 3);
    assert_eq!(parse_u32(p, 5), 1);
    assert_eq!(parse_string(p, 9), "target.txt");
    assert_eq!(parse_string(p, 23), "target.txt");
    assert_eq!(&p[37..], &build_attrs(false, 0)[..]);
    let r = realpath_reply(4, "/docs", 0, 0o755);
    let p = payload(&r);
    assert_eq!(p[0], 104);
    assert_eq!(parse_u32(p, 5), 1);
    assert_eq!(parse_string(p, 9), "/docs");
    let long = format_longname("/docs", true, 0, 0, 0o755);
    assert_eq!(parse_string(p, 18), long);
}

#[test]
fn locks_need_version_five_and_a_file() {
    assert!(matches!(lock_step(1, 5, HandleTarget::File, false), LockStep::Proceed));
    match lock_step(1, 3, HandleTarget::File, false) {
        LockStep::Reply(r) => assert_eq!(parse_status(&r), (SSH_FX_OP_UNSUPPORTED, "Lock requires SFTP v5+".to_string())),
        _ => panic!(),
    }
    match lock_step(1, 6, HandleTarget::Directory, false) {
        LockStep::Reply(r) => assert_eq!(parse_status(&r), (SSH_FX_FAILURE, "Invalid handle".to_string())),
        _ => panic!(),
    }
    match lock_step(1, 6, HandleTarget::File, true) {
        LockStep::Reply(r) => assert_eq!(parse_status(&r), (SSH_FX_OK, "Already locked".to_string())),
        _ => panic!(),
    }
    assert!(matches!(unlock_step(1, HandleTarget::File, true), LockStep::Proceed));
    match unlock_step(1, HandleTarget::File, false) {
        LockStep::Reply(r) => assert_eq!(parse_status(&r), (SSH_FX_OK, "Not locked".to_string())),
        _ => panic!(),
    }
    match unlock_step(1, HandleTarget::Missing, true) {
        LockStep::Reply(r) => assert_eq!(parse_status(&r), (SSH_FX_FAILURE, "Invalid handle".to_string())),
        _ => panic!(),
    }
}

#[test]
fn open_requests_are_parsed() {
    let mut packet = vec![3u8, 0, 0, 0, 9];
    packet.extend_from_slice(&string_field("/f.txt"));
    match parse_open(&packet) {
        Ok(OpenParse::Reply(r)) => assert_eq!(parse_status(&r), (SSH_FX_FAILURE, "Invalid packet: missing pflags".to_string())),
        _ => panic!(),
    }
    packet.extend_from_slice(&0x1au32.to_be_bytes());
    match parse_open(&packet) {
        Ok(OpenParse::Request(q)) => {
            assert_eq!((q.id, q.path.as_str(), q.pflags), (9, "/f.txt", 0x1a));
        },
        _ => panic!(),
    }
    assert!(parse_open(&[3, 0, 0, 0, 9, 0, 0, 0, 7, b'x']).is_err());
}

#[test]
fn only_sftp_subsystem_after_login() {
    let mut st = SftpAuthState::new();
    assert_eq!(st.subsystem_step("shell"), SubsystemStep::UnknownSubsystem);
    assert_eq!(st.subsystem_step("sftp"), SubsystemStep::NotAuthenticated);
    st.credentials_accepted("alice");
    assert_eq!(st.subsystem_step("sftp"), SubsystemStep::NoHome);
    st.home_dir = Some("/home/alice".to_string());
    assert_eq!(st.subsystem_step("sftp"), SubsystemStep::Start);
}

#[test]
fn path_pairs_of_extensions() {
    let mut args = Vec::new();
    args.extend_from_slice(&string_field("/old"));
    args.extend_from_slice(&string_field("/new"));
    let p = extended_packet(11, "posix-rename@openssh.com", &args);
    let off = match extended_step(&p) {
        ExtendedStep::Serve { ext: Extension::PosixRename, ext_offset, .. } => ext_offset,
        _ => panic!(),
    };
    match path_pair_arg(11, &p, off, "posix-rename", "old", "new") {
        PairParse::Paths(a, b) => assert_eq!((a.as_str(), b.as_str()), ("/old", "/new")),
        _ => panic!(),
    }
    let p = extended_packet(12, "hardlink@openssh.com", &string_field("/src"));
    let off = 4 + "hardlink@openssh.com".len();
    match path_pair_arg(12, &p, off, "hardlink", "source", "destination") {
        PairParse::Reply(r) => assert_eq!(
            parse_status(&r),
            (SSH_FX_FAILURE, "Invalid hardlink packet: missing destination path length".to_string())
        ),
        _ => panic!(),
    }
    let p = extended_packet(13, "hardlink@openssh.com", &[0, 0, 0, 50, b'x']);
    match path_pair_arg(13, &p, off, "hardlink", "source", "destination") {
        PairParse::Reply(r) => {
            let (code, msg) = parse_status(&r);
            assert_eq!(code, SSH_FX_FAILURE);
            assert!(msg.starts_with("Invalid source path: "));
        },
        _ => panic!(),
    }
}

fn file_handle(path: &str) -> OpenHandle {
    OpenHandle {
        path: path.to_string(),
        is_dir: false,
        existed: false,
        written_bytes: 0,
        read_bytes: 0,
        locked: false,
        dir_entries: Vec::new(),
        dir_index: 0,
    }
}

#[test]
fn handle_table_tracks_open_handles() {
    let mut t = HandleTable::new();
    let mut session = SftpSession::new();
    let name = session.generate_handle(&t.handle_names());
    assert_eq!(name, "h00000000");
    t.insert(name.clone(), file_handle("/home/u/a.txt"));
    assert_eq!(t.target(&name), HandleTarget::File);
    assert_eq!(t.target("h00000009"), HandleTarget::Missing);
    let next = session.generate_handle(&t.handle_names());
    assert_eq!(next, "h00000001");
    let dir = OpenHandle {
        path: "/home/u".to_string(),
        is_dir: true,
        existed: true,
        written_bytes: 0,
        read_bytes: 0,
        locked: false,
        dir_entries: vec![DirEntry { name: "a.txt".to_string(), is_dir: false, size: 3 }],
        dir_index: 0,
    };
    t.insert(next.clone(), dir);
    assert_eq!(t.target(&next), HandleTarget::Directory);
    let listing = t.readdir(7, &next);
    assert_eq!(payload(&listing)[0], 104);
    let (code, _) = parse_status(&t.readdir(8, &next));
    assert_eq!(code, SSH_FX_EOF);
    assert_eq!(parse_status(&t.readdir(9, &name)), (SSH_FX_FAILURE, "Invalid handle".to_string()));
    t.add_written(&name, 10);
    t.add_written(&name, 5);
    t.add_read(&name, 4);
    t.set_locked(&name, true);
    let closed = t.remove(&name).unwrap();
    assert_eq!(closed.written_bytes, 15);
    assert_eq!(closed.read_bytes, 4);
    assert!(closed.locked);
    assert_eq!(close_record(closed.is_dir, closed.written_bytes, closed.existed), UploadRecord::Upload);
    assert!(t.remove(&name).is_none());
    assert_eq!(t.target(&name), HandleTarget::Missing);
}

#[test]
fn ending_a_session_releases_locks() {
    let mut t = HandleTable::new();
    t.insert("h1".to_string(), file_handle("/a"));
    t.insert("h2".to_string(), file_handle("/b"));
    t.set_locked("h2", true);
    let locked = t.close_all();
    assert_eq!(locked, vec!["/b".to_string()]);
    assert_eq!(t.target("h1"), HandleTarget::Missing);
    assert!(t.handle_names().is_empty());
}

#[test]
fn incomplete_input_is_dropped_at_channel_end() {
    let mut f = SftpFramer::new();
    f.push(&[0, 0, 0, 9, 1, 2]);
    assert_eq!(f.pending_len(), 6);
    assert!(matches!(f.next_frame(), Frame::Incomplete));
    f.discard_pending();
    assert_eq!(f.pending_len(), 0);
}

fn path_packet(kind: u8, id: u32, path: &str) -> Vec<u8> {
    let mut p = vec![kind];
    p.extend_from_slice(&id.to_be_bytes());
    p.extend_from_slice(&string_field(path));
    p
}

fn all_perms(delete: bool, mkdir: bool) -> Permissions {
    Permissions {
        can_read: true,
        can_write: true,
        can_append: false,
        can_delete: delete,
        can_list: true,
        can_mkdir: mkdir,
        can_rmdir: true,
        can_rename: true,
        quota_mb: None,
        speed_limit_kbps: None,
    }
}

#[test]
fn path_requests_check_permission_then_resolve() {
    let pkt = path_packet(13, 7, "a.txt");
    match path_request_step(PathOp::Remove, &pkt, Some(all_perms(false, true))).unwrap() {
        PathStep::Reply(t) => assert_eq!(parse_status(&t), (SSH_FX_PERMISSION_DENIED, "Permission denied".to_string())),
        _ => panic!("refused"),
    }
    match path_request_step(PathOp::Remove, &pkt, None).unwrap() {
        PathStep::Reply(_) => {}
        _ => panic!("refused"),
    }
    match path_request_step(PathOp::Remove, &pkt, Some(all_perms(true, false))).unwrap() {
        PathStep::Resolve(id, p) => assert_eq!((id, p.as_str()), (7, "a.txt")),
        _ => panic!("resolved"),
    }
    assert!(path_request_step(PathOp::Mkdir, &pkt[..7], Some(all_perms(true, true))).is_err());
    assert_eq!(
        parse_status(&path_outcome(PathOp::Mkdir, 7, Ok("/h/d"), Err("exists"))),
        (SSH_FX_FAILURE, "Failed to create directory: exists (path: /h/d)".to_string())
    );
    assert_eq!(
        parse_status(&path_outcome(PathOp::Remove, 7, Err("outside home"), Ok(()))),
        (SSH_FX_FAILURE, "Path resolution failed: outside home".to_string())
    );
    assert_eq!(parse_status(&path_outcome(PathOp::Rmdir, 7, Ok("/h/d"), Err("busy"))), (SSH_FX_FAILURE, "Failed to remove directory".to_string()));
    assert_eq!(parse_status(&path_outcome(PathOp::Remove, 7, Ok("/h/a"), Ok(()))), (SSH_FX_OK, "OK".to_string()));
}

#[test]
fn writes_go_through_permission_and_handle_checks() {
    let mut table = HandleTable::new();
    table.insert("h1".to_string(), file_handle("/h/f"));
    let mut pkt = vec![6u8];
    pkt.extend_from_slice(&9u32.to_be_bytes());
    pkt.extend_from_slice(&string_field("h1"));
    pkt.extend_from_slice(&0u64.to_be_bytes());
    pkt.extend_from_slice(&3u32.to_be_bytes());
    pkt.extend_from_slice(b"abc");
    let w = match write_step(&pkt, Some(all_perms(true, true)), &table).unwrap() {
        WriteStep::Write(w) => w,
        WriteStep::Reply(_) => panic!("written"),
    };
    assert_eq!((w.offset, w.len, &pkt[w.data_start..w.data_start + w.len]), (0, 3, &b"abc"[..]));
    assert_eq!(parse_status(&write_done(&mut table, &w)), (SSH_FX_OK, "OK".to_string()));
    let mut at = pkt.clone();
    let off = 1 + 4 + 4 + 2;
    at[off..off + 8].copy_from_slice(&5u64.to_be_bytes());
    match write_step(&at, Some(all_perms(true, true)), &table).unwrap() {
        WriteStep::Reply(t) => assert_eq!(parse_status(&t), (SSH_FX_PERMISSION_DENIED, "Permission denied (append)".to_string())),
        _ => panic!("refused"),
    }
    let empty = HandleTable::new();
    match write_step(&pkt, Some(all_perms(true, true)), &empty).unwrap() {
        WriteStep::Reply(t) => assert_eq!(parse_status(&t), (SSH_FX_FAILURE, "Invalid handle".to_string())),
        _ => panic!("refused"),
    }
}

#[test]
fn reads_and_closes_through_handles() {
    let mut table = HandleTable::new();
    table.insert("h1".to_string(), file_handle("/h/f"));
    let mut pkt = vec![5u8];
    pkt.extend_from_slice(&4u32.to_be_bytes());
    pkt.extend_from_slice(&string_field("h1"));
    pkt.extend_from_slice(&0u64.to_be_bytes());
    pkt.extend_from_slice(&100_000u32.to_be_bytes());
    let (q, n) = match read_step(&pkt, Some(all_perms(true, true)), &table).unwrap() {
        ReadStep::Read(q, n) => (q, n),
        ReadStep::Reply(_) => panic!("read"),
    };
    assert_eq!(n, 32768);
    match read_step(&pkt, None, &table).unwrap() {
        ReadStep::Reply(t) => assert_eq!(parse_status(&t), (SSH_FX_PERMISSION_DENIED, "Permission denied".to_string())),
        _ => panic!("refused"),
    }
    assert_eq!(parse_status(&read_done(&mut table, &q, ReadOutcome::Bytes(Vec::new()))), (SSH_FX_EOF, "End of file".to_string()));
    assert_eq!(parse_status(&read_done(&mut table, &q, ReadOutcome::SeekFailed)), (SSH_FX_FAILURE, "Seek failed".to_string()));
    let data = read_done(&mut table, &q, ReadOutcome::Bytes(b"xyz".to_vec()));
    assert_eq!(data, build_data_packet(4, b"xyz"));
    let mut w = vec![6u8];
    w.extend_from_slice(&9u32.to_be_bytes());
    w.extend_from_slice(&string_field("h1"));
    w.extend_from_slice(&0u64.to_be_bytes());
    w.extend_from_slice(&1u32.to_be_bytes());
    w.push(b'a');
    if let WriteStep::Write(req) = write_step(&w, Some(all_perms(true, true)), &table).unwrap() {
        write_done(&mut table, &req);
    }
    let close = path_packet(4, 11, "h1");
    let (t, rec, path) = close_step(&close, &mut table).unwrap();
    assert_eq!(parse_status(&t), (SSH_FX_OK, "OK".to_string()));
    assert_eq!(rec, UploadRecord::Upload);
    assert_eq!(path.as_deref(), Some("/h/f"));
    let (_, rec, path) = close_step(&close, &mut table).unwrap();
    assert_eq!((rec, path), (UploadRecord::Nothing, None));
}
