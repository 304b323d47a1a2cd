use fuser::dispatch::OperationKind;
use fuser::request::{operation_kind, parse_in_header, parse_init_in, parse_request, read_u32, read_u64, InitIn, RequestMeta};

fn request(opcode: u32, unique: u64, uid: u32, body: &[u8]) -> Vec<u8> {
    let len = (40 + body.len()) as u32;
    let mut d = Vec::new();
    d.extend_from_slice(&len.to_le_bytes());
    d.extend_from_slice(&opcode.to_le_bytes());
    d.extend_from_slice(&unique.to_le_bytes());
    d.extend_from_slice(&1u64.to_le_bytes());
    d.extend_from_slice(&uid.to_le_bytes());
    d.extend_from_slice(&20u32.to_le_bytes());
    d.extend_from_slice(&30u32.to_le_bytes());
    d.extend_from_slice(&[0u8; 4]);
    d.extend_from_slice(body);
    d
}

#[test]
fn reads_little_endian() {
    let b = [1u8, 2, 3, 4, 5, 6, 7, 8, 9];
    assert_eq!(read_u32(&b, 0), 0x04030201);
    assert_eq!(read_u32(&b, 5), 0x09080706);
    assert_eq!(read_u64(&b, 1), 0x0908070605040302);
}

#[test]
fn header_parsing() {
    let d = request(1, 77, 1000, b"name\0");
    let h = parse_in_header(&d).unwrap();
    assert_eq!((h.len, h.opcode, h.unique, h.nodeid, h.uid, h.gid, h.pid), (45, 1, 77, 1, 1000, 20, 30));
    assert_eq!(RequestMeta::from_header(&h), RequestMeta { unique: 77, uid: 1000, gid: 20, pid: 30 });
    assert!(parse_in_header(&d[..39]).is_none());
    // A header announcing more bytes than were read is refused.
    assert!(parse_in_header(&d[..44]).is_none());
}

#[test]
fn request_kinds() {
    let mut init = Vec::new();
    init.extend_from_slice(&7u32.to_le_bytes());
    init.extend_from_slice(&31u32.to_le_bytes());
    let d = request(26, 1, 0, &init);
    let (meta, kind) = parse_request(&d).unwrap();
    assert_eq!(meta.unique, 1);
    assert_eq!(kind, Some(OperationKind::Init { major: 7, minor: 31 }));
    assert_eq!(parse_request(&request(26, 1, 0, &[7, 0, 0])).unwrap().1, None);
    let (meta, kind) = parse_request(&request(9999, 5, 3, &[])).unwrap();
    assert_eq!((meta.unique, meta.uid, kind), (5, 3, None));
    assert!(parse_request(&d[..20]).is_none());
    assert_eq!(operation_kind(3, &[]), Some(OperationKind::GetAttr));
    assert_eq!(operation_kind(38, &[]), Some(OperationKind::Destroy));
    assert_eq!(operation_kind(44, &[]), Some(OperationKind::ReadDirPlus));
    assert_eq!(operation_kind(4096, &[]), Some(OperationKind::CuseInit));
    let mut ioctl = vec![0u8; 8];
    ioctl.extend_from_slice(&2u32.to_le_bytes());
    assert_eq!(operation_kind(39, &ioctl), Some(OperationKind::IoCtl { unrestricted: true }));
    let mut ioctl = vec![0u8; 8];
    ioctl.extend_from_slice(&1u32.to_le_bytes());
    assert_eq!(operation_kind(39, &ioctl), Some(OperationKind::IoCtl { unrestricted: false }));
    assert_eq!(operation_kind(39, &[0; 11]), None);
}

#[test]
fn init_arguments() {
    let mut body = Vec::new();
    for w in [7u32, 40, 131072, 0x4000_0001, 0x2] {
        body.extend_from_slice(&w.to_le_bytes());
    }
    assert_eq!(
        parse_init_in(&body),
        Some(InitIn { major: 7, minor: 40, max_readahead: 131072, capabilities: 0x2_4000_0001 })
    );
    // Without FUSE_INIT_EXT the second flags word is ignored.
    body[15] = 0;
    assert_eq!(parse_init_in(&body).unwrap().capabilities, 0x1);
    assert_eq!(parse_init_in(&body[..16]).unwrap().capabilities, 0x1);
    assert_eq!(parse_init_in(&body[..15]), None);
}
