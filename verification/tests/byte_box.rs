use fuser::byte_box::ByteBox;
use std::sync::Arc;

#[test]
fn byte_box_borrowed() {
    let data: &[u8] = &[1, 2, 3];
    let byte_box = ByteBox::from(data);
    match byte_box {
        ByteBox::Borrowed(b) => assert_eq!(b, data),
        _ => panic!("Expected ByteBox::Borrowed"),
    }
    assert_eq!(byte_box.as_ref(), data);
    assert_eq!(&*byte_box, data);
}

#[test]
fn byte_box_owned_from_vec() {
    let data_vec: Vec<u8> = vec![4, 5, 6];
    let byte_box = ByteBox::from(data_vec.clone());
    match byte_box {
        ByteBox::Owned(ref b) => assert_eq!(b.as_ref(), data_vec.as_slice()),
        _ => panic!("Expected ByteBox::Owned"),
    }
    assert_eq!(byte_box.as_ref(), data_vec.as_slice());
}

#[test]
fn byte_box_owned_from_box() {
    let data_box: Box<[u8]> = vec![7, 8, 9].into_boxed_slice();
    let byte_box = ByteBox::from(data_box.clone());
    match byte_box {
        ByteBox::Owned(ref b) => assert_eq!(b.as_ref(), data_box.as_ref()),
        _ => panic!("Expected ByteBox::Owned"),
    }
    assert_eq!(byte_box.as_ref(), data_box.as_ref());
}

#[test]
fn byte_box_shared_from_arc() {
    let data_arc: Arc<[u8]> = Arc::new([10, 11, 12]);
    let byte_box = ByteBox::from(data_arc.clone());
    match byte_box {
        ByteBox::Shared(ref a) => assert_eq!(a.as_ref(), data_arc.as_ref()),
        _ => panic!("Expected ByteBox::Shared"),
    }
    assert_eq!(byte_box.as_ref(), data_arc.as_ref());
    assert!(Arc::ptr_eq(
        match byte_box {
            ByteBox::Shared(ref a) => a,
            _ => panic!(),
        },
        &data_arc
    ));
}

#[test]
fn byte_box_as_ref() {
    let data_static: &'static [u8] = b"static";
    let bb_borrowed = ByteBox::from(data_static);
    assert_eq!(bb_borrowed.as_ref(), b"static");

    let data_vec = vec![1, 2, 3];
    let bb_owned_vec = ByteBox::from(data_vec.clone());
    assert_eq!(bb_owned_vec.as_ref(), data_vec.as_slice());

    let data_box: Box<[u8]> = vec![4, 5, 6u8].into_boxed_slice();
    let bb_owned_box = ByteBox::from(data_box.clone());
    assert_eq!(bb_owned_box.as_ref(), data_box.as_ref());

    let data_arc: Arc<[u8]> = Arc::from(vec![7, 8, 9u8]);
    let bb_shared_arc = ByteBox::from(data_arc.clone());
    assert_eq!(bb_shared_arc.as_ref(), data_arc.as_ref());
}

#[test]
fn byte_box_deref() {
    let data_static: &'static [u8] = b"static_deref";
    let bb_borrowed: ByteBox<'_> = ByteBox::from(data_static);
    assert_eq!(&*bb_borrowed, b"static_deref");
    assert_eq!(bb_borrowed.len(), b"static_deref".len());
}

#[test]
fn byte_box_len_counts_every_ownership() {
    let empty: &[u8] = &[];
    assert_eq!(ByteBox::from(empty).len(), 0);
    assert_eq!(ByteBox::from(vec![1u8, 2, 3, 4]).len(), 4);
    let shared: Arc<[u8]> = Arc::from(vec![9u8; 7]);
    assert_eq!(ByteBox::from(shared).len(), 7);
}
