use git_browser::objects::{Entry, ObjectId, ObjectKind, ObjectRef, SHORT_ID_DIGITS};

#[test]
fn hex_of_zero_id() {
    let id = ObjectId { bytes: [0; 20] };
    assert_eq!(id.to_hex(), "0000000000000000000000000000000000000000");
}

#[test]
fn hex_is_lower_case_high_half_first() {
    let id = ObjectId {
        bytes: [
            0x01, 0x23, 0x45, 0x67, 0x89, 0xab, 0xcd, 0xef, 0xf0, 0x0f, 0x10, 0xa0, 0x0a, 0xff,
            0x7f, 0x80, 0x99, 0xde, 0xad, 0xbe,
        ],
    };
    assert_eq!(id.to_hex(), "0123456789abcdeff00f10a00aff7f8099deadbe");
}

#[test]
fn hex_has_forty_digits() {
    let id = ObjectId { bytes: [0xff; 20] };
    let text = id.to_hex();
    assert_eq!(text.len(), 40);
    assert_eq!(text, "f".repeat(40));
}

#[test]
fn hex_agrees_with_git() {
    let oid = git2::Oid::from_str("da39a3ee5e6b4b0d3255bfef95601890afd80709").unwrap();
    let mut bytes = [0u8; 20];
    bytes.copy_from_slice(oid.as_bytes());
    assert_eq!(ObjectId { bytes }.to_hex(), "da39a3ee5e6b4b0d3255bfef95601890afd80709");
}

#[test]
fn short_hex_is_the_first_seven_digits() {
    let id = ObjectId {
        bytes: [
            0x01, 0x23, 0x45, 0x67, 0x89, 0xab, 0xcd, 0xef, 0xf0, 0x0f, 0x10, 0xa0, 0x0a, 0xff,
            0x7f, 0x80, 0x99, 0xde, 0xad, 0xbe,
        ],
    };
    assert_eq!(SHORT_ID_DIGITS, 7);
    assert_eq!(id.to_short_hex(), "0123456");
    assert_eq!(id.to_short_hex(), id.to_hex()[..7]);
}

#[test]
fn short_hex_of_zero_id() {
    assert_eq!(ObjectId { bytes: [0; 20] }.to_short_hex(), "0000000");
}

#[test]
fn short_hex_ends_in_the_high_half_of_the_fourth_byte() {
    let mut bytes = [0u8; 20];
    bytes[3] = 0xf1;
    assert_eq!(ObjectId { bytes }.to_short_hex(), "000000f");
}

#[test]
fn objects_compare_by_id_and_kind() {
    let a = ObjectRef { id: ObjectId { bytes: [1; 20] }, kind: ObjectKind::Tree };
    let b = ObjectRef { id: ObjectId { bytes: [1; 20] }, kind: ObjectKind::Tree };
    let c = ObjectRef { id: ObjectId { bytes: [1; 20] }, kind: ObjectKind::Blob };
    let d = ObjectRef { id: ObjectId { bytes: [2; 20] }, kind: ObjectKind::Tree };
    assert_eq!(a, b);
    assert_ne!(a, c);
    assert_ne!(a, d);
}

#[test]
fn entries_compare_by_name_and_object() {
    let object = ObjectRef { id: ObjectId { bytes: [1; 20] }, kind: ObjectKind::Tree };
    let a = Entry { name: "src".to_string(), object };
    let b = Entry { name: "src".to_string(), object };
    let c = Entry { name: "doc".to_string(), object };
    assert_eq!(a, b);
    assert_ne!(a, c);
}
