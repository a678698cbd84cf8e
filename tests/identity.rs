use diskblock::db_uuid::DbUuid;
use diskblock::disk::{resolve_mounted, Disk, DiskDescription, MountedVolume, ResolutionError, UNNAMED_VOLUME};

const MSI_BYTES: [u8; 16] = [
    0x49, 0xD0, 0x00, 0x07, 0xFF, 0x63, 0x36, 0xB9, 0x9D, 0x69, 0x6B, 0x3B, 0xE1, 0x68, 0x66, 0xBB,
];

fn description(uuid: Option<[u8; 16]>, name: Option<&str>, path: Option<&str>) -> DiskDescription {
    DiskDescription {
        volume_uuid: uuid.map(DbUuid::from_bytes),
        volume_name: name.map(|n| n.to_string()),
        volume_path: path.map(|p| p.to_string()),
    }
}

#[test]
fn uuid_text_is_upper_case_hyphenated() {
    let uuid = DbUuid::from_bytes(MSI_BYTES);
    assert_eq!(uuid.to_hyphenated(), "49D00007-FF63-36B9-9D69-6B3BE16866BB");
    let parsed = uuid::Uuid::parse_str("49d00007-ff63-36b9-9d69-6b3be16866bb").unwrap();
    assert_eq!(*parsed.as_bytes(), MSI_BYTES);
}

#[test]
fn uuid_text_of_counting_bytes() {
    let mut bytes = [0u8; 16];
    for (i, b) in bytes.iter_mut().enumerate() {
        *b = (i as u8) * 17;
    }
    assert_eq!(
        DbUuid::from_bytes(bytes).to_hyphenated(),
        "00112233-4455-6677-8899-AABBCCDDEEFF"
    );
}

#[test]
fn nil_uuid_is_all_zero() {
    let nil = DbUuid::nil();
    assert!(nil.is_nil());
    assert_eq!(nil.bytes, [0u8; 16]);
    assert_eq!(nil.to_hyphenated(), "00000000-0000-0000-0000-000000000000");
    assert!(!DbUuid::from_bytes(MSI_BYTES).is_nil());
    let mut last = [0u8; 16];
    last[15] = 1;
    assert!(!DbUuid::from_bytes(last).is_nil());
}

#[test]
fn uuid_equality_compares_every_byte() {
    assert_eq!(DbUuid::from_bytes(MSI_BYTES), DbUuid::from_bytes(MSI_BYTES));
    let mut other = MSI_BYTES;
    other[15] ^= 1;
    assert_ne!(DbUuid::from_bytes(MSI_BYTES), DbUuid::from_bytes(other));
    let mut first = MSI_BYTES;
    first[0] ^= 0x80;
    assert_ne!(DbUuid::from_bytes(MSI_BYTES), DbUuid::from_bytes(first));
}

#[test]
fn resolve_complete_description() {
    let d = description(Some(MSI_BYTES), Some("Monitor"), Some("file:///Volumes/Monitor/"));
    let disk = Disk::from_ref(Some(&d), None).unwrap();
    assert_eq!(disk.name, "Monitor");
    assert_eq!(disk.path.as_deref(), Some("file:///Volumes/Monitor/"));
    assert_eq!(disk.uuid, DbUuid::from_bytes(MSI_BYTES));
}

#[test]
fn resolve_without_name_uses_default_name() {
    let d = description(Some(MSI_BYTES), None, Some("file:///Volumes/Untitled/"));
    let disk = Disk::from_ref(Some(&d), None).unwrap();
    assert_eq!(disk.name, "Unnamed Volume");
    assert_eq!(disk.name, UNNAMED_VOLUME);
    assert_eq!(disk.uuid, DbUuid::from_bytes(MSI_BYTES));
    assert_eq!(disk.path.as_deref(), Some("file:///Volumes/Untitled/"));
}

#[test]
fn resolve_without_description_fails() {
    let r = Disk::from_ref(None, Some("file:///Volumes/X/".to_string()));
    assert_eq!(r.unwrap_err(), ResolutionError::DescriptionUnavailable);
    assert_eq!(Disk::from_ref(None, None).unwrap_err(), ResolutionError::DescriptionUnavailable);
}

#[test]
fn resolve_without_uuid_gives_nil() {
    let d = description(None, Some("Stick"), None);
    let disk = Disk::from_ref(Some(&d), None).unwrap();
    assert!(disk.uuid.is_nil());
    assert_eq!(disk.name, "Stick");
    assert_eq!(disk.path, None);
}

#[test]
fn resolve_of_empty_description_defaults_everything() {
    let d = description(None, None, None);
    let disk = Disk::from_ref(Some(&d), None).unwrap();
    assert!(disk.uuid.is_nil());
    assert_eq!(disk.name, "Unnamed Volume");
    assert_eq!(disk.path, None);
}

#[test]
fn known_volume_path_wins_over_description_path() {
    let d = description(Some(MSI_BYTES), Some("Monitor"), Some("file:///from/description/"));
    let disk = Disk::from_ref(Some(&d), Some("file:///Volumes/Known/".to_string())).unwrap();
    assert_eq!(disk.path.as_deref(), Some("file:///Volumes/Known/"));
}

#[test]
fn resolve_mounted_keeps_order_and_failures_in_place() {
    let volumes = vec![
        MountedVolume {
            description: Some(description(Some(MSI_BYTES), Some("A"), None)),
            mount_path: Some("file:///Volumes/A/".to_string()),
        },
        MountedVolume { description: None, mount_path: Some("file:///Volumes/B/".to_string()) },
        MountedVolume { description: Some(description(None, None, None)), mount_path: None },
    ];
    let r = resolve_mounted(&volumes);
    assert_eq!(r.len(), 3);
    let a = r[0].as_ref().unwrap();
    assert_eq!(a.name, "A");
    assert_eq!(a.path.as_deref(), Some("file:///Volumes/A/"));
    assert_eq!(r[1].as_ref().unwrap_err(), &ResolutionError::DescriptionUnavailable);
    let c = r[2].as_ref().unwrap();
    assert_eq!(c.name, "Unnamed Volume");
    assert!(c.uuid.is_nil());
}

#[test]
fn resolve_mounted_of_nothing_is_empty() {
    assert!(resolve_mounted(&Vec::new()).is_empty());
}

#[test]
fn disk_label_with_and_without_path() {
    let d = description(Some(MSI_BYTES), Some("Monitor"), None);
    let disk = Disk::from_ref(Some(&d), None).unwrap();
    assert_eq!(disk.label(), "Monitor (49D00007-FF63-36B9-9D69-6B3BE16866BB)");
    let disk = Disk::from_ref(Some(&d), Some("/Volumes/Monitor".to_string())).unwrap();
    assert_eq!(
        disk.label(),
        "Monitor (49D00007-FF63-36B9-9D69-6B3BE16866BB) /Volumes/Monitor"
    );
}
