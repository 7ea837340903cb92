use akp05::mappings::{
    ImageMirroring, ImageMode, ImageRotation, Kind, AJAZZ_VID, AKP03E_REV2_PID, AKP05E_PID,
    DEVICE_NAMESPACE, ENCODER_COUNT, KEY_COUNT,
};

#[test]
fn geometry() {
    let k = Kind::Akp05E;
    assert_eq!(k.row_count(), 2);
    assert_eq!(k.col_count(), 5);
    assert_eq!(k.key_count(), 10);
    assert_eq!(k.encoder_count(), 4);
    assert_eq!(KEY_COUNT, 10);
    assert_eq!(ENCODER_COUNT, 4);
}

#[test]
fn known_ids_are_akp05e() {
    assert_eq!(Kind::from_vid_pid(0x0300, 0x3002), Some(Kind::Akp05E));
    assert_eq!(Kind::from_vid_pid(0x0300, 0x3004), Some(Kind::Akp05E));
    assert_eq!(Kind::from_vid_pid(AJAZZ_VID, AKP03E_REV2_PID), Some(Kind::Akp05E));
    assert_eq!(Kind::from_vid_pid(AJAZZ_VID, AKP05E_PID), Some(Kind::Akp05E));
}

#[test]
fn unknown_ids_are_rejected() {
    assert_eq!(Kind::from_vid_pid(0x0300, 0x3003), None);
    assert_eq!(Kind::from_vid_pid(0x0301, 0x3004), None);
    assert_eq!(Kind::from_vid_pid(0, 0), None);
}

#[test]
fn button_index_table() {
    let k = Kind::Akp05E;
    let expected: [usize; 15] = [10, 11, 12, 13, 14, 5, 6, 7, 8, 9, 0, 1, 2, 3, 4];
    for (i, p) in expected.iter().enumerate() {
        assert_eq!(k.map_button_index(i), *p);
    }
}

#[test]
fn button_index_round_trips() {
    let k = Kind::Akp05E;
    let mut seen = [false; 15];
    for i in 0..15 {
        let p = k.map_button_index(i);
        assert!(p < 15);
        assert!(!seen[p]);
        seen[p] = true;
        assert_eq!(k.map_button_index(p), i);
    }
    assert!(seen.iter().all(|s| *s));
}

#[test]
fn name_and_protocol() {
    let k = Kind::Akp05E;
    assert_eq!(k.human_name(), "Ajazz AKP05E");
    assert_eq!(k.protocol_version(), 3);
    assert_eq!(DEVICE_NAMESPACE, "a5");
}

#[test]
fn image_format_is_rotated_jpeg() {
    let f = Kind::Akp05E.image_format();
    assert_eq!(f.mode, ImageMode::JPEG);
    assert_eq!(f.size, (120, 120));
    assert_eq!(f.rotation, ImageRotation::Rot180);
    assert_eq!(f.mirror, ImageMirroring::NoMirror);
}
