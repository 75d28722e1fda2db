use phaselith::guid::{clsid_phaselith_apo, guid_eq, guid_to_string, iid_iunknown, Guid, APO_FRIENDLY_NAME};

#[test]
fn clsid_text_form() {
    let text = guid_to_string(&clsid_phaselith_apo());
    assert_eq!(String::from_utf8(text).unwrap(), "{A1B2C3D4-E5F6-4A5B-9C8D-1E2F3A4B5C6D}");
}

#[test]
fn guid_text_pads_and_uppercases() {
    let g = Guid { data1: 0xab, data2: 0x1, data3: 0xf00, data4: [0, 1, 0xfe, 0x2c, 0, 0, 0, 0x9] };
    let text = String::from_utf8(guid_to_string(&g)).unwrap();
    assert_eq!(text, "{000000AB-0001-0F00-0001-FE2C00000009}");
    assert_eq!(
        String::from_utf8(guid_to_string(&iid_iunknown())).unwrap(),
        "{00000000-0000-0000-C000-000000000046}"
    );
}

#[test]
fn guid_equality() {
    assert!(guid_eq(&clsid_phaselith_apo(), &clsid_phaselith_apo()));
    assert!(!guid_eq(&clsid_phaselith_apo(), &iid_iunknown()));
    let mut g = clsid_phaselith_apo();
    g.data4[7] = 0;
    assert!(!guid_eq(&g, &clsid_phaselith_apo()));
    assert_eq!(APO_FRIENDLY_NAME, "Phaselith Audio Enhancement");
}
