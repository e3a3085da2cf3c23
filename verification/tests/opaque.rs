use spdmlib::opaque::{get_supported_secure_spdm_version_list, version_selection};

fn dsp0277(elements: &[u8], total: u8) -> Vec<u8> {
    let mut o = vec![0x46, 0x54, 0x4D, 0x44, 0x01, total, 0x00, 0x00];
    o.extend_from_slice(elements);
    o
}

#[test]
fn version_list_in_format_0() {
    let o = dsp0277(&[0, 0, 7, 0, 1, 1, 2, 0x00, 0x10, 0x00, 0x11, 0], 1);
    let l = get_supported_secure_spdm_version_list(&o, false).unwrap();
    assert_eq!(l.version_count, 2);
    assert_eq!(l.versions_list, vec![0x10, 0x11]);
    assert!(get_supported_secure_spdm_version_list(&o, true).is_none());
}

#[test]
fn version_list_in_format_1() {
    let o = vec![1, 0, 0, 0, 0, 0, 5, 0, 1, 1, 1, 0x00, 0x12, 0, 0, 0];
    let l = get_supported_secure_spdm_version_list(&o, true).unwrap();
    assert_eq!(l.version_count, 1);
    assert_eq!(l.versions_list, vec![0x12]);
}

#[test]
fn elements_of_other_registries_are_skipped() {
    let mut e = vec![1, 2, 0xAA, 0xBB, 1, 0, 0x99, 0];
    e.extend_from_slice(&[0, 0, 5, 0, 1, 1, 1, 0x00, 0x11, 0, 0, 0]);
    let o = dsp0277(&e, 2);
    let l = get_supported_secure_spdm_version_list(&o, false).unwrap();
    assert_eq!(l.versions_list, vec![0x11]);
}

#[test]
fn version_selection_elements_are_not_a_list() {
    let o = dsp0277(&[0, 0, 4, 0, 1, 0, 0x00, 0x11], 1);
    assert!(get_supported_secure_spdm_version_list(&o, false).is_none());
}

#[test]
fn malformed_opaque_data_has_no_list() {
    assert!(get_supported_secure_spdm_version_list(&[], false).is_none());
    assert!(get_supported_secure_spdm_version_list(&[1, 0, 0], true).is_none());
    let mut o = dsp0277(&[0, 0, 7, 0, 1, 1, 2, 0x00, 0x10, 0x00, 0x11, 0], 1);
    o[0] = 0x47;
    assert!(get_supported_secure_spdm_version_list(&o, false).is_none());
    let o = dsp0277(&[0, 0, 9, 0, 1, 1, 2], 1);
    assert!(get_supported_secure_spdm_version_list(&o, false).is_none());
}

#[test]
fn long_lists_keep_their_count_and_first_versions() {
    let mut data = vec![1, 1, 6];
    for v in [0x10u8, 0x11, 0x12, 0x13] {
        data.extend_from_slice(&[0, v]);
    }
    let mut e = vec![0, 0, data.len() as u8, 0];
    e.extend_from_slice(&data);
    while e.len() % 4 != 0 {
        e.push(0);
    }
    let o = dsp0277(&e, 1);
    let l = get_supported_secure_spdm_version_list(&o, false).unwrap();
    assert_eq!(l.version_count, 6);
    assert_eq!(l.versions_list, vec![0x10, 0x11, 0x12, 0x13]);
}

#[test]
fn selection_in_both_formats() {
    assert_eq!(
        version_selection(false, 0x12),
        vec![0x46, 0x54, 0x4D, 0x44, 1, 1, 0, 0, 0, 0, 4, 0, 1, 0, 0, 0x12]
    );
    assert_eq!(version_selection(true, 0x11), vec![1, 0, 0, 0, 0, 0, 4, 0, 1, 0, 0, 0x11]);
}
