use winit_kms::negotiate::{
    find_plane, negotiate, plane_is_compatible, plane_is_primary, select_connector, select_crtc,
    select_mode, ConnectorInfo, CrtcEntry, ModeInfo, NegotiationError, PlaneInfo, PlaneProperty,
    Selection, MODE_TYPE_PREFERRED, PLANE_TYPE_PRIMARY,
};

fn mode(width: u16, height: u16, mode_type: u32) -> ModeInfo {
    ModeInfo {
        name: format!("{}x{}", width, height),
        width,
        height,
        vrefresh: 60,
        mode_type,
    }
}

fn connector(handle: u32, connected: bool, modes: Vec<ModeInfo>) -> ConnectorInfo {
    ConnectorInfo { handle, connected, modes }
}

fn crtc(handle: u32) -> CrtcEntry {
    CrtcEntry { handle, available: true }
}

fn plane(handle: u32, compatible_crtcs: Vec<u32>, plane_type: Option<u64>) -> PlaneInfo {
    let mut properties = vec![PlaneProperty { name: Some("FB_ID".to_string()), value: 0 }];
    if let Some(t) = plane_type {
        properties.push(PlaneProperty { name: Some("type".to_string()), value: t });
    }
    PlaneInfo { handle, compatible_crtcs, properties }
}

const OVERLAY: u64 = 0;

#[test]
fn single_connected_connector_selected_in_any_position() {
    for pos in 0..4usize {
        let connectors: Vec<ConnectorInfo> = (0..4usize)
            .map(|i| connector(30 + i as u32, i == pos, vec![mode(640, 480, 0)]))
            .collect();
        assert_eq!(select_connector(&connectors), Some(pos));
        let r = negotiate(&connectors, &vec![crtc(40)], &vec![plane(50, vec![40], Some(PLANE_TYPE_PRIMARY))]);
        assert_eq!(r.map(|s| s.connector), Ok(pos));
    }
}

#[test]
fn first_of_several_connected_connectors_selected() {
    let connectors = vec![
        connector(1, false, vec![]),
        connector(2, true, vec![mode(800, 600, 0)]),
        connector(3, true, vec![mode(1024, 768, 0)]),
    ];
    assert_eq!(select_connector(&connectors), Some(1));
}

#[test]
fn preferred_mode_selected_over_first_mode() {
    let modes = vec![mode(1920, 1080, 0), mode(1024, 768, 0), mode(1280, 720, MODE_TYPE_PREFERRED)];
    assert_eq!(select_mode(&modes), Some(2));
}

#[test]
fn preferred_flag_among_other_flags() {
    // DRM_MODE_TYPE_DRIVER (0x40) together with the preferred bit.
    let modes = vec![mode(1920, 1080, 0x40), mode(1280, 720, 0x40 | MODE_TYPE_PREFERRED)];
    assert_eq!(select_mode(&modes), Some(1));
}

#[test]
fn first_mode_selected_without_preferred() {
    let modes = vec![mode(1920, 1080, 0x40), mode(1280, 720, 0)];
    assert_eq!(select_mode(&modes), Some(0));
    assert_eq!(select_mode(&vec![]), None);
}

#[test]
fn first_available_crtc_selected() {
    let crtcs = vec![CrtcEntry { handle: 7, available: false }, crtc(8), crtc(9)];
    assert_eq!(select_crtc(&crtcs), Some(1));
    assert_eq!(select_crtc(&vec![CrtcEntry { handle: 7, available: false }]), None);
}

#[test]
fn plane_compatibility_looks_for_chosen_crtc_handle() {
    let crtcs = vec![crtc(10), crtc(11), crtc(12)];
    assert!(plane_is_compatible(&plane(1, vec![11], None), &crtcs, 1));
    assert!(!plane_is_compatible(&plane(1, vec![11], None), &crtcs, 0));
    assert!(plane_is_compatible(&plane(1, vec![10, 12], None), &crtcs, 2));
    assert!(!plane_is_compatible(&plane(1, vec![], None), &crtcs, 0));
}

#[test]
fn plane_type_read_from_first_type_property() {
    assert!(plane_is_primary(&plane(1, vec![10], Some(PLANE_TYPE_PRIMARY))));
    assert!(!plane_is_primary(&plane(1, vec![10], Some(OVERLAY))));
    assert!(!plane_is_primary(&plane(1, vec![10], None)));
    let two_types = PlaneInfo {
        handle: 1,
        compatible_crtcs: vec![10],
        properties: vec![
            PlaneProperty { name: None, value: 1 },
            PlaneProperty { name: Some("type".to_string()), value: 2 },
            PlaneProperty { name: Some("type".to_string()), value: 1 },
        ],
    };
    assert!(!plane_is_primary(&two_types));
}

#[test]
fn primary_plane_preferred_over_earlier_overlay() {
    let crtcs = vec![crtc(10)];
    let planes = vec![
        plane(20, vec![10], Some(OVERLAY)),
        plane(21, vec![11], Some(PLANE_TYPE_PRIMARY)),
        plane(22, vec![10], Some(PLANE_TYPE_PRIMARY)),
    ];
    assert_eq!(find_plane(&planes, &crtcs, 0), Some(2));
}

#[test]
fn compatible_non_primary_plane_used_when_no_primary() {
    let crtcs = vec![crtc(10), crtc(11)];
    let planes = vec![
        plane(20, vec![10], Some(OVERLAY)),
        plane(21, vec![11], Some(OVERLAY)),
        plane(22, vec![11], Some(2)),
    ];
    assert_eq!(find_plane(&planes, &crtcs, 1), Some(1));
    let r = negotiate(&vec![connector(1, true, vec![mode(640, 480, 0)])], &vec![CrtcEntry { handle: 10, available: false }, crtc(11)], &planes);
    assert_eq!(r, Ok(Selection { connector: 0, mode: 0, crtc: 1, plane: 1 }));
}

#[test]
fn connected_connector_with_preferred_second_mode() {
    let connectors = vec![
        connector(31, false, vec![mode(1024, 768, MODE_TYPE_PREFERRED)]),
        connector(32, false, vec![mode(800, 600, MODE_TYPE_PREFERRED)]),
        connector(33, true, vec![mode(1920, 1080, 0), mode(1280, 720, MODE_TYPE_PREFERRED)]),
        connector(34, false, vec![]),
    ];
    let crtcs = vec![crtc(40), crtc(41)];
    let planes = vec![plane(50, vec![40, 41], Some(PLANE_TYPE_PRIMARY))];
    let s = negotiate(&connectors, &crtcs, &planes).unwrap();
    assert_eq!(s, Selection { connector: 2, mode: 1, crtc: 0, plane: 0 });
    let chosen = &connectors[s.connector].modes[s.mode];
    assert_eq!((chosen.width, chosen.height), (1280, 720));
    assert_eq!(connectors[s.connector].handle, 33);
}

#[test]
fn no_connected_connector_is_an_error() {
    let connectors = vec![connector(1, false, vec![mode(640, 480, 0)])];
    let r = negotiate(&connectors, &vec![crtc(2)], &vec![plane(3, vec![2], None)]);
    assert_eq!(r, Err(NegotiationError::NoConnectedConnector));
    assert_eq!(negotiate(&vec![], &vec![], &vec![]), Err(NegotiationError::NoConnectedConnector));
}

#[test]
fn no_crtc_is_an_error() {
    let connectors = vec![connector(1, true, vec![mode(640, 480, 0)])];
    assert_eq!(negotiate(&connectors, &vec![], &vec![plane(3, vec![2], None)]), Err(NegotiationError::NoCrtc));
    let unanswered = vec![CrtcEntry { handle: 2, available: false }];
    assert_eq!(negotiate(&connectors, &unanswered, &vec![]), Err(NegotiationError::NoCrtc));
}

#[test]
fn connector_without_modes_is_an_error() {
    let connectors = vec![connector(1, true, vec![]), connector(2, true, vec![mode(640, 480, 0)])];
    let r = negotiate(&connectors, &vec![crtc(2)], &vec![plane(3, vec![2], None)]);
    assert_eq!(r, Err(NegotiationError::NoModes));
}

#[test]
fn no_compatible_plane_is_an_error() {
    let connectors = vec![connector(1, true, vec![mode(640, 480, 0)])];
    let planes = vec![plane(3, vec![5], Some(PLANE_TYPE_PRIMARY)), plane(4, vec![], None)];
    let r = negotiate(&connectors, &vec![crtc(2)], &planes);
    assert_eq!(r, Err(NegotiationError::NoCompatiblePlane));
    assert_eq!(negotiate(&connectors, &vec![crtc(2)], &vec![]), Err(NegotiationError::NoCompatiblePlane));
}
