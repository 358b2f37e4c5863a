use tsuki::selector::{
    choose_crtc, label_or_unknown, order_crtc_candidates, physical_size_or_default, pick_connector,
    plan_output, select_mode, ConnectorInfo, CrtcInfo, EncoderInfo, ModeInfo, SelectError,
};

fn mode(width: u16, height: u16, vrefresh: u32, preferred: bool) -> ModeInfo {
    ModeInfo { width, height, vrefresh, preferred }
}

fn connector(
    handle: u32,
    connected: bool,
    interface: u32,
    modes: Vec<ModeInfo>,
    encoders: Vec<EncoderInfo>,
) -> ConnectorInfo {
    ConnectorInfo {
        handle,
        connected,
        interface,
        interface_id: 1,
        modes,
        encoders,
        physical_size_mm: None,
    }
}

const EDP: u32 = 14;
const HDMI: u32 = 11;

#[test]
fn mode_selection_picks_preferred_with_highest_refresh() {
    let modes = vec![
        mode(1920, 1080, 60, false),
        mode(1920, 1080, 75, true),
        mode(1280, 720, 60, true),
    ];
    assert_eq!(select_mode(&modes), Some(1));
    assert_eq!(modes[1], mode(1920, 1080, 75, true));
}

#[test]
fn mode_selection_is_reproducible() {
    let modes = vec![
        mode(1920, 1080, 60, false),
        mode(1920, 1080, 75, true),
        mode(1280, 720, 60, true),
    ];
    let first = select_mode(&modes);
    for _ in 0..16 {
        assert_eq!(select_mode(&modes), first);
    }
}

#[test]
fn mode_selection_falls_back_to_first_advertised() {
    let modes = vec![
        mode(1920, 1080, 60, false),
        mode(1280, 720, 144, false),
    ];
    assert_eq!(select_mode(&modes), Some(0));
}

#[test]
fn mode_selection_breaks_refresh_ties_by_order() {
    let modes = vec![
        mode(1920, 1080, 60, true),
        mode(1280, 720, 60, true),
    ];
    assert_eq!(select_mode(&modes), Some(0));
}

#[test]
fn mode_selection_of_empty_list_is_none() {
    assert_eq!(select_mode(&Vec::new()), None);
}

#[test]
fn connector_pick_takes_last_connected_matching() {
    let cs = vec![
        connector(1, true, EDP, vec![], vec![]),
        connector(2, true, HDMI, vec![], vec![]),
        connector(3, true, EDP, vec![], vec![]),
        connector(4, false, EDP, vec![], vec![]),
    ];
    assert_eq!(pick_connector(&cs, EDP), Some(2));
    assert_eq!(pick_connector(&cs, HDMI), Some(1));
}

#[test]
fn connector_pick_without_match_is_none() {
    let cs = vec![
        connector(1, false, EDP, vec![], vec![]),
        connector(2, true, HDMI, vec![], vec![]),
    ];
    assert_eq!(pick_connector(&cs, EDP), None);
}

#[test]
fn crtc_candidates_are_ordered_per_encoder_by_planes() {
    // encoder E1 drives C1 (2 overlay planes) and C2 (0); E2 drives C3 (1):
    // the attempt order is C1, C2, C3.
    let c1 = CrtcInfo { handle: 101, overlay_planes: 2 };
    let c2 = CrtcInfo { handle: 102, overlay_planes: 0 };
    let c3 = CrtcInfo { handle: 103, overlay_planes: 1 };
    let encoders = vec![
        EncoderInfo { crtcs: vec![c1, c2] },
        EncoderInfo { crtcs: vec![c3] },
    ];
    assert_eq!(order_crtc_candidates(&encoders), vec![c1, c2, c3]);
}

#[test]
fn crtc_ordering_within_encoder_is_stable_descending() {
    let a = CrtcInfo { handle: 1, overlay_planes: 0 };
    let b = CrtcInfo { handle: 2, overlay_planes: 3 };
    let c = CrtcInfo { handle: 3, overlay_planes: 3 };
    let d = CrtcInfo { handle: 4, overlay_planes: 1 };
    let encoders = vec![EncoderInfo { crtcs: vec![a, b, c, d] }];
    // descending by overlay planes; b before c because ties keep
    // enumeration order
    assert_eq!(order_crtc_candidates(&encoders), vec![b, c, d, a]);
}

#[test]
fn plan_output_selects_connector_mode_and_candidates() {
    let c1 = CrtcInfo { handle: 101, overlay_planes: 2 };
    let c2 = CrtcInfo { handle: 102, overlay_planes: 0 };
    let c3 = CrtcInfo { handle: 103, overlay_planes: 1 };
    let cs = vec![
        connector(1, true, HDMI, vec![mode(800, 600, 60, false)], vec![]),
        connector(
            2,
            true,
            EDP,
            vec![mode(1920, 1080, 60, false), mode(1920, 1080, 75, true)],
            vec![
                EncoderInfo { crtcs: vec![c1, c2] },
                EncoderInfo { crtcs: vec![c3] },
            ],
        ),
    ];
    let plan = plan_output(&cs, EDP).expect("a connected matching connector with modes");
    assert_eq!(plan.connector_index, 1);
    assert_eq!(plan.mode_index, 1);
    assert_eq!(plan.crtc_candidates, vec![c1, c2, c3]);
}

#[test]
fn plan_output_without_connector_reports_no_compatible_display() {
    let cs = vec![connector(1, false, EDP, vec![mode(800, 600, 60, true)], vec![])];
    assert_eq!(plan_output(&cs, EDP), Err(SelectError::NoCompatibleDisplay));
}

#[test]
fn plan_output_without_modes_reports_no_usable_mode() {
    let cs = vec![connector(1, true, EDP, vec![], vec![])];
    assert_eq!(plan_output(&cs, EDP), Err(SelectError::NoUsableMode));
}

#[test]
fn first_accepting_crtc_wins() {
    let c1 = CrtcInfo { handle: 101, overlay_planes: 2 };
    let c2 = CrtcInfo { handle: 102, overlay_planes: 1 };
    let c3 = CrtcInfo { handle: 103, overlay_planes: 0 };
    let candidates = vec![c1, c2, c3];
    assert_eq!(choose_crtc(&candidates, &vec![false, true, true]), Ok(1));
    assert_eq!(choose_crtc(&candidates, &vec![true, false, false]), Ok(0));
    assert_eq!(
        choose_crtc(&candidates, &vec![false, false, false]),
        Err(SelectError::NoUsableOutputPipeline)
    );
}

#[test]
fn physical_size_defaults_to_zero() {
    assert_eq!(physical_size_or_default(Some((340, 190))), (340, 190));
    assert_eq!(physical_size_or_default(None), (0, 0));
}

#[test]
fn labels_default_to_unknown() {
    assert_eq!(label_or_unknown(Some("ACME".to_string())), "ACME");
    assert_eq!(label_or_unknown(None), "Unknown");
}
