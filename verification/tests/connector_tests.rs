//! Tests of the output driver: connector discovery against a fake kernel
//! layer, CRTC resolution, mode setting and page flips.

use display_server::connector::ConnectorData;
use display_server::connector::ConnectorLoad;
use display_server::connector::ConnectorQuery;
use display_server::connector::ConnectorState;
use display_server::connector::DRIConnector;
use display_server::connector::DRMModeCRTC;
use display_server::connector::DRMModeEncoder;
use display_server::connector::DRMModeGetConnector;
use display_server::connector::DRMModeModeinfo;
use display_server::connector::OutputError;
use display_server::connector::DRM_MODE_PAGE_FLIP_EVENT;

fn mode(clock: u32, w: u16, h: u16) -> DRMModeModeinfo {
    let mut name = [0u8; 32];
    name[0] = b'm';
    DRMModeModeinfo {
        clock,
        hdisplay: w,
        hsync_start: w + 8,
        hsync_end: w + 16,
        htotal: w + 32,
        hskew: 0,
        vdisplay: h,
        vsync_start: h + 2,
        vsync_end: h + 4,
        vtotal: h + 8,
        vscan: 0,
        vrefresh: 60,
        flags: 0,
        type_: 0,
        name,
    }
}

fn sizing_reply(count_encoders: u32, count_modes: u32, count_props: u32) -> DRMModeGetConnector {
    DRMModeGetConnector {
        encoders_ptr: 0,
        modes_ptr: 0,
        props_ptr: 0,
        prop_values_ptr: 0,
        count_modes,
        count_props,
        count_encoders,
        encoder_id: 42,
        connector_id: 7,
        connector_type: 0,
        connector_type_id: 1,
        connection: 1,
        mm_width: 520,
        mm_height: 290,
        subpixel: 0,
        pad: 0,
    }
}

fn filling_reply(first: &DRMModeGetConnector) -> ConnectorData {
    ConnectorData {
        count_encoders: first.count_encoders,
        count_modes: first.count_modes,
        count_props: first.count_props,
        encoders: vec![42; first.count_encoders as usize],
        modes: vec![mode(65000, 1024, 768); first.count_modes as usize],
        props: vec![5; first.count_props as usize],
        prop_values: vec![77; first.count_props as usize],
    }
}

fn loaded_connector() -> DRIConnector {
    let first = sizing_reply(1, 2, 3);
    let second = filling_reply(&first);
    match DRIConnector::load(ConnectorQuery { first: Some(first), second: Some(second) }) {
        ConnectorLoad::Loaded(c) => c,
        _ => panic!("a consistent query must load"),
    }
}

#[test]
fn load_rejects_zero_mode_count() {
    // A fake kernel layer reporting count_modes = 0: nothing is attached.
    let first = sizing_reply(1, 0, 1);
    let r = DRIConnector::load(ConnectorQuery { first: Some(first), second: None });
    assert!(matches!(r, ConnectorLoad::Unusable));
}

#[test]
fn load_rejects_failed_queries() {
    let r = DRIConnector::load(ConnectorQuery { first: None, second: None });
    assert!(matches!(r, ConnectorLoad::Unusable));

    let first = sizing_reply(1, 1, 1);
    let r = DRIConnector::load(ConnectorQuery { first: Some(first), second: None });
    assert!(matches!(r, ConnectorLoad::Unusable));
}

#[test]
fn load_reports_changed_counts_as_transient() {
    let first = sizing_reply(1, 2, 1);
    let mut second = filling_reply(&first);
    second.count_modes = 3; // hotplug between the two queries
    let r = DRIConnector::load(ConnectorQuery { first: Some(first), second: Some(second) });
    assert!(matches!(r, ConnectorLoad::Transient));
}

#[test]
fn load_builds_connector_from_consistent_queries() {
    let first = sizing_reply(2, 1, 3);
    let second = filling_reply(&first);
    let r = DRIConnector::load(ConnectorQuery { first: Some(first), second: Some(second) });
    match r {
        ConnectorLoad::Loaded(c) => {
            assert_eq!(c.mm_width, 520);
            assert_eq!(c.mm_height, 290);
            assert_eq!(c.encoder_id, 42);
            assert_eq!(c.encoders, vec![42, 42]);
            assert_eq!(c.modes.len(), 1);
            assert_eq!(c.modes[0].clock, 65000);
            assert_eq!(c.modes[0].hdisplay, 1024);
            assert_eq!(c.props, vec![5, 5, 5]);
            assert_eq!(c.prop_values, vec![77, 77, 77]);
            assert!(matches!(c.state, ConnectorState::NoCrtc));
        }
        _ => panic!("consistent queries must load"),
    }
}

#[test]
fn scan_keeps_only_usable_connectors_in_order() {
    let good_a = sizing_reply(1, 1, 1);
    let fill_a = filling_reply(&good_a);
    let dead = sizing_reply(1, 0, 1);
    let mut good_b = sizing_reply(1, 2, 1);
    good_b.mm_width = 300;
    let fill_b = filling_reply(&good_b);
    let racy = sizing_reply(1, 1, 1);
    let mut racy_fill = filling_reply(&racy);
    racy_fill.count_modes = 2; // changed between the phases: retried elsewhere
    let queries = vec![
        ConnectorQuery { first: Some(good_a), second: Some(fill_a) },
        ConnectorQuery { first: Some(dead), second: None },
        ConnectorQuery { first: None, second: None },
        ConnectorQuery { first: Some(racy), second: Some(racy_fill) },
        ConnectorQuery { first: Some(good_b), second: Some(fill_b) },
    ];
    let connectors = DRIConnector::scan(queries);
    assert_eq!(connectors.len(), 2);
    assert_eq!(connectors[0].mm_width, 520);
    assert_eq!(connectors[1].mm_width, 300);
    assert_eq!(connectors[1].modes.len(), 2);
}

#[test]
fn get_crtc_needs_both_lookups_to_succeed() {
    let conn = loaded_connector();
    // Encoder query failed.
    assert!(conn.get_crtc(None, None).is_none());

    // Encoder query succeeded, CRTC query failed.
    let encoder = DRMModeEncoder {
        encoder_id: 42,
        encoder_type: 0,
        crtc_id: 9,
        possible_crtcs: 1,
        possible_clones: 0,
    };
    assert!(conn.get_crtc(Some(&encoder), None).is_none());

    // An unset CRTC id means "no active CRTC".
    let unset = DRMModeEncoder { crtc_id: 0, ..encoder };
    assert!(conn.get_crtc(Some(&unset), None).is_none());

    // Both lookups succeeded.
    let crtc = DRMModeCRTC {
        set_connectors_ptr: 0,
        count_connectors: 0,
        crtc_id: 9,
        fb_id: 3,
        x: 0,
        y: 0,
        gamma_size: 256,
        mode_valid: 1,
        mode: mode(65000, 1024, 768),
    };
    let got = conn.get_crtc(Some(&encoder), Some(&crtc)).expect("resolution must succeed");
    assert_eq!(got.crtc_id, 9);
    assert_eq!(got.fb_id, 3);
}

#[test]
fn set_mode_refuses_undiscovered_mode() {
    let conn = loaded_connector();
    let foreign = mode(148500, 1920, 1080);
    assert_eq!(conn.set_mode(9, 3, &foreign).unwrap_err(), OutputError::UnknownMode);
}

#[test]
fn set_mode_builds_commit_for_discovered_mode() {
    let conn = loaded_connector();
    let m = mode(65000, 1024, 768);
    let cmd = conn.set_mode(9, 3, &m).expect("a discovered mode must be accepted");
    assert_eq!(cmd.crtc_id, 9);
    assert_eq!(cmd.fb_id, 3);
    assert_eq!(cmd.mode_valid, 1);
    assert_eq!(cmd.mode.clock, 65000);
    assert_eq!(cmd.mode.hdisplay, 1024);
    assert_eq!(cmd.set_connectors_ptr, 0);
}

#[test]
fn commit_mode_binds_or_reports_rejection() {
    let mut conn = loaded_connector();
    let m = mode(65000, 1024, 768);
    let r = conn.commit_mode(9, 3, &m, false);
    assert_eq!(r.unwrap_err(), OutputError::ModeRejected);
    assert!(matches!(conn.state, ConnectorState::NoCrtc));

    conn.commit_mode(9, 3, &m, true).expect("a confirmed commit must bind");
    match conn.state {
        ConnectorState::Bound { crtc_id, fb_id, mode } => {
            assert_eq!(crtc_id, 9);
            assert_eq!(fb_id, 3);
            assert_eq!(mode.clock, 65000);
        }
        ConnectorState::NoCrtc => panic!("commit must leave the connector bound"),
    }
}

#[test]
fn page_flip_without_bound_crtc_fails_explicitly() {
    let conn = loaded_connector();
    assert_eq!(conn.page_flip(11).unwrap_err(), OutputError::NotBound);
}

#[test]
fn page_flip_on_bound_crtc_requests_an_event() {
    let mut conn = loaded_connector();
    let m = mode(65000, 1024, 768);
    conn.commit_mode(9, 3, &m, true).unwrap();
    let flip = conn.page_flip(11).expect("a bound connector must accept a flip");
    assert_eq!(flip.crtc_id, 9);
    assert_eq!(flip.fb_id, 11);
    assert_eq!(flip.flags, DRM_MODE_PAGE_FLIP_EVENT);
    assert_eq!(flip.reserved, 0);
    assert_eq!(flip.user_data, 0);
}
