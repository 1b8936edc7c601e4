//! Behavioural tests of the WPS adapter library: coordinate conversion,
//! MAC normalization, request building, the binary envelope, the
//! position estimator and the fallback order.

use wps_adapter::apple_wps::{AlsLocation, AlsLocationRequest, AlsLocationResponse, CellRequest,
    GsmCellTower, LteCellTower, Nr5gCellTower, ScdmaCellTower, WifiAltitudeScale, WifiBand,
    WirelessAp};
use wps_adapter::coordinator::{conclude, plan_upstream_request, LocateOutcome};
use wps_adapter::envelope::{
    build_apple_request_body, extract_response_payload, usable_reply_payload, ClientIdentity,
};
use wps_adapter::estimator::{
    estimate_from_response, estimate_position_from_aps, estimate_position_from_cells,
};
use wps_adapter::mls::{
    build_error_response, normalize_bssid, CellTower, EstimatedPosition, FallbackTag, IpHint,
    MlsRequest, WifiAccessPoint,
};

fn location(lat: i64, lng: i64, acc: i32) -> AlsLocation {
    AlsLocation {
        latitude: lat,
        longitude: lng,
        accuracy: acc,
        location_type: None,
        altitude: None,
        vertical_accuracy: None,
        confidence: None,
    }
}

fn empty_response() -> AlsLocationResponse {
    AlsLocationResponse {
        gsm_cell_towers: Vec::new(),
        wireless_aps: Vec::new(),
        lte_cell_towers: Vec::new(),
        scdma_cell_towers: Vec::new(),
        nr5g_cell_towers: Vec::new(),
    }
}

fn ap_with(loc: Option<AlsLocation>) -> WirelessAp {
    WirelessAp { mac_id: b"aa:bb:cc:dd:ee:ff".to_vec(), location: loc, channel: None }
}

fn cell(radio: &[u8], mcc: i32, mnc: i32, lac: i32, cid: i32) -> CellRequest {
    CellRequest { radio_type: radio.to_vec(), mcc, mnc, lac, cell_id: cid }
}

fn hint(postal: bool, city: bool, region: bool) -> IpHint {
    IpHint {
        lat_fp: 5_200_000_000,
        lng_fp: 1_300_000_000,
        has_postal_code: postal,
        has_city: city,
        has_region: region,
    }
}

#[test]
fn sentinel_latitude_yields_no_coordinates() {
    let loc = location(-18_000_000_000, 999, 42);
    assert!(loc.to_coordinates().is_none());
    let loc2 = location(-18_000_000_000, 0, -7);
    assert!(loc2.to_coordinates().is_none());
}

#[test]
fn fixed_point_conversion_scales_to_degrees() {
    let loc = location(407_128_000, -740_060_000, 25);
    let (lat_fp, lng_fp, acc) = loc.to_coordinates().unwrap();
    assert_eq!(lat_fp, 407_128_000);
    assert_eq!(lng_fp, -740_060_000);
    assert_eq!(acc, 25);
    // The caller-facing degree value: fixed point scaled by 1e-8.
    assert_eq!(lat_fp as f64 * 0.00000001, 4.07128);
}

#[test]
fn mac_normalization_formats_agree() {
    let a = normalize_bssid(&b"AA-BB-CC-DD-EE-FF".to_vec());
    let b = normalize_bssid(&b"aa:bb:cc:dd:ee:ff".to_vec());
    assert_eq!(a, b"aa:bb:cc:dd:ee:ff".to_vec());
    assert_eq!(a, b);
}

#[test]
fn mac_normalization_is_idempotent() {
    let once = normalize_bssid(&b"0A-1b-C2-d3-E4-f5".to_vec());
    let twice = normalize_bssid(&once);
    assert_eq!(once, twice);
    assert_eq!(once, b"0a:1b:c2:d3:e4:f5".to_vec());
}

#[test]
fn proportional_surrounding_counts() {
    let cells = vec![
        cell(b"gsm", 262, 1, 100, 1),
        cell(b"gsm", 262, 1, 100, 2),
        cell(b"gsm", 262, 1, 100, 3),
        cell(b"lte", 262, 1, 100, 4),
    ];
    let r = AlsLocationRequest::new_cell_request(cells, 25);
    assert_eq!(r.number_of_surrounding_gsm_cells, Some(18));
    assert_eq!(r.number_of_surrounding_lte_cells, Some(6));
    assert_eq!(r.number_of_surrounding_scdma_cells, None);
    assert_eq!(r.number_of_surrounding_nr5g_cells, None);
    assert_eq!(r.gsm_cell_towers.len(), 3);
    assert_eq!(r.lte_cell_towers.len(), 1);
    assert_eq!(r.scdma_cell_towers.len(), 0);
}

#[test]
fn single_category_count_clamped_to_one() {
    let cells = vec![cell(b"wcdma", 1, 2, 3, 4), cell(b"wcdma", 1, 2, 3, 5)];
    let r = AlsLocationRequest::new_cell_request(cells, 1);
    // floor(1 * 2 / 2) = 1 and the clamp keeps it at least 1.
    assert_eq!(r.number_of_surrounding_scdma_cells, Some(1));
    let cells0 = vec![cell(b"gsm", 1, 2, 3, 4)];
    let r0 = AlsLocationRequest::new_cell_request(cells0, 0);
    assert_eq!(r0.number_of_surrounding_gsm_cells, Some(1));
}

#[test]
fn unrecognized_radio_types_are_dropped() {
    let cells = vec![cell(b"nr", 1, 2, 3, 4), cell(b"GSM", 1, 2, 3, 5)];
    let r = AlsLocationRequest::new_cell_request(cells, 25);
    assert_eq!(r.gsm_cell_towers.len(), 0);
    assert_eq!(r.lte_cell_towers.len(), 0);
    assert_eq!(r.scdma_cell_towers.len(), 0);
    assert_eq!(r.number_of_surrounding_gsm_cells, None);
    assert_eq!(r.number_of_surrounding_lte_cells, None);
    assert_eq!(r.number_of_surrounding_scdma_cells, None);
}

#[test]
fn wifi_request_fields() {
    let bssids = vec![b"aa:bb:cc:dd:ee:01".to_vec(), b"aa:bb:cc:dd:ee:02".to_vec()];
    let r = AlsLocationRequest::new_wifi_request(&bssids, 100);
    assert_eq!(r.wireless_aps.len(), 2);
    assert_eq!(r.wireless_aps[0].mac_id, b"aa:bb:cc:dd:ee:01".to_vec());
    assert!(r.wireless_aps[0].location.is_none());
    assert!(r.wireless_aps[0].channel.is_none());
    assert_eq!(r.number_of_surrounding_wifis, Some(100));
    assert_eq!(r.surrounding_wifi_bands, vec![1, 2]);
    assert_eq!(r.wifi_altitude_scale, Some(2));
    assert!(r.app_bundle_id.is_none());
    let meta = r.meta.unwrap();
    assert_eq!(meta.software_build.unwrap(), "macOS15.4/24E248");
    assert_eq!(meta.product_id.unwrap(), "arm64");
    assert!(r.gsm_cell_towers.is_empty());
    assert!(r.number_of_surrounding_gsm_cells.is_none());
}

#[test]
fn wifi_budget_clamped_to_one() {
    let bssids = vec![b"aa:bb:cc:dd:ee:01".to_vec()];
    let r = AlsLocationRequest::new_wifi_request(&bssids, 0);
    assert_eq!(r.number_of_surrounding_wifis, Some(1));
    let r2 = AlsLocationRequest::new_wifi_request(&bssids, -5);
    assert_eq!(r2.number_of_surrounding_wifis, Some(1));
}

#[test]
fn combined_request_keeps_both_sides() {
    let bssids = vec![b"aa:bb:cc:dd:ee:01".to_vec()];
    let cells = vec![cell(b"lte", 262, 2, 4711, 99)];
    let r = AlsLocationRequest::new_combined_request(&bssids, cells, 100, 25);
    assert_eq!(r.wireless_aps.len(), 1);
    assert_eq!(r.number_of_surrounding_wifis, Some(100));
    assert_eq!(r.lte_cell_towers.len(), 1);
    assert_eq!(r.lte_cell_towers[0].mcc, Some(262));
    assert_eq!(r.lte_cell_towers[0].tac_id, Some(4711));
    assert_eq!(r.number_of_surrounding_lte_cells, Some(25));
    assert_eq!(r.surrounding_wifi_bands, vec![1, 2]);
}

#[test]
fn band_and_scale_wire_values() {
    assert_eq!(WifiBand::K2Dot4Ghz.value(), 1);
    assert_eq!(WifiBand::K5Ghz.value(), 2);
    assert_eq!(WifiBand::from(1), WifiBand::K2Dot4Ghz);
    assert_eq!(WifiBand::from(7), WifiBand::Unknown);
    assert_eq!(WifiAltitudeScale::TenToThe2.value(), 2);
    assert_eq!(WifiAltitudeScale::from(2), WifiAltitudeScale::TenToThe2);
    assert_eq!(WifiAltitudeScale::from(0), WifiAltitudeScale::Unknown);
}

#[test]
fn envelope_matches_fixture() {
    let identity = ClientIdentity::standard();
    let payload = vec![0x0a, 0x0b, 0x0c];
    let body = build_apple_request_body(&identity, &payload);
    let mut expected: Vec<u8> = Vec::new();
    expected.extend_from_slice(&[0, 1]); // protocol marker
    expected.extend_from_slice(&[0, 5]);
    expected.extend_from_slice(b"en_US");
    expected.extend_from_slice(&[0, 19]);
    expected.extend_from_slice(b"com.apple.locationd");
    expected.extend_from_slice(&[0, 11]);
    expected.extend_from_slice(b"15.4.24E248");
    expected.extend_from_slice(&[0, 0, 0, 1]); // request code
    expected.extend_from_slice(&[0, 0, 0, 3]); // payload length
    expected.extend_from_slice(&[0x0a, 0x0b, 0x0c]);
    assert_eq!(body, expected);
}

#[test]
fn envelope_of_empty_payload() {
    let identity = ClientIdentity::standard();
    let payload: Vec<u8> = Vec::new();
    let body = build_apple_request_body(&identity, &payload);
    assert_eq!(body.len(), 2 + 2 + 5 + 2 + 19 + 2 + 11 + 4 + 4);
    assert_eq!(&body[body.len() - 4..], &[0, 0, 0, 0]);
}

#[test]
fn short_replies_carry_no_data() {
    assert!(extract_response_payload(&vec![0; 10]).is_none());
    assert!(extract_response_payload(&Vec::new()).is_none());
    let r = extract_response_payload(&vec![9, 9, 9, 9, 9, 9, 9, 9, 9, 9, 1, 2]).unwrap();
    assert_eq!(r, vec![1, 2]);
}

#[test]
fn non_200_replies_carry_no_data() {
    let body = vec![9, 9, 9, 9, 9, 9, 9, 9, 9, 9, 1, 2];
    assert!(usable_reply_payload(404, &body).is_none());
    assert!(usable_reply_payload(500, &body).is_none());
    assert_eq!(usable_reply_payload(200, &body).unwrap(), vec![1, 2]);
    assert!(usable_reply_payload(200, &vec![0; 10]).is_none());
}

#[test]
fn empty_response_estimates_nothing() {
    assert!(estimate_position_from_aps(&empty_response()).is_none());
    assert!(estimate_position_from_cells(&empty_response()).is_none());
    assert!(estimate_from_response(&empty_response()).is_none());
}

#[test]
fn equal_accuracy_pair_averages() {
    let mut resp = empty_response();
    resp.wireless_aps.push(ap_with(Some(location(1_000_000_000, 2_000_000_000, 50))));
    resp.wireless_aps.push(ap_with(Some(location(2_000_000_000, 4_000_000_000, 50))));
    let est = estimate_position_from_aps(&resp).unwrap();
    assert_eq!(est.lat_fp, 1_500_000_000);
    assert_eq!(est.lng_fp, 3_000_000_000);
    assert_eq!(est.accuracy, 50);
    assert!(est.fallback.is_none());
}

#[test]
fn wifi_accuracy_floor_applies() {
    let mut resp = empty_response();
    resp.wireless_aps.push(ap_with(Some(location(100, 200, 3))));
    let est = estimate_position_from_aps(&resp).unwrap();
    assert_eq!(est.lat_fp, 100);
    assert_eq!(est.lng_fp, 200);
    assert_eq!(est.accuracy, 10);
}

#[test]
fn nonpositive_accuracy_is_clamped() {
    let mut resp = empty_response();
    resp.wireless_aps.push(ap_with(Some(location(600, 700, -5))));
    let est = estimate_position_from_aps(&resp).unwrap();
    // A nonpositive accuracy weighs like one meter and the floor holds.
    assert_eq!(est.lat_fp, 600);
    assert_eq!(est.lng_fp, 700);
    assert_eq!(est.accuracy, 10);
}

#[test]
fn closer_candidates_weigh_more() {
    let mut resp = empty_response();
    resp.wireless_aps.push(ap_with(Some(location(0, 0, 1))));
    resp.wireless_aps.push(ap_with(Some(location(1_000_000_000, 0, 2))));
    let est = estimate_position_from_aps(&resp).unwrap();
    // weights 2^32 and 2^31: mean = 1e9 * 2^31 / (3 * 2^31) = 333333333.33...
    assert_eq!(est.lat_fp, 333_333_333);
    assert_eq!(est.accuracy, 10);
}

#[test]
fn sentinel_candidates_are_excluded() {
    let mut resp = empty_response();
    resp.wireless_aps.push(ap_with(Some(location(-18_000_000_000, 7, 1))));
    resp.wireless_aps.push(ap_with(Some(location(420, 880, 90))));
    resp.wireless_aps.push(ap_with(None));
    let est = estimate_position_from_aps(&resp).unwrap();
    assert_eq!(est.lat_fp, 420);
    assert_eq!(est.lng_fp, 880);
    assert_eq!(est.accuracy, 90);
}

#[test]
fn cell_pass_tags_and_floors() {
    let mut resp = empty_response();
    resp.gsm_cell_towers.push(GsmCellTower {
        mcc: 262,
        mnc: 1,
        cell_id: 7,
        lac_id: 8,
        location: Some(location(4_000_000_000, 5_000_000_000, 30)),
    });
    let est = estimate_position_from_cells(&resp).unwrap();
    assert_eq!(est.lat_fp, 4_000_000_000);
    assert_eq!(est.lng_fp, 5_000_000_000);
    assert_eq!(est.accuracy, 100);
    assert_eq!(est.fallback, Some(FallbackTag::Lacf));
}

#[test]
fn all_cell_generations_contribute() {
    let mut resp = empty_response();
    resp.lte_cell_towers.push(LteCellTower {
        mcc: Some(262),
        mnc: Some(1),
        cell_id: Some(7),
        tac_id: Some(8),
        location: Some(location(1_000, 0, 500)),
    });
    resp.scdma_cell_towers.push(ScdmaCellTower {
        mcc: 262,
        mnc: 1,
        cell_id: 7,
        lac_id: 8,
        location: Some(location(3_000, 0, 500)),
    });
    resp.nr5g_cell_towers.push(Nr5gCellTower {
        mcc: Some(262),
        mnc: Some(1),
        cell_id: Some(7),
        tac_id: Some(8),
        location: Some(location(5_000, 0, 500)),
    });
    let est = estimate_position_from_cells(&resp).unwrap();
    assert_eq!(est.lat_fp, 3_000);
    assert_eq!(est.accuracy, 500);
    assert_eq!(est.fallback, Some(FallbackTag::Lacf));
}

#[test]
fn wifi_pass_preferred_over_cells() {
    let mut resp = empty_response();
    resp.wireless_aps.push(ap_with(Some(location(111, 222, 20))));
    resp.gsm_cell_towers.push(GsmCellTower {
        mcc: 262,
        mnc: 1,
        cell_id: 7,
        lac_id: 8,
        location: Some(location(999_999, 999_999, 20)),
    });
    let est = estimate_from_response(&resp).unwrap();
    assert_eq!(est.lat_fp, 111);
    assert!(est.fallback.is_none());
    // With no usable Wi-Fi candidate the cell pass answers instead.
    let mut resp2 = empty_response();
    resp2.wireless_aps.push(ap_with(Some(location(-18_000_000_000, 0, 1))));
    resp2.gsm_cell_towers = resp.gsm_cell_towers.clone();
    let est2 = estimate_from_response(&resp2).unwrap();
    assert_eq!(est2.lat_fp, 999_999);
    assert_eq!(est2.fallback, Some(FallbackTag::Lacf));
}

fn mls_request(
    consider_ip: Option<bool>,
    radio_type: Option<Vec<u8>>,
    cells: Option<Vec<CellTower>>,
    aps: Option<Vec<WifiAccessPoint>>,
) -> MlsRequest {
    MlsRequest { consider_ip, radio_type, cell_towers: cells, wifi_access_points: aps }
}

fn wifi_ap(mac: &[u8]) -> WifiAccessPoint {
    WifiAccessPoint { mac_address: mac.to_vec(), signal_strength: Some(-60) }
}

fn cell_tower(radio: Option<&[u8]>) -> CellTower {
    CellTower {
        radio_type: radio.map(|r| r.to_vec()),
        mobile_country_code: 262,
        mobile_network_code: 2,
        location_area_code: 4711,
        cell_id: 99,
    }
}

#[test]
fn network_data_thresholds() {
    let one_ap = mls_request(None, None, None, Some(vec![wifi_ap(b"aa:bb:cc:dd:ee:01")]));
    assert!(!one_ap.has_wifi_data());
    assert!(!one_ap.has_network_data());
    let two_aps = mls_request(
        None,
        None,
        None,
        Some(vec![wifi_ap(b"aa:bb:cc:dd:ee:01"), wifi_ap(b"aa:bb:cc:dd:ee:02")]),
    );
    assert!(two_aps.has_wifi_data());
    assert!(two_aps.has_network_data());
    let one_cell = mls_request(None, None, Some(vec![cell_tower(None)]), None);
    assert!(one_cell.has_cell_data());
    assert!(one_cell.has_network_data());
}

#[test]
fn get_cells_radio_default_chain() {
    let req = mls_request(
        None,
        Some(b"gsm".to_vec()),
        Some(vec![cell_tower(Some(b"wcdma")), cell_tower(None)]),
        None,
    );
    let cells = req.get_cells(&req.radio_type);
    assert_eq!(cells[0].radio_type, b"wcdma".to_vec());
    assert_eq!(cells[1].radio_type, b"gsm".to_vec());
    let req2 = mls_request(None, None, Some(vec![cell_tower(None)]), None);
    let cells2 = req2.get_cells(&req2.radio_type);
    assert_eq!(cells2[0].radio_type, b"lte".to_vec());
    assert_eq!(cells2[0].mcc, 262);
    assert_eq!(cells2[0].lac, 4711);
}

#[test]
fn get_bssids_normalizes() {
    let req = mls_request(
        None,
        None,
        None,
        Some(vec![wifi_ap(b"AA-BB-CC-DD-EE-01"), wifi_ap(b"aa:bb:cc:dd:ee:02")]),
    );
    let bssids = req.get_bssids();
    assert_eq!(bssids[0], b"aa:bb:cc:dd:ee:01".to_vec());
    assert_eq!(bssids[1], b"aa:bb:cc:dd:ee:02".to_vec());
}

#[test]
fn planning_requires_network_data() {
    let nothing = mls_request(None, None, None, None);
    assert!(plan_upstream_request(&nothing).is_none());
    let one_ap = mls_request(None, None, None, Some(vec![wifi_ap(b"aa:bb:cc:dd:ee:01")]));
    assert!(plan_upstream_request(&one_ap).is_none());
}

#[test]
fn planning_picks_the_right_builder() {
    let wifi_only = mls_request(
        None,
        None,
        None,
        Some(vec![wifi_ap(b"aa:bb:cc:dd:ee:01"), wifi_ap(b"aa:bb:cc:dd:ee:02")]),
    );
    let q = plan_upstream_request(&wifi_only).unwrap();
    assert_eq!(q.wireless_aps.len(), 2);
    assert_eq!(q.number_of_surrounding_wifis, Some(100));
    assert!(q.gsm_cell_towers.is_empty() && q.lte_cell_towers.is_empty());

    let cells_only = mls_request(None, None, Some(vec![cell_tower(None)]), None);
    let q2 = plan_upstream_request(&cells_only).unwrap();
    assert!(q2.wireless_aps.is_empty());
    assert!(q2.number_of_surrounding_wifis.is_none());
    assert_eq!(q2.lte_cell_towers.len(), 1);
    assert_eq!(q2.number_of_surrounding_lte_cells, Some(25));

    // One access point is not usable Wi-Fi data on its own, but rides
    // along once cell data makes the query usable.
    let combined = mls_request(
        None,
        None,
        Some(vec![cell_tower(None)]),
        Some(vec![wifi_ap(b"AA-BB-CC-DD-EE-01")]),
    );
    let q3 = plan_upstream_request(&combined).unwrap();
    assert_eq!(q3.wireless_aps.len(), 1);
    assert_eq!(q3.wireless_aps[0].mac_id, b"aa:bb:cc:dd:ee:01".to_vec());
    assert_eq!(q3.number_of_surrounding_wifis, Some(100));
    assert_eq!(q3.lte_cell_towers.len(), 1);
    assert_eq!(q3.number_of_surrounding_lte_cells, Some(25));
}

#[test]
fn network_result_wins_outright() {
    let pos = EstimatedPosition { lat_fp: 1, lng_fp: 2, accuracy: 3, fallback: None };
    let outcome = conclude(Some(pos), Some(true), Some(hint(true, true, true)));
    match outcome {
        LocateOutcome::Found(p) => {
            assert_eq!(p.lat_fp, 1);
            assert_eq!(p.lng_fp, 2);
            assert_eq!(p.accuracy, 3);
            assert!(p.fallback.is_none());
        },
        LocateOutcome::NotFound => panic!("expected a position"),
    }
}

#[test]
fn ip_disabled_yields_not_found() {
    // Even with a hint available, a false flag ends in not-found.
    let outcome = conclude(None, Some(false), Some(hint(true, true, true)));
    assert!(matches!(outcome, LocateOutcome::NotFound));
}

#[test]
fn consider_ip_defaults_to_true() {
    let outcome = conclude(None, None, Some(hint(false, false, false)));
    match outcome {
        LocateOutcome::Found(p) => {
            assert_eq!(p.lat_fp, 5_200_000_000);
            assert_eq!(p.lng_fp, 1_300_000_000);
            assert_eq!(p.accuracy, 500_000);
            assert_eq!(p.fallback, Some(FallbackTag::Ipf));
        },
        LocateOutcome::NotFound => panic!("expected the IP fallback"),
    }
}

#[test]
fn ip_accuracy_bands() {
    let acc = |h: IpHint| match conclude(None, Some(true), Some(h)) {
        LocateOutcome::Found(p) => p.accuracy,
        LocateOutcome::NotFound => panic!("expected the IP fallback"),
    };
    assert_eq!(acc(hint(true, true, true)), 5_000);
    assert_eq!(acc(hint(false, true, true)), 20_000);
    assert_eq!(acc(hint(false, false, true)), 100_000);
    assert_eq!(acc(hint(false, false, false)), 500_000);
}

#[test]
fn no_hint_and_no_network_is_not_found() {
    assert!(matches!(conclude(None, Some(true), None), LocateOutcome::NotFound));
    assert!(matches!(conclude(None, None, None), LocateOutcome::NotFound));
}

#[test]
fn error_payload_shape() {
    let e = build_error_response();
    assert_eq!(e.error.code, 404);
    assert_eq!(e.error.message, "Not found");
    assert_eq!(e.error.errors.len(), 1);
    assert_eq!(e.error.errors[0].domain, "geolocation");
    assert_eq!(e.error.errors[0].reason, "notFound");
    assert_eq!(e.error.errors[0].message, "Not found");
}
