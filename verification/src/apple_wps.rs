//! Typed schema of the upstream positioning request and response, and
//! the builders that translate normalized observations into it.
//!
//! Identifier-like values (MAC identifiers, radio-type tags, the client
//! metadata strings) travel as plain bytes or `String`s; coordinates are
//! fixed-point integers scaled by 1e-8 degrees per unit.

use vstd::prelude::*;

verus! {

use crate::arith::{tdiv, lemma_tdiv_upper, lemma_tdiv_scale, lemma_take_step};
use vstd::arithmetic::div_mod::lemma_div_pos_is_pos;

/// Fixed-point latitude value that the upstream uses for "no location".
pub const SENTINEL_LATITUDE: i64 = -18000000000;

/// The upstream request message. Field layout mirrors the upstream
/// schema; unset optional fields are simply absent on the wire.
#[derive(Clone)]
pub struct AlsLocationRequest {
    pub gsm_cell_towers: Vec<GsmCellTower>,
    pub wireless_aps: Vec<WirelessAp>,
    pub number_of_surrounding_gsm_cells: Option<i32>,
    pub number_of_surrounding_wifis: Option<i32>,
    pub app_bundle_id: Option<String>,
    pub lte_cell_towers: Vec<LteCellTower>,
    pub number_of_surrounding_lte_cells: Option<i32>,
    pub scdma_cell_towers: Vec<ScdmaCellTower>,
    pub number_of_surrounding_scdma_cells: Option<i32>,
    pub nr5g_cell_towers: Vec<Nr5gCellTower>,
    pub number_of_surrounding_nr5g_cells: Option<i32>,
    pub surrounding_wifi_bands: Vec<i32>,
    pub wifi_altitude_scale: Option<i32>,
    pub meta: Option<AlsMeta>,
}

/// Client metadata attached to every request.
#[derive(Clone)]
pub struct AlsMeta {
    pub software_build: Option<String>,
    pub product_id: Option<String>,
}

/// The upstream response message: the same per-category structure, each
/// entry optionally carrying a located position.
#[derive(Clone)]
pub struct AlsLocationResponse {
    pub gsm_cell_towers: Vec<GsmCellTower>,
    pub wireless_aps: Vec<WirelessAp>,
    pub lte_cell_towers: Vec<LteCellTower>,
    pub scdma_cell_towers: Vec<ScdmaCellTower>,
    pub nr5g_cell_towers: Vec<Nr5gCellTower>,
}

/// A candidate location: fixed-point coordinates plus accuracy in meters.
#[derive(Clone, Copy, Debug)]
pub struct AlsLocation {
    pub latitude: i64,
    pub longitude: i64,
    pub accuracy: i32,
    pub location_type: Option<i32>,
    pub altitude: Option<i32>,
    pub vertical_accuracy: Option<i32>,
    pub confidence: Option<i32>,
}

#[derive(Clone, Copy, Debug)]
pub struct GsmCellTower {
    pub mcc: i32,
    pub mnc: i32,
    pub cell_id: i32,
    pub lac_id: i32,
    pub location: Option<AlsLocation>,
}

/// A Wi-Fi access point; `mac_id` holds the bytes of its textual MAC
/// identifier.
#[derive(Clone, Debug)]
pub struct WirelessAp {
    pub mac_id: Vec<u8>,
    pub location: Option<AlsLocation>,
    pub channel: Option<u32>,
}

#[derive(Clone, Copy, Debug)]
pub struct LteCellTower {
    pub mcc: Option<i32>,
    pub mnc: Option<i32>,
    pub cell_id: Option<i32>,
    pub tac_id: Option<i32>,
    pub location: Option<AlsLocation>,
}

#[derive(Clone, Copy, Debug)]
pub struct ScdmaCellTower {
    pub mcc: i32,
    pub mnc: i32,
    pub cell_id: i32,
    pub lac_id: i32,
    pub location: Option<AlsLocation>,
}

#[derive(Clone, Copy, Debug)]
pub struct Nr5gCellTower {
    pub mcc: Option<i32>,
    pub mnc: Option<i32>,
    pub cell_id: Option<i64>,
    pub tac_id: Option<i32>,
    pub location: Option<AlsLocation>,
}

/// Wi-Fi frequency bands the upstream can be asked to consider.
#[derive(Clone, Copy, Debug, PartialEq, Eq, Structural)]
pub enum WifiBand {
    Unknown,
    K2Dot4Ghz,
    K5Ghz,
}

/// The wire value of a band, as the upstream enumeration defines it.
pub open spec fn wifi_band_value(b: WifiBand) -> i32 {
    match b {
        WifiBand::Unknown => 0,
        WifiBand::K2Dot4Ghz => 1,
        WifiBand::K5Ghz => 2,
    }
}

pub open spec fn wifi_band_of(v: i32) -> WifiBand {
    if v == 1 {
        WifiBand::K2Dot4Ghz
    } else if v == 2 {
        WifiBand::K5Ghz
    } else {
        WifiBand::Unknown
    }
}

impl WifiBand {
    pub fn value(self) -> (r: i32)
        ensures
            r == wifi_band_value(self),
    {
        match self {
            WifiBand::Unknown => 0,
            WifiBand::K2Dot4Ghz => 1,
            WifiBand::K5Ghz => 2,
        }
    }
}

impl core::convert::From<i32> for WifiBand {
    fn from(v: i32) -> (r: Self) {
        if v == 1 {
            WifiBand::K2Dot4Ghz
        } else if v == 2 {
            WifiBand::K5Ghz
        } else {
            WifiBand::Unknown
        }
    }
}

impl vstd::std_specs::convert::FromSpecImpl<i32> for WifiBand {
    open spec fn obeys_from_spec() -> bool {
        true
    }

    open spec fn from_spec(v: i32) -> Self {
        wifi_band_of(v)
    }
}

/// Altitude scale selector for Wi-Fi results.
#[derive(Clone, Copy, Debug, PartialEq, Eq, Structural)]
pub enum WifiAltitudeScale {
    Unknown,
    Unscaled,
    TenToThe2,
}

/// The wire value of an altitude scale, as the upstream defines it.
pub open spec fn altitude_scale_value(s: WifiAltitudeScale) -> i32 {
    match s {
        WifiAltitudeScale::Unknown => 0,
        WifiAltitudeScale::Unscaled => 1,
        WifiAltitudeScale::TenToThe2 => 2,
    }
}

pub open spec fn altitude_scale_of(v: i32) -> WifiAltitudeScale {
    if v == 1 {
        WifiAltitudeScale::Unscaled
    } else if v == 2 {
        WifiAltitudeScale::TenToThe2
    } else {
        WifiAltitudeScale::Unknown
    }
}

impl WifiAltitudeScale {
    pub fn value(self) -> (r: i32)
        ensures
            r == altitude_scale_value(self),
    {
        match self {
            WifiAltitudeScale::Unknown => 0,
            WifiAltitudeScale::Unscaled => 1,
            WifiAltitudeScale::TenToThe2 => 2,
        }
    }
}

impl core::convert::From<i32> for WifiAltitudeScale {
    fn from(v: i32) -> (r: Self) {
        if v == 1 {
            WifiAltitudeScale::Unscaled
        } else if v == 2 {
            WifiAltitudeScale::TenToThe2
        } else {
            WifiAltitudeScale::Unknown
        }
    }
}

impl vstd::std_specs::convert::FromSpecImpl<i32> for WifiAltitudeScale {
    open spec fn obeys_from_spec() -> bool {
        true
    }

    open spec fn from_spec(v: i32) -> Self {
        altitude_scale_of(v)
    }
}

/// A normalized cell observation, ready for bucketing by radio type.
/// `radio_type` holds the bytes of the observation's tag.
#[derive(Clone, Debug)]
pub struct CellRequest {
    pub radio_type: Vec<u8>,
    pub mcc: i32,
    pub mnc: i32,
    pub lac: i32,
    pub cell_id: i32,
}

/// The coordinates a candidate yields: `None` exactly when its latitude
/// is the "no location" sentinel, otherwise the fixed-point latitude,
/// longitude and the accuracy in meters.
pub open spec fn coordinates_of(l: AlsLocation) -> Option<(i64, i64, i32)> {
    if l.latitude == SENTINEL_LATITUDE {
        Option::None
    } else {
        Option::Some((l.latitude, l.longitude, l.accuracy))
    }
}

/// A sentinel latitude yields no usable coordinate, whatever the other
/// fields hold; any other latitude yields its fixed-point triple.
pub proof fn lemma_sentinel_excludes_candidate(l: AlsLocation)
    ensures
        coordinates_of(l) is None <==> l.latitude == SENTINEL_LATITUDE,
{
}

impl AlsLocation {
    /// Checks the sentinel before any scaling: a sentinel latitude means
    /// the upstream found nothing for this entry.
    pub fn to_coordinates(&self) -> (r: Option<(i64, i64, i32)>)
        ensures
            r == coordinates_of(*self),
    {
        if self.latitude == SENTINEL_LATITUDE {
            Option::None
        } else {
            Option::Some((self.latitude, self.longitude, self.accuracy))
        }
    }
}

/// The closed set of radio generations the builder recognizes; anything
/// else is dropped silently.
#[derive(Clone, Copy, Debug, PartialEq, Eq, Structural)]
pub enum RadioKind {
    Gsm,
    Lte,
    Wcdma,
    Other,
}

pub open spec fn gsm_tag() -> Seq<u8> {
    seq![103u8, 115u8, 109u8]
}

pub open spec fn lte_tag() -> Seq<u8> {
    seq![108u8, 116u8, 101u8]
}

pub open spec fn wcdma_tag() -> Seq<u8> {
    seq![119u8, 99u8, 100u8, 109u8, 97u8]
}

/// Classification of a radio-type tag.
pub open spec fn radio_kind(tag: Seq<u8>) -> RadioKind {
    if tag == gsm_tag() {
        RadioKind::Gsm
    } else if tag == lte_tag() {
        RadioKind::Lte
    } else if tag == wcdma_tag() {
        RadioKind::Wcdma
    } else {
        RadioKind::Other
    }
}

pub fn radio_kind_of(tag: &Vec<u8>) -> (k: RadioKind)
    ensures
        k == radio_kind(tag@),
{
    if tag.len() == 3 && tag[0] == 103u8 && tag[1] == 115u8 && tag[2] == 109u8 {
        proof {
            assert(tag@ =~= gsm_tag());
        }
        RadioKind::Gsm
    } else if tag.len() == 3 && tag[0] == 108u8 && tag[1] == 116u8 && tag[2]
        == 101u8 {
        proof {
            assert(tag@ =~= lte_tag());
        }
        RadioKind::Lte
    } else if tag.len() == 5 && tag[0] == 119u8 && tag[1] == 99u8 && tag[2]
        == 100u8 && tag[3] == 109u8 && tag[4] == 97u8 {
        proof {
            assert(tag@ =~= wcdma_tag());
        }
        RadioKind::Wcdma
    } else {
        RadioKind::Other
    }
}

/// The GSM entry built from one observation.
pub open spec fn gsm_of(c: CellRequest) -> GsmCellTower {
    GsmCellTower {
        mcc: c.mcc,
        mnc: c.mnc,
        cell_id: c.cell_id,
        lac_id: c.lac,
        location: Option::None,
    }
}

/// The LTE entry built from one observation.
pub open spec fn lte_of(c: CellRequest) -> LteCellTower {
    LteCellTower {
        mcc: Option::Some(c.mcc),
        mnc: Option::Some(c.mnc),
        cell_id: Option::Some(c.cell_id),
        tac_id: Option::Some(c.lac),
        location: Option::None,
    }
}

/// The WCDMA entry built from one observation.
pub open spec fn scdma_of(c: CellRequest) -> ScdmaCellTower {
    ScdmaCellTower {
        mcc: c.mcc,
        mnc: c.mnc,
        cell_id: c.cell_id,
        lac_id: c.lac,
        location: Option::None,
    }
}

/// GSM entries of a list of observations, in their order of appearance.
pub open spec fn gsm_towers(cells: Seq<CellRequest>) -> Seq<GsmCellTower>
    decreases cells.len(),
{
    if cells.len() == 0 {
        Seq::empty()
    } else {
        let rest = gsm_towers(cells.drop_last());
        if radio_kind(cells.last().radio_type@) is Gsm {
            rest.push(gsm_of(cells.last()))
        } else {
            rest
        }
    }
}

/// LTE entries of a list of observations, in their order of appearance.
pub open spec fn lte_towers(cells: Seq<CellRequest>) -> Seq<LteCellTower>
    decreases cells.len(),
{
    if cells.len() == 0 {
        Seq::empty()
    } else {
        let rest = lte_towers(cells.drop_last());
        if radio_kind(cells.last().radio_type@) is Lte {
            rest.push(lte_of(cells.last()))
        } else {
            rest
        }
    }
}

/// WCDMA entries of a list of observations, in their order of appearance.
pub open spec fn scdma_towers(cells: Seq<CellRequest>) -> Seq<ScdmaCellTower>
    decreases cells.len(),
{
    if cells.len() == 0 {
        Seq::empty()
    } else {
        let rest = scdma_towers(cells.drop_last());
        if radio_kind(cells.last().radio_type@) is Wcdma {
            rest.push(scdma_of(cells.last()))
        } else {
            rest
        }
    }
}

/// How many observations fall in one radio generation.
pub open spec fn kind_count(cells: Seq<CellRequest>, k: RadioKind) -> int
    decreases cells.len(),
{
    if cells.len() == 0 {
        0
    } else {
        kind_count(cells.drop_last(), k) + if radio_kind(cells.last().radio_type@) == k {
            1int
        } else {
            0int
        }
    }
}

proof fn lemma_towers_push(s: Seq<CellRequest>, c: CellRequest)
    ensures
        gsm_towers(s.push(c)) == if radio_kind(c.radio_type@) is Gsm {
            gsm_towers(s).push(gsm_of(c))
        } else {
            gsm_towers(s)
        },
        lte_towers(s.push(c)) == if radio_kind(c.radio_type@) is Lte {
            lte_towers(s).push(lte_of(c))
        } else {
            lte_towers(s)
        },
        scdma_towers(s.push(c)) == if radio_kind(c.radio_type@) is Wcdma {
            scdma_towers(s).push(scdma_of(c))
        } else {
            scdma_towers(s)
        },
        forall|k: RadioKind|
            kind_count(s.push(c), k) == kind_count(s, k) + if radio_kind(c.radio_type@) == k {
                1int
            } else {
                0int
            },
{
    assert(s.push(c).drop_last() =~= s);
    assert(s.push(c).last() == c);
}

/// The proportional "surrounding results wanted" count for a category:
/// `max(1, floor(budget * count / total))`, the division truncating
/// toward zero.
pub open spec fn surrounding_count(budget: int, count: int, total: int) -> int
    recommends
        0 < count <= total,
{
    let q = tdiv(budget * count, total);
    if q < 1 {
        1
    } else {
        q
    }
}

/// A populated category's surrounding count is clamped to at least one,
/// whatever the budget, even where the proportional formula computes
/// zero.
pub proof fn lemma_surrounding_count_at_least_one(budget: int, count: int, total: int)
    requires
        0 < count <= total,
    ensures
        surrounding_count(budget, count, total) >= 1,
{
}

/// A single populated category receives the whole budget, held to the
/// floor of one.
pub proof fn lemma_single_category_gets_budget(budget: int, count: int)
    requires
        count > 0,
    ensures
        surrounding_count(budget, count, count) == if budget < 1 {
            1int
        } else {
            budget
        },
{
    lemma_tdiv_scale(budget, 1, count);
    if budget >= 0 {
        assert(budget / 1 == budget);
    } else {
        assert((-budget) / 1 == -budget);
    }
}

/// The count field of a category: absent when the category is empty.
pub open spec fn count_field(budget: i32, count: int, total: int) -> Option<i32> {
    if count > 0 {
        Option::Some(surrounding_count(budget as int, count, total) as i32)
    } else {
        Option::None
    }
}

fn surrounding_count_exec(budget: i32, count: usize, total: usize) -> (r: i32)
    requires
        0 < count <= total,
    ensures
        r as int == surrounding_count(budget as int, count as int, total as int),
{
    let ghost b = budget as int;
    let ghost c = count as int;
    let ghost t = total as int;
    if budget <= 0 {
        proof {
            assert(b * c <= 0) by (nonlinear_arith)
                requires
                    b <= 0,
                    c > 0,
            ;
            if b * c < 0 {
                lemma_div_pos_is_pos(-(b * c), t);
            }
        }
        1
    } else {
        proof {
            assert((budget as u128) * (count as u128) < 0x8000_0000u128 * 0x1_0000_0000_0000_0000u128)
                by (nonlinear_arith)
                requires
                    (budget as u128) < 0x8000_0000u128,
                    (count as u128) < 0x1_0000_0000_0000_0000u128,
            ;
        }
        let q: u128 = (budget as u128) * (count as u128) / (total as u128);
        proof {
            assert(b * c <= b * t) by (nonlinear_arith)
                requires
                    b >= 0,
                    c <= t,
            ;
            lemma_tdiv_upper(b * c, t, b);
            lemma_div_pos_is_pos(b * c, t);
        }
        if q < 1 {
            1
        } else {
            q as i32
        }
    }
}

/// The software build string the emulated client reports.
pub open spec fn software_build_value() -> Seq<char> {
    "macOS15.4/24E248"@
}

/// The product identifier the emulated client reports.
pub open spec fn product_id_value() -> Seq<char> {
    "arm64"@
}

/// The fixed client metadata stands in the request.
pub open spec fn meta_matches(r: AlsLocationRequest) -> bool {
    &&& r.meta matches Option::Some(m)
    &&& m.software_build matches Option::Some(s) && s@ == software_build_value()
    &&& m.product_id matches Option::Some(p) && p@ == product_id_value()
}

/// One request entry per MAC identifier, nothing else set.
pub open spec fn ap_from_mac(a: WirelessAp, mac: Vec<u8>) -> bool {
    &&& a.mac_id@ == mac@
    &&& a.location is None
    &&& a.channel is None
}

/// The Wi-Fi side of a request built from `bssids` with `budget`:
/// one entry per identifier, at least one surrounding result wanted,
/// both bands enabled, the "x10^2" altitude scale selected.
pub open spec fn wifi_side_matches(r: AlsLocationRequest, bssids: Seq<Vec<u8>>, budget: i32) -> bool {
    &&& r.wireless_aps@.len() == bssids.len()
    &&& forall|i: int|
        0 <= i < bssids.len() ==> ap_from_mac(#[trigger] r.wireless_aps@[i], bssids[i])
    &&& r.number_of_surrounding_wifis == Option::Some(
        if budget < 1 {
            1i32
        } else {
            budget
        },
    )
    &&& r.surrounding_wifi_bands@ == seq![1i32, 2i32]
    &&& r.wifi_altitude_scale == Option::Some(2i32)
}

/// The Wi-Fi side of a request that carries no Wi-Fi data at all.
pub open spec fn wifi_side_empty(r: AlsLocationRequest) -> bool {
    &&& r.wireless_aps@.len() == 0
    &&& r.number_of_surrounding_wifis is None
    &&& r.surrounding_wifi_bands@.len() == 0
    &&& r.wifi_altitude_scale is None
}

/// The cell side of a request built from `cells` with `budget`: the
/// observations bucketed by radio generation in order, each populated
/// category's count proportional to its share of the budget, absent
/// categories without a count field.
pub open spec fn cell_side_matches(r: AlsLocationRequest, cells: Seq<CellRequest>, budget: i32) -> bool {
    let total = kind_count(cells, RadioKind::Gsm) + kind_count(cells, RadioKind::Lte)
        + kind_count(cells, RadioKind::Wcdma);
    &&& r.gsm_cell_towers@ == gsm_towers(cells)
    &&& r.lte_cell_towers@ == lte_towers(cells)
    &&& r.scdma_cell_towers@ == scdma_towers(cells)
    &&& r.nr5g_cell_towers@.len() == 0
    &&& r.number_of_surrounding_gsm_cells == count_field(
        budget,
        kind_count(cells, RadioKind::Gsm),
        total,
    )
    &&& r.number_of_surrounding_lte_cells == count_field(
        budget,
        kind_count(cells, RadioKind::Lte),
        total,
    )
    &&& r.number_of_surrounding_scdma_cells == count_field(
        budget,
        kind_count(cells, RadioKind::Wcdma),
        total,
    )
    &&& r.number_of_surrounding_nr5g_cells is None
}

/// The cell side of a request that carries no cell data at all.
pub open spec fn cell_side_empty(r: AlsLocationRequest) -> bool {
    &&& r.gsm_cell_towers@.len() == 0
    &&& r.lte_cell_towers@.len() == 0
    &&& r.scdma_cell_towers@.len() == 0
    &&& r.nr5g_cell_towers@.len() == 0
    &&& r.number_of_surrounding_gsm_cells is None
    &&& r.number_of_surrounding_lte_cells is None
    &&& r.number_of_surrounding_scdma_cells is None
    &&& r.number_of_surrounding_nr5g_cells is None
}

fn fixed_meta() -> (m: AlsMeta)
    ensures
        m.software_build matches Option::Some(s) && s@ == software_build_value(),
        m.product_id matches Option::Some(p) && p@ == product_id_value(),
{
    AlsMeta {
        software_build: Option::Some("macOS15.4/24E248".to_owned()),
        product_id: Option::Some("arm64".to_owned()),
    }
}

impl AlsLocationRequest {
    /// A request that asks about Wi-Fi access points only.
    pub fn new_wifi_request(bssids: &Vec<Vec<u8>>, max_additional: i32) -> (r: AlsLocationRequest)
        ensures
            wifi_side_matches(r, bssids@, max_additional),
            cell_side_empty(r),
            meta_matches(r),
            r.app_bundle_id is None,
    {
        let mut wireless_aps: Vec<WirelessAp> = Vec::new();
        let mut i: usize = 0;
        while i < bssids.len()
            invariant
                i <= bssids@.len(),
                wireless_aps@.len() == i,
                forall|j: int|
                    0 <= j < i ==> ap_from_mac(#[trigger] wireless_aps@[j], bssids@[j]),
            decreases bssids@.len() - i,
        {
            wireless_aps.push(
                WirelessAp {
                    mac_id: bssids[i].clone(),
                    location: Option::None,
                    channel: Option::None,
                },
            );
            i += 1;
        }

        let mut surrounding_wifi_bands: Vec<i32> = Vec::new();
        surrounding_wifi_bands.push(WifiBand::K2Dot4Ghz.value());
        surrounding_wifi_bands.push(WifiBand::K5Ghz.value());
        proof {
            assert(surrounding_wifi_bands@ =~= seq![1i32, 2i32]);
        }

        let wanted: i32 = if max_additional < 1 {
            1
        } else {
            max_additional
        };

        AlsLocationRequest {
            gsm_cell_towers: Vec::new(),
            wireless_aps,
            number_of_surrounding_gsm_cells: Option::None,
            number_of_surrounding_wifis: Option::Some(wanted),
            app_bundle_id: Option::None,
            lte_cell_towers: Vec::new(),
            number_of_surrounding_lte_cells: Option::None,
            scdma_cell_towers: Vec::new(),
            number_of_surrounding_scdma_cells: Option::None,
            nr5g_cell_towers: Vec::new(),
            number_of_surrounding_nr5g_cells: Option::None,
            surrounding_wifi_bands,
            wifi_altitude_scale: Option::Some(WifiAltitudeScale::TenToThe2.value()),
            meta: Option::Some(fixed_meta()),
        }
    }

    /// A request that asks about cell towers only. Observations are
    /// bucketed by radio generation; unrecognized tags are dropped.
    pub fn new_cell_request(cells: Vec<CellRequest>, max_additional: i32) -> (r: AlsLocationRequest)
        ensures
            cell_side_matches(r, cells@, max_additional),
            wifi_side_empty(r),
            meta_matches(r),
            r.app_bundle_id is None,
    {
        let mut gsm: Vec<GsmCellTower> = Vec::new();
        let mut lte: Vec<LteCellTower> = Vec::new();
        let mut scdma: Vec<ScdmaCellTower> = Vec::new();
        let mut gsm_count: usize = 0;
        let mut lte_count: usize = 0;
        let mut wcdma_count: usize = 0;
        let mut i: usize = 0;
        while i < cells.len()
            invariant
                i <= cells@.len(),
                gsm@ == gsm_towers(cells@.take(i as int)),
                lte@ == lte_towers(cells@.take(i as int)),
                scdma@ == scdma_towers(cells@.take(i as int)),
                gsm_count == kind_count(cells@.take(i as int), RadioKind::Gsm),
                lte_count == kind_count(cells@.take(i as int), RadioKind::Lte),
                wcdma_count == kind_count(cells@.take(i as int), RadioKind::Wcdma),
                gsm_count + lte_count + wcdma_count <= i,
            decreases cells@.len() - i,
        {
            proof {
                lemma_take_step(cells@, i as int);
                lemma_towers_push(cells@.take(i as int), cells@[i as int]);
            }
            let c = &cells[i];
            match radio_kind_of(&c.radio_type) {
                RadioKind::Gsm => {
                    gsm.push(
                        GsmCellTower {
                            mcc: c.mcc,
                            mnc: c.mnc,
                            cell_id: c.cell_id,
                            lac_id: c.lac,
                            location: Option::None,
                        },
                    );
                    gsm_count += 1;
                },
                RadioKind::Lte => {
                    lte.push(
                        LteCellTower {
                            mcc: Option::Some(c.mcc),
                            mnc: Option::Some(c.mnc),
                            cell_id: Option::Some(c.cell_id),
                            tac_id: Option::Some(c.lac),
                            location: Option::None,
                        },
                    );
                    lte_count += 1;
                },
                RadioKind::Wcdma => {
                    scdma.push(
                        ScdmaCellTower {
                            mcc: c.mcc,
                            mnc: c.mnc,
                            cell_id: c.cell_id,
                            lac_id: c.lac,
                            location: Option::None,
                        },
                    );
                    wcdma_count += 1;
                },
                RadioKind::Other => {},
            }
            i += 1;
        }
        proof {
            assert(cells@.take(cells@.len() as int) =~= cells@);
        }

        let total: usize = gsm_count + lte_count + wcdma_count;
        let number_of_surrounding_gsm_cells: Option<i32> = if gsm_count > 0 {
            Option::Some(surrounding_count_exec(max_additional, gsm_count, total))
        } else {
            Option::None
        };
        let number_of_surrounding_lte_cells: Option<i32> = if lte_count > 0 {
            Option::Some(surrounding_count_exec(max_additional, lte_count, total))
        } else {
            Option::None
        };
        let number_of_surrounding_scdma_cells: Option<i32> = if wcdma_count > 0 {
            Option::Some(surrounding_count_exec(max_additional, wcdma_count, total))
        } else {
            Option::None
        };

        AlsLocationRequest {
            gsm_cell_towers: gsm,
            wireless_aps: Vec::new(),
            number_of_surrounding_gsm_cells,
            number_of_surrounding_wifis: Option::None,
            app_bundle_id: Option::None,
            lte_cell_towers: lte,
            number_of_surrounding_lte_cells,
            scdma_cell_towers: scdma,
            number_of_surrounding_scdma_cells,
            nr5g_cell_towers: Vec::new(),
            number_of_surrounding_nr5g_cells: Option::None,
            surrounding_wifi_bands: Vec::new(),
            wifi_altitude_scale: Option::None,
            meta: Option::Some(fixed_meta()),
        }
    }

    /// A request that asks about both: the Wi-Fi side from the Wi-Fi
    /// build, every cell-category field from the cell build, neither
    /// side dropped.
    pub fn new_combined_request(
        bssids: &Vec<Vec<u8>>,
        cells: Vec<CellRequest>,
        max_wifi_additional: i32,
        max_cell_additional: i32,
    ) -> (r: AlsLocationRequest)
        ensures
            wifi_side_matches(r, bssids@, max_wifi_additional),
            cell_side_matches(r, cells@, max_cell_additional),
            meta_matches(r),
            r.app_bundle_id is None,
    {
        let mut request = Self::new_wifi_request(bssids, max_wifi_additional);
        let cell_request = Self::new_cell_request(cells, max_cell_additional);

        request.gsm_cell_towers = cell_request.gsm_cell_towers;
        request.lte_cell_towers = cell_request.lte_cell_towers;
        request.scdma_cell_towers = cell_request.scdma_cell_towers;
        request.nr5g_cell_towers = cell_request.nr5g_cell_towers;
        request.number_of_surrounding_gsm_cells = cell_request.number_of_surrounding_gsm_cells;
        request.number_of_surrounding_lte_cells = cell_request.number_of_surrounding_lte_cells;
        request.number_of_surrounding_scdma_cells = cell_request.number_of_surrounding_scdma_cells;
        request.number_of_surrounding_nr5g_cells = cell_request.number_of_surrounding_nr5g_cells;

        request
    }
}

} // verus!
