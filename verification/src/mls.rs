//! The inbound observation model, MAC-identifier normalization, and the
//! outbound answer types.
//!
//! Textual identifiers (MAC addresses, radio-type tags) are held as
//! their bytes; the boundary that parses JSON converts to and from
//! `String` outside this library.

use vstd::prelude::*;

verus! {

use crate::apple_wps::{CellRequest, lte_tag};

/// A caller's cell-tower observation, one entry of the inbound list.
#[derive(Clone, Debug)]
pub struct CellTower {
    pub radio_type: Option<Vec<u8>>,
    pub mobile_country_code: i32,
    pub mobile_network_code: i32,
    pub location_area_code: i32,
    pub cell_id: i32,
}

/// A caller's Wi-Fi observation; `mac_address` holds the bytes of the
/// textual MAC identifier, in whichever format the caller used.
#[derive(Clone, Debug)]
pub struct WifiAccessPoint {
    pub mac_address: Vec<u8>,
    pub signal_strength: Option<i32>,
}

/// One inbound query: the policy flag, an optional global radio type,
/// and the observation lists. Consumed once, never mutated.
#[derive(Clone, Debug)]
pub struct MlsRequest {
    pub consider_ip: Option<bool>,
    pub radio_type: Option<Vec<u8>>,
    pub cell_towers: Option<Vec<CellTower>>,
    pub wifi_access_points: Option<Vec<WifiAccessPoint>>,
}

/// Byte-level MAC normalization: upper-case ASCII letters fold to lower
/// case and the hyphen separator becomes a colon; all else is kept.
pub open spec fn normalized_byte(b: u8) -> u8 {
    if b == 45 {
        58
    } else if 65 <= b && b <= 90 {
        (b + 32) as u8
    } else {
        b
    }
}

/// The normalized form of a MAC identifier's bytes.
pub open spec fn normalized_mac(s: Seq<u8>) -> Seq<u8> {
    s.map_values(|b: u8| normalized_byte(b))
}

/// Normalization is idempotent: a second pass changes nothing, so the
/// two common textual MAC formats meet in one canonical form.
pub proof fn lemma_normalize_idempotent(s: Seq<u8>)
    ensures
        normalized_mac(normalized_mac(s)) == normalized_mac(s),
{
    assert(normalized_mac(normalized_mac(s)) =~= normalized_mac(s));
}

/// Rewrites a MAC identifier to the canonical lower-case, colon
/// separated form.
pub fn normalize_bssid(mac: &Vec<u8>) -> (r: Vec<u8>)
    ensures
        r@ == normalized_mac(mac@),
{
    let mut out: Vec<u8> = Vec::new();
    let mut i: usize = 0;
    while i < mac.len()
        invariant
            i <= mac@.len(),
            out@.len() == i,
            forall|j: int| 0 <= j < i ==> out@[j] == normalized_byte(mac@[j]),
        decreases mac@.len() - i,
    {
        let b = mac[i];
        if b == 45 {
            out.push(58);
        } else if 65 <= b && b <= 90 {
            out.push(b + 32);
        } else {
            out.push(b);
        }
        i += 1;
    }
    proof {
        assert(out@ =~= normalized_mac(mac@));
    }
    out
}

/// The Wi-Fi identifiers a query contributes, each normalized, in order.
pub open spec fn bssids_spec(req: MlsRequest) -> Seq<Seq<u8>> {
    match req.wifi_access_points {
        Option::Some(aps) => aps@.map_values(|a: WifiAccessPoint| normalized_mac(a.mac_address@)),
        Option::None => Seq::empty(),
    }
}

/// The radio-type tag that applies to one cell observation: its own tag
/// when present, else the query's global tag, else `lte`.
pub open spec fn effective_radio(ct: CellTower, global: Option<Vec<u8>>) -> Seq<u8> {
    match ct.radio_type {
        Option::Some(t) => t@,
        Option::None => match global {
            Option::Some(g) => g@,
            Option::None => lte_tag(),
        },
    }
}

/// One translated cell observation: the integer identifiers carried
/// over, the tag resolved through the default chain.
pub open spec fn cell_matches(cr: CellRequest, ct: CellTower, global: Option<Vec<u8>>) -> bool {
    &&& cr.radio_type@ == effective_radio(ct, global)
    &&& cr.mcc == ct.mobile_country_code
    &&& cr.mnc == ct.mobile_network_code
    &&& cr.lac == ct.location_area_code
    &&& cr.cell_id == ct.cell_id
}

/// How many cell observations a query carries.
pub open spec fn cell_towers_len(req: MlsRequest) -> int {
    match req.cell_towers {
        Option::Some(c) => c@.len() as int,
        Option::None => 0,
    }
}

/// The query has usable Wi-Fi data: at least two access points.
pub open spec fn has_wifi_data_spec(req: MlsRequest) -> bool {
    match req.wifi_access_points {
        Option::Some(w) => w@.len() >= 2,
        Option::None => false,
    }
}

/// The query has usable cell data: at least one tower.
pub open spec fn has_cell_data_spec(req: MlsRequest) -> bool {
    cell_towers_len(req) > 0
}

impl MlsRequest {
    pub fn has_wifi_data(&self) -> (r: bool)
        ensures
            r == has_wifi_data_spec(*self),
    {
        match &self.wifi_access_points {
            Option::Some(w) => w.len() >= 2,
            Option::None => false,
        }
    }

    pub fn has_cell_data(&self) -> (r: bool)
        ensures
            r == has_cell_data_spec(*self),
    {
        match &self.cell_towers {
            Option::Some(c) => c.len() > 0,
            Option::None => false,
        }
    }

    /// Whether any network-based lookup is worth attempting at all.
    pub fn has_network_data(&self) -> (r: bool)
        ensures
            r == (has_wifi_data_spec(*self) || has_cell_data_spec(*self)),
    {
        self.has_wifi_data() || self.has_cell_data()
    }

    /// Every observed MAC identifier, normalized, in order.
    pub fn get_bssids(&self) -> (r: Vec<Vec<u8>>)
        ensures
            r@.len() == bssids_spec(*self).len(),
            forall|i: int| 0 <= i < r@.len() ==> (#[trigger] r@[i])@ == bssids_spec(*self)[i],
    {
        let mut out: Vec<Vec<u8>> = Vec::new();
        match &self.wifi_access_points {
            Option::Some(aps) => {
                let mut i: usize = 0;
                while i < aps.len()
                    invariant
                        i <= aps@.len(),
                        out@.len() == i,
                        forall|j: int|
                            0 <= j < i ==> (#[trigger] out@[j])@ == normalized_mac(
                                aps@[j].mac_address@,
                            ),
                    decreases aps@.len() - i,
                {
                    out.push(normalize_bssid(&aps[i].mac_address));
                    i += 1;
                }
            },
            Option::None => {},
        }
        out
    }

    /// Every cell observation translated for the request builder, the
    /// radio tag resolved through the per-cell, global, `lte` default
    /// chain.
    pub fn get_cells(&self, global_radio_type: &Option<Vec<u8>>) -> (r: Vec<CellRequest>)
        ensures
            r@.len() == cell_towers_len(*self),
            forall|i: int|
                0 <= i < r@.len() ==> (self.cell_towers matches Option::Some(c) && cell_matches(
                    #[trigger] r@[i],
                    c@[i],
                    *global_radio_type,
                )),
    {
        let mut out: Vec<CellRequest> = Vec::new();
        match &self.cell_towers {
            Option::Some(cells) => {
                let mut i: usize = 0;
                while i < cells.len()
                    invariant
                        i <= cells@.len(),
                        out@.len() == i,
                        forall|j: int|
                            0 <= j < i ==> cell_matches(
                                #[trigger] out@[j],
                                cells@[j],
                                *global_radio_type,
                            ),
                    decreases cells@.len() - i,
                {
                    let c = &cells[i];
                    let radio: Vec<u8> = match &c.radio_type {
                        Option::Some(t) => t.clone(),
                        Option::None => match global_radio_type {
                            Option::Some(g) => g.clone(),
                            Option::None => {
                                let mut d: Vec<u8> = Vec::new();
                                d.push(108);
                                d.push(116);
                                d.push(101);
                                proof {
                                    assert(d@ =~= lte_tag());
                                }
                                d
                            },
                        },
                    };
                    out.push(
                        CellRequest {
                            radio_type: radio,
                            mcc: c.mobile_country_code,
                            mnc: c.mobile_network_code,
                            lac: c.location_area_code,
                            cell_id: c.cell_id,
                        },
                    );
                    i += 1;
                }
            },
            Option::None => {},
        }
        out
    }
}

/// Which estimation path produced an answer.
#[derive(Clone, Copy, Debug, PartialEq, Eq, Structural)]
pub enum FallbackTag {
    /// IP-based coarse estimate.
    Ipf,
    /// Cell-tower-derived estimate.
    Lacf,
}

/// A produced position: fixed-point coordinates scaled by 1e-8 degrees
/// per unit, accuracy in meters, and the fallback path that made it
/// (absent for a Wi-Fi-derived answer).
#[derive(Clone, Copy, Debug)]
pub struct EstimatedPosition {
    pub lat_fp: i64,
    pub lng_fp: i64,
    pub accuracy: i32,
    pub fallback: Option<FallbackTag>,
}

/// An IP-geolocation hint for the caller: an approximate coordinate and
/// which granularity of place data was known for it.
#[derive(Clone, Copy, Debug)]
pub struct IpHint {
    pub lat_fp: i64,
    pub lng_fp: i64,
    pub has_postal_code: bool,
    pub has_city: bool,
    pub has_region: bool,
}

/// One entry of the structured not-found payload.
#[derive(Clone, Debug)]
pub struct MlsErrorItem {
    pub domain: String,
    pub reason: String,
    pub message: String,
}

/// The detail block of the structured not-found payload.
#[derive(Clone, Debug)]
pub struct MlsErrorDetail {
    pub errors: Vec<MlsErrorItem>,
    pub code: u16,
    pub message: String,
}

/// The structured not-found payload returned when no estimation path
/// produced an answer.
#[derive(Clone, Debug)]
pub struct MlsError {
    pub error: MlsErrorDetail,
}

/// The not-found answer: one geolocation/notFound entry and code 404.
pub fn build_error_response() -> (r: MlsError)
    ensures
        r.error.code == 404,
        r.error.message@ == "Not found"@,
        r.error.errors@.len() == 1,
        r.error.errors@[0].domain@ == "geolocation"@,
        r.error.errors@[0].reason@ == "notFound"@,
        r.error.errors@[0].message@ == "Not found"@,
{
    let mut errors: Vec<MlsErrorItem> = Vec::new();
    errors.push(
        MlsErrorItem {
            domain: "geolocation".to_owned(),
            reason: "notFound".to_owned(),
            message: "Not found".to_owned(),
        },
    );
    MlsError {
        error: MlsErrorDetail { errors, code: 404, message: "Not found".to_owned() },
    }
}

} // verus!
