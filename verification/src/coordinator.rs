//! The fallback coordinator: which upstream request a query warrants,
//! and how the network result, the "consider IP" policy and the IP
//! hint combine into the final outcome.
//!
//! The single outbound call sits between `plan_upstream_request` and
//! `conclude`; the transport itself stays outside the library, which
//! only decides.

use vstd::prelude::*;

verus! {

use crate::apple_wps::{
    AlsLocationRequest, CellRequest, GsmCellTower, LteCellTower, ScdmaCellTower, RadioKind,
    radio_kind, gsm_towers, lte_towers, scdma_towers, kind_count, count_field, wifi_side_matches,
    wifi_side_empty, cell_side_matches, cell_side_empty, meta_matches,
};
use crate::mls::{
    MlsRequest, CellTower, EstimatedPosition, FallbackTag, IpHint, bssids_spec, effective_radio,
    cell_matches, has_wifi_data_spec, has_cell_data_spec,
};

/// Budget of additional surrounding Wi-Fi results asked of the upstream.
pub const WIFI_SURROUNDING_BUDGET: i32 = 100;

/// Budget of additional surrounding cell results asked of the upstream.
pub const CELL_SURROUNDING_BUDGET: i32 = 25;

/// The radio generation one inbound cell observation resolves to.
pub open spec fn effective_kind(ct: CellTower, global: Option<Vec<u8>>) -> RadioKind {
    radio_kind(effective_radio(ct, global))
}

/// The GSM entry an inbound observation becomes.
pub open spec fn gsm_from(ct: CellTower) -> GsmCellTower {
    GsmCellTower {
        mcc: ct.mobile_country_code,
        mnc: ct.mobile_network_code,
        cell_id: ct.cell_id,
        lac_id: ct.location_area_code,
        location: Option::None,
    }
}

/// The LTE entry an inbound observation becomes.
pub open spec fn lte_from(ct: CellTower) -> LteCellTower {
    LteCellTower {
        mcc: Option::Some(ct.mobile_country_code),
        mnc: Option::Some(ct.mobile_network_code),
        cell_id: Option::Some(ct.cell_id),
        tac_id: Option::Some(ct.location_area_code),
        location: Option::None,
    }
}

/// The WCDMA entry an inbound observation becomes.
pub open spec fn scdma_from(ct: CellTower) -> ScdmaCellTower {
    ScdmaCellTower {
        mcc: ct.mobile_country_code,
        mnc: ct.mobile_network_code,
        cell_id: ct.cell_id,
        lac_id: ct.location_area_code,
        location: Option::None,
    }
}

/// GSM entries of the inbound observations, in order.
pub open spec fn gsm_towers_from(cts: Seq<CellTower>, global: Option<Vec<u8>>) -> Seq<GsmCellTower>
    decreases cts.len(),
{
    if cts.len() == 0 {
        Seq::empty()
    } else {
        let rest = gsm_towers_from(cts.drop_last(), global);
        if effective_kind(cts.last(), global) is Gsm {
            rest.push(gsm_from(cts.last()))
        } else {
            rest
        }
    }
}

/// LTE entries of the inbound observations, in order.
pub open spec fn lte_towers_from(cts: Seq<CellTower>, global: Option<Vec<u8>>) -> Seq<LteCellTower>
    decreases cts.len(),
{
    if cts.len() == 0 {
        Seq::empty()
    } else {
        let rest = lte_towers_from(cts.drop_last(), global);
        if effective_kind(cts.last(), global) is Lte {
            rest.push(lte_from(cts.last()))
        } else {
            rest
        }
    }
}

/// WCDMA entries of the inbound observations, in order.
pub open spec fn scdma_towers_from(cts: Seq<CellTower>, global: Option<Vec<u8>>) -> Seq<
    ScdmaCellTower,
>
    decreases cts.len(),
{
    if cts.len() == 0 {
        Seq::empty()
    } else {
        let rest = scdma_towers_from(cts.drop_last(), global);
        if effective_kind(cts.last(), global) is Wcdma {
            rest.push(scdma_from(cts.last()))
        } else {
            rest
        }
    }
}

/// How many inbound observations resolve to one radio generation.
pub open spec fn kind_count_from(cts: Seq<CellTower>, global: Option<Vec<u8>>, k: RadioKind) -> int
    decreases cts.len(),
{
    if cts.len() == 0 {
        0
    } else {
        kind_count_from(cts.drop_last(), global, k) + if effective_kind(cts.last(), global) == k {
            1int
        } else {
            0int
        }
    }
}

/// Translated observations yield the same buckets and counts as the
/// inbound list they came from.
proof fn lemma_cells_translate(
    cells: Seq<CellRequest>,
    cts: Seq<CellTower>,
    global: Option<Vec<u8>>,
)
    requires
        cells.len() == cts.len(),
        forall|i: int| 0 <= i < cts.len() ==> cell_matches(#[trigger] cells[i], cts[i], global),
    ensures
        gsm_towers(cells) == gsm_towers_from(cts, global),
        lte_towers(cells) == lte_towers_from(cts, global),
        scdma_towers(cells) == scdma_towers_from(cts, global),
        forall|k: RadioKind| kind_count(cells, k) == kind_count_from(cts, global, k),
    decreases cts.len(),
{
    if cts.len() == 0 {
        assert forall|k: RadioKind| kind_count(cells, k) == kind_count_from(cts, global, k) by {
            assert(kind_count(cells, k) == 0);
            assert(kind_count_from(cts, global, k) == 0);
        }
    } else {
        assert(cells.drop_last().len() == cts.drop_last().len());
        assert(forall|i: int|
            0 <= i < cts.drop_last().len() ==> cell_matches(
                #[trigger] cells.drop_last()[i],
                cts.drop_last()[i],
                global,
            ));
        lemma_cells_translate(cells.drop_last(), cts.drop_last(), global);
        assert(cell_matches(cells.last(), cts.last(), global));
        assert(radio_kind(cells.last().radio_type@) == effective_kind(cts.last(), global));
        assert forall|k: RadioKind| kind_count(cells, k) == kind_count_from(cts, global, k) by {
            assert(kind_count(cells, k) == kind_count(cells.drop_last(), k) + if radio_kind(
                cells.last().radio_type@,
            ) == k {
                1int
            } else {
                0int
            });
            assert(kind_count_from(cts, global, k) == kind_count_from(cts.drop_last(), global, k)
                + if effective_kind(cts.last(), global) == k {
                1int
            } else {
                0int
            });
        }
    }
}

/// The Wi-Fi side of the planned request, phrased over the normalized
/// identifiers themselves.
pub open spec fn wifi_side_built(q: AlsLocationRequest, macs: Seq<Seq<u8>>, budget: i32) -> bool {
    &&& q.wireless_aps@.len() == macs.len()
    &&& forall|i: int|
        0 <= i < macs.len() ==> {
            &&& (#[trigger] q.wireless_aps@[i]).mac_id@ == macs[i]
            &&& q.wireless_aps@[i].location is None
            &&& q.wireless_aps@[i].channel is None
        }
    &&& q.number_of_surrounding_wifis == Option::Some(
        if budget < 1 {
            1i32
        } else {
            budget
        },
    )
    &&& q.surrounding_wifi_bands@ == seq![1i32, 2i32]
    &&& q.wifi_altitude_scale == Option::Some(2i32)
}

/// The cell side of the planned request, phrased over the inbound
/// observations themselves.
pub open spec fn cell_side_built(
    q: AlsLocationRequest,
    cts: Seq<CellTower>,
    global: Option<Vec<u8>>,
    budget: i32,
) -> bool {
    let total = kind_count_from(cts, global, RadioKind::Gsm) + kind_count_from(
        cts,
        global,
        RadioKind::Lte,
    ) + kind_count_from(cts, global, RadioKind::Wcdma);
    &&& q.gsm_cell_towers@ == gsm_towers_from(cts, global)
    &&& q.lte_cell_towers@ == lte_towers_from(cts, global)
    &&& q.scdma_cell_towers@ == scdma_towers_from(cts, global)
    &&& q.nr5g_cell_towers@.len() == 0
    &&& q.number_of_surrounding_gsm_cells == count_field(
        budget,
        kind_count_from(cts, global, RadioKind::Gsm),
        total,
    )
    &&& q.number_of_surrounding_lte_cells == count_field(
        budget,
        kind_count_from(cts, global, RadioKind::Lte),
        total,
    )
    &&& q.number_of_surrounding_scdma_cells == count_field(
        budget,
        kind_count_from(cts, global, RadioKind::Wcdma),
        total,
    )
    &&& q.number_of_surrounding_nr5g_cells is None
}

/// Builds the upstream request a query warrants: none without usable
/// network data, otherwise Wi-Fi-only, cell-only or combined by which
/// observations are present, with the fixed budgets.
pub fn plan_upstream_request(req: &MlsRequest) -> (r: Option<AlsLocationRequest>)
    ensures
        r is Some <==> (has_wifi_data_spec(*req) || has_cell_data_spec(*req)),
        r matches Option::Some(q) ==> {
            &&& meta_matches(q)
            &&& q.app_bundle_id is None
            &&& (bssids_spec(*req).len() > 0 ==> wifi_side_built(
                q,
                bssids_spec(*req),
                WIFI_SURROUNDING_BUDGET,
            ))
            &&& (bssids_spec(*req).len() == 0 ==> wifi_side_empty(q))
            &&& (match req.cell_towers {
                Option::Some(c) => if c@.len() > 0 {
                    cell_side_built(q, c@, req.radio_type, CELL_SURROUNDING_BUDGET)
                } else {
                    cell_side_empty(q)
                },
                Option::None => cell_side_empty(q),
            })
        },
{
    if !req.has_network_data() {
        return Option::None;
    }
    let bssids = req.get_bssids();
    let cells = req.get_cells(&req.radio_type);
    let ghost cells_view = cells@;
    let has_bssids = bssids.len() > 0;
    let has_cells = cells.len() > 0;
    let q = if has_bssids && has_cells {
        AlsLocationRequest::new_combined_request(
            &bssids,
            cells,
            WIFI_SURROUNDING_BUDGET,
            CELL_SURROUNDING_BUDGET,
        )
    } else if has_bssids {
        AlsLocationRequest::new_wifi_request(&bssids, WIFI_SURROUNDING_BUDGET)
    } else {
        AlsLocationRequest::new_cell_request(cells, CELL_SURROUNDING_BUDGET)
    };
    proof {
        if bssids@.len() > 0 {
            assert(wifi_side_matches(q, bssids@, WIFI_SURROUNDING_BUDGET));
            assert(wifi_side_built(q, bssids_spec(*req), WIFI_SURROUNDING_BUDGET));
        }
        if cells_view.len() > 0 {
            assert(req.cell_towers is Some);
            let c = req.cell_towers->Some_0;
            lemma_cells_translate(cells_view, c@, req.radio_type);
        }
    }
    Option::Some(q)
}

/// The accuracy band of an IP-based estimate, by the hint's most
/// specific known granularity: 5000 m with a postal code, 20000 m with
/// a city, 100000 m with a region, 500000 m otherwise.
pub open spec fn ip_accuracy(h: IpHint) -> i32 {
    if h.has_postal_code {
        5000
    } else if h.has_city {
        20000
    } else if h.has_region {
        100000
    } else {
        500000
    }
}

/// The estimate an IP hint yields: its coordinate, the banded
/// accuracy, and the IP-fallback tag.
pub open spec fn ip_estimate(h: IpHint) -> EstimatedPosition {
    EstimatedPosition {
        lat_fp: h.lat_fp,
        lng_fp: h.lng_fp,
        accuracy: ip_accuracy(h),
        fallback: Option::Some(FallbackTag::Ipf),
    }
}

/// The terminal outcome of one query.
#[derive(Clone, Copy, Debug)]
pub enum LocateOutcome {
    /// A position was produced.
    Found(EstimatedPosition),
    /// No estimation path yielded anything: the not-found error.
    NotFound,
}

/// How the fallback chain ends: a network result wins outright; without
/// one the IP hint is used only when the policy allows it (it does by
/// default); with neither, the outcome is not-found.
pub open spec fn conclude_spec(
    network: Option<EstimatedPosition>,
    consider_ip: Option<bool>,
    hint: Option<IpHint>,
) -> LocateOutcome {
    match network {
        Option::Some(p) => LocateOutcome::Found(p),
        Option::None => {
            let allow = match consider_ip {
                Option::Some(b) => b,
                Option::None => true,
            };
            if allow {
                match hint {
                    Option::Some(h) => LocateOutcome::Found(ip_estimate(h)),
                    Option::None => LocateOutcome::NotFound,
                }
            } else {
                LocateOutcome::NotFound
            }
        },
    }
}

/// Decides the final outcome from the network attempt's result, the
/// query's "consider IP" flag, and the IP hint, exactly per the
/// fallback order.
pub fn conclude(
    network: Option<EstimatedPosition>,
    consider_ip: Option<bool>,
    hint: Option<IpHint>,
) -> (r: LocateOutcome)
    ensures
        r == conclude_spec(network, consider_ip, hint),
{
    match network {
        Option::Some(p) => LocateOutcome::Found(p),
        Option::None => {
            let allow = match consider_ip {
                Option::Some(b) => b,
                Option::None => true,
            };
            if allow {
                match hint {
                    Option::Some(h) => {
                        let acc: i32 = if h.has_postal_code {
                            5000
                        } else if h.has_city {
                            20000
                        } else if h.has_region {
                            100000
                        } else {
                            500000
                        };
                        LocateOutcome::Found(
                            EstimatedPosition {
                                lat_fp: h.lat_fp,
                                lng_fp: h.lng_fp,
                                accuracy: acc,
                                fallback: Option::Some(FallbackTag::Ipf),
                            },
                        )
                    },
                    Option::None => LocateOutcome::NotFound,
                }
            } else {
                LocateOutcome::NotFound
            }
        },
    }
}

/// With the network attempt empty and the policy flag set to false, the
/// outcome is not-found even when an IP hint is available.
pub proof fn lemma_ip_disabled_yields_not_found(hint: Option<IpHint>)
    ensures
        conclude_spec(Option::None, Option::Some(false), hint) is NotFound,
{
}

} // verus!
