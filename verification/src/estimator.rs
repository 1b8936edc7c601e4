//! The position estimator: reduces the candidate locations of a decoded
//! response to at most one estimated position per pass.
//!
//! The weighted mean uses integer weights `WEIGHT_SCALE / max(1, accuracy)`,
//! the fixed-point realization of weighting by inverse accuracy, and the
//! sums are computed exactly; the resulting coordinate is the truncated
//! quotient of the weighted sums, still in fixed-point units.

use vstd::prelude::*;

verus! {

use crate::arith::{
    tdiv, lemma_tdiv_upper, lemma_tdiv_lower, lemma_take_step, lemma_div_at_least,
    lemma_tdiv_scale,
};
use vstd::arithmetic::div_mod::lemma_div_nonincreasing;
use crate::apple_wps::{
    AlsLocation, AlsLocationResponse, WirelessAp, GsmCellTower, LteCellTower, ScdmaCellTower,
    Nr5gCellTower, coordinates_of,
};
use crate::mls::{EstimatedPosition, FallbackTag};

/// Scale of the integer weights: a candidate of accuracy `a` weighs
/// `WEIGHT_SCALE / max(1, a)`.
pub const WEIGHT_SCALE: u64 = 0x1_0000_0000;

/// The weighted sums are exact as long as the total weight stays within
/// this bound.
pub const TOTAL_WEIGHT_LIMIT: u128 = 0x8000_0000_0000_0000;

/// The accuracy value a candidate is weighted by: at least one meter.
pub open spec fn clamped_accuracy(acc: i32) -> int {
    if acc < 1 {
        1
    } else {
        acc as int
    }
}

/// The integer weight of a candidate with accuracy `acc`.
pub open spec fn weight(acc: i32) -> int {
    (WEIGHT_SCALE as int) / clamped_accuracy(acc)
}

/// Every weight lies between 2 and the scale itself.
pub proof fn lemma_weight_bounds(acc: i32)
    ensures
        2 <= weight(acc) <= WEIGHT_SCALE as int,
{
    let a = clamped_accuracy(acc);
    lemma_div_at_least(WEIGHT_SCALE as int, a, 2);
    lemma_div_nonincreasing(WEIGHT_SCALE as int, a);
    lemma_div_at_least(WEIGHT_SCALE as int, 1, WEIGHT_SCALE as int);
    if a > 1 {
        vstd::arithmetic::div_mod::lemma_div_is_ordered_by_denominator(
            WEIGHT_SCALE as int,
            1,
            a,
        );
    }
}

/// Total weight of a candidate list.
pub open spec fn wtot(s: Seq<(i64, i64, i32)>) -> int
    decreases s.len(),
{
    if s.len() == 0 {
        0
    } else {
        wtot(s.drop_last()) + weight(s.last().2)
    }
}

/// Weighted sum of the latitudes of a candidate list.
pub open spec fn wlat(s: Seq<(i64, i64, i32)>) -> int
    decreases s.len(),
{
    if s.len() == 0 {
        0
    } else {
        wlat(s.drop_last()) + s.last().0 * weight(s.last().2)
    }
}

/// Weighted sum of the longitudes of a candidate list.
pub open spec fn wlng(s: Seq<(i64, i64, i32)>) -> int
    decreases s.len(),
{
    if s.len() == 0 {
        0
    } else {
        wlng(s.drop_last()) + s.last().1 * weight(s.last().2)
    }
}

/// The smallest accuracy among the candidates (the i32 maximum when
/// there are none).
pub open spec fn min_acc(s: Seq<(i64, i64, i32)>) -> int
    decreases s.len(),
{
    if s.len() == 0 {
        i32::MAX as int
    } else {
        let rest = min_acc(s.drop_last());
        if (s.last().2 as int) < rest {
            s.last().2 as int
        } else {
            rest
        }
    }
}

proof fn lemma_weighted_push(s: Seq<(i64, i64, i32)>, c: (i64, i64, i32))
    ensures
        wtot(s.push(c)) == wtot(s) + weight(c.2),
        wlat(s.push(c)) == wlat(s) + c.0 * weight(c.2),
        wlng(s.push(c)) == wlng(s) + c.1 * weight(c.2),
        min_acc(s.push(c)) == if (c.2 as int) < min_acc(s) {
            c.2 as int
        } else {
            min_acc(s)
        },
{
    assert(s.push(c).drop_last() =~= s);
    assert(s.push(c).last() == c);
}

/// The total weight of a prefix never exceeds the whole list's.
proof fn lemma_wtot_prefix(s: Seq<(i64, i64, i32)>, j: int)
    requires
        0 <= j <= s.len(),
    ensures
        wtot(s.take(j)) <= wtot(s),
    decreases s.len() - j,
{
    if j == s.len() {
        assert(s.take(j) =~= s);
    } else {
        lemma_take_step(s, j);
        lemma_weighted_push(s.take(j), s[j]);
        lemma_weight_bounds(s[j].2);
        lemma_wtot_prefix(s, j + 1);
    }
}

/// The accuracy an estimate reports: the best candidate accuracy, but
/// never below the pass's floor.
pub open spec fn floored_accuracy(s: Seq<(i64, i64, i32)>, floor: i32) -> i32 {
    if min_acc(s) < floor as int {
        floor
    } else {
        min_acc(s) as i32
    }
}

/// What reducing a candidate list yields: nothing for an empty list
/// (or for one whose total weight exceeds the exactness bound), else
/// the truncated weighted-mean coordinates and the floored accuracy.
pub open spec fn mean_result(s: Seq<(i64, i64, i32)>, floor: i32) -> Option<(i64, i64, i32)> {
    if s.len() > 0 && wtot(s) <= TOTAL_WEIGHT_LIMIT as int {
        Option::Some(
            (
                tdiv(wlat(s), wtot(s)) as i64,
                tdiv(wlng(s), wtot(s)) as i64,
                floored_accuracy(s, floor),
            ),
        )
    } else {
        Option::None
    }
}

fn weight_of(acc: i32) -> (w: u64)
    ensures
        w as int == weight(acc),
        2 <= w <= WEIGHT_SCALE,
{
    let a: u64 = if acc < 1 {
        1
    } else {
        acc as u64
    };
    proof {
        lemma_weight_bounds(acc);
    }
    WEIGHT_SCALE / a
}

fn div_trunc(n: i128, d: u128) -> (r: i64)
    requires
        1 <= d <= TOTAL_WEIGHT_LIMIT,
        n <= (i64::MAX as int) * d,
        n >= (i64::MIN as int) * d,
    ensures
        r as int == tdiv(n as int, d as int),
{
    if n >= 0 {
        proof {
            lemma_tdiv_upper(n as int, d as int, i64::MAX as int);
        }
        let q: u128 = (n as u128) / d;
        q as i64
    } else {
        proof {
            lemma_tdiv_lower(n as int, d as int, 0x8000_0000_0000_0000);
            assert(-(n as int) <= 0x8000_0000_0000_0000 * (d as int)) by (nonlinear_arith)
                requires
                    n as int >= (i64::MIN as int) * (d as int),
                    i64::MIN as int == -0x8000_0000_0000_0000,
            ;
            lemma_tdiv_upper(-(n as int), d as int, 0x8000_0000_0000_0000);
        }
        let m: i128 = -n;
        let q: u128 = (m as u128) / d;
        let qi: i128 = q as i128;
        (-qi) as i64
    }
}

/// Reduces a candidate list to the weighted-mean position and floored
/// accuracy, or to nothing when the list is empty or its total weight
/// would overflow the exact sums.
pub fn reduce_candidates(cands: &Vec<(i64, i64, i32)>, floor: i32) -> (r: Option<(i64, i64, i32)>)
    ensures
        r == mean_result(cands@, floor),
{
    if cands.len() == 0 {
        return Option::None;
    }
    let ghost full = cands@;
    let mut den: u128 = 0;
    let mut num_lat: i128 = 0;
    let mut num_lng: i128 = 0;
    let mut mina: i32 = i32::MAX;
    let mut i: usize = 0;
    while i < cands.len()
        invariant
            i <= full.len(),
            full == cands@,
            den == wtot(full.take(i as int)),
            num_lat == wlat(full.take(i as int)),
            num_lng == wlng(full.take(i as int)),
            mina as int == min_acc(full.take(i as int)),
            den <= TOTAL_WEIGHT_LIMIT,
            2 * i <= den || i == 0,
            num_lat <= (i64::MAX as int) * den,
            num_lat >= (i64::MIN as int) * den,
            num_lng <= (i64::MAX as int) * den,
            num_lng >= (i64::MIN as int) * den,
        decreases full.len() - i,
    {
        let (la, lo, ac) = cands[i];
        let w: u64 = weight_of(ac);
        proof {
            lemma_take_step(full, i as int);
            lemma_weighted_push(full.take(i as int), full[i as int]);
        }
        let newden: u128 = den + (w as u128);
        if newden > TOTAL_WEIGHT_LIMIT {
            proof {
                lemma_wtot_prefix(full, i + 1);
            }
            return Option::None;
        }
        proof {
            let maxv = i64::MAX as int;
            let minv = i64::MIN as int;
            let di = den as int;
            let wi = w as int;
            assert((la as int) * wi <= maxv * wi && (la as int) * wi >= minv * wi && (lo as int)
                * wi <= maxv * wi && (lo as int) * wi >= minv * wi) by (nonlinear_arith)
                requires
                    minv <= la as int <= maxv,
                    minv <= lo as int <= maxv,
                    wi >= 0,
            ;
            assert(maxv * di + maxv * wi == maxv * (di + wi) && minv * di + minv * wi == minv * (di
                + wi)) by (nonlinear_arith);
            assert(maxv * (di + wi) < 0x8000_0000_0000_0000_0000_0000_0000_0000 && minv * (di + wi)
                >= -0x8000_0000_0000_0000_0000_0000_0000_0000) by (nonlinear_arith)
                requires
                    0 <= di + wi <= 0x8000_0000_0000_0000,
                    maxv == 0x7FFF_FFFF_FFFF_FFFF,
                    minv == -0x8000_0000_0000_0000,
            ;
            assert((la as int) * (w as int) == (la as i128) * (w as i128));
            assert((lo as int) * (w as int) == (lo as i128) * (w as i128));
        }
        den = newden;
        num_lat = num_lat + (la as i128) * (w as i128);
        num_lng = num_lng + (lo as i128) * (w as i128);
        if ac < mina {
            mina = ac;
        }
        i += 1;
    }
    proof {
        assert(full.take(full.len() as int) =~= full);
    }
    let lat = div_trunc(num_lat, den);
    let lng = div_trunc(num_lng, den);
    let acc: i32 = if mina < floor {
        floor
    } else {
        mina
    };
    Option::Some((lat, lng, acc))
}

/// Over candidates of one shared accuracy the weighted mean is the
/// plain arithmetic mean: for a pair, each coordinate is the truncated
/// average of the two, and the reported accuracy is the shared accuracy
/// held to the pass's floor.
pub proof fn lemma_equal_accuracy_pair(c1: (i64, i64, i32), c2: (i64, i64, i32), floor: i32)
    requires
        c1.2 == c2.2,
    ensures
        mean_result(seq![c1, c2], floor) == Option::Some(
            (
                tdiv(c1.0 + c2.0, 2) as i64,
                tdiv(c1.1 + c2.1, 2) as i64,
                if (c1.2 as int) < floor as int {
                    floor
                } else {
                    c1.2
                },
            ),
        ),
{
    let s = seq![c1, c2];
    let w = weight(c1.2);
    lemma_weight_bounds(c1.2);
    assert(s.drop_last() =~= seq![c1]);
    assert(seq![c1].drop_last() =~= Seq::<(i64, i64, i32)>::empty());
    assert(s.last() == c2);
    assert(seq![c1].last() == c1);
    assert(wtot(Seq::<(i64, i64, i32)>::empty()) == 0);
    assert(wlat(Seq::<(i64, i64, i32)>::empty()) == 0);
    assert(wlng(Seq::<(i64, i64, i32)>::empty()) == 0);
    assert(min_acc(Seq::<(i64, i64, i32)>::empty()) == i32::MAX as int);
    assert(min_acc(seq![c1]) == c1.2 as int);
    assert(wtot(seq![c1]) == w);
    assert(wlat(seq![c1]) == c1.0 * w);
    assert(wlng(seq![c1]) == c1.1 * w);
    assert(wtot(s) == 2 * w);
    assert(wlat(s) == c1.0 * w + c2.0 * w);
    assert(wlng(s) == c1.1 * w + c2.1 * w);
    assert(c1.0 * w + c2.0 * w == (c1.0 + c2.0) * w) by (nonlinear_arith);
    assert(c1.1 * w + c2.1 * w == (c1.1 + c2.1) * w) by (nonlinear_arith);
    lemma_tdiv_scale(c1.0 + c2.0, 2, w);
    lemma_tdiv_scale(c1.1 + c2.1, 2, w);
    assert(min_acc(s) == c1.2 as int);
}

/// The optional located position of each entry, in order.
pub open spec fn ap_locations(s: Seq<WirelessAp>) -> Seq<Option<AlsLocation>> {
    s.map_values(|a: WirelessAp| a.location)
}

pub open spec fn gsm_locations(s: Seq<GsmCellTower>) -> Seq<Option<AlsLocation>> {
    s.map_values(|t: GsmCellTower| t.location)
}

pub open spec fn lte_locations(s: Seq<LteCellTower>) -> Seq<Option<AlsLocation>> {
    s.map_values(|t: LteCellTower| t.location)
}

pub open spec fn scdma_locations(s: Seq<ScdmaCellTower>) -> Seq<Option<AlsLocation>> {
    s.map_values(|t: ScdmaCellTower| t.location)
}

pub open spec fn nr5g_locations(s: Seq<Nr5gCellTower>) -> Seq<Option<AlsLocation>> {
    s.map_values(|t: Nr5gCellTower| t.location)
}

/// The usable candidates among a list of optional locations: entries
/// that carry a location whose latitude is not the sentinel, converted
/// to (latitude, longitude, accuracy) triples, in order.
pub open spec fn location_candidates(locs: Seq<Option<AlsLocation>>) -> Seq<(i64, i64, i32)>
    decreases locs.len(),
{
    if locs.len() == 0 {
        Seq::empty()
    } else {
        let rest = location_candidates(locs.drop_last());
        match locs.last() {
            Option::Some(l) => match coordinates_of(l) {
                Option::Some(c) => rest.push(c),
                Option::None => rest,
            },
            Option::None => rest,
        }
    }
}

proof fn lemma_candidates_push(locs: Seq<Option<AlsLocation>>, l: Option<AlsLocation>)
    ensures
        location_candidates(locs.push(l)) == match l {
            Option::Some(loc) => match coordinates_of(loc) {
                Option::Some(c) => location_candidates(locs).push(c),
                Option::None => location_candidates(locs),
            },
            Option::None => location_candidates(locs),
        },
{
    assert(locs.push(l).drop_last() =~= locs);
    assert(locs.push(l).last() == l);
}

proof fn lemma_candidates_single(l: Option<AlsLocation>)
    ensures
        location_candidates(seq![l]) == match l {
            Option::Some(loc) => match coordinates_of(loc) {
                Option::Some(c) => seq![c],
                Option::None => Seq::<(i64, i64, i32)>::empty(),
            },
            Option::None => Seq::<(i64, i64, i32)>::empty(),
        },
{
    assert(seq![l].drop_last() =~= Seq::<Option<AlsLocation>>::empty());
    assert(seq![l].last() == l);
    assert(location_candidates(Seq::<Option<AlsLocation>>::empty()) == Seq::<(i64, i64,
    i32)>::empty());
    match l {
        Option::Some(loc) => {
            match coordinates_of(loc) {
                Option::Some(c) => {
                    assert(Seq::<(i64, i64, i32)>::empty().push(c) =~= seq![c]);
                },
                Option::None => {},
            }
        },
        Option::None => {},
    }
}

fn add_candidate(cands: &mut Vec<(i64, i64, i32)>, location: &Option<AlsLocation>)
    ensures
        final (cands)@ == old(cands)@ + location_candidates(seq![*location]),
{
    proof {
        lemma_candidates_single(*location);
    }
    match location {
        Option::Some(l) => {
            match l.to_coordinates() {
                Option::Some(c) => {
                    cands.push(c);
                    proof {
                        assert(cands@ =~= old(cands)@ + location_candidates(seq![*location]));
                    }
                },
                Option::None => {
                    proof {
                        assert(cands@ =~= old(cands)@ + location_candidates(seq![*location]));
                    }
                },
            }
        },
        Option::None => {
            proof {
                assert(cands@ =~= old(cands)@ + location_candidates(seq![*location]));
            }
        },
    }
}

fn add_ap_candidates(cands: &mut Vec<(i64, i64, i32)>, aps: &Vec<WirelessAp>)
    ensures
        final (cands)@ == old(cands)@ + location_candidates(ap_locations(aps@)),
{
    let ghost locs = ap_locations(aps@);
    let mut i: usize = 0;
    while i < aps.len()
        invariant
            i <= aps@.len(),
            locs == ap_locations(aps@),
            locs.len() == aps@.len(),
            cands@ == old(cands)@ + location_candidates(locs.take(i as int)),
        decreases aps@.len() - i,
    {
        proof {
            lemma_take_step(locs, i as int);
            lemma_candidates_push(locs.take(i as int), locs[i as int]);
            assert(locs[i as int] == aps@[i as int].location);
        }
        add_candidate(cands, &aps[i].location);
        proof {
            lemma_candidates_single(locs[i as int]);
            assert(cands@ =~= old(cands)@ + location_candidates(locs.take(i + 1)));
        }
        i += 1;
    }
    proof {
        assert(locs.take(locs.len() as int) =~= locs);
    }
}

fn add_gsm_candidates(cands: &mut Vec<(i64, i64, i32)>, towers: &Vec<GsmCellTower>)
    ensures
        final (cands)@ == old(cands)@ + location_candidates(gsm_locations(towers@)),
{
    let ghost locs = gsm_locations(towers@);
    let mut i: usize = 0;
    while i < towers.len()
        invariant
            i <= towers@.len(),
            locs == gsm_locations(towers@),
            locs.len() == towers@.len(),
            cands@ == old(cands)@ + location_candidates(locs.take(i as int)),
        decreases towers@.len() - i,
    {
        proof {
            lemma_take_step(locs, i as int);
            lemma_candidates_push(locs.take(i as int), locs[i as int]);
            assert(locs[i as int] == towers@[i as int].location);
        }
        add_candidate(cands, &towers[i].location);
        proof {
            lemma_candidates_single(locs[i as int]);
            assert(cands@ =~= old(cands)@ + location_candidates(locs.take(i + 1)));
        }
        i += 1;
    }
    proof {
        assert(locs.take(locs.len() as int) =~= locs);
    }
}

fn add_lte_candidates(cands: &mut Vec<(i64, i64, i32)>, towers: &Vec<LteCellTower>)
    ensures
        final (cands)@ == old(cands)@ + location_candidates(lte_locations(towers@)),
{
    let ghost locs = lte_locations(towers@);
    let mut i: usize = 0;
    while i < towers.len()
        invariant
            i <= towers@.len(),
            locs == lte_locations(towers@),
            locs.len() == towers@.len(),
            cands@ == old(cands)@ + location_candidates(locs.take(i as int)),
        decreases towers@.len() - i,
    {
        proof {
            lemma_take_step(locs, i as int);
            lemma_candidates_push(locs.take(i as int), locs[i as int]);
            assert(locs[i as int] == towers@[i as int].location);
        }
        add_candidate(cands, &towers[i].location);
        proof {
            lemma_candidates_single(locs[i as int]);
            assert(cands@ =~= old(cands)@ + location_candidates(locs.take(i + 1)));
        }
        i += 1;
    }
    proof {
        assert(locs.take(locs.len() as int) =~= locs);
    }
}

fn add_scdma_candidates(cands: &mut Vec<(i64, i64, i32)>, towers: &Vec<ScdmaCellTower>)
    ensures
        final (cands)@ == old(cands)@ + location_candidates(scdma_locations(towers@)),
{
    let ghost locs = scdma_locations(towers@);
    let mut i: usize = 0;
    while i < towers.len()
        invariant
            i <= towers@.len(),
            locs == scdma_locations(towers@),
            locs.len() == towers@.len(),
            cands@ == old(cands)@ + location_candidates(locs.take(i as int)),
        decreases towers@.len() - i,
    {
        proof {
            lemma_take_step(locs, i as int);
            lemma_candidates_push(locs.take(i as int), locs[i as int]);
            assert(locs[i as int] == towers@[i as int].location);
        }
        add_candidate(cands, &towers[i].location);
        proof {
            lemma_candidates_single(locs[i as int]);
            assert(cands@ =~= old(cands)@ + location_candidates(locs.take(i + 1)));
        }
        i += 1;
    }
    proof {
        assert(locs.take(locs.len() as int) =~= locs);
    }
}

fn add_nr5g_candidates(cands: &mut Vec<(i64, i64, i32)>, towers: &Vec<Nr5gCellTower>)
    ensures
        final (cands)@ == old(cands)@ + location_candidates(nr5g_locations(towers@)),
{
    let ghost locs = nr5g_locations(towers@);
    let mut i: usize = 0;
    while i < towers.len()
        invariant
            i <= towers@.len(),
            locs == nr5g_locations(towers@),
            locs.len() == towers@.len(),
            cands@ == old(cands)@ + location_candidates(locs.take(i as int)),
        decreases towers@.len() - i,
    {
        proof {
            lemma_take_step(locs, i as int);
            lemma_candidates_push(locs.take(i as int), locs[i as int]);
            assert(locs[i as int] == towers@[i as int].location);
        }
        add_candidate(cands, &towers[i].location);
        proof {
            lemma_candidates_single(locs[i as int]);
            assert(cands@ =~= old(cands)@ + location_candidates(locs.take(i + 1)));
        }
        i += 1;
    }
    proof {
        assert(locs.take(locs.len() as int) =~= locs);
    }
}

/// Accuracy floor of the Wi-Fi pass, in meters.
pub const WIFI_ACCURACY_FLOOR: i32 = 10;

/// Accuracy floor of the cell-tower pass, in meters.
pub const CELL_ACCURACY_FLOOR: i32 = 100;

/// The usable Wi-Fi candidates of a response.
pub open spec fn wifi_candidates(resp: AlsLocationResponse) -> Seq<(i64, i64, i32)> {
    location_candidates(ap_locations(resp.wireless_aps@))
}

/// The usable cell-tower candidates of a response: the union of all
/// four generations, in the response's order.
pub open spec fn cell_candidates(resp: AlsLocationResponse) -> Seq<(i64, i64, i32)> {
    location_candidates(gsm_locations(resp.gsm_cell_towers@)) + location_candidates(
        lte_locations(resp.lte_cell_towers@),
    ) + location_candidates(scdma_locations(resp.scdma_cell_towers@)) + location_candidates(
        nr5g_locations(resp.nr5g_cell_towers@),
    )
}

/// What the Wi-Fi pass yields: the reduced Wi-Fi candidates with the
/// Wi-Fi accuracy floor and no fallback tag.
pub open spec fn wifi_estimate(resp: AlsLocationResponse) -> Option<EstimatedPosition> {
    match mean_result(wifi_candidates(resp), WIFI_ACCURACY_FLOOR) {
        Option::Some(t) => Option::Some(
            EstimatedPosition {
                lat_fp: t.0,
                lng_fp: t.1,
                accuracy: t.2,
                fallback: Option::None,
            },
        ),
        Option::None => Option::None,
    }
}

/// What the cell-tower pass yields: the reduced cell candidates with
/// the coarser floor, tagged as the cell-tower fallback.
pub open spec fn cell_estimate(resp: AlsLocationResponse) -> Option<EstimatedPosition> {
    match mean_result(cell_candidates(resp), CELL_ACCURACY_FLOOR) {
        Option::Some(t) => Option::Some(
            EstimatedPosition {
                lat_fp: t.0,
                lng_fp: t.1,
                accuracy: t.2,
                fallback: Option::Some(FallbackTag::Lacf),
            },
        ),
        Option::None => Option::None,
    }
}

/// The estimate of a whole response: the Wi-Fi pass first, the
/// cell-tower pass only when Wi-Fi yields nothing.
pub open spec fn response_estimate(resp: AlsLocationResponse) -> Option<EstimatedPosition> {
    if wifi_estimate(resp) is Some {
        wifi_estimate(resp)
    } else {
        cell_estimate(resp)
    }
}

/// The Wi-Fi pass over a decoded response.
pub fn estimate_position_from_aps(response: &AlsLocationResponse) -> (r: Option<EstimatedPosition>)
    ensures
        r == wifi_estimate(*response),
{
    let mut cands: Vec<(i64, i64, i32)> = Vec::new();
    add_ap_candidates(&mut cands, &response.wireless_aps);
    proof {
        assert(cands@ =~= wifi_candidates(*response));
    }
    match reduce_candidates(&cands, WIFI_ACCURACY_FLOOR) {
        Option::Some(t) => Option::Some(
            EstimatedPosition {
                lat_fp: t.0,
                lng_fp: t.1,
                accuracy: t.2,
                fallback: Option::None,
            },
        ),
        Option::None => Option::None,
    }
}

/// The cell-tower pass over a decoded response.
pub fn estimate_position_from_cells(response: &AlsLocationResponse) -> (r: Option<
    EstimatedPosition,
>)
    ensures
        r == cell_estimate(*response),
{
    let mut cands: Vec<(i64, i64, i32)> = Vec::new();
    add_gsm_candidates(&mut cands, &response.gsm_cell_towers);
    add_lte_candidates(&mut cands, &response.lte_cell_towers);
    add_scdma_candidates(&mut cands, &response.scdma_cell_towers);
    add_nr5g_candidates(&mut cands, &response.nr5g_cell_towers);
    proof {
        assert(cands@ =~= cell_candidates(*response));
    }
    match reduce_candidates(&cands, CELL_ACCURACY_FLOOR) {
        Option::Some(t) => Option::Some(
            EstimatedPosition {
                lat_fp: t.0,
                lng_fp: t.1,
                accuracy: t.2,
                fallback: Option::Some(FallbackTag::Lacf),
            },
        ),
        Option::None => Option::None,
    }
}

/// Both passes in their required order: Wi-Fi first, cell towers only
/// when the Wi-Fi pass yields nothing.
pub fn estimate_from_response(response: &AlsLocationResponse) -> (r: Option<EstimatedPosition>)
    ensures
        r == response_estimate(*response),
{
    match estimate_position_from_aps(response) {
        Option::Some(p) => Option::Some(p),
        Option::None => estimate_position_from_cells(response),
    }
}

} // verus!
