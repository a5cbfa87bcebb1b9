//! The Revised Common Lectionary in the generic shape of this module: its
//! four readings as labelled pairs, with the Old Testament/Psalm track
//! chosen by the caller.

use vstd::prelude::*;

use crate::date::{year_of, Date, MAX_YEAR};
use crate::lectionary::{pairs_view, LitView, LiturgicalInfo, RclTrack};
use crate::rcl::{liturgical_info_for_track, rcl_info, InfoView};
use crate::text::owned;

verus! {

/// The Revised Common Lectionary result with its readings as labelled pairs.
pub open spec fn paired(i: InfoView) -> LitView {
    LitView {
        season: i.season,
        week: i.week,
        year: i.year,
        colour: i.colour,
        colour_hex: i.colour_hex,
        readings: seq![("OT"@, i.ot), ("Psalm"@, i.psalm), ("Epistle"@, i.epistle), ("Gospel"@, i.gospel)],
        found: i.found,
    }
}

/// Season, week, colour and readings of the Revised Common Lectionary for
/// `d` on the given Old Testament/Psalm track.
pub fn get_liturgical_info(d: Date, track: RclTrack) -> (r: LiturgicalInfo)
    requires
        crate::rcl::rcl_year_ok(year_of(d@)),
    ensures
        r@ == paired(rcl_info(d@, track)),
{
    let info = liturgical_info_for_track(d, track);
    let mut readings: Vec<(String, String)> = Vec::new();
    readings.push((owned("OT"), info.ot));
    readings.push((owned("Psalm"), info.psalm));
    readings.push((owned("Epistle"), info.epistle));
    readings.push((owned("Gospel"), info.gospel));
    let r = LiturgicalInfo {
        season: info.season,
        week: info.week,
        year: info.year,
        colour: info.colour,
        colour_hex: info.colour_hex,
        readings,
        found: info.found,
    };
    assert(r@.readings =~= paired(rcl_info(d@, track)).readings);
    r
}

} // verus!
