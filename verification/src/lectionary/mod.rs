//! The three lectionaries Iskra can resolve a date against, and the shape
//! of a resolved result. The Revised Common Lectionary and the Roman
//! Catholic lectionary share the Western calendar of `calendar`; the
//! Narrative Lectionary keeps its own.

pub mod calendar;
pub mod catholic;
pub mod catholic_data;
pub mod narrative;
pub mod narrative_data;
pub mod rcl;
pub mod rcl_data;

use vstd::prelude::*;

use crate::date::{year_of, Date, MAX_YEAR};
use crate::model::{LectionaryLink, LinkView};
use crate::text::str_eq;

verus! {

/// Which lectionary a resolved reading set came from.
#[derive(Clone, Copy, Debug, PartialEq, Eq, Structural, Default)]
pub enum LectionaryKind {
    #[default]
    Rcl,
    Catholic,
    Narrative,
}

pub open spec fn kind_label(k: LectionaryKind) -> Seq<char> {
    match k {
        LectionaryKind::Rcl => "Revised Common Lectionary"@,
        LectionaryKind::Catholic => "Roman Catholic Lectionary"@,
        LectionaryKind::Narrative => "Narrative Lectionary"@,
    }
}

impl LectionaryKind {
    /// Name shown in the lectionary picker.
    pub fn label(&self) -> (r: &'static str)
        ensures
            r@ == kind_label(*self),
    {
        match self {
            LectionaryKind::Rcl => "Revised Common Lectionary",
            LectionaryKind::Catholic => "Roman Catholic Lectionary",
            LectionaryKind::Narrative => "Narrative Lectionary",
        }
    }
}

/// The RCL's Ordinary Time Old Testament/Psalm pairing.
#[derive(Clone, Copy, Debug, PartialEq, Eq, Structural, Default)]
pub enum RclTrack {
    #[default]
    Semicontinuous,
    Complementary,
}

pub open spec fn track_label(t: RclTrack) -> Seq<char> {
    match t {
        RclTrack::Semicontinuous => "Semicontinuous"@,
        RclTrack::Complementary => "Complementary"@,
    }
}

impl RclTrack {
    pub fn label(&self) -> (r: &'static str)
        ensures
            r@ == track_label(*self),
    {
        match self {
            RclTrack::Semicontinuous => "Semicontinuous",
            RclTrack::Complementary => "Complementary",
        }
    }
}

/// A lectionary's answer for one date: season, week label, cycle year,
/// liturgical colour and the readings as (label, citation) pairs.
#[derive(Debug, Clone, PartialEq)]
pub struct LiturgicalInfo {
    pub season: String,
    pub week: String,
    pub year: String,
    pub colour: String,
    pub colour_hex: String,
    pub readings: Vec<(String, String)>,
    pub found: bool,
}

#[verifier::ext_equal]
pub struct LitView {
    pub season: Seq<char>,
    pub week: Seq<char>,
    pub year: Seq<char>,
    pub colour: Seq<char>,
    pub colour_hex: Seq<char>,
    pub readings: Seq<(Seq<char>, Seq<char>)>,
    pub found: bool,
}

impl View for LiturgicalInfo {
    type V = LitView;

    open spec fn view(&self) -> LitView {
        LitView {
            season: self.season@,
            week: self.week@,
            year: self.year@,
            colour: self.colour@,
            colour_hex: self.colour_hex@,
            readings: pairs_view(self.readings@),
            found: self.found,
        }
    }
}

/// The (label, citation) pairs of a reading list, as text.
pub open spec fn pairs_view(v: Seq<(String, String)>) -> Seq<(Seq<char>, Seq<char>)> {
    v.map_values(|p: (String, String)| (p.0@, p.1@))
}

/// The citation of the first reading labelled `label`, or an em dash.
pub open spec fn reading_for(readings: Seq<(Seq<char>, Seq<char>)>, label: Seq<char>) -> Seq<char>
    decreases readings.len(),
{
    if readings.len() == 0 {
        "—"@
    } else if readings[0].0 == label {
        readings[0].1
    } else {
        reading_for(readings.drop_first(), label)
    }
}

impl LiturgicalInfo {
    /// The citation labelled `label` ("OT", "Psalm", ...), or "—" when absent.
    pub fn reading(&self, label: &str) -> (r: &str)
        ensures
            r@ == reading_for(pairs_view(self.readings@), label@),
    {
        let n = self.readings.len();
        let mut i: usize = 0;
        assert(pairs_view(self.readings@).skip(0) =~= pairs_view(self.readings@));
        while i < n
            invariant
                n == self.readings@.len(),
                i <= n,
                reading_for(pairs_view(self.readings@), label@) == reading_for(
                    pairs_view(self.readings@).skip(i as int),
                    label@,
                ),
            decreases n - i,
        {
            let ghost rest = pairs_view(self.readings@).skip(i as int);
            assert(rest.drop_first() =~= pairs_view(self.readings@).skip(i + 1));
            if str_eq(self.readings[i].0.as_str(), label) {
                return self.readings[i].1.as_str();
            }
            i = i + 1;
        }
        assert(pairs_view(self.readings@).skip(i as int).len() == 0);
        "—"
    }

    pub fn ot(&self) -> (r: &str)
        ensures
            r@ == reading_for(pairs_view(self.readings@), "OT"@),
    {
        self.reading("OT")
    }

    pub fn psalm(&self) -> (r: &str)
        ensures
            r@ == reading_for(pairs_view(self.readings@), "Psalm"@),
    {
        self.reading("Psalm")
    }

    pub fn epistle(&self) -> (r: &str)
        ensures
            r@ == reading_for(pairs_view(self.readings@), "Epistle"@),
    {
        self.reading("Epistle")
    }

    pub fn gospel(&self) -> (r: &str)
        ensures
            r@ == reading_for(pairs_view(self.readings@), "Gospel"@),
    {
        self.reading("Gospel")
    }
}

/// What lectionary `kind` gives for the day numbered `x`.
pub open spec fn info_for(kind: LectionaryKind, track: RclTrack, x: int) -> LitView {
    match kind {
        LectionaryKind::Rcl => rcl::paired(crate::rcl::rcl_info(x, track)),
        LectionaryKind::Catholic => catholic::catholic_info(x),
        LectionaryKind::Narrative => narrative::narrative_info(x),
    }
}

/// The link stored with a sermon for a resolved result, tagged with the
/// lectionary it came from; the legacy four slots stay empty.
pub open spec fn link_of(kind: LectionaryKind, v: LitView) -> LinkView {
    LinkView {
        source: kind,
        week: v.week,
        season: v.season,
        year: v.year,
        colour: v.colour,
        colour_hex: v.colour_hex,
        readings: v.readings,
        ot: seq![],
        psalm: seq![],
        epistle: seq![],
        gospel: seq![],
    }
}

/// Resolves lectionary `kind` for `d` and tags the result with it; `track`
/// only matters for the Revised Common Lectionary.
pub fn get_info(kind: LectionaryKind, track: RclTrack, d: Date) -> (r: LectionaryLink)
    requires
        kind == LectionaryKind::Rcl ==> crate::rcl::rcl_year_ok(year_of(d@)),
        kind == LectionaryKind::Catholic ==> crate::date::MIN_YEAR <= year_of(d@) <= MAX_YEAR
            && calendar::easter_defined(year_of(d@)),
        kind == LectionaryKind::Narrative ==> crate::date::MIN_YEAR < year_of(d@) <= MAX_YEAR
            && calendar::easter_defined(year_of(d@)),
    ensures
        r@ == link_of(kind, info_for(kind, track, d@)),
{
    let info = match kind {
        LectionaryKind::Rcl => rcl::get_liturgical_info(d, track),
        LectionaryKind::Catholic => catholic::get_liturgical_info(d),
        LectionaryKind::Narrative => narrative::get_liturgical_info(d),
    };
    let mut link = LectionaryLink::from(info);
    link.source = kind;
    link
}

impl LectionaryLink {
    /// The link a lectionary's answer is stored as: its week, season, year,
    /// colour and readings, marked as the Revised Common Lectionary's until
    /// the caller says otherwise.
    pub fn from(info: LiturgicalInfo) -> (r: LectionaryLink)
        ensures
            r@ == link_of(LectionaryKind::Rcl, info@),
    {
        LectionaryLink {
            source: LectionaryKind::Rcl,
            week: info.week,
            season: info.season,
            year: info.year,
            colour: info.colour,
            colour_hex: info.colour_hex,
            readings: info.readings,
            ot: String::new(),
            psalm: String::new(),
            epistle: String::new(),
            gospel: String::new(),
        }
    }
}

} // verus!
