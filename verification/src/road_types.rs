//! Which roads light up when the pointer rests on a legend entry of the layers
//! panel.
use vstd::prelude::*;
use crate::controls::{Control, control_name, parse_control};
use crate::text::{is_prefix, starts_with, str_eq};

verus! {

/// How important a road is, as the map classifies it.
#[derive(PartialEq, Eq, Structural, Clone, Copy, Debug)]
pub enum RoadRank {
    Local,
    Arterial,
    Highway,
}

/// What the highlighting needs to know of a lane: whether it is for bikes,
/// a buffer, or anything else.
#[derive(PartialEq, Eq, Structural, Clone, Copy, Debug)]
pub enum LaneKind {
    Biking,
    Buffer,
    Other,
}

/// What the highlighting needs to know of a road.
pub struct RoadInfo {
    pub rank: RoadRank,
    /// The road's lanes, left to right.
    pub lanes: Vec<LaneKind>,
    pub is_cycleway: bool,
    pub is_greenway: bool,
}

/// Some lane of the road is a bike lane.
pub open spec fn has_bike_lane(lanes: Seq<LaneKind>) -> bool {
    exists|i: int| 0 <= i < lanes.len() && lanes[i] == LaneKind::Biking
}

/// Some lane of the road is a buffer.
pub open spec fn has_buffer(lanes: Seq<LaneKind>) -> bool {
    exists|i: int| 0 <= i < lanes.len() && lanes[i] == LaneKind::Buffer
}

/// Names under which hovering highlights no road at all, and builds no
/// highlight: the checkboxes and the "about ..." buttons.
pub open spec fn is_layer_or_info_name(name: Seq<char>) -> bool {
    ||| name == "bike network"@
    ||| name == "road labels"@
    ||| name == "elevation"@
    ||| name == "steep streets"@
    ||| is_prefix("about "@, name)
}

/// Whether the road lights up while the pointer rests on the entry `name`.
pub open spec fn shows_road(name: Seq<char>, road: RoadInfo) -> bool {
    let bike_lane = has_bike_lane(road.lanes@);
    let buffer = has_buffer(road.lanes@);
    match parse_control(name) {
        Some(Control::Highway) => road.rank == RoadRank::Highway,
        Some(Control::MajorStreet) => road.rank == RoadRank::Arterial,
        Some(Control::MinorStreet) => road.rank == RoadRank::Local,
        Some(Control::Trail) => road.is_cycleway,
        Some(Control::ProtectedBikeLane) => bike_lane && buffer,
        Some(Control::PaintedBikeLane) => bike_lane && !buffer,
        Some(Control::Greenway) => road.is_greenway,
        _ => false,
    }
}

/// Whether hovering over `name` may build a highlight.
pub fn is_highlightable(name: &str) -> (res: bool)
    ensures
        res == !is_layer_or_info_name(name@),
{
    !(str_eq(name, "bike network") || str_eq(name, "road labels") || str_eq(name, "elevation")
        || str_eq(name, "steep streets") || starts_with(name, "about "))
}

/// Whether the road has a bike lane, and whether it has a buffer.
pub fn lane_flags(lanes: &Vec<LaneKind>) -> (res: (bool, bool))
    ensures
        res.0 == has_bike_lane(lanes@),
        res.1 == has_buffer(lanes@),
{
    let mut bike_lane = false;
    let mut buffer = false;
    let mut i: usize = 0;
    while i < lanes.len()
        invariant
            i <= lanes.len(),
            bike_lane == exists|j: int| 0 <= j < i && lanes@[j] == LaneKind::Biking,
            buffer == exists|j: int| 0 <= j < i && lanes@[j] == LaneKind::Buffer,
        decreases lanes.len() - i,
    {
        if lanes[i] == LaneKind::Biking {
            bike_lane = true;
        } else if lanes[i] == LaneKind::Buffer {
            buffer = true;
        }
        i = i + 1;
    }
    (bike_lane, buffer)
}

/// Whether `road` lights up while the pointer rests on the entry `name`.
pub fn road_is_shown(name: &str, road: &RoadInfo) -> (res: bool)
    ensures
        res == shows_road(name@, *road),
{
    let (bike_lane, buffer) = lane_flags(&road.lanes);
    match Control::from_name(name) {
        Some(Control::Highway) => road.rank == RoadRank::Highway,
        Some(Control::MajorStreet) => road.rank == RoadRank::Arterial,
        Some(Control::MinorStreet) => road.rank == RoadRank::Local,
        Some(Control::Trail) => road.is_cycleway,
        Some(Control::ProtectedBikeLane) => bike_lane && buffer,
        Some(Control::PaintedBikeLane) => bike_lane && !buffer,
        Some(Control::Greenway) => road.is_greenway,
        _ => false,
    }
}

/// The indices of the roads that light up for the entry `name`, in order.
pub fn roads_to_highlight(name: &str, roads: &Vec<RoadInfo>) -> (res: Vec<usize>)
    ensures
        forall|k: int| 0 <= k < res.len() ==> #[trigger] res@[k] < roads.len(),
        forall|k: int| 0 <= k < res.len() ==> shows_road(name@, #[trigger] roads@[res@[k] as int]),
        forall|k: int, l: int| 0 <= k < l < res.len() ==> res@[k] < res@[l],
        forall|i: int|
            0 <= i < roads.len() && shows_road(name@, #[trigger] roads@[i]) ==> res@.contains(
                i as usize,
            ),
{
    let mut res: Vec<usize> = Vec::new();
    let mut i: usize = 0;
    while i < roads.len()
        invariant
            i <= roads.len(),
            forall|k: int| 0 <= k < res.len() ==> #[trigger] res@[k] < i,
            forall|k: int|
                0 <= k < res.len() ==> shows_road(name@, #[trigger] roads@[res@[k] as int]),
            forall|k: int, l: int| 0 <= k < l < res.len() ==> res@[k] < res@[l],
            forall|j: int|
                0 <= j < i && shows_road(name@, #[trigger] roads@[j]) ==> res@.contains(j as usize),
        decreases roads.len() - i,
    {
        let ghost before = res@;
        if road_is_shown(name, &roads[i]) {
            res.push(i);
            assert(res@[res.len() - 1] == i);
            assert forall|j: int|
                0 <= j < i && shows_road(name@, #[trigger] roads@[j]) implies res@.contains(
                j as usize,
            ) by {
                let k = choose|k: int| 0 <= k < before.len() && before[k] == j as usize;
                assert(res@[k] == j as usize);
            }
        }
        i = i + 1;
    }
    res
}

/// Law: a road lights up for at most one of the three rank entries.
pub proof fn lemma_rank_entries_exclusive(road: RoadInfo)
    ensures
        !(shows_road(control_name(Control::Highway), road) && shows_road(
            control_name(Control::MajorStreet),
            road,
        )),
        !(shows_road(control_name(Control::Highway), road) && shows_road(
            control_name(Control::MinorStreet),
            road,
        )),
        !(shows_road(control_name(Control::MajorStreet), road) && shows_road(
            control_name(Control::MinorStreet),
            road,
        )),
        shows_road(control_name(Control::Highway), road) || shows_road(
            control_name(Control::MajorStreet),
            road,
        ) || shows_road(control_name(Control::MinorStreet), road),
{
    crate::controls::lemma_name_roundtrip(Control::Highway);
    crate::controls::lemma_name_roundtrip(Control::MajorStreet);
    crate::controls::lemma_name_roundtrip(Control::MinorStreet);
}

/// Law: a road never lights up both as a protected and as a painted bike lane,
/// and it lights up as one of them exactly when it has a bike lane.
pub proof fn lemma_bike_lane_entries_partition(road: RoadInfo)
    ensures
        !(shows_road(control_name(Control::ProtectedBikeLane), road) && shows_road(
            control_name(Control::PaintedBikeLane),
            road,
        )),
        (shows_road(control_name(Control::ProtectedBikeLane), road) || shows_road(
            control_name(Control::PaintedBikeLane),
            road,
        )) == has_bike_lane(road.lanes@),
{
    crate::controls::lemma_name_roundtrip(Control::ProtectedBikeLane);
    crate::controls::lemma_name_roundtrip(Control::PaintedBikeLane);
}

/// Law: hovering a name that builds no highlight lights up no road.
pub proof fn lemma_layer_names_show_nothing(name: Seq<char>, road: RoadInfo)
    requires
        is_layer_or_info_name(name),
    ensures
        !shows_road(name, road),
{
    crate::controls::lemma_parse_names(name);
    crate::controls::lemma_name_roundtrip(Control::BikeNetwork);
    crate::controls::lemma_name_roundtrip(Control::RoadLabels);
    crate::controls::lemma_name_roundtrip(Control::Elevation);
    crate::controls::lemma_name_roundtrip(Control::SteepStreets);
    if is_prefix("about "@, name) {
        if let Some(c) = parse_control(name) {
            reveal_strlit("about ");
            reveal_strlit("highway");
            reveal_strlit("major street");
            reveal_strlit("minor street");
            reveal_strlit("trail");
            reveal_strlit("protected bike lane");
            reveal_strlit("painted bike lane");
            reveal_strlit("greenway");
            assert(control_name(c) == name);
            assert(name.subrange(0, 6)[0] == name[0]);
            assert(name[0] == 'a');
        }
    }
}

/// Law: what each legend entry lights up, in terms of the road alone: the
/// rank entries their rank, "trail" exactly the cycleways whatever their
/// lanes, the bike lane entries by bike lanes and buffers, "greenway" the
/// greenways; the zoom buttons light up nothing.
pub proof fn lemma_entry_meanings(road: RoadInfo)
    ensures
        shows_road(control_name(Control::Highway), road) == (road.rank == RoadRank::Highway),
        shows_road(control_name(Control::MajorStreet), road) == (road.rank == RoadRank::Arterial),
        shows_road(control_name(Control::MinorStreet), road) == (road.rank == RoadRank::Local),
        shows_road(control_name(Control::Trail), road) == road.is_cycleway,
        shows_road(control_name(Control::ProtectedBikeLane), road) == ((exists|i: int|
            0 <= i < road.lanes@.len() && road.lanes@[i] == LaneKind::Biking) && (exists|i: int|
            0 <= i < road.lanes@.len() && road.lanes@[i] == LaneKind::Buffer)),
        shows_road(control_name(Control::PaintedBikeLane), road) == ((exists|i: int|
            0 <= i < road.lanes@.len() && road.lanes@[i] == LaneKind::Biking) && !(exists|i: int|
            0 <= i < road.lanes@.len() && road.lanes@[i] == LaneKind::Buffer)),
        shows_road(control_name(Control::Greenway), road) == road.is_greenway,
        !shows_road(control_name(Control::ZoomIn), road),
        !shows_road(control_name(Control::ZoomOut), road),
{
    crate::controls::lemma_name_roundtrip(Control::Highway);
    crate::controls::lemma_name_roundtrip(Control::MajorStreet);
    crate::controls::lemma_name_roundtrip(Control::MinorStreet);
    crate::controls::lemma_name_roundtrip(Control::Trail);
    crate::controls::lemma_name_roundtrip(Control::ProtectedBikeLane);
    crate::controls::lemma_name_roundtrip(Control::PaintedBikeLane);
    crate::controls::lemma_name_roundtrip(Control::Greenway);
    crate::controls::lemma_name_roundtrip(Control::ZoomIn);
    crate::controls::lemma_name_roundtrip(Control::ZoomOut);
}

/// Law: of the panel's controls, exactly the checkboxes and the button about
/// the elevation data build no highlight, and any name that starts with
/// "about " builds none either.
pub proof fn lemma_which_controls_highlight(c: Control, name: Seq<char>)
    ensures
        is_layer_or_info_name(control_name(c)) <==> (crate::controls::is_toggle(c) || c
            == Control::AboutElevation),
        name.len() >= 6 && name[0] == 'a' && name[1] == 'b' && name[2] == 'o' && name[3] == 'u'
            && name[4] == 't' && name[5] == ' ' ==> is_layer_or_info_name(name),
{
    reveal_strlit("about ");
    reveal_strlit("zoom map in");
    reveal_strlit("zoom map out");
    reveal_strlit("highway");
    reveal_strlit("major street");
    reveal_strlit("minor street");
    reveal_strlit("bike network");
    reveal_strlit("trail");
    reveal_strlit("protected bike lane");
    reveal_strlit("painted bike lane");
    reveal_strlit("greenway");
    reveal_strlit("road labels");
    reveal_strlit("elevation");
    reveal_strlit("about the elevation data");
    reveal_strlit("steep streets");
    let n = control_name(c);
    if is_prefix("about "@, n) {
        assert(n.subrange(0, 6)[0] == n[0]);
        assert(n.subrange(0, 6)[1] == n[1]);
    }
    if c == Control::AboutElevation {
        assert(n.subrange(0, 6) =~= "about "@);
    }
    if n == "bike network"@ || n == "road labels"@ || n == "elevation"@ || n == "steep streets"@ {
        assert(n[0] == "bike network"@[0] || n[0] == "road labels"@[0] || n[0] == "elevation"@[0] || n[0] == "steep streets"@[0]);
        assert(n.len() == "bike network"@.len() || n.len() == "road labels"@.len() || n.len() == "elevation"@.len() || n.len() == "steep streets"@.len());
        assert(n[1] == "bike network"@[1] || n[1] == "road labels"@[1] || n[1] == "elevation"@[1] || n[1] == "steep streets"@[1]);
    }
    if name.len() >= 6 && name[0] == 'a' && name[1] == 'b' && name[2] == 'o' && name[3] == 'u'
        && name[4] == 't' && name[5] == ' ' {
        assert(name.subrange(0, 6) =~= "about "@);
    }
}

} // verus!
