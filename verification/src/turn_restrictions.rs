//! The turn-restrictions mode of the neighbourhood designer: which road is in
//! focus, which roads its turns lead to or are banned from, and how the map
//! objects are set up to show them.
use vstd::prelude::*;
use vstd::string::*;

verus! {

/// A road of the map.
#[derive(PartialEq, Eq, Structural, Clone, Copy, Debug)]
pub struct RoadID(pub usize);

/// An intersection of the map.
#[derive(PartialEq, Eq, Structural, Clone, Copy, Debug)]
pub struct IntersectionID(pub usize);

/// An object of the designer's map.
#[derive(PartialEq, Eq, Structural, Clone, Copy, Debug)]
pub enum Obj {
    Road(RoadID),
    Intersection(IntersectionID),
}

/// The kind of a simple turn restriction.
#[derive(PartialEq, Eq, Structural, Clone, Copy, Debug)]
pub enum RestrictionType {
    BanTurns,
    OnlyAllowTurns,
}

/// What the map reported for one event.
#[derive(PartialEq, Eq, Structural, Clone, Copy, Debug)]
pub enum WorldOutcome {
    ClickedObject(Obj),
    ClickedFreeSpace,
    HoverChanged(Option<Obj>, Option<Obj>),
    /// Any other report: keys, drags, nothing at all.
    Other,
}

/// What must be redrawn after an edit.
#[derive(PartialEq, Eq, Structural, Clone, Copy, Debug)]
pub enum EditOutcome {
    Nothing,
    UpdatePanelAndWorld,
    UpdateAll,
}

/// How the focus of the turn-restrictions mode changes.
#[derive(PartialEq, Eq, Structural, Clone, Copy, Debug)]
pub enum FocusChange {
    /// The focus stays as it is.
    Unchanged,
    /// No road is in focus any more.
    Clear,
    /// This road comes into focus, with its first path selected.
    Focus(RoadID),
}

/// The reaction to a map event.
#[derive(PartialEq, Eq, Structural, Clone, Copy, Debug)]
pub struct WorldResponse {
    pub focus: FocusChange,
    pub outcome: EditOutcome,
}

/// The turn restrictions recorded on a road.
pub struct RoadRestrictions {
    /// Simple restrictions: a kind and the road it leads to.
    pub turn_restrictions: Vec<(RestrictionType, RoadID)>,
    /// Restrictions through a road: the road passed through, and the road
    /// led to.
    pub complicated_turn_restrictions: Vec<(RoadID, RoadID)>,
}

/// What the mode knows of the road in focus.
pub struct FocusInfo {
    pub road: RoadID,
    pub restrictions: RoadRestrictions,
    /// The roads that traffic from the focused road can reach, one-way
    /// streets considered.
    pub possible_destinations: Vec<RoadID>,
}

/// The roads of a neighbourhood, each group in its own order.
pub struct Neighbourhood {
    pub perimeter_roads: Vec<RoadID>,
    pub interior_roads: Vec<RoadID>,
    pub connected_exterior_roads: Vec<RoadID>,
}

/// The colour of an outline drawn round a road.
#[derive(PartialEq, Eq, Structural, Clone, Copy, Debug)]
pub enum OutlineColor {
    /// The road in focus.
    Blue,
    /// A road that can be reached from it.
    Yellow,
    /// A road that a restriction keeps out of reach.
    Red,
}

/// An outline drawn round a road.
#[derive(PartialEq, Eq, Structural, Clone, Copy, Debug)]
pub struct Outline {
    pub color: OutlineColor,
    pub road: RoadID,
}

/// How one road is set up as a map object.
pub enum WorldObject {
    /// The road in focus: its hover drawing is this list of outlines, and it
    /// is neither clickable nor given a tooltip.
    Focused { road: RoadID, outlines: Vec<Outline> },
    /// Any other road: drawn in the shared batch, hoverable with a tooltip,
    /// and clickable.
    Plain { road: RoadID },
}

/// The reaction to the pointer moving onto `after`.
pub open spec fn hover_response(after: Option<Obj>) -> WorldResponse {
    match after {
        Some(Obj::Road(r)) => WorldResponse {
            focus: FocusChange::Focus(r),
            outcome: EditOutcome::UpdateAll,
        },
        _ => WorldResponse { focus: FocusChange::Clear, outcome: EditOutcome::UpdateAll },
    }
}

/// The reaction to a map event.
pub open spec fn world_response(outcome: WorldOutcome) -> WorldResponse {
    match outcome {
        WorldOutcome::ClickedObject(Obj::Road(r)) => WorldResponse {
            focus: FocusChange::Focus(r),
            outcome: EditOutcome::UpdatePanelAndWorld,
        },
        WorldOutcome::ClickedFreeSpace => WorldResponse {
            focus: FocusChange::Clear,
            outcome: EditOutcome::UpdatePanelAndWorld,
        },
        WorldOutcome::HoverChanged(_, after) => hover_response(after),
        _ => WorldResponse { focus: FocusChange::Unchanged, outcome: EditOutcome::Nothing },
    }
}

/// The targets of the banning restrictions, in order.
pub open spec fn banned_targets(tr: Seq<(RestrictionType, RoadID)>) -> Seq<RoadID>
    decreases tr.len(),
{
    if tr.len() == 0 {
        Seq::empty()
    } else {
        let rest = banned_targets(tr.drop_last());
        if tr.last().0 == RestrictionType::BanTurns {
            rest.push(tr.last().1)
        } else {
            rest
        }
    }
}

/// The roads passed through and led to by the complicated restrictions, in
/// order, each pair in that order.
pub open spec fn via_and_targets(ctr: Seq<(RoadID, RoadID)>) -> Seq<RoadID>
    decreases ctr.len(),
{
    if ctr.len() == 0 {
        Seq::empty()
    } else {
        via_and_targets(ctr.drop_last()).push(ctr.last().0).push(ctr.last().1)
    }
}

/// The roads that the restrictions of a road keep out of reach.
pub open spec fn restricted_of(r: RoadRestrictions) -> Seq<RoadID> {
    banned_targets(r.turn_restrictions@) + via_and_targets(r.complicated_turn_restrictions@)
}

/// The outlines that make up the hover drawing of the road in focus: the
/// road itself, then the roads it leads to, then the restricted ones.
pub open spec fn focus_outlines(f: FocusInfo) -> Seq<Outline> {
    seq![Outline { color: OutlineColor::Blue, road: f.road }] + f.possible_destinations@.map_values(
        |r: RoadID| Outline { color: OutlineColor::Yellow, road: r },
    ) + restricted_of(f.restrictions).map_values(
        |r: RoadID| Outline { color: OutlineColor::Red, road: r },
    )
}

/// The roads of a neighbourhood: the perimeter, then the interior, then the
/// connected exterior roads.
pub open spec fn all_roads(n: Neighbourhood) -> Seq<RoadID> {
    n.perimeter_roads@ + n.interior_roads@ + n.connected_exterior_roads@
}

/// The road in focus, if any.
pub open spec fn focus_road(focus: Option<FocusInfo>) -> Option<RoadID> {
    match focus {
        Some(f) => Some(f.road),
        None => None,
    }
}

/// `o` is how `road` is set up when `focus` is the road in focus and
/// `outlines` its hover drawing.
pub open spec fn object_for(
    o: WorldObject,
    road: RoadID,
    focus: Option<RoadID>,
    outlines: Seq<Outline>,
) -> bool {
    match o {
        WorldObject::Focused { road: r, outlines: ol } => r == road && focus == Some(road)
            && ol@ == outlines,
        WorldObject::Plain { road: r } => r == road && focus != Some(road),
    }
}

/// The title of the side panel when `road_name` is the name of the road in
/// focus.
pub open spec fn widget_title(road_name: Seq<char>) -> Seq<char> {
    "Turn Restrictions from "@ + road_name
}

/// The title of the side panel: none while no road is in focus.
pub fn widget(focused_road_name: Option<&str>) -> (res: Option<String>)
    ensures
        match focused_road_name {
            Some(n) => res matches Some(t) && t@ == widget_title(n@),
            None => res is None,
        },
{
    match focused_road_name {
        Some(name) => {
            let mut title = String::from_str("Turn Restrictions from ");
            title.append(name);
            Some(title)
        },
        None => None,
    }
}

/// The focus to take when the pointer moved from `before` onto `after`.
pub fn handle_hover_change(before: Option<Obj>, after: Option<Obj>) -> (res: WorldResponse)
    ensures
        res == hover_response(after),
{
    match after {
        Some(Obj::Road(new_r)) => WorldResponse {
            focus: FocusChange::Focus(new_r),
            outcome: EditOutcome::UpdateAll,
        },
        _ => WorldResponse { focus: FocusChange::Clear, outcome: EditOutcome::UpdateAll },
    }
}

/// The reaction to a map event: a click on a road focuses it, a click on
/// free space clears the focus, and the pointer moving follows the road
/// under it.
pub fn handle_world_outcome(outcome: WorldOutcome) -> (res: WorldResponse)
    ensures
        res == world_response(outcome),
{
    match outcome {
        WorldOutcome::ClickedObject(Obj::Road(r)) => WorldResponse {
            focus: FocusChange::Focus(r),
            outcome: EditOutcome::UpdatePanelAndWorld,
        },
        WorldOutcome::ClickedFreeSpace => WorldResponse {
            focus: FocusChange::Clear,
            outcome: EditOutcome::UpdatePanelAndWorld,
        },
        WorldOutcome::HoverChanged(before, after) => handle_hover_change(before, after),
        _ => WorldResponse { focus: FocusChange::Unchanged, outcome: EditOutcome::Nothing },
    }
}

/// The roads that the restrictions of a road keep out of reach: the targets
/// of its banning restrictions, then the road passed through and the road led
/// to of each complicated restriction.
pub fn restricted_destinations(r: &RoadRestrictions) -> (res: Vec<RoadID>)
    ensures
        res@ == restricted_of(*r),
{
    let mut res: Vec<RoadID> = Vec::new();
    let tr = &r.turn_restrictions;
    let mut i: usize = 0;
    while i < tr.len()
        invariant
            i <= tr.len(),
            res@ == banned_targets(tr@.take(i as int)),
        decreases tr.len() - i,
    {
        assert(tr@.take(i + 1).drop_last() =~= tr@.take(i as int));
        let (kind, target) = tr[i];
        if kind == RestrictionType::BanTurns {
            res.push(target);
        }
        i = i + 1;
    }
    assert(tr@.take(tr.len() as int) =~= tr@);
    let ghost banned = res@;
    let ctr = &r.complicated_turn_restrictions;
    let mut j: usize = 0;
    while j < ctr.len()
        invariant
            j <= ctr.len(),
            res@ == banned + via_and_targets(ctr@.take(j as int)),
        decreases ctr.len() - j,
    {
        assert(ctr@.take(j + 1).drop_last() =~= ctr@.take(j as int));
        let (via, target) = ctr[j];
        res.push(via);
        res.push(target);
        assert(res@ =~= banned + via_and_targets(ctr@.take(j + 1)));
        j = j + 1;
    }
    assert(ctr@.take(ctr.len() as int) =~= ctr@);
    res
}

/// The hover drawing of the road in focus.
pub fn outlines_for(f: &FocusInfo) -> (res: Vec<Outline>)
    ensures
        res@ == focus_outlines(*f),
{
    let mut res: Vec<Outline> = Vec::new();
    res.push(Outline { color: OutlineColor::Blue, road: f.road });
    let ghost start = res@;
    let possible = &f.possible_destinations;
    let mut i: usize = 0;
    while i < possible.len()
        invariant
            i <= possible.len(),
            res@ == start + possible@.take(i as int).map_values(
                |r: RoadID| Outline { color: OutlineColor::Yellow, road: r },
            ),
        decreases possible.len() - i,
    {
        res.push(Outline { color: OutlineColor::Yellow, road: possible[i] });
        assert(res@ =~= start + possible@.take(i + 1).map_values(
            |r: RoadID| Outline { color: OutlineColor::Yellow, road: r },
        ));
        i = i + 1;
    }
    assert(possible@.take(possible.len() as int) =~= possible@);
    let ghost middle = res@;
    let restricted = restricted_destinations(&f.restrictions);
    let mut j: usize = 0;
    while j < restricted.len()
        invariant
            j <= restricted.len(),
            res@ == middle + restricted@.take(j as int).map_values(
                |r: RoadID| Outline { color: OutlineColor::Red, road: r },
            ),
        decreases restricted.len() - j,
    {
        res.push(Outline { color: OutlineColor::Red, road: restricted[j] });
        assert(res@ =~= middle + restricted@.take(j + 1).map_values(
            |r: RoadID| Outline { color: OutlineColor::Red, road: r },
        ));
        j = j + 1;
    }
    assert(restricted@.take(restricted.len() as int) =~= restricted@);
    res
}

fn copy_outlines(v: &Vec<Outline>) -> (res: Vec<Outline>)
    ensures
        res@ == v@,
{
    let mut res: Vec<Outline> = Vec::new();
    let mut i: usize = 0;
    while i < v.len()
        invariant
            i <= v.len(),
            res@ == v@.take(i as int),
        decreases v.len() - i,
    {
        res.push(v[i]);
        assert(res@ =~= v@.take(i + 1));
        i = i + 1;
    }
    assert(v@.take(v.len() as int) =~= v@);
    res
}

fn push_objects(
    objects: &mut Vec<WorldObject>,
    roads: &Vec<RoadID>,
    focus: Option<RoadID>,
    outlines: &Vec<Outline>,
)
    ensures
        final(objects)@.len() == old(objects)@.len() + roads@.len(),
        forall|k: int| 0 <= k < old(objects)@.len() ==> final(objects)@[k] == old(objects)@[k],
        forall|k: int|
            0 <= k < roads@.len() ==> object_for(
                #[trigger] final(objects)@[old(objects)@.len() + k],
                roads@[k],
                focus,
                outlines@,
            ),
{
    let ghost start = objects@;
    let mut i: usize = 0;
    while i < roads.len()
        invariant
            i <= roads.len(),
            objects@.len() == start.len() + i,
            forall|k: int| 0 <= k < start.len() ==> objects@[k] == start[k],
            forall|k: int|
                0 <= k < i ==> object_for(
                    #[trigger] objects@[start.len() + k],
                    roads@[k],
                    focus,
                    outlines@,
                ),
        decreases roads.len() - i,
    {
        let r = roads[i];
        let focused = match focus {
            Some(f) => f == r,
            None => false,
        };
        if focused {
            objects.push(WorldObject::Focused { road: r, outlines: copy_outlines(outlines) });
        } else {
            objects.push(WorldObject::Plain { road: r });
        }
        assert(object_for(objects@[start.len() + i], roads@[i as int], focus, outlines@));
        i = i + 1;
    }
}

/// How each road of the neighbourhood is set up as a map object, in the
/// order of `all_roads`: the road in focus carries its hover drawing, every
/// other road is plain.
pub fn make_world(neighbourhood: &Neighbourhood, focus: &Option<FocusInfo>) -> (res: Vec<
    WorldObject,
>)
    ensures
        res@.len() == all_roads(*neighbourhood).len(),
        forall|i: int|
            0 <= i < res@.len() ==> object_for(
                #[trigger] res@[i],
                all_roads(*neighbourhood)[i],
                focus_road(*focus),
                match focus {
                    Some(f) => focus_outlines(*f),
                    None => Seq::empty(),
                },
            ),
{
    let outlines = match focus {
        Some(f) => outlines_for(f),
        None => Vec::new(),
    };
    let focused_road = match focus {
        Some(f) => Some(f.road),
        None => None,
    };
    let mut res: Vec<WorldObject> = Vec::new();
    push_objects(&mut res, &neighbourhood.perimeter_roads, focused_road, &outlines);
    let ghost r1 = res@;
    push_objects(&mut res, &neighbourhood.interior_roads, focused_road, &outlines);
    let ghost r2 = res@;
    push_objects(&mut res, &neighbourhood.connected_exterior_roads, focused_road, &outlines);
    let ghost roads = all_roads(*neighbourhood);
    let ghost per = neighbourhood.perimeter_roads@;
    let ghost int_ = neighbourhood.interior_roads@;
    let ghost ext = neighbourhood.connected_exterior_roads@;
    let ghost p = per.len() as int;
    let ghost q = int_.len() as int;
    assert forall|i: int| 0 <= i < res@.len() implies object_for(
        #[trigger] res@[i],
        roads[i],
        focused_road,
        outlines@,
    ) by {
        if i < p {
            assert(r1[0 + i] == r1[i]);
            assert(object_for(r1[0 + i], per[i], focused_road, outlines@));
            assert(roads[i] == per[i]);
            assert(res@[i] == r2[i]);
        } else if i < p + q {
            let k = i - p;
            assert(object_for(r2[p + k], int_[k], focused_road, outlines@));
            assert(roads[i] == int_[k]);
            assert(res@[i] == r2[i]);
        } else {
            let k = i - p - q;
            assert(object_for(res@[p + q + k], ext[k], focused_road, outlines@));
            assert(roads[i] == ext[k]);
        }
    }
    res
}

/// Law: a road is kept out of reach exactly when a banning restriction leads
/// to it, or a complicated restriction passes through it or leads to it; a
/// restriction that only allows turns keeps nothing out of reach.
pub proof fn lemma_restricted_members(r: RoadRestrictions, x: RoadID)
    ensures
        restricted_of(r).contains(x) <==> (exists|i: int|
            0 <= i < r.turn_restrictions@.len() && #[trigger] r.turn_restrictions@[i] == (
                RestrictionType::BanTurns,
                x,
            )) || (exists|j: int|
            0 <= j < r.complicated_turn_restrictions@.len() && ((
            #[trigger] r.complicated_turn_restrictions@[j]).0 == x
                || r.complicated_turn_restrictions@[j].1 == x)),
{
    lemma_banned_members(r.turn_restrictions@, x);
    lemma_via_members(r.complicated_turn_restrictions@, x);
    let a = banned_targets(r.turn_restrictions@);
    let b = via_and_targets(r.complicated_turn_restrictions@);
    if (a + b).contains(x) {
        let k = choose|k: int| 0 <= k < (a + b).len() && (a + b)[k] == x;
        if k < a.len() {
            assert(a[k] == x);
        } else {
            assert(b[k - a.len()] == x);
        }
    }
    if a.contains(x) {
        let k = choose|k: int| 0 <= k < a.len() && a[k] == x;
        assert((a + b)[k] == x);
    }
    if b.contains(x) {
        let k = choose|k: int| 0 <= k < b.len() && b[k] == x;
        assert((a + b)[a.len() + k] == x);
    }
}

proof fn lemma_banned_members(tr: Seq<(RestrictionType, RoadID)>, x: RoadID)
    ensures
        banned_targets(tr).contains(x) <==> exists|i: int|
            0 <= i < tr.len() && #[trigger] tr[i] == (RestrictionType::BanTurns, x),
    decreases tr.len(),
{
    if tr.len() > 0 {
        let init = tr.drop_last();
        lemma_banned_members(init, x);
        let rest = banned_targets(init);
        if exists|i: int| 0 <= i < tr.len() && #[trigger] tr[i] == (RestrictionType::BanTurns, x) {
            let i = choose|i: int| 0 <= i < tr.len() && #[trigger] tr[i] == (RestrictionType::BanTurns, x);
            if i < tr.len() - 1 {
                assert(init[i] == tr[i]);
                let k = choose|k: int| 0 <= k < rest.len() && rest[k] == x;
                if tr.last().0 == RestrictionType::BanTurns {
                    assert(rest.push(tr.last().1)[k] == x);
                }
            } else {
                assert(rest.push(tr.last().1)[rest.len() as int] == x);
            }
        }
        if banned_targets(tr).contains(x) {
            let k = choose|k: int| 0 <= k < banned_targets(tr).len() && banned_targets(tr)[k] == x;
            if k < rest.len() {
                assert(rest.contains(x));
                let i = choose|i: int| 0 <= i < init.len() && #[trigger] init[i] == (RestrictionType::BanTurns, x);
                assert(tr[i] == init[i]);
            } else {
                assert(tr[tr.len() - 1] == (RestrictionType::BanTurns, x));
            }
        }
    }
}

proof fn lemma_via_members(ctr: Seq<(RoadID, RoadID)>, x: RoadID)
    ensures
        via_and_targets(ctr).contains(x) <==> exists|j: int|
            0 <= j < ctr.len() && ((#[trigger] ctr[j]).0 == x || ctr[j].1 == x),
    decreases ctr.len(),
{
    if ctr.len() > 0 {
        let init = ctr.drop_last();
        lemma_via_members(init, x);
        let rest = via_and_targets(init);
        let full = via_and_targets(ctr);
        assert(full == rest.push(ctr.last().0).push(ctr.last().1));
        if exists|j: int| 0 <= j < ctr.len() && ((#[trigger] ctr[j]).0 == x || ctr[j].1 == x) {
            let j = choose|j: int| 0 <= j < ctr.len() && ((#[trigger] ctr[j]).0 == x || ctr[j].1 == x);
            if j < ctr.len() - 1 {
                assert(init[j] == ctr[j]);
                let k = choose|k: int| 0 <= k < rest.len() && rest[k] == x;
                assert(full[k] == x);
            } else if ctr.last().0 == x {
                assert(full[rest.len() as int] == x);
            } else {
                assert(full[rest.len() as int + 1] == x);
            }
        }
        if full.contains(x) {
            let k = choose|k: int| 0 <= k < full.len() && full[k] == x;
            if k < rest.len() {
                assert(rest[k] == x);
                let j = choose|j: int| 0 <= j < init.len() && ((#[trigger] init[j]).0 == x || init[j].1 == x);
                assert(ctr[j] == init[j]);
            } else {
                assert(ctr[ctr.len() - 1] == ctr.last());
            }
        }
    }
}

/// Law: the hover drawing of the road in focus starts with the road itself,
/// in blue, and holds one outline for each reachable and each restricted road.
pub proof fn lemma_focus_outlines_shape(f: FocusInfo)
    ensures
        focus_outlines(f)[0] == (Outline { color: OutlineColor::Blue, road: f.road }),
        focus_outlines(f).len() == 1 + f.possible_destinations@.len() + restricted_of(
            f.restrictions,
        ).len(),
{
}

/// Law: every hover change asks for a full update, and brings the road under
/// the pointer into focus, or clears the focus when no road is under it.
pub proof fn lemma_hover_follows_pointer(before: Option<Obj>, after: Option<Obj>)
    ensures
        world_response(WorldOutcome::HoverChanged(before, after)).outcome == EditOutcome::UpdateAll,
        world_response(WorldOutcome::HoverChanged(before, after)).focus == match after {
            Some(Obj::Road(r)) => FocusChange::Focus(r),
            _ => FocusChange::Clear,
        },
{
}

/// Law: once a road is in focus, the map shows it with its hover drawing
/// wherever it occurs in the neighbourhood, and every other road plainly.
pub proof fn lemma_focused_road_drawn(
    o: WorldObject,
    road: RoadID,
    f: FocusInfo,
)
    requires
        object_for(o, road, Some(f.road), focus_outlines(f)),
    ensures
        (o is Focused) <==> road == f.road,
        o matches WorldObject::Focused { outlines, .. } ==> outlines@[0].road == road,
{
}

/// Law: in the hover drawing of the road in focus, every reachable road gets
/// a yellow outline, in order, and after them every road that a restriction
/// keeps out of reach gets a red one, in order, even where a road is both; in
/// particular, every road that a banning restriction leads to is outlined in
/// red.
pub proof fn lemma_outline_colors(f: FocusInfo)
    ensures
        forall|k: int|
            0 <= k < f.possible_destinations@.len() ==> #[trigger] focus_outlines(f)[1 + k] == (
            Outline { color: OutlineColor::Yellow, road: f.possible_destinations@[k] }),
        forall|k: int|
            0 <= k < restricted_of(f.restrictions).len() ==> #[trigger] focus_outlines(f)[1
                + f.possible_destinations@.len() + k] == (Outline {
                color: OutlineColor::Red,
                road: restricted_of(f.restrictions)[k],
            }),
        forall|i: int|
            0 <= i < f.restrictions.turn_restrictions@.len()
                && (#[trigger] f.restrictions.turn_restrictions@[i]).0 == RestrictionType::BanTurns
                ==> focus_outlines(f).contains(
                Outline { color: OutlineColor::Red, road: f.restrictions.turn_restrictions@[i].1 },
            ),
        forall|j: int|
            0 <= j < f.restrictions.complicated_turn_restrictions@.len() ==> focus_outlines(
                f,
            ).contains(
                Outline {
                    color: OutlineColor::Red,
                    road: (#[trigger] f.restrictions.complicated_turn_restrictions@[j]).0,
                },
            ) && focus_outlines(f).contains(
                Outline {
                    color: OutlineColor::Red,
                    road: f.restrictions.complicated_turn_restrictions@[j].1,
                },
            ),
        forall|k: int|
            0 <= k < focus_outlines(f).len() ==> ((#[trigger] focus_outlines(f)[k]).color
                == OutlineColor::Yellow <==> 1 <= k < 1 + f.possible_destinations@.len()),
{
    let p = f.possible_destinations@.len() as int;
    let rs = restricted_of(f.restrictions);
    let o = focus_outlines(f);
    assert forall|i: int|
        0 <= i < f.restrictions.turn_restrictions@.len()
            && (#[trigger] f.restrictions.turn_restrictions@[i]).0 == RestrictionType::BanTurns
            implies o.contains(
        Outline { color: OutlineColor::Red, road: f.restrictions.turn_restrictions@[i].1 },
    ) by {
        let x = f.restrictions.turn_restrictions@[i].1;
        assert(f.restrictions.turn_restrictions@[i] == (RestrictionType::BanTurns, x));
        lemma_restricted_members(f.restrictions, x);
        let k = choose|k: int| 0 <= k < rs.len() && rs[k] == x;
        assert(o[1 + p + k] == Outline { color: OutlineColor::Red, road: x });
    }
    assert forall|j: int| 0 <= j < f.restrictions.complicated_turn_restrictions@.len() implies o.contains(
        Outline {
            color: OutlineColor::Red,
            road: (#[trigger] f.restrictions.complicated_turn_restrictions@[j]).0,
        },
    ) && o.contains(
        Outline { color: OutlineColor::Red, road: f.restrictions.complicated_turn_restrictions@[j].1 },
    ) by {
        let pair = f.restrictions.complicated_turn_restrictions@[j];
        lemma_restricted_members(f.restrictions, pair.0);
        lemma_restricted_members(f.restrictions, pair.1);
        let k0 = choose|k: int| 0 <= k < rs.len() && rs[k] == pair.0;
        assert(o[1 + p + k0] == Outline { color: OutlineColor::Red, road: pair.0 });
        let k1 = choose|k: int| 0 <= k < rs.len() && rs[k] == pair.1;
        assert(o[1 + p + k1] == Outline { color: OutlineColor::Red, road: pair.1 });
    }
}

} // verus!
