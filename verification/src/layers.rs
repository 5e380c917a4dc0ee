//! The state of the layers panel of the bike-network tool, and how each event
//! changes it. The caller owns the panel widget and the drawings; every
//! method here says which of them to build, rebuild, drop or draw.
use vstd::prelude::*;
use crate::controls::{Control, control_name, is_toggle, parse_control};
use crate::road_types::{is_highlightable, is_layer_or_info_name};
use crate::text::str_eq;

verus! {

/// Which layers are switched on, which road-type highlights are built, and
/// the two keys that decide when to rebuild.
pub struct Layers {
    bike_network: bool,
    labels: bool,
    elevation: bool,
    steep_streets: bool,
    road_types: Vec<String>,
    zoom_enabled_cache_key: (bool, bool),
    map_edit_key: usize,
}

/// The state of the panel as a mathematical value.
pub struct LayersView {
    /// The bike network layer is drawn.
    pub bike_network: bool,
    /// The road labels layer is drawn.
    pub labels: bool,
    /// The elevation layer is switched on.
    pub elevation: bool,
    /// The steep streets layer is drawn.
    pub steep_streets: bool,
    /// The names whose road highlight is built, in the order they were built.
    pub road_types: Seq<Seq<char>>,
    /// Whether the map was at its maximum zoom, and at its minimum zoom, when
    /// the panel was last built.
    pub zoom_enabled_cache_key: (bool, bool),
    /// The map's edit counter when the highlights were last valid.
    pub map_edit_key: usize,
}

/// Which direction a zoom button moves the map.
#[derive(PartialEq, Eq, Structural, Clone, Copy, Debug)]
pub enum ZoomDirection {
    In,
    Out,
}

/// What the panel widget reported for one event.
pub enum PanelOutcome {
    Clicked(String),
    Changed(String),
    Nothing,
}

/// What the caller does after the panel reported an event.
#[derive(PartialEq, Eq, Structural, Clone, Copy, Debug)]
pub enum PanelAction {
    /// Nothing to do.
    Nothing,
    /// Open the explanation of this button.
    ShowExplanation(Control),
    /// Zoom the map, rebuild the panel and keep the current screen.
    Zoom(ZoomDirection),
    /// Build a fresh bike network layer (`true`) or drop it (`false`).
    BikeNetwork(bool),
    /// Build a fresh road labels layer (`true`) or drop it (`false`).
    RoadLabels(bool),
    /// Rebuild the panel; then, if asked, compute the elevation contours of
    /// the current map.
    Elevation { compute_contours: bool },
    /// Draw the steep streets and their legend (`true`), or drop both.
    SteepStreets(bool),
}

/// What the caller does after the map's edit counter was read.
#[derive(PartialEq, Eq, Structural, Clone, Copy, Debug)]
pub enum MapEditsAction {
    /// The map did not change since the last look.
    Unchanged,
    /// The map changed: drop every road-type highlight, and build a fresh
    /// bike network layer if asked.
    Changed { rebuild_bike_network: bool },
}

/// The arguments with which the panel widget is built.
#[derive(PartialEq, Eq, Structural, Clone, Copy, Debug)]
pub struct PanelFlags {
    pub bike_network: bool,
    pub labels: bool,
    pub elevation: bool,
    pub steep_streets: bool,
}

/// What to draw over the map, besides the panel itself, which is always drawn.
#[derive(PartialEq, Eq, Structural, Clone, Copy, Debug)]
pub struct DrawPlan {
    pub bike_network: bool,
    pub labels: bool,
    pub elevation_contours: bool,
    pub steep_streets: bool,
    /// Draw the highlight built for the name under the pointer.
    pub hovered_road_type: bool,
}

/// Every highlight is built once, and only for a name that highlights roads.
pub open spec fn view_wf(v: LayersView) -> bool {
    &&& v.road_types.no_duplicates()
    &&& forall|k: int| 0 <= k < v.road_types.len() ==> !is_layer_or_info_name(#[trigger] v.road_types[k])
}

/// The panel as it first appears.
pub open spec fn initial_view(zoom_enabled_cache_key: (bool, bool)) -> LayersView {
    LayersView {
        bike_network: true,
        labels: true,
        elevation: false,
        steep_streets: false,
        road_types: Seq::empty(),
        zoom_enabled_cache_key,
        map_edit_key: usize::MAX,
    }
}

/// The state and action after the map's edit counter reads `key`.
pub open spec fn sync_map_edits_step(v: LayersView, key: usize) -> (LayersView, MapEditsAction) {
    if v.map_edit_key != key {
        (
            LayersView { map_edit_key: key, road_types: Seq::empty(), ..v },
            MapEditsAction::Changed { rebuild_bike_network: v.bike_network },
        )
    } else {
        (v, MapEditsAction::Unchanged)
    }
}

/// The events that the panel can report: clicks on buttons, changes of
/// checkboxes, or nothing.
pub open spec fn is_expected_outcome(outcome: PanelOutcome) -> bool {
    match outcome {
        PanelOutcome::Clicked(name) => parse_control(name@) matches Some(c) && !is_toggle(c),
        PanelOutcome::Changed(name) => parse_control(name@) matches Some(c) && is_toggle(c),
        PanelOutcome::Nothing => true,
    }
}

/// The state and action after the panel reported `outcome`; `checked` is the
/// new state of the checkbox that changed, and `contours_current` whether the
/// elevation contours already belong to the current map.
pub open spec fn event_step(
    v: LayersView,
    outcome: PanelOutcome,
    checked: bool,
    contours_current: bool,
) -> (LayersView, PanelAction) {
    match outcome {
        PanelOutcome::Clicked(name) => match parse_control(name@) {
            Some(Control::ZoomIn) => (v, PanelAction::Zoom(ZoomDirection::In)),
            Some(Control::ZoomOut) => (v, PanelAction::Zoom(ZoomDirection::Out)),
            Some(c) => (v, PanelAction::ShowExplanation(c)),
            None => (v, PanelAction::Nothing),
        },
        PanelOutcome::Changed(name) => match parse_control(name@) {
            Some(Control::BikeNetwork) => (
                LayersView { bike_network: checked, ..v },
                PanelAction::BikeNetwork(checked),
            ),
            Some(Control::RoadLabels) => (
                LayersView { labels: checked, ..v },
                PanelAction::RoadLabels(checked),
            ),
            Some(Control::Elevation) => (
                LayersView { elevation: checked, ..v },
                PanelAction::Elevation { compute_contours: checked && !contours_current },
            ),
            Some(Control::SteepStreets) => (
                LayersView { steep_streets: checked, ..v },
                PanelAction::SteepStreets(checked),
            ),
            _ => (v, PanelAction::Nothing),
        },
        PanelOutcome::Nothing => (v, PanelAction::Nothing),
    }
}

/// The state after the pointer rests on `name`, and whether its highlight
/// must now be built.
pub open spec fn highlight_step(v: LayersView, name: Seq<char>) -> (LayersView, bool) {
    if !is_layer_or_info_name(name) && !v.road_types.contains(name) {
        (LayersView { road_types: v.road_types.push(name), ..v }, true)
    } else {
        (v, false)
    }
}

/// The state after the zoom limits read `key`, and whether the panel must be
/// rebuilt so that its zoom buttons are enabled rightly.
pub open spec fn zoom_step(v: LayersView, key: (bool, bool)) -> (LayersView, bool) {
    (LayersView { zoom_enabled_cache_key: key, ..v }, v.zoom_enabled_cache_key != key)
}

/// What to draw; `unzoomed` says whether the map is zoomed out below the
/// detail level, `contours_available` whether elevation contours are computed.
pub open spec fn draw_plan(
    v: LayersView,
    unzoomed: bool,
    contours_available: bool,
    hovering: Option<Seq<char>>,
) -> DrawPlan {
    DrawPlan {
        bike_network: unzoomed && v.bike_network,
        labels: unzoomed && v.labels,
        elevation_contours: unzoomed && v.elevation && contours_available,
        steep_streets: unzoomed && v.steep_streets,
        hovered_road_type: unzoomed && (hovering matches Some(n) && v.road_types.contains(n)),
    }
}

/// The arguments of the panel widget for a state.
pub open spec fn panel_flags_of(v: LayersView) -> PanelFlags {
    PanelFlags {
        bike_network: v.bike_network,
        labels: v.labels,
        elevation: v.elevation,
        steep_streets: v.steep_streets,
    }
}

impl View for Layers {
    type V = LayersView;

    closed spec fn view(&self) -> LayersView {
        LayersView {
            bike_network: self.bike_network,
            labels: self.labels,
            elevation: self.elevation,
            steep_streets: self.steep_streets,
            road_types: self.road_types@.map_values(|s: String| s@),
            zoom_enabled_cache_key: self.zoom_enabled_cache_key,
            map_edit_key: self.map_edit_key,
        }
    }
}

impl Layers {
    /// The state is well formed.
    pub open spec fn wf(&self) -> bool {
        view_wf(self@)
    }

    /// The panel as it first appears: bike network and road labels on, every
    /// other layer off, no highlight built, and a map edit counter that no map
    /// has yet, so that the first event resets the highlights.
    pub fn new(zoom_enabled_cache_key: (bool, bool)) -> (res: Layers)
        ensures
            res@ == initial_view(zoom_enabled_cache_key),
            res.wf(),
    {
        let res = Layers {
            bike_network: true,
            labels: true,
            elevation: false,
            steep_streets: false,
            road_types: Vec::new(),
            zoom_enabled_cache_key,
            map_edit_key: usize::MAX,
        };
        assert(res@.road_types =~= Seq::<Seq<char>>::empty());
        res
    }

    /// The arguments with which to build the panel widget.
    pub fn panel_flags(&self) -> (res: PanelFlags)
        ensures
            res == panel_flags_of(self@),
    {
        PanelFlags {
            bike_network: self.bike_network,
            labels: self.labels,
            elevation: self.elevation,
            steep_streets: self.steep_streets,
        }
    }

    /// Whether the highlight for `name` is built.
    pub fn has_road_type(&self, name: &str) -> (res: bool)
        ensures
            res == self@.road_types.contains(name@),
    {
        let mut i: usize = 0;
        while i < self.road_types.len()
            invariant
                i <= self.road_types.len(),
                self@.road_types.len() == self.road_types.len(),
                forall|j: int| 0 <= j < i ==> self@.road_types[j] != name@,
            decreases self.road_types.len() - i,
        {
            if str_eq(self.road_types[i].as_str(), name) {
                assert(self@.road_types[i as int] == name@);
                return true;
            }
            i = i + 1;
        }
        false
    }

    /// Reads the map's edit counter: when the map changed, every highlight is
    /// stale and the bike network layer, if shown, is built afresh.
    pub fn sync_map_edits(&mut self, key: usize) -> (res: MapEditsAction)
        requires
            old(self).wf(),
        ensures
            final(self).wf(),
            (final(self)@, res) == sync_map_edits_step(old(self)@, key),
    {
        if self.map_edit_key != key {
            self.map_edit_key = key;
            self.road_types.clear();
            assert(self@.road_types =~= Seq::<Seq<char>>::empty());
            MapEditsAction::Changed { rebuild_bike_network: self.bike_network }
        } else {
            MapEditsAction::Unchanged
        }
    }

    /// Whether the current-elevation label must be recomputed: when the
    /// pointer moved and the elevation layer is on.
    pub fn updates_elevation_label(&self, redo_mouseover: bool) -> (res: bool)
        ensures
            res == (redo_mouseover && self@.elevation),
    {
        redo_mouseover && self.elevation
    }

    /// Handles what the panel reported: clicks open an explanation or zoom
    /// the map; checkbox changes switch a layer on or off.
    pub fn event(&mut self, outcome: &PanelOutcome, checked: bool, contours_current: bool) -> (res:
        PanelAction)
        requires
            old(self).wf(),
            is_expected_outcome(*outcome),
        ensures
            final(self).wf(),
            (final(self)@, res) == event_step(old(self)@, *outcome, checked, contours_current),
    {
        match outcome {
            PanelOutcome::Clicked(name) => match Control::from_name(name.as_str()) {
                Some(Control::ZoomIn) => PanelAction::Zoom(ZoomDirection::In),
                Some(Control::ZoomOut) => PanelAction::Zoom(ZoomDirection::Out),
                Some(c) => PanelAction::ShowExplanation(c),
                None => PanelAction::Nothing,
            },
            PanelOutcome::Changed(name) => match Control::from_name(name.as_str()) {
                Some(Control::BikeNetwork) => {
                    self.bike_network = checked;
                    PanelAction::BikeNetwork(checked)
                },
                Some(Control::RoadLabels) => {
                    self.labels = checked;
                    PanelAction::RoadLabels(checked)
                },
                Some(Control::Elevation) => {
                    self.elevation = checked;
                    PanelAction::Elevation { compute_contours: checked && !contours_current }
                },
                Some(Control::SteepStreets) => {
                    self.steep_streets = checked;
                    PanelAction::SteepStreets(checked)
                },
                _ => PanelAction::Nothing,
            },
            PanelOutcome::Nothing => PanelAction::Nothing,
        }
    }

    /// The pointer rests on the panel entry `name`: returns whether the
    /// highlight of its roads must be built now, and records it as built.
    pub fn highlight_road_type(&mut self, name: &str) -> (res: bool)
        requires
            old(self).wf(),
        ensures
            final(self).wf(),
            (final(self)@, res) == highlight_step(old(self)@, name@),
    {
        if !is_highlightable(name) {
            return false;
        }
        if self.has_road_type(name) {
            return false;
        }
        let ghost old_view = self@;
        self.road_types.push(name.to_owned());
        assert(self@.road_types =~= old_view.road_types.push(name@));
        proof {
            let s = self@.road_types;
            assert forall|i: int, j: int| 0 <= i < s.len() && 0 <= j < s.len() && i != j implies s[i]
                != s[j] by {
                if i < old_view.road_types.len() && j < old_view.road_types.len() {
                    assert(old_view.road_types[i] != old_view.road_types[j]);
                } else if i < old_view.road_types.len() {
                    assert(old_view.road_types.contains(old_view.road_types[i]));
                } else {
                    assert(old_view.road_types.contains(old_view.road_types[j]));
                }
            }
        }
        true
    }

    /// Reads the zoom limits: returns whether the panel must be rebuilt, so
    /// that its zoom buttons follow a zoom done with the mouse wheel.
    pub fn refresh_zoom_key(&mut self, key: (bool, bool)) -> (res: bool)
        requires
            old(self).wf(),
        ensures
            final(self).wf(),
            (final(self)@, res) == zoom_step(old(self)@, key),
    {
        let changed = self.zoom_enabled_cache_key.0 != key.0 || self.zoom_enabled_cache_key.1 != key.1;
        self.zoom_enabled_cache_key = key;
        changed
    }

    /// What to draw over the map.
    pub fn draw(&self, unzoomed: bool, contours_available: bool, hovering: Option<&str>) -> (res:
        DrawPlan)
        ensures
            res == draw_plan(
                self@,
                unzoomed,
                contours_available,
                match hovering {
                    Some(n) => Some(n@),
                    None => None,
                },
            ),
    {
        let hovered_road_type = match hovering {
            Some(n) => unzoomed && self.has_road_type(n),
            None => false,
        };
        DrawPlan {
            bike_network: unzoomed && self.bike_network,
            labels: unzoomed && self.labels,
            elevation_contours: unzoomed && self.elevation && contours_available,
            steep_streets: unzoomed && self.steep_streets,
            hovered_road_type,
        }
    }
}

/// Law: the panel starts well formed, and every step keeps it so.
pub proof fn lemma_steps_keep_wf(
    v: LayersView,
    key: usize,
    outcome: PanelOutcome,
    checked: bool,
    contours_current: bool,
    name: Seq<char>,
    zoom_key: (bool, bool),
)
    requires
        view_wf(v),
    ensures
        view_wf(initial_view(zoom_key)),
        view_wf(sync_map_edits_step(v, key).0),
        view_wf(event_step(v, outcome, checked, contours_current).0),
        view_wf(highlight_step(v, name).0),
        view_wf(zoom_step(v, zoom_key).0),
{
    let s = highlight_step(v, name).0.road_types;
    if highlight_step(v, name).1 {
        assert forall|i: int, j: int| 0 <= i < s.len() && 0 <= j < s.len() && i != j implies s[i]
            != s[j] by {
            if i < v.road_types.len() && j < v.road_types.len() {
            } else if i < v.road_types.len() {
                assert(v.road_types.contains(v.road_types[i]));
            } else {
                assert(v.road_types.contains(v.road_types[j]));
            }
        }
    }
}

/// Law: reading the same edit counter twice changes nothing the second time.
pub proof fn lemma_sync_map_edits_idempotent(v: LayersView, key: usize)
    ensures
        sync_map_edits_step(sync_map_edits_step(v, key).0, key) == (
            sync_map_edits_step(v, key).0,
            MapEditsAction::Unchanged,
        ),
{
}

/// Law: after the map changed, no highlight is left, and every highlight is
/// built anew the next time the pointer rests on its entry; the layers that
/// are switched on stay on.
pub proof fn lemma_map_edit_invalidates_highlights(v: LayersView, key: usize, name: Seq<char>)
    requires
        v.map_edit_key != key,
        !is_layer_or_info_name(name),
    ensures
        sync_map_edits_step(v, key).0.road_types.len() == 0,
        highlight_step(sync_map_edits_step(v, key).0, name).1,
        panel_flags_of(sync_map_edits_step(v, key).0) == panel_flags_of(v),
{
}

/// Law: a highlight is built at most once while the map stays the same:
/// resting on the same entry again builds nothing and changes nothing.
pub proof fn lemma_highlight_idempotent(v: LayersView, name: Seq<char>)
    ensures
        highlight_step(highlight_step(v, name).0, name) == (highlight_step(v, name).0, false),
{
    if highlight_step(v, name).1 {
        assert(v.road_types.push(name)[v.road_types.len() as int] == name);
    }
}

/// Law: once the pointer rested on an entry that highlights roads, its
/// highlight is drawn while the pointer stays there and the map is zoomed out.
pub proof fn lemma_highlight_then_drawn(v: LayersView, name: Seq<char>, contours_available: bool)
    requires
        !is_layer_or_info_name(name),
    ensures
        draw_plan(highlight_step(v, name).0, true, contours_available, Some(name)).hovered_road_type,
{
    if highlight_step(v, name).1 {
        assert(v.road_types.push(name)[v.road_types.len() as int] == name);
    }
}

/// Law: a checkbox change sets its layer to the checkbox's new state, and
/// leaves the other layers, the highlights and both keys alone.
pub proof fn lemma_toggle_sets_only_its_layer(
    v: LayersView,
    c: Control,
    name: String,
    checked: bool,
    contours_current: bool,
)
    requires
        is_toggle(c),
        name@ == control_name(c),
    ensures
        ({
            let w = event_step(v, PanelOutcome::Changed(name), checked, contours_current).0;
            &&& w.bike_network == if c == Control::BikeNetwork { checked } else { v.bike_network }
            &&& w.labels == if c == Control::RoadLabels { checked } else { v.labels }
            &&& w.elevation == if c == Control::Elevation { checked } else { v.elevation }
            &&& w.steep_streets == if c == Control::SteepStreets { checked } else { v.steep_streets }
            &&& w.road_types == v.road_types
            &&& w.zoom_enabled_cache_key == v.zoom_enabled_cache_key
            &&& w.map_edit_key == v.map_edit_key
        }),
{
    crate::controls::lemma_name_roundtrip(c);
}

/// Law: clicking a button never changes the state; the zoom buttons zoom and
/// every other button opens its explanation.
pub proof fn lemma_click_keeps_state(
    v: LayersView,
    c: Control,
    name: String,
    checked: bool,
    contours_current: bool,
)
    requires
        !is_toggle(c),
        name@ == control_name(c),
    ensures
        event_step(v, PanelOutcome::Clicked(name), checked, contours_current).0 == v,
        event_step(v, PanelOutcome::Clicked(name), checked, contours_current).1 == if c
            == Control::ZoomIn {
            PanelAction::Zoom(ZoomDirection::In)
        } else if c == Control::ZoomOut {
            PanelAction::Zoom(ZoomDirection::Out)
        } else {
            PanelAction::ShowExplanation(c)
        },
{
    crate::controls::lemma_name_roundtrip(c);
}

/// Law: contours are computed only when the elevation layer is switched on
/// and the contours at hand belong to another map.
pub proof fn lemma_contours_only_when_needed(
    v: LayersView,
    name: String,
    checked: bool,
    contours_current: bool,
)
    requires
        name@ == control_name(Control::Elevation),
    ensures
        event_step(v, PanelOutcome::Changed(name), checked, contours_current).1
            == (PanelAction::Elevation { compute_contours: checked && !contours_current }),
{
    crate::controls::lemma_name_roundtrip(Control::Elevation);
}

/// Law: while the map is zoomed in past the detail level, no layer is drawn.
pub proof fn lemma_zoomed_in_draws_no_layer(
    v: LayersView,
    contours_available: bool,
    hovering: Option<Seq<char>>,
)
    ensures
        draw_plan(v, false, contours_available, hovering) == (DrawPlan {
            bike_network: false,
            labels: false,
            elevation_contours: false,
            steep_streets: false,
            hovered_road_type: false,
        }),
{
}

/// Law: reading the same zoom limits twice asks for one rebuild at most.
pub proof fn lemma_zoom_key_idempotent(v: LayersView, key: (bool, bool))
    ensures
        zoom_step(zoom_step(v, key).0, key) == (zoom_step(v, key).0, false),
{
}

/// Law: a change of the bike network, road labels or steep streets checkbox
/// asks to build that layer exactly when the box is now checked, whatever the
/// state of the elevation contours; only the elevation checkbox looks at them.
pub proof fn lemma_toggle_actions_follow_checkbox(
    v: LayersView,
    name: String,
    checked: bool,
    contours_current: bool,
)
    ensures
        name@ == control_name(Control::BikeNetwork) ==> event_step(
            v,
            PanelOutcome::Changed(name),
            checked,
            contours_current,
        ).1 == PanelAction::BikeNetwork(checked),
        name@ == control_name(Control::RoadLabels) ==> event_step(
            v,
            PanelOutcome::Changed(name),
            checked,
            contours_current,
        ).1 == PanelAction::RoadLabels(checked),
        name@ == control_name(Control::SteepStreets) ==> event_step(
            v,
            PanelOutcome::Changed(name),
            checked,
            contours_current,
        ).1 == PanelAction::SteepStreets(checked),
        name@ == control_name(Control::Elevation) ==> event_step(
            v,
            PanelOutcome::Changed(name),
            checked,
            contours_current,
        ).1 == (PanelAction::Elevation { compute_contours: checked && !contours_current }),
{
    crate::controls::lemma_name_roundtrip(Control::BikeNetwork);
    crate::controls::lemma_name_roundtrip(Control::RoadLabels);
    crate::controls::lemma_name_roundtrip(Control::SteepStreets);
    crate::controls::lemma_name_roundtrip(Control::Elevation);
}

/// Law: whenever the edit counter changes, the highlights are dropped and
/// the bike network is rebuilt exactly when it is shown, on the first change
/// and on every later one alike.
pub proof fn lemma_every_map_edit_rebuilds_shown_network(v: LayersView, k1: usize, k2: usize)
    ensures
        v.map_edit_key != k1 ==> sync_map_edits_step(v, k1).1 == (MapEditsAction::Changed {
            rebuild_bike_network: v.bike_network,
        }),
        v.map_edit_key != k1 ==> sync_map_edits_step(v, k1).0.road_types.len() == 0,
        v.map_edit_key != k1 ==> sync_map_edits_step(v, k1).0.map_edit_key == k1,
        v.map_edit_key == k1 ==> sync_map_edits_step(v, k1) == (v, MapEditsAction::Unchanged),
        k1 != k2 ==> sync_map_edits_step(sync_map_edits_step(v, k1).0, k2).1 == (
        MapEditsAction::Changed { rebuild_bike_network: v.bike_network }),
{
}

/// Law: zoomed out, each layer is drawn exactly when it is switched on, the
/// elevation contours when they are also available, and the hovered highlight
/// exactly when it is built; only the contours depend on their availability.
pub proof fn lemma_zoomed_out_draws_switched_on_layers(
    v: LayersView,
    contours_available: bool,
    hovering: Option<Seq<char>>,
)
    ensures
        draw_plan(v, true, contours_available, hovering).bike_network == v.bike_network,
        draw_plan(v, true, contours_available, hovering).labels == v.labels,
        draw_plan(v, true, contours_available, hovering).steep_streets == v.steep_streets,
        draw_plan(v, true, contours_available, hovering).elevation_contours == (v.elevation
            && contours_available),
        draw_plan(v, true, contours_available, hovering).hovered_road_type == match hovering {
            Some(n) => v.road_types.contains(n),
            None => false,
        },
{
}

/// Law: resting on an entry builds its highlight exactly when the entry
/// highlights roads and its highlight is not built yet; afterwards it is
/// built, and nothing else changes.
pub proof fn lemma_highlight_builds_once(v: LayersView, name: Seq<char>)
    ensures
        highlight_step(v, name).1 == (!is_layer_or_info_name(name) && !v.road_types.contains(name)),
        !is_layer_or_info_name(name) ==> highlight_step(v, name).0.road_types.contains(name),
        forall|x: Seq<char>| #[trigger] v.road_types.contains(x) ==> highlight_step(v, name).0.road_types.contains(x),
        panel_flags_of(highlight_step(v, name).0) == panel_flags_of(v),
        highlight_step(v, name).0.map_edit_key == v.map_edit_key,
{
    let w = highlight_step(v, name).0;
    if highlight_step(v, name).1 {
        assert(w.road_types[v.road_types.len() as int] == name);
        assert forall|x: Seq<char>| #[trigger] v.road_types.contains(x) implies w.road_types.contains(x) by {
            let k = choose|k: int| 0 <= k < v.road_types.len() && v.road_types[k] == x;
            assert(w.road_types[k] == x);
        }
    }
}

} // verus!
