use abstreet_panels::controls::{explanation, Control};
use abstreet_panels::layers::{
    DrawPlan, Layers, MapEditsAction, PanelAction, PanelFlags, PanelOutcome, ZoomDirection,
};
use abstreet_panels::road_types::{
    is_highlightable, lane_flags, road_is_shown, roads_to_highlight, LaneKind, RoadInfo, RoadRank,
};
use abstreet_panels::text::{starts_with, str_eq};

fn road(rank: RoadRank, lanes: Vec<LaneKind>, is_cycleway: bool, is_greenway: bool) -> RoadInfo {
    RoadInfo { rank, lanes, is_cycleway, is_greenway }
}

#[test]
fn text_comparisons() {
    assert!(str_eq("greenway", "greenway"));
    assert!(!str_eq("greenway", "greenwa"));
    assert!(!str_eq("trail", "trial"));
    assert!(starts_with("about the elevation data", "about "));
    assert!(!starts_with("about", "about "));
    assert!(starts_with("x", ""));
}

#[test]
fn control_names_round_trip() {
    let all = [
        Control::ZoomIn,
        Control::ZoomOut,
        Control::Highway,
        Control::MajorStreet,
        Control::MinorStreet,
        Control::BikeNetwork,
        Control::Trail,
        Control::ProtectedBikeLane,
        Control::PaintedBikeLane,
        Control::Greenway,
        Control::RoadLabels,
        Control::Elevation,
        Control::AboutElevation,
        Control::SteepStreets,
    ];
    for c in all {
        assert_eq!(Control::from_name(c.name()), Some(c));
    }
    assert_eq!(Control::from_name("zoom map in"), Some(Control::ZoomIn));
    assert_eq!(Control::from_name("about the elevation data"), Some(Control::AboutElevation));
    assert_eq!(Control::from_name("Highway"), None);
    assert_eq!(Control::from_name(""), None);
    assert!(Control::Elevation.is_toggle());
    assert!(!Control::Trail.is_toggle());
}

#[test]
fn explanations() {
    let m = explanation(Control::Highway);
    assert_eq!(m.title, "Highways");
    assert_eq!(
        m.lines,
        vec!["Unless there's a separate trail (like on the 520 or I90 bridge), highways aren't accessible to biking".to_string()]
    );
    let m = explanation(Control::Greenway);
    assert_eq!(m.title, "Stay Healthy Streets and neighborhood greenways");
    let m = explanation(Control::AboutElevation);
    assert_eq!(m.title, "About the elevation data");
    assert_eq!(m.lines.len(), 5);
    assert_eq!(m.lines[2], "");
    assert_eq!(m.lines[3], "Note the elevation data is incorrect near bridges.");
    let m = explanation(Control::PaintedBikeLane);
    assert_eq!(
        m.lines[0],
        "Bike lanes without any separation from vehicle traffic. Often uncomfortably close to the \"door zone\" of parked cars."
    );
}

#[test]
fn highlightable_names() {
    assert!(!is_highlightable("bike network"));
    assert!(!is_highlightable("road labels"));
    assert!(!is_highlightable("elevation"));
    assert!(!is_highlightable("steep streets"));
    assert!(!is_highlightable("about the elevation data"));
    assert!(!is_highlightable("about anything"));
    assert!(is_highlightable("highway"));
    assert!(is_highlightable("zoom map in"));
    assert!(is_highlightable("about"));
}

#[test]
fn lane_flag_detection() {
    assert_eq!(lane_flags(&vec![]), (false, false));
    assert_eq!(lane_flags(&vec![LaneKind::Other, LaneKind::Biking]), (true, false));
    assert_eq!(lane_flags(&vec![LaneKind::Buffer, LaneKind::Other]), (false, true));
    assert_eq!(lane_flags(&vec![LaneKind::Biking, LaneKind::Buffer]), (true, true));
}

#[test]
fn which_roads_light_up() {
    let roads = vec![
        road(RoadRank::Highway, vec![LaneKind::Other], false, false),
        road(RoadRank::Arterial, vec![LaneKind::Biking, LaneKind::Buffer, LaneKind::Other], false, false),
        road(RoadRank::Local, vec![LaneKind::Biking, LaneKind::Other], false, true),
        road(RoadRank::Local, vec![LaneKind::Other], true, false),
        road(RoadRank::Arterial, vec![LaneKind::Buffer], false, false),
    ];
    assert_eq!(roads_to_highlight("highway", &roads), vec![0]);
    assert_eq!(roads_to_highlight("major street", &roads), vec![1, 4]);
    assert_eq!(roads_to_highlight("minor street", &roads), vec![2, 3]);
    assert_eq!(roads_to_highlight("trail", &roads), vec![3]);
    assert_eq!(roads_to_highlight("protected bike lane", &roads), vec![1]);
    assert_eq!(roads_to_highlight("painted bike lane", &roads), vec![2]);
    assert_eq!(roads_to_highlight("greenway", &roads), vec![2]);
    assert_eq!(roads_to_highlight("zoom map in", &roads), Vec::<usize>::new());
    assert_eq!(roads_to_highlight("bike network", &roads), Vec::<usize>::new());
    assert!(road_is_shown("painted bike lane", &roads[2]));
    assert!(!road_is_shown("painted bike lane", &roads[1]));
}

#[test]
fn new_panel_state() {
    let l = Layers::new((false, true));
    assert_eq!(
        l.panel_flags(),
        PanelFlags { bike_network: true, labels: true, elevation: false, steep_streets: false }
    );
    assert!(!l.has_road_type("highway"));
    assert_eq!(
        l.draw(true, true, None),
        DrawPlan {
            bike_network: true,
            labels: true,
            elevation_contours: false,
            steep_streets: false,
            hovered_road_type: false
        }
    );
}

#[test]
fn map_edits_reset_highlights() {
    let mut l = Layers::new((false, false));
    assert_eq!(l.sync_map_edits(3), MapEditsAction::Changed { rebuild_bike_network: true });
    assert_eq!(l.sync_map_edits(3), MapEditsAction::Unchanged);
    assert!(l.highlight_road_type("highway"));
    assert!(!l.highlight_road_type("highway"));
    assert!(l.has_road_type("highway"));
    l.event(&PanelOutcome::Changed("bike network".to_string()), false, false);
    assert_eq!(l.sync_map_edits(4), MapEditsAction::Changed { rebuild_bike_network: false });
    assert!(!l.has_road_type("highway"));
    assert!(l.highlight_road_type("highway"));
}

#[test]
fn highlight_skips_layers_and_info() {
    let mut l = Layers::new((false, false));
    assert!(!l.highlight_road_type("elevation"));
    assert!(!l.highlight_road_type("about the elevation data"));
    assert!(!l.has_road_type("elevation"));
    assert!(l.highlight_road_type("zoom map out"));
    assert!(l.highlight_road_type("trail"));
    assert!(l.has_road_type("zoom map out"));
    assert!(l.has_road_type("trail"));
}

#[test]
fn clicks_and_changes() {
    let mut l = Layers::new((false, false));
    assert_eq!(
        l.event(&PanelOutcome::Clicked("zoom map in".to_string()), false, false),
        PanelAction::Zoom(ZoomDirection::In)
    );
    assert_eq!(
        l.event(&PanelOutcome::Clicked("zoom map out".to_string()), false, false),
        PanelAction::Zoom(ZoomDirection::Out)
    );
    assert_eq!(
        l.event(&PanelOutcome::Clicked("greenway".to_string()), false, false),
        PanelAction::ShowExplanation(Control::Greenway)
    );
    assert_eq!(
        l.event(&PanelOutcome::Clicked("about the elevation data".to_string()), false, false),
        PanelAction::ShowExplanation(Control::AboutElevation)
    );
    assert_eq!(l.event(&PanelOutcome::Nothing, true, true), PanelAction::Nothing);
    assert_eq!(
        l.event(&PanelOutcome::Changed("road labels".to_string()), false, false),
        PanelAction::RoadLabels(false)
    );
    assert_eq!(
        l.event(&PanelOutcome::Changed("elevation".to_string()), true, false),
        PanelAction::Elevation { compute_contours: true }
    );
    assert_eq!(
        l.event(&PanelOutcome::Changed("steep streets".to_string()), true, false),
        PanelAction::SteepStreets(true)
    );
    assert_eq!(
        l.panel_flags(),
        PanelFlags { bike_network: true, labels: false, elevation: true, steep_streets: true }
    );
    assert!(l.updates_elevation_label(true));
    assert!(!l.updates_elevation_label(false));
    assert_eq!(
        l.event(&PanelOutcome::Changed("elevation".to_string()), true, true),
        PanelAction::Elevation { compute_contours: false }
    );
    assert_eq!(
        l.event(&PanelOutcome::Changed("elevation".to_string()), false, false),
        PanelAction::Elevation { compute_contours: false }
    );
    assert!(!l.updates_elevation_label(true));
    assert_eq!(
        l.event(&PanelOutcome::Changed("bike network".to_string()), false, false),
        PanelAction::BikeNetwork(false)
    );
}

#[test]
fn zoom_key_refresh() {
    let mut l = Layers::new((false, false));
    assert!(!l.refresh_zoom_key((false, false)));
    assert!(l.refresh_zoom_key((true, false)));
    assert!(!l.refresh_zoom_key((true, false)));
    assert!(l.refresh_zoom_key((true, true)));
}

#[test]
fn drawing_follows_zoom_and_hover() {
    let mut l = Layers::new((false, false));
    l.event(&PanelOutcome::Changed("elevation".to_string()), true, true);
    l.highlight_road_type("minor street");
    assert_eq!(
        l.draw(false, true, Some("minor street")),
        DrawPlan {
            bike_network: false,
            labels: false,
            elevation_contours: false,
            steep_streets: false,
            hovered_road_type: false
        }
    );
    assert_eq!(
        l.draw(true, true, Some("minor street")),
        DrawPlan {
            bike_network: true,
            labels: true,
            elevation_contours: true,
            steep_streets: false,
            hovered_road_type: true
        }
    );
    assert!(!l.draw(true, false, Some("highway")).hovered_road_type);
    assert!(!l.draw(true, false, None).elevation_contours);
}

#[test]
fn clicks_leave_state_alone() {
    let mut l = Layers::new((true, false));
    l.highlight_road_type("trail");
    let flags = l.panel_flags();
    for name in ["zoom map in", "zoom map out", "highway", "trail", "about the elevation data"] {
        l.event(&PanelOutcome::Clicked(name.to_string()), true, false);
        assert_eq!(l.panel_flags(), flags);
        assert!(l.has_road_type("trail"));
        assert!(!l.refresh_zoom_key((true, false)));
    }
}

#[test]
fn each_road_has_exactly_one_rank_entry() {
    for rank in [RoadRank::Local, RoadRank::Arterial, RoadRank::Highway] {
        let r = road(rank, vec![LaneKind::Biking], false, false);
        let shown = ["highway", "major street", "minor street"]
            .iter()
            .filter(|n| road_is_shown(n, &r))
            .count();
        assert_eq!(shown, 1);
        assert!(road_is_shown("painted bike lane", &r));
        assert!(!road_is_shown("protected bike lane", &r));
    }
}
