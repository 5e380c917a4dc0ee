use abstreet_panels::turn_restrictions::{
    handle_hover_change, handle_world_outcome, make_world, outlines_for, restricted_destinations,
    widget, EditOutcome, FocusChange, FocusInfo, IntersectionID, Neighbourhood, Obj, Outline,
    OutlineColor, RestrictionType, RoadID, RoadRestrictions, WorldObject, WorldOutcome,
    WorldResponse,
};

fn r(i: usize) -> RoadID {
    RoadID(i)
}

fn sample_restrictions() -> RoadRestrictions {
    RoadRestrictions {
        turn_restrictions: vec![
            (RestrictionType::BanTurns, r(5)),
            (RestrictionType::OnlyAllowTurns, r(6)),
            (RestrictionType::BanTurns, r(7)),
        ],
        complicated_turn_restrictions: vec![(r(8), r(9))],
    }
}

#[test]
fn widget_title() {
    assert_eq!(widget(Some("Main St")), Some("Turn Restrictions from Main St".to_string()));
    assert_eq!(widget(Some("")), Some("Turn Restrictions from ".to_string()));
    assert_eq!(widget(None), None);
}

#[test]
fn world_outcomes() {
    assert_eq!(
        handle_world_outcome(WorldOutcome::ClickedObject(Obj::Road(r(3)))),
        WorldResponse { focus: FocusChange::Focus(r(3)), outcome: EditOutcome::UpdatePanelAndWorld }
    );
    assert_eq!(
        handle_world_outcome(WorldOutcome::ClickedFreeSpace),
        WorldResponse { focus: FocusChange::Clear, outcome: EditOutcome::UpdatePanelAndWorld }
    );
    assert_eq!(
        handle_world_outcome(WorldOutcome::ClickedObject(Obj::Intersection(IntersectionID(1)))),
        WorldResponse { focus: FocusChange::Unchanged, outcome: EditOutcome::Nothing }
    );
    assert_eq!(
        handle_world_outcome(WorldOutcome::Other),
        WorldResponse { focus: FocusChange::Unchanged, outcome: EditOutcome::Nothing }
    );
    assert_eq!(
        handle_world_outcome(WorldOutcome::HoverChanged(None, Some(Obj::Road(r(2))))),
        WorldResponse { focus: FocusChange::Focus(r(2)), outcome: EditOutcome::UpdateAll }
    );
}

#[test]
fn hover_changes() {
    assert_eq!(
        handle_hover_change(Some(Obj::Road(r(1))), None),
        WorldResponse { focus: FocusChange::Clear, outcome: EditOutcome::UpdateAll }
    );
    assert_eq!(
        handle_hover_change(None, Some(Obj::Road(r(4)))),
        WorldResponse { focus: FocusChange::Focus(r(4)), outcome: EditOutcome::UpdateAll }
    );
    assert_eq!(
        handle_hover_change(None, Some(Obj::Intersection(IntersectionID(4)))),
        WorldResponse { focus: FocusChange::Clear, outcome: EditOutcome::UpdateAll }
    );
}

#[test]
fn restricted_roads() {
    assert_eq!(restricted_destinations(&sample_restrictions()), vec![r(5), r(7), r(8), r(9)]);
    let none = RoadRestrictions { turn_restrictions: vec![], complicated_turn_restrictions: vec![] };
    assert_eq!(restricted_destinations(&none), vec![]);
    let only = RoadRestrictions {
        turn_restrictions: vec![(RestrictionType::OnlyAllowTurns, r(1))],
        complicated_turn_restrictions: vec![],
    };
    assert_eq!(restricted_destinations(&only), vec![]);
}

#[test]
fn focus_outline_order() {
    let f = FocusInfo {
        road: r(1),
        restrictions: sample_restrictions(),
        possible_destinations: vec![r(2), r(3)],
    };
    let o = outlines_for(&f);
    let expected = vec![
        Outline { color: OutlineColor::Blue, road: r(1) },
        Outline { color: OutlineColor::Yellow, road: r(2) },
        Outline { color: OutlineColor::Yellow, road: r(3) },
        Outline { color: OutlineColor::Red, road: r(5) },
        Outline { color: OutlineColor::Red, road: r(7) },
        Outline { color: OutlineColor::Red, road: r(8) },
        Outline { color: OutlineColor::Red, road: r(9) },
    ];
    assert_eq!(o, expected);
}

fn road_of(o: &WorldObject) -> RoadID {
    match o {
        WorldObject::Focused { road, .. } => *road,
        WorldObject::Plain { road } => *road,
    }
}

#[test]
fn world_objects() {
    let n = Neighbourhood {
        perimeter_roads: vec![r(10), r(1)],
        interior_roads: vec![r(11)],
        connected_exterior_roads: vec![r(12), r(1)],
    };
    let plain = make_world(&n, &None);
    assert_eq!(plain.len(), 5);
    let roads: Vec<RoadID> = plain.iter().map(road_of).collect();
    assert_eq!(roads, vec![r(10), r(1), r(11), r(12), r(1)]);
    assert!(plain.iter().all(|o| matches!(o, WorldObject::Plain { .. })));

    let f = FocusInfo {
        road: r(1),
        restrictions: RoadRestrictions {
            turn_restrictions: vec![(RestrictionType::BanTurns, r(11))],
            complicated_turn_restrictions: vec![],
        },
        possible_destinations: vec![r(12)],
    };
    let w = make_world(&n, &Some(f));
    assert_eq!(w.len(), 5);
    let roads: Vec<RoadID> = w.iter().map(road_of).collect();
    assert_eq!(roads, vec![r(10), r(1), r(11), r(12), r(1)]);
    for (i, o) in w.iter().enumerate() {
        match o {
            WorldObject::Focused { road, outlines } => {
                assert!(i == 1 || i == 4);
                assert_eq!(*road, r(1));
                assert_eq!(
                    *outlines,
                    vec![
                        Outline { color: OutlineColor::Blue, road: r(1) },
                        Outline { color: OutlineColor::Yellow, road: r(12) },
                        Outline { color: OutlineColor::Red, road: r(11) },
                    ]
                );
            }
            WorldObject::Plain { road } => {
                assert!(i != 1 && i != 4);
                assert_ne!(*road, r(1));
            }
        }
    }
}
