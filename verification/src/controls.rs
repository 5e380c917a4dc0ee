//! The controls of the layers panel, named as the panel names them, and the
//! explanations that its informational buttons open.
use vstd::prelude::*;
use vstd::string::*;
use crate::text::str_eq;

verus! {

/// Every button and checkbox of the layers panel.
#[derive(PartialEq, Eq, Structural, Clone, Copy, Debug)]
pub enum Control {
    ZoomIn,
    ZoomOut,
    Highway,
    MajorStreet,
    MinorStreet,
    BikeNetwork,
    Trail,
    ProtectedBikeLane,
    PaintedBikeLane,
    Greenway,
    RoadLabels,
    Elevation,
    AboutElevation,
    SteepStreets,
}

/// The name under which the panel reports a control.
pub open spec fn control_name(c: Control) -> Seq<char> {
    match c {
        Control::ZoomIn => "zoom map in"@,
        Control::ZoomOut => "zoom map out"@,
        Control::Highway => "highway"@,
        Control::MajorStreet => "major street"@,
        Control::MinorStreet => "minor street"@,
        Control::BikeNetwork => "bike network"@,
        Control::Trail => "trail"@,
        Control::ProtectedBikeLane => "protected bike lane"@,
        Control::PaintedBikeLane => "painted bike lane"@,
        Control::Greenway => "greenway"@,
        Control::RoadLabels => "road labels"@,
        Control::Elevation => "elevation"@,
        Control::AboutElevation => "about the elevation data"@,
        Control::SteepStreets => "steep streets"@,
    }
}

/// The control that the panel reports under the name `s`, if any.
pub open spec fn parse_control(s: Seq<char>) -> Option<Control> {
    if s == control_name(Control::ZoomIn) {
        Some(Control::ZoomIn)
    } else if s == control_name(Control::ZoomOut) {
        Some(Control::ZoomOut)
    } else if s == control_name(Control::Highway) {
        Some(Control::Highway)
    } else if s == control_name(Control::MajorStreet) {
        Some(Control::MajorStreet)
    } else if s == control_name(Control::MinorStreet) {
        Some(Control::MinorStreet)
    } else if s == control_name(Control::BikeNetwork) {
        Some(Control::BikeNetwork)
    } else if s == control_name(Control::Trail) {
        Some(Control::Trail)
    } else if s == control_name(Control::ProtectedBikeLane) {
        Some(Control::ProtectedBikeLane)
    } else if s == control_name(Control::PaintedBikeLane) {
        Some(Control::PaintedBikeLane)
    } else if s == control_name(Control::Greenway) {
        Some(Control::Greenway)
    } else if s == control_name(Control::RoadLabels) {
        Some(Control::RoadLabels)
    } else if s == control_name(Control::Elevation) {
        Some(Control::Elevation)
    } else if s == control_name(Control::AboutElevation) {
        Some(Control::AboutElevation)
    } else if s == control_name(Control::SteepStreets) {
        Some(Control::SteepStreets)
    } else {
        None
    }
}

/// The checkboxes: they report changes, never clicks.
pub open spec fn is_toggle(c: Control) -> bool {
    c == Control::BikeNetwork || c == Control::RoadLabels || c == Control::Elevation
        || c == Control::SteepStreets
}

/// The legend entries that stand for a kind of road.
pub open spec fn is_road_type(c: Control) -> bool {
    c == Control::Highway || c == Control::MajorStreet || c == Control::MinorStreet || c
        == Control::Trail || c == Control::ProtectedBikeLane || c == Control::PaintedBikeLane || c
        == Control::Greenway
}

/// The buttons that open an explanation.
pub open spec fn has_explanation(c: Control) -> bool {
    is_road_type(c) || c == Control::AboutElevation
}

/// The title of the explanation that a button opens.
pub open spec fn explanation_title(c: Control) -> Seq<char> {
    match c {
        Control::Highway => "Highways"@,
        Control::MajorStreet => "Major streets"@,
        Control::MinorStreet => "Minor streets"@,
        Control::Trail => "Trails"@,
        Control::ProtectedBikeLane => "Protected bike lanes"@,
        Control::PaintedBikeLane => "Painted bike lanes"@,
        Control::Greenway => "Stay Healthy Streets and neighborhood greenways"@,
        _ => "About the elevation data"@,
    }
}

/// The lines of the explanation that a button opens.
pub open spec fn explanation_lines(c: Control) -> Seq<Seq<char>> {
    match c {
        Control::Highway => seq![
            "Unless there's a separate trail (like on the 520 or I90 bridge), highways aren't accessible to biking"@,
        ],
        Control::MajorStreet => seq![
            "Arterials have more traffic, but are often where businesses are located"@,
        ],
        Control::MinorStreet => seq![
            "Local streets have a low volume of traffic and are usually comfortable for biking, even without dedicated infrastructure"@,
        ],
        Control::Trail => seq![
            "Trails like the Burke Gilman are usually well-separated from vehicle traffic. The space is usually shared between people walking, cycling, and rolling."@,
        ],
        Control::ProtectedBikeLane => seq![
            "Bike lanes separated from vehicle traffic by physical barriers or a few feet of striping"@,
        ],
        Control::PaintedBikeLane => seq![
            "Bike lanes without any separation from vehicle traffic. Often uncomfortably close to the \"door zone\" of parked cars."@,
        ],
        Control::Greenway => seq![
            "Residential streets with additional signage and light barriers. These are intended to be low traffic, dedicated for people walking and biking."@,
        ],
        _ => seq![
            "Biking uphill next to traffic without any dedicated space isn't fun."@,
            "Biking downhill next to traffic, especially in the door-zone of parked cars, and especially on Seattle's bumpy roads... is downright terrifying."@,
            ""@,
            "Note the elevation data is incorrect near bridges."@,
            "Thanks to King County LIDAR for the data, and Eldan Goldenberg for processing it."@,
        ],
    }
}

/// A message window: a title and its lines of text.
pub struct PopupMsg {
    pub title: String,
    pub lines: Vec<String>,
}

impl PopupMsg {
    /// The characters of each line.
    pub open spec fn line_views(&self) -> Seq<Seq<char>> {
        self.lines@.map_values(|l: String| l@)
    }
}

impl Control {
    /// The control that the panel reports under `name`, if there is one.
    pub fn from_name(name: &str) -> (res: Option<Control>)
        ensures
            res == parse_control(name@),
    {
        if str_eq(name, "zoom map in") {
            Some(Control::ZoomIn)
        } else if str_eq(name, "zoom map out") {
            Some(Control::ZoomOut)
        } else if str_eq(name, "highway") {
            Some(Control::Highway)
        } else if str_eq(name, "major street") {
            Some(Control::MajorStreet)
        } else if str_eq(name, "minor street") {
            Some(Control::MinorStreet)
        } else if str_eq(name, "bike network") {
            Some(Control::BikeNetwork)
        } else if str_eq(name, "trail") {
            Some(Control::Trail)
        } else if str_eq(name, "protected bike lane") {
            Some(Control::ProtectedBikeLane)
        } else if str_eq(name, "painted bike lane") {
            Some(Control::PaintedBikeLane)
        } else if str_eq(name, "greenway") {
            Some(Control::Greenway)
        } else if str_eq(name, "road labels") {
            Some(Control::RoadLabels)
        } else if str_eq(name, "elevation") {
            Some(Control::Elevation)
        } else if str_eq(name, "about the elevation data") {
            Some(Control::AboutElevation)
        } else if str_eq(name, "steep streets") {
            Some(Control::SteepStreets)
        } else {
            None
        }
    }

    /// The name under which the panel reports this control.
    pub fn name(self) -> (res: &'static str)
        ensures
            res@ == control_name(self),
    {
        match self {
            Control::ZoomIn => "zoom map in",
            Control::ZoomOut => "zoom map out",
            Control::Highway => "highway",
            Control::MajorStreet => "major street",
            Control::MinorStreet => "minor street",
            Control::BikeNetwork => "bike network",
            Control::Trail => "trail",
            Control::ProtectedBikeLane => "protected bike lane",
            Control::PaintedBikeLane => "painted bike lane",
            Control::Greenway => "greenway",
            Control::RoadLabels => "road labels",
            Control::Elevation => "elevation",
            Control::AboutElevation => "about the elevation data",
            Control::SteepStreets => "steep streets",
        }
    }

    /// Whether this control is a checkbox.
    pub fn is_toggle(self) -> (res: bool)
        ensures
            res == is_toggle(self),
    {
        match self {
            Control::BikeNetwork | Control::RoadLabels | Control::Elevation
            | Control::SteepStreets => true,
            _ => false,
        }
    }
}

/// The explanation that an informational button opens.
pub fn explanation(c: Control) -> (res: PopupMsg)
    requires
        has_explanation(c),
    ensures
        res.title@ == explanation_title(c),
        res.line_views() == explanation_lines(c),
{
    let res = match c {
        Control::Highway => PopupMsg {
            title: String::from_str("Highways"),
            lines: vec![String::from_str(
                "Unless there's a separate trail (like on the 520 or I90 bridge), highways aren't accessible to biking",
            )],
        },
        Control::MajorStreet => PopupMsg {
            title: String::from_str("Major streets"),
            lines: vec![String::from_str(
                "Arterials have more traffic, but are often where businesses are located",
            )],
        },
        Control::MinorStreet => PopupMsg {
            title: String::from_str("Minor streets"),
            lines: vec![String::from_str(
                "Local streets have a low volume of traffic and are usually comfortable for biking, even without dedicated infrastructure",
            )],
        },
        Control::Trail => PopupMsg {
            title: String::from_str("Trails"),
            lines: vec![String::from_str(
                "Trails like the Burke Gilman are usually well-separated from vehicle traffic. The space is usually shared between people walking, cycling, and rolling.",
            )],
        },
        Control::ProtectedBikeLane => PopupMsg {
            title: String::from_str("Protected bike lanes"),
            lines: vec![String::from_str(
                "Bike lanes separated from vehicle traffic by physical barriers or a few feet of striping",
            )],
        },
        Control::PaintedBikeLane => PopupMsg {
            title: String::from_str("Painted bike lanes"),
            lines: vec![String::from_str(
                "Bike lanes without any separation from vehicle traffic. Often uncomfortably close to the \"door zone\" of parked cars.",
            )],
        },
        Control::Greenway => PopupMsg {
            title: String::from_str("Stay Healthy Streets and neighborhood greenways"),
            lines: vec![String::from_str(
                "Residential streets with additional signage and light barriers. These are intended to be low traffic, dedicated for people walking and biking.",
            )],
        },
        _ => PopupMsg {
            title: String::from_str("About the elevation data"),
            lines: vec![
                String::from_str(
                    "Biking uphill next to traffic without any dedicated space isn't fun.",
                ),
                String::from_str(
                    "Biking downhill next to traffic, especially in the door-zone of parked cars, and especially on Seattle's bumpy roads... is downright terrifying.",
                ),
                String::from_str(""),
                String::from_str("Note the elevation data is incorrect near bridges."),
                String::from_str(
                    "Thanks to King County LIDAR for the data, and Eldan Goldenberg for processing it.",
                ),
            ],
        },
    };
    assert(res.line_views() =~= explanation_lines(c));
    res
}

proof fn lemma_reveal_names()
    ensures
        forall|c: Control| #![trigger control_name(c)] control_name(c).len() >= 5,
        forall|c: Control, d: Control|
            #![trigger control_name(c), control_name(d)]
            control_name(c).len() == control_name(d).len() && control_name(c)[0] == control_name(
                d,
            )[0] && control_name(c)[1] == control_name(d)[1] ==> c == d,
{
    reveal_strlit("zoom map in");
    reveal_strlit("zoom map out");
    reveal_strlit("highway");
    reveal_strlit("major street");
    reveal_strlit("minor street");
    reveal_strlit("bike network");
    reveal_strlit("trail");
    reveal_strlit("protected bike lane");
    reveal_strlit("painted bike lane");
    reveal_strlit("greenway");
    reveal_strlit("road labels");
    reveal_strlit("elevation");
    reveal_strlit("about the elevation data");
    reveal_strlit("steep streets");
}

/// Law: no two controls share a name.
pub proof fn lemma_names_distinct(c: Control, d: Control)
    ensures
        control_name(c) == control_name(d) ==> c == d,
{
    lemma_reveal_names();
    if control_name(c) == control_name(d) {
        assert(control_name(c)[0] == control_name(d)[0]);
        assert(control_name(c)[1] == control_name(d)[1]);
    }
}

/// Law: every control is found again under its own name.
pub proof fn lemma_name_roundtrip(c: Control)
    ensures
        parse_control(control_name(c)) == Some(c),
{
    assert forall|d: Control| control_name(c) == control_name(d) implies c == d by {
        lemma_names_distinct(c, d);
    }
}

/// Law: a name that denotes a control is that control's name.
pub proof fn lemma_parse_names(s: Seq<char>)
    ensures
        parse_control(s) matches Some(c) ==> control_name(c) == s,
{
}

} // verus!
