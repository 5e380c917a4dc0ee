//! Decision logic of two map-editing panels: the toggleable layers panel of the
//! bike-network tool, and the turn-restrictions mode of the low-traffic
//! neighbourhood designer. Drawing and widget building stay with the caller;
//! this crate decides what to show, what to cache and how state changes.
pub mod text;
pub mod controls;
pub mod road_types;
pub mod layers;
pub mod turn_restrictions;
