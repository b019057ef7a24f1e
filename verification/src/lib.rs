//! Pan, zoom and frame-fitting for a rectangular view onto a 2D map surface.
//!
//! A [`viewbox::ViewBox`] is the visible rectangle of a surface. It is moved
//! by dragging, zoomed about a centre by a [`scale::Scale`], held back by
//! optional zoom limits, and written out as the four numbers that a renderer
//! takes. The functions of [`frame`] centre a measured shape in its container
//! and frame it with a margin for a detail view.
//!
//! Every type has a mathematical counterpart ([`viewbox::Viewport`],
//! [`point::Vector`], [`scale::Ratio`], [`frame::Bounds`]) over which the
//! contracts of the functions and the lemmas about them are stated.
//!
//! The other modules hold what surrounds the view box in a map of countries:
//! the handling of pointer and wheel events ([`map`]), the life of the detail
//! view ([`country_view`]), a view box kept as the text of an attribute
//! ([`attribute`], [`text`]), and the records of countries and the service
//! that hands them out ([`country_data`], [`service`], [`settings`]).

pub mod point;
pub mod scale;
pub mod viewbox;
pub mod text;
pub mod frame;
pub mod settings;
pub mod map;
pub mod country_view;
pub mod country_data;
pub mod service;
pub mod attribute;
