//! Plain-value logic of a library of one-loop scalar integrals.
#![allow(unused_imports)]

pub mod text;
pub mod family;
pub mod backend;
pub mod validation;
pub mod cache;
pub mod coefficient_cache;
pub mod precision;
pub mod sectors;
pub mod expr;
pub mod functions;
pub mod sheet;
pub mod elementary;
pub mod series;
pub mod roots;
pub mod box_infrared;
pub mod triangle;
pub mod triangle_hv;
pub mod box_contour;
pub mod box_finite;
pub mod boxes;
pub mod two_point;
pub mod masters;
pub mod initialization;
pub mod inspection;
pub mod expansion;
pub mod inspection_formulas;
pub mod branch_selection;
