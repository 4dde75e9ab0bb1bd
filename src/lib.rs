//! Hit selection for a minimal ray tracer.
//!
//! A primitive reports every parametric distance `t` at which a ray crosses
//! its surface; [`intersection::Intersection::hit`] then picks the visible
//! one, the crossing nearest in front of the ray origin. Distances are held
//! as IEEE-754 binary32 encodings and ordered as the numbers they encode
//! (see [`param`]). [`sphere::sphere_crossings`] turns the roots of the
//! ray–sphere quadratic into intersections.

pub mod intersection;
pub mod param;
pub mod sphere;
