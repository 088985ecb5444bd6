//! Generic containers and shape polymorphism with verified contracts.
//!
//! The crate offers two small components: a comparable pair of same-typed
//! values whose comparison report is pinned down exactly, and a closed set
//! of shapes behind one capability trait (`area`, `describe`) whose area
//! formulas and report texts are stated and proved.

pub mod generic;
pub mod pair;
pub mod refs;
pub mod shape;
