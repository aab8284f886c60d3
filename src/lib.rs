//! Reconciles the object-ID ranges granted by a license against an inventory
//! of defined objects, and reports the objects that no range covers.

pub mod object_type;
pub mod text;
pub mod objects;
pub mod reconcile;
pub mod license;
pub mod inventory;
pub mod report;
