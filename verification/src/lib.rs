//! A container for independently identified, independently lockable mutable
//! objects. Inserting an object yields a cloneable handle; every holder of a
//! handle (the container keeps one of its own) can read or mutate that one
//! object through a per-slot reader/writer lock, without touching or blocking
//! access to any other object.
//!
//! The container is generic over the storable type, which only has to satisfy
//! the [`Shape`] capability contract; to mix differently-behaved concrete
//! objects in one container, a caller picks a trait-object or sum type as
//! that parameter.

pub mod canvas;
pub mod shape;

pub use canvas::Canvas;
pub use canvas::Handle;
pub use canvas::SlotInv;
pub use canvas::read_measure;
pub use canvas::read_position;
pub use canvas::read_position_pair;
pub use canvas::slot_area;
pub use canvas::write_position;
pub use shape::Block;
pub use shape::Shape;
