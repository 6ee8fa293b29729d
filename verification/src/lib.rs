//! A type-erased, two-phase element abstraction for a retained-mode UI tree.
//!
//! Heterogeneous, statically-typed node types are stored, laid out, and
//! painted through one uniform, non-generic handle, while each node privately
//! retains its own typed layout-time data across the layout/paint boundary.

pub mod element;
pub mod geometry;
pub mod repository;

pub use element::AnyElement;
pub use element::Element;
pub use element::IntoAnyElement;
pub use element::ParentElement;
pub use element::RenderPhase;

pub use geometry::Bounds;
pub use geometry::Error;
pub use geometry::Layout;
pub use geometry::LayoutId;
pub use geometry::Pixels;
pub use geometry::Point;
pub use geometry::Size;
pub use geometry::ViewContext;
