//! Levels: the flat form that a level file holds and the graph that is worked on.
//!
//! In a level file an entity names another by its position in the list of its kind, so no
//! entity can be put in or taken out without renumbering. Linking turns the lists into a
//! graph whose entities are named by keys that stay; unlinking turns a graph back into
//! lists.

pub mod action_table;
pub mod arena;
pub mod graph;
pub mod line_def;
pub mod sector;
pub mod side_def;
pub mod special;
pub mod thing;
pub mod udmf;
pub mod vertex;

pub use self::graph::{EntityKind, LinkError, LinkedMap, MapView, RawMap, RawMapView, UnlinkError};
pub use self::line_def::LineDef;
pub use self::sector::Sector;
pub use self::side_def::SideDef;
pub use self::thing::Thing;
pub use self::vertex::Vertex;
