pub mod universe;

pub use universe::dungeon::Dungeon;
pub use universe::navigation::Navigation;
pub use universe::room::Room;
pub use universe::world::World;
pub use universe::Universe;
