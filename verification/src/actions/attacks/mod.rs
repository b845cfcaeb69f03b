mod mechanic;

pub use mechanic::{BenchSide, CopyAttackSource, Mechanic};
