mod mechanic;

pub use mechanic::AbilityMechanic;
