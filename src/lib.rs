//! Classification of GHS hazard statement codes (H-codes) into a coarse
//! severity tier, and the worst-case tier of a list of codes.
pub mod level;
pub mod text;
pub mod table;
pub mod assess;
