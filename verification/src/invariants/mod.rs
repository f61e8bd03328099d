pub mod planting;
pub mod supply;
