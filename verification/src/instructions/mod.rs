pub mod initialize;
pub mod preserve_heritage;
pub mod purchase_tokens;
pub mod submit_planting;
pub mod verify_planting;
