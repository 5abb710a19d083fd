pub mod database;
pub mod directive;
pub mod german;
pub mod hal;
pub mod impression;
pub mod machine;
pub mod motion;
pub mod position;
pub mod printing;
pub mod resolution;
pub mod sign;
pub mod symbol;
pub mod times;
