pub mod keys;
pub mod spinner;
pub mod result;
pub mod lists;
