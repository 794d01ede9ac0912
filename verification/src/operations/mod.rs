pub mod load_store;
pub mod timing;
