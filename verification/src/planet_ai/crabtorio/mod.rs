pub mod ai;
