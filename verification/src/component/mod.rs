pub mod dyn_block;
pub mod stt_block;
