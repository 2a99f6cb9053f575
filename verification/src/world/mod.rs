pub mod block_data;
pub mod blockage;
pub mod input_cache;
pub mod physics_queue;
pub mod score_text;
