pub mod collapse_system;
pub mod physics_rules;
pub mod physics_system;
pub mod physics_executor;
pub mod physics_laws;
pub mod physics_allocator;
pub mod env_allocator;
pub mod put_inside;
pub mod gravity_system;
pub mod keyinput_system;
pub mod stack_system;
pub mod spawner_system;
