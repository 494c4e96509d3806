pub mod state_machine;
