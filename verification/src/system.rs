pub mod update;
