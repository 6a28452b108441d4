pub mod stamina;
