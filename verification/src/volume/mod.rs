pub mod volume_base;
