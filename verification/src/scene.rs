pub mod spawner;
