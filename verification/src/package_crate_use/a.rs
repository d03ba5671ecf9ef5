pub mod b;
