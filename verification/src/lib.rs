pub mod colour;
