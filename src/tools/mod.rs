pub mod binary_builder;
