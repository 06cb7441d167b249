pub mod analyse;
pub mod ast;
pub mod rules;
pub mod laws;
