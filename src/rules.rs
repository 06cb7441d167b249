pub mod ast_child_statements;
pub mod e0010;
