pub mod mini_core;
pub mod text;
pub mod xtask;
pub mod diag;
pub mod decimal;
pub mod attrs;
pub mod tree_borrows;
pub mod target;
pub mod metrics;
pub mod thread;
pub mod default_lint;
pub mod fmt_config;
pub mod path_transform;
pub mod cfg_if;
pub mod assert_macro;
pub mod operators;
pub mod case_mismatch;
pub mod misc_lints;
pub mod expr_lints;
pub mod type_lints;
pub mod transitive_relation;
pub mod ptr_args;
pub mod codegen;
pub mod symbol_names;
