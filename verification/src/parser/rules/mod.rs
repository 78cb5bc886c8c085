//! The grammar rules, one module each.
pub mod parsed_unit_type;
pub mod parsed_type;
pub mod path;
pub mod var;
pub mod arguments;
pub mod assignment;
pub mod block;
pub mod boolean_factor;
pub mod comparison;
pub mod condition;
pub mod constructor_call;
pub mod declaration;
pub mod delete_expr;
pub mod equality;
pub mod exit_expr;
pub mod expr;
pub mod factor;
pub mod for_loop;
pub mod if_block;
pub mod loop_expr;
pub mod member_access;
pub mod new_array;
pub mod primary;
pub mod statement;
pub mod term;
pub mod unary;
pub mod while_loop;
pub mod cast;
pub mod function_call;
pub mod binary_expr;
pub mod parameters;
pub mod function_item;
pub mod constructor_item;
pub mod main_item;
pub mod struct_item;
pub mod impl_block;
pub mod item;
pub mod require;
pub mod scope;
pub mod program;
