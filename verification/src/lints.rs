//! The lints that work on the syntax tree alone.

pub mod and_keyword;
pub mod anonymous_constructor;
pub mod bool_equality;
pub mod draw_sprite;
pub mod function_name_as_parameter;
pub mod global;
pub mod mod_preference;
pub mod non_constant_default_parameter;
pub mod null_coalescence_equal;
pub mod show_debug_message;
pub mod single_equals_comparison;
pub mod try_catch;
pub mod with_loop;
