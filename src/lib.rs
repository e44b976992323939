//! Formatting of path-like strings with respect to a separator character:
//! removing or adding one leading or trailing separator, and joining
//! fragments so that exactly one separator stands at each junction.
//!
//! The functions of [`separator`] take the separator as an argument. The
//! modules [`slash`], [`backslash`], [`file_separator`] and
//! [`file_separator_build`] fix it to `/`, to `\`, and to the separator of
//! the platform.
pub mod backslash;
pub mod file_separator;
pub mod file_separator_build;
pub mod laws;
pub mod separator;
pub mod slash;
mod text;

pub use separator::{
    add_end, add_end_in_place, add_start, add_start_in_place, delete_end, delete_end_in_place,
    delete_start, delete_start_in_place, concat_with, concat_with_in_place, join_with,
    join_with_in_place, concat_literals,
};
pub use backslash::{
    BACKSLASH, add_end_backslash, add_end_backslash_in_place, add_start_backslash,
    add_start_backslash_in_place, concat_literals_with_backslash, concat_with_backslash,
    concat_with_backslash_in_place, delete_end_backslash, delete_end_backslash_in_place,
    delete_start_backslash, delete_start_backslash_in_place, join_with_backslash,
    join_with_backslash_in_place,
};
pub use file_separator::{
    add_end_file_separator, add_end_file_separator_in_place, add_start_file_separator,
    add_start_file_separator_in_place, concat_literals_with_file_separator,
    concat_with_file_separator, concat_with_file_separator_in_place, delete_end_file_separator,
    delete_end_file_separator_in_place, delete_start_file_separator,
    delete_start_file_separator_in_place, file_separator, join_with_file_separator,
    join_with_file_separator_in_place,
};
pub use file_separator_build::{
    add_end_file_separator_build, add_end_file_separator_build_in_place,
    add_start_file_separator_build, add_start_file_separator_build_in_place,
    concat_literals_with_file_separator_build, concat_with_file_separator_build,
    concat_with_file_separator_build_in_place, delete_end_file_separator_build,
    delete_end_file_separator_build_in_place, delete_start_file_separator_build,
    delete_start_file_separator_build_in_place, file_separator_build,
    join_with_file_separator_build, join_with_file_separator_build_in_place,
};
pub use slash::{
    SLASH, add_end_slash, add_end_slash_in_place, add_start_slash, add_start_slash_in_place,
    concat_literals_with_slash, concat_with_slash, concat_with_slash_in_place, delete_end_slash,
    delete_end_slash_in_place, delete_start_slash, delete_start_slash_in_place, join_with_slash,
    join_with_slash_in_place,
};
