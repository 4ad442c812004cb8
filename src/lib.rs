pub mod debounce;
pub mod object;
pub mod router;
pub mod text;
