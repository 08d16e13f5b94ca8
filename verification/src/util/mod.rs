pub mod print_util;
pub mod time_util;
