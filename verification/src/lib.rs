pub mod time_tools;
