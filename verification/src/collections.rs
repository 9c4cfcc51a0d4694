//! Collections shared by the protocol engines: the watched value and the
//! wait list that it keeps.

pub mod wait_list;
pub mod watched;
