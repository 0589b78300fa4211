//! What the library adds to the values of a replication row.

pub mod column_value_ext;
