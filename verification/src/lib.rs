//! Building SQL query text piece by piece: raw fragments go in as they are,
//! values go in as literals, quoted and escaped, and a list helper puts a
//! separator between its items.
//!
//! Every function here is verified against a contract over the text as a
//! sequence of characters; the one exception is named where it stands.

pub mod sql;
