use vstd::prelude::*;

verus! {

/// A reply of the cache server, as its protocol shapes it.
#[derive(Debug)]
pub enum RedisValue {
    Nil,
    Int(i64),
    Data(Vec<u8>),
    Bulk(Vec<RedisValue>),
    Status(String),
    Okay,
}

} // verus!
