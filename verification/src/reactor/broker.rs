//! The redis crate as the reactor uses it: its error, its command builder, its
//! read options and its stream replies. Each is an opaque value to Verus; the
//! functions below are the calls into the crate, with what its source shows of
//! them.

use redis::streams::{StreamId, StreamRangeReply, StreamReadOptions, StreamReadReply};
use redis::{Cmd, ErrorKind, RedisError};
use vstd::prelude::*;
use vstd::string::StringSliceAdditionalSpecFns;

verus! {

#[verifier::external_type_specification]
#[verifier::external_body]
pub struct ExRedisError(RedisError);

#[verifier::external_type_specification]
#[verifier::external_body]
pub struct ExCmd(Cmd);

#[verifier::external_type_specification]
#[verifier::external_body]
pub struct ExStreamReadOptions(StreamReadOptions);

#[verifier::external_type_specification]
#[verifier::external_body]
pub struct ExStreamReadReply(StreamReadReply);

#[verifier::external_type_specification]
#[verifier::external_body]
pub struct ExStreamRangeReply(StreamRangeReply);

#[verifier::external_type_specification]
#[verifier::external_body]
pub struct ExStreamId(StreamId);

/// The raw error code that `RedisError::code` reports, if the error has one.
pub uninterp spec fn error_code(e: RedisError) -> Option<Seq<char>>;

/// The detail that `RedisError::detail` reports, if the error has one.
pub uninterp spec fn error_detail(e: RedisError) -> Option<Seq<char>>;

/// The short message of the error, as `std::error::Error::description` reports
/// it.
pub uninterp spec fn error_description(e: RedisError) -> Seq<char>;

/// Whether `RedisError::kind` is `ErrorKind::TypeError`.
pub uninterp spec fn is_type_error(e: RedisError) -> bool;

/// Whether the error is a failure of input or output, as
/// `RedisError::is_io_error` tells it.
pub uninterp spec fn is_io_failure(e: RedisError) -> bool;

/// The arguments of a command in order, the command's name first, as
/// `Cmd::args_iter` walks them.
pub uninterp spec fn cmd_args(c: Cmd) -> Seq<Seq<u8>>;

/// The arguments that read options contribute to a read command, as their
/// `ToRedisArgs::to_redis_args` lists them.
pub uninterp spec fn read_options_args(o: StreamReadOptions) -> Seq<Seq<u8>>;

/// The entries of a read reply: one sequence for each stream key of the reply,
/// in the reply's order.
pub uninterp spec fn reply_entries(r: StreamReadReply) -> Seq<Seq<StreamId>>;

/// The entries of a range reply, in the reply's order.
pub uninterp spec fn range_entries(r: StreamRangeReply) -> Seq<StreamId>;

/// The fields of a stream entry: each field's name with the bytes of its value,
/// or with `None` where the broker sent something else than a bulk string.
pub uninterp spec fn entry_fields(e: StreamId) -> Map<Seq<char>, Option<Seq<u8>>>;

/// A natural number in decimal, as ASCII digits without leading zeros.
pub open spec fn decimal(n: nat) -> Seq<u8>
    decreases n,
{
    if n < 10 {
        seq![(48 + n) as u8]
    } else {
        decimal(n / 10).push((48 + n % 10) as u8)
    }
}

/// The value of one field of a stream entry, as far as the codec reads it.
#[derive(Debug, PartialEq, Eq)]
pub enum RawValue {
    /// A bulk string.
    Bytes(Vec<u8>),
    /// Any other kind of reply.
    Other,
}

impl RawValue {
    /// The bytes of a bulk string.
    pub open spec fn bytes(self) -> Option<Seq<u8>> {
        match self {
            RawValue::Bytes(b) => Some(b@),
            RawValue::Other => None,
        }
    }
}

/// `RedisError::code`: the raw error code, if the error has one.
#[verifier::external_body]
pub(crate) fn code_of(e: &RedisError) -> (code: Option<&str>)
    ensures
        code matches Some(c) ==> error_code(*e) == Some(c@),
        code is None ==> error_code(*e) is None,
{
    e.code()
}

/// `RedisError::is_io_error`: whether the error is a failure of input or
/// output.
#[verifier::external_body]
pub(crate) fn io_failure(e: &RedisError) -> (io: bool)
    ensures
        io == is_io_failure(*e),
{
    e.is_io_error()
}

/// `RedisError::from` on a kind and a message: a type error, which is no
/// failure of input or output, that carries the message, no detail and no
/// code.
#[verifier::external_body]
pub(crate) fn type_error(description: &'static str) -> (e: RedisError)
    ensures
        is_type_error(e),
        !is_io_failure(e),
        error_description(e) == description@,
        error_detail(e) is None,
        error_code(e) is None,
{
    RedisError::from((ErrorKind::TypeError, description))
}

/// `RedisError::from` on a kind, a message and a detail: a type error, which
/// is no failure of input or output, that carries both, and no code.
#[verifier::external_body]
pub(crate) fn type_error_with_detail(description: &'static str, detail: String) -> (e:
    RedisError)
    ensures
        is_type_error(e),
        !is_io_failure(e),
        error_description(e) == description@,
        error_detail(e) == Some(detail@),
        error_code(e) is None,
{
    RedisError::from((ErrorKind::TypeError, description, detail))
}

/// `redis::cmd`: a command that so far holds its name.
#[verifier::external_body]
pub(crate) fn command(name: &str) -> (c: Cmd)
    ensures
        cmd_args(c) == seq![name.spec_bytes()],
{
    redis::cmd(name)
}

/// `Cmd::arg` on a string: appends the string's bytes as one argument.
#[verifier::external_body]
pub(crate) fn push_text(c: &mut Cmd, text: &str)
    ensures
        cmd_args(*final(c)) == cmd_args(*old(c)).push(text.spec_bytes()),
{
    c.arg(text);
}

/// `Cmd::arg` on a `usize`: appends the number in decimal as one argument.
#[verifier::external_body]
pub(crate) fn push_number(c: &mut Cmd, n: usize)
    ensures
        cmd_args(*final(c)) == cmd_args(*old(c)).push(decimal(n as nat)),
{
    c.arg(n);
}

/// `StreamReadOptions::default` with `group`, `block` and `count` set, each
/// once: options that read for a consumer of a group, block for `block_ms`
/// milliseconds and return at most `count` entries for each stream. They are
/// written as `GROUP group consumer BLOCK ms COUNT n`.
#[verifier::external_body]
pub(crate) fn group_read_options(group: &str, consumer: &str, block_ms: usize, count: usize) -> (o:
    StreamReadOptions)
    ensures
        read_options_args(o) == seq![
            "GROUP".spec_bytes(),
            group.spec_bytes(),
            consumer.spec_bytes(),
            "BLOCK".spec_bytes(),
            decimal(block_ms as nat),
            "COUNT".spec_bytes(),
            decimal(count as nat),
        ],
{
    StreamReadOptions::default().group(group, consumer).block(block_ms).count(count)
}

/// The field `ids` of each `StreamKey` in the field `keys` of a read reply,
/// in the reply's order.
#[verifier::external_body]
pub(crate) fn into_batches(reply: StreamReadReply) -> (batches: Vec<Vec<StreamId>>)
    ensures
        batches@.len() == reply_entries(reply).len(),
        forall|i: int| 0 <= i < batches@.len() ==> (#[trigger] batches@[i])@ == reply_entries(reply)[i],
{
    reply.keys.into_iter().map(|key| key.ids).collect()
}

/// The field `ids` of a range reply.
#[verifier::external_body]
pub(crate) fn into_entries(reply: StreamRangeReply) -> (entries: Vec<StreamId>)
    ensures
        entries@ == range_entries(reply),
{
    reply.ids
}

/// The field `map` of a stream entry, handed out pair by pair in the order in
/// which the hash map is walked: every field once, under its own name. A
/// `Value::BulkString` hands out its bytes; any other value is `Other`.
#[verifier::external_body]
pub(crate) fn fields_of(entry: &StreamId) -> (fields: Vec<(String, RawValue)>)
    ensures
        forall|i: int|
            0 <= i < fields@.len() ==> entry_fields(*entry).contains_pair(
                (#[trigger] fields@[i]).0@,
                fields@[i].1.bytes(),
            ),
        forall|i: int, j: int|
            0 <= i < j < fields@.len() ==> (#[trigger] fields@[i]).0@ != (#[trigger] fields@[j]).0@,
        forall|name: Seq<char>|
            entry_fields(*entry).dom().contains(name) ==> exists|i: int|
                0 <= i < fields@.len() && (#[trigger] fields@[i]).0@ == name,
{
    entry.map.iter().map(|(name, value)| (name.clone(), match value {
        redis::Value::BulkString(bytes) => RawValue::Bytes(bytes.clone()),
        _ => RawValue::Other,
    })).collect()
}

} // verus!
