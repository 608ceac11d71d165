use std::sync::Arc;
use tokio_util::sync::CancellationToken;
use vstd::prelude::*;

verus! {

#[verifier::external_type_specification]
#[verifier::external_body]
pub struct ExCancellationToken(CancellationToken);

/// `CancellationToken::new`: a token of its own, not yet cancelled. The token's
/// state is shared and changes under the reader, so no contract speaks of it.
#[verifier::external_body]
fn fresh_token() -> CancellationToken {
    CancellationToken::new()
}

/// `CancellationToken::cancel`. The token is changed behind a shared
/// reference, which no clause can describe.
#[verifier::external_body]
fn raise(token: &CancellationToken) {
    token.cancel()
}

/// `CancellationToken::is_cancelled`. Another holder of the token may raise it
/// at any moment, so nothing is promised of the answer.
#[verifier::external_body]
fn raised(token: &CancellationToken) -> bool {
    token.is_cancelled()
}

/// `Rng::sample` of rand's `Alphanumeric` distribution on `thread_rng()`: the
/// code of an ASCII letter or digit.
#[verifier::external_body]
fn sample_alphanumeric() -> (b: u8)
    ensures
        is_alphanumeric(b as char),
{
    rand::Rng::sample(&mut rand::thread_rng(), rand::distributions::Alphanumeric)
}

/// `String::push`: appends one character.
#[verifier::external_body]
fn push_char(s: &mut String, c: char)
    ensures
        final(s)@ == old(s)@.push(c),
{
    s.push(c)
}

/// Whether `c` is one of `0-9`, `A-Z`, `a-z`.
pub open spec fn is_alphanumeric(c: char) -> bool {
    let n = c as u32;
    ||| 48 <= n <= 57
    ||| 65 <= n <= 90
    ||| 97 <= n <= 122
}

/// The length of a generated consumer id.
pub const GENERATED_ID_LEN: usize = 30;

/// Whether `id` has the shape of a generated consumer id: thirty characters,
/// each an ASCII letter or digit.
pub open spec fn is_generated_id(id: Seq<char>) -> bool {
    &&& id.len() == GENERATED_ID_LEN
    &&& forall|i: int| 0 <= i < id.len() ==> is_alphanumeric(#[trigger] id[i])
}

/// The consumer id of a context made from `given`: the id that was given, or
/// a generated one where none, or an empty one, was given.
pub open spec fn is_consumer_id(given: Option<String>, id: Seq<char>) -> bool {
    match given {
        Some(own) => if own@.len() > 0 {
            id == own@
        } else {
            is_generated_id(id)
        },
        None => is_generated_id(id),
    }
}

/// The identity under which one reactor runs, with its shutdown signal. Its
/// consumer id is never empty.
pub struct Context<'a> {
    pub(crate) consumer_id: String,
    pub(crate) stream_key: &'a str,
    pub(crate) group_name: &'a str,
    pub(crate) cancel_token: Arc<CancellationToken>,
}

/// What a `Context` stands for in contracts: its three identifiers.
pub struct Identity {
    pub consumer_id: Seq<char>,
    pub stream_key: Seq<char>,
    pub group_name: Seq<char>,
}

impl<'a> View for Context<'a> {
    type V = Identity;

    closed spec fn view(&self) -> Identity {
        Identity {
            consumer_id: self.consumer_id@,
            stream_key: self.stream_key@,
            group_name: self.group_name@,
        }
    }
}

impl<'a> Context<'a> {
    #[verifier::type_invariant]
    closed spec fn has_consumer_id(&self) -> bool {
        self.consumer_id@.len() > 0
    }

    /// The token that `shutdown_gracefully` raises.
    pub closed spec fn token(&self) -> Arc<CancellationToken> {
        self.cancel_token
    }

    /// A context for `stream_key` and `group_name`. The consumer id is the one
    /// given; where none is given, or an empty one, it is generated.
    pub fn new(stream_key: &'a str, group_name: &'a str, consumer_id: Option<String>) -> (ctx:
        Self)
        ensures
            ctx@.stream_key == stream_key@,
            ctx@.group_name == group_name@,
            is_consumer_id(consumer_id, ctx@.consumer_id),
            ctx@.consumer_id.len() > 0,
    {
        let consumer_id = match consumer_id {
            Some(id) => if id.as_str().is_empty() {
                Self::generate_id()
            } else {
                id
            },
            None => Self::generate_id(),
        };
        Context { consumer_id, stream_key, group_name, cancel_token: Arc::new(fresh_token()) }
    }

    /// Thirty random characters, each an ASCII letter or digit.
    pub(crate) fn generate_id() -> (id: String)
        ensures
            is_generated_id(id@),
    {
        let mut id = String::new();
        let mut n: usize = 0;
        while n < GENERATED_ID_LEN
            invariant
                n <= GENERATED_ID_LEN,
                id@.len() == n,
                forall|i: int| 0 <= i < id@.len() ==> is_alphanumeric(#[trigger] id@[i]),
            decreases GENERATED_ID_LEN - n,
        {
            let c = sample_alphanumeric() as char;
            push_char(&mut id, c);
            n = n + 1;
        }
        id
    }

    pub fn consumer_id(&self) -> (id: &str)
        ensures
            id@ == self@.consumer_id,
            id@.len() > 0,
    {
        proof {
            use_type_invariant(self);
        }
        self.consumer_id.as_str()
    }

    pub fn stream_key(&self) -> (key: &'a str)
        ensures
            key@ == self@.stream_key,
    {
        self.stream_key
    }

    pub fn group_name(&self) -> (name: &'a str)
        ensures
            name@ == self@.group_name,
    {
        self.group_name
    }

    /// Raises the shutdown signal: entries already claimed are still processed,
    /// then the loops stop. Raising it again changes nothing.
    pub fn shutdown_gracefully(&self) {
        raise(&self.cancel_token)
    }

    /// Whether the shutdown signal was seen raised.
    pub fn is_cancelled(&self) -> bool {
        raised(&self.cancel_token)
    }

    /// A handle on the shutdown signal itself.
    pub fn cancel_token(&self) -> (token: Arc<CancellationToken>)
        ensures
            token == self.token(),
    {
        self.cancel_token.clone()
    }
}

} // verus!
