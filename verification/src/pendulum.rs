use crate::error::PendulumResult;
use std::time::Duration;
use vstd::prelude::*;

verus! {

/// Identifier for objects inserted into a `Pendulum`.
#[derive(Copy, Clone, Debug, PartialEq, Eq, Structural)]
pub struct Token {
    token: usize,
}

impl Token {
    /// The number a token stands for.
    pub closed spec fn value(self) -> usize {
        self.token
    }
}

/// Wrap a number into a `Token`.
pub fn create_token(token: usize) -> (t: Token)
    ensures
        t.value() == token,
{
    Token { token: token }
}

/// The number that a `Token` stands for.
pub fn retrieve_token(token: Token) -> (n: usize)
    ensures
        n == token.value(),
{
    token.token
}

/// A token is determined by its number: `create_token(retrieve_token(t)) == t`, and
/// `retrieve_token(create_token(n)) == n` by the two functions' contracts.
pub proof fn lemma_token_determined_by_value(t1: Token, t2: Token)
    ensures
        t1.value() == t2.value() <==> t1 == t2,
{
}

//--------------------------------------------------------------//

/// Builds a `Pendulum` of type `P`.
pub trait PendulumBuilder<P> {
    fn build<T>() -> P;
}

//--------------------------------------------------------------//

/// Trait for working with generic timer wheel implementations.
pub trait Pendulum<T> {
    /// Insert a timeout with the given duration and the given item into the `Pendulum`.
    fn insert_timeout(&mut self, timeout: Duration, item: T) -> PendulumResult<Token, T>;

    /// Removes the timeout corresponding with the given `Token`, if one exists.
    fn remove_timeout(&mut self, token: Token) -> Option<T>;

    /// Retrieve the next expired timeout from the `Pendulum`.
    ///
    /// This is a non-blocking operation.
    fn expired_timeout(&mut self) -> Option<T>;

    /// Tick the `Pendulum` once.
    fn tick(&mut self);

    /// Configured tick duration for this `Pendulum`.
    fn tick_duration(&self) -> Duration;

    /// Configured max timeout capacity for this `Pendulum`.
    fn max_capacity(&self) -> usize;

    /// Configured maximum timeout for this `Pendulum`.
    fn max_timeout(&self) -> Duration;
}

} // verus!
