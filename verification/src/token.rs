//! The exclusivity token of one shard's instance.
//!
//! A token records how the instance is borrowed at the moment: not at all,
//! by a number of readers, or by one writer. It is never waited for: an
//! acquisition either succeeds at once or fails at once.

use vstd::prelude::*;

verus! {

/// How one shard's instance is borrowed.
#[derive(Clone, Copy, Debug, PartialEq, Eq, Structural)]
pub enum Token {
    /// Nobody borrows the instance.
    Free,
    /// This many readers borrow the instance; at least one.
    Shared(u64),
    /// One writer borrows the instance.
    Exclusive,
}

impl Token {
    /// A shared token has at least one reader.
    pub open spec fn wf(self) -> bool {
        self matches Token::Shared(n) ==> n > 0
    }

    /// The number of readers that hold the token.
    pub open spec fn readers(self) -> nat {
        match self {
            Token::Shared(n) => n as nat,
            _ => 0,
        }
    }

    /// Whether one more reader can take the token: no writer holds it. (And
    /// the count of readers can still grow.)
    pub open spec fn admits_shared(self) -> bool {
        self !is Exclusive && self.readers() < u64::MAX
    }

    /// Whether a writer can take the token: nobody holds it.
    pub open spec fn admits_exclusive(self) -> bool {
        self is Free
    }

    /// Whether the token can be taken in the given mode.
    pub open spec fn admits(self, exclusive: bool) -> bool {
        if exclusive {
            self.admits_exclusive()
        } else {
            self.admits_shared()
        }
    }

    /// The token after one more reader has taken it.
    pub open spec fn shared(self) -> Token {
        Token::Shared((self.readers() + 1) as u64)
    }

    /// The token after one reader has given it back.
    pub open spec fn unshared(self) -> Token {
        if self.readers() <= 1 {
            Token::Free
        } else {
            Token::Shared((self.readers() - 1) as u64)
        }
    }

    /// The token after it has been taken in the given mode.
    pub open spec fn taken(self, exclusive: bool) -> Token {
        if exclusive {
            Token::Exclusive
        } else {
            self.shared()
        }
    }

    /// A token that nobody holds.
    pub fn new() -> (t: Token)
        ensures
            t == Token::Free,
    {
        Token::Free
    }

    /// Whether the token can be taken in the given mode.
    pub fn can_acquire(&self, exclusive: bool) -> (b: bool)
        ensures
            b == self.admits(exclusive),
    {
        match self {
            Token::Free => true,
            Token::Shared(n) => !exclusive && *n < u64::MAX,
            Token::Exclusive => false,
        }
    }

    /// Takes the token for reading if no writer holds it, and says whether
    /// it did. A token that was not taken is left as it was.
    pub fn try_acquire_shared(&mut self) -> (acquired: bool)
        requires
            old(self).wf(),
        ensures
            acquired == old(self).admits_shared(),
            acquired ==> *final(self) == old(self).shared(),
            !acquired ==> *final(self) == *old(self),
            final(self).wf(),
    {
        match *self {
            Token::Free => {
                *self = Token::Shared(1);
                true
            },
            Token::Shared(n) => {
                if n < u64::MAX {
                    *self = Token::Shared(n + 1);
                    true
                } else {
                    false
                }
            },
            Token::Exclusive => false,
        }
    }

    /// Takes the token for writing if nobody holds it, and says whether it
    /// did. A token that was not taken is left as it was.
    pub fn try_acquire_exclusive(&mut self) -> (acquired: bool)
        ensures
            acquired == old(self).admits_exclusive(),
            acquired ==> *final(self) == Token::Exclusive,
            !acquired ==> *final(self) == *old(self),
    {
        match *self {
            Token::Free => {
                *self = Token::Exclusive;
                true
            },
            _ => false,
        }
    }

    /// Gives the token back after reading.
    pub fn release_shared(&mut self)
        requires
            *old(self) is Shared,
            old(self).wf(),
        ensures
            *final(self) == old(self).unshared(),
            final(self).wf(),
    {
        match *self {
            Token::Shared(n) => {
                if n <= 1 {
                    *self = Token::Free;
                } else {
                    *self = Token::Shared(n - 1);
                }
            },
            _ => {},
        }
    }

    /// Gives the token back after writing.
    pub fn release_exclusive(&mut self)
        requires
            *old(self) is Exclusive,
        ensures
            *final(self) == Token::Free,
    {
        *self = Token::Free;
    }
}

} // verus!
