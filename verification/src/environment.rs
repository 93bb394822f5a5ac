//! The environment in which a node runs.
use crate::error::ParseError;
use vstd::prelude::*;
use vstd::string::*;

verus! {

/// The network that a node takes part in.
#[derive(Clone, Copy, Debug, PartialEq, Eq, Hash, Structural)]
pub enum Environment {
    /// The main network.
    Mainnet,
    /// The first test network.
    Testnet1,
}

impl Environment {
    /// The token that stands for the environment in a configuration.
    pub open spec fn token(self) -> Seq<char> {
        match self {
            Environment::Mainnet => "mainnet"@,
            Environment::Testnet1 => "testnet-1"@,
        }
    }

    /// The environment that `text` stands for, if it stands for one.
    pub open spec fn from_token(text: Seq<char>) -> Option<Environment> {
        if text == Environment::Mainnet.token() {
            Some(Environment::Mainnet)
        } else if text == Environment::Testnet1.token() {
            Some(Environment::Testnet1)
        } else {
            None
        }
    }

    /// Reads an environment from its token.  Any other text is refused with
    /// [`ParseError::UnknownEnvironment`].
    pub fn parse(text: &str) -> (res: Result<Environment, ParseError>)
        ensures
            match Environment::from_token(text@) {
                Some(environment) => res == Ok::<Environment, ParseError>(environment),
                None => res == Err::<Environment, ParseError>(ParseError::UnknownEnvironment),
            },
    {
        if text.eq("mainnet") {
            Ok(Environment::Mainnet)
        } else if text.eq("testnet-1") {
            Ok(Environment::Testnet1)
        } else {
            Err(ParseError::UnknownEnvironment)
        }
    }

    /// Writes the token of the environment.
    pub fn render(&self) -> (res: String)
        ensures
            res@ == self.token(),
    {
        match self {
            Environment::Mainnet => String::from_str("mainnet"),
            Environment::Testnet1 => String::from_str("testnet-1"),
        }
    }
}

impl Default for Environment {
    /// The main network.
    fn default() -> (res: Environment)
        ensures
            res == Environment::Mainnet,
    {
        Environment::Mainnet
    }
}

/// Reading the token that was written for an environment gives that
/// environment back.
pub proof fn lemma_environment_round_trip(environment: Environment)
    ensures
        Environment::from_token(environment.token()) == Some(environment),
{
    reveal_strlit("mainnet");
    reveal_strlit("testnet-1");
    assert("mainnet"@.len() == 7);
    assert("testnet-1"@.len() == 9);
}

/// A text is read as an environment only where it is that environment's
/// token.
pub proof fn lemma_environment_token_only(text: Seq<char>, environment: Environment)
    ensures
        Environment::from_token(text) == Some(environment) <==> text == environment.token(),
{
    lemma_environment_round_trip(environment);
}

} // verus!
