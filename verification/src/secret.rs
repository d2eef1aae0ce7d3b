//! The process-wide secret: loaded once from configuration, never defaulted.

use vstd::prelude::*;
use crate::errors::ConfigError;
use crate::text::option_text;

verus! {

/// A secret value held by the server only. It is never empty, and the type
/// offers no way to print it.
pub struct Secret {
    value: String,
}

impl Secret {
    #[verifier::type_invariant]
    spec fn never_empty(&self) -> bool {
        self.value@.len() > 0
    }

    /// The secret's characters.
    pub closed spec fn view(&self) -> Seq<char> {
        self.value@
    }

    /// What loading yields for a configured value: the value itself, unless
    /// none or an empty one was configured.
    pub open spec fn loaded(configured: Option<Seq<char>>) -> Result<Seq<char>, ConfigError> {
        match configured {
            Some(v) if v.len() > 0 => Ok(v),
            _ => Err(ConfigError::MissingSecret),
        }
    }

    /// Takes the secret from configuration. A missing or empty value is an
    /// error, so that a process without a secret never starts.
    pub fn from_config(configured: Option<String>) -> (r: Result<Secret, ConfigError>)
        ensures
            match r {
                Ok(s) => Self::loaded(option_text(configured)) == Ok::<_, ConfigError>(s@),
                Err(e) => Self::loaded(option_text(configured)) == Err::<Seq<char>, _>(e),
            },
    {
        match configured {
            Some(value) => {
                if value.as_str().is_empty() {
                    Err(ConfigError::MissingSecret)
                } else {
                    Ok(Secret { value })
                }
            },
            None => Err(ConfigError::MissingSecret),
        }
    }

    /// The secret's text, for the primitives that are keyed with it. It is
    /// not handed out beyond this library.
    pub(crate) fn expose(&self) -> (text: &str)
        ensures
            text@ == self@,
            text@.len() > 0,
    {
        proof {
            use_type_invariant(self);
        }
        self.value.as_str()
    }
}

} // verus!
