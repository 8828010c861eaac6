//! The per-project descriptor and its validation rules.

use vstd::prelude::*;
use vstd::string::StrSliceExecFns;

verus! {

/// A validated per-project descriptor: which image to run, what the container
/// is called, and the optional shell, initialization script and capability
/// flags. Immutable for the lifetime of a lifecycle invocation.
pub struct Config {
    pub shell: Option<String>,
    pub init: Option<String>,
    pub image: String,
    pub name: String,
    pub privileged: bool,
    pub gui: bool,
}

/// Why a descriptor was rejected.
#[derive(Clone, Copy, PartialEq, Eq, Structural, Debug)]
pub enum ValidationError {
    EmptyName,
    InvalidNameCharacter,
    EmptyImage,
}

/// A character acceptable in a container name: ASCII alphanumeric, hyphen or
/// underscore.
pub open spec fn is_name_char(c: char) -> bool {
    ('a' <= c && c <= 'z') || ('A' <= c && c <= 'Z') || ('0' <= c && c <= '9') || c == '-' || c
        == '_'
}

/// A container name is non-empty and made only of name characters.
pub open spec fn valid_name(s: Seq<char>) -> bool {
    s.len() > 0 && (forall|i: int| 0 <= i < s.len() ==> is_name_char(#[trigger] s[i]))
}

impl ValidationError {
    pub open spec fn spec_message(&self) -> Seq<char> {
        match self {
            ValidationError::EmptyName => "Container name cannot be empty"@,
            ValidationError::InvalidNameCharacter => "Container name must contain only alphanumeric characters, hyphens, or underscores"@,
            ValidationError::EmptyImage => "Image cannot be empty"@,
        }
    }

    /// The human-readable report for this rejection.
    pub fn message(&self) -> (r: String)
        ensures
            r@ == self.spec_message(),
    {
        match self {
            ValidationError::EmptyName => "Container name cannot be empty".to_owned(),
            ValidationError::InvalidNameCharacter => "Container name must contain only alphanumeric characters, hyphens, or underscores".to_owned(),
            ValidationError::EmptyImage => "Image cannot be empty".to_owned(),
        }
    }
}

fn name_char_ok(c: char) -> (r: bool)
    ensures
        r == is_name_char(c),
{
    ('a' <= c && c <= 'z') || ('A' <= c && c <= 'Z') || ('0' <= c && c <= '9') || c == '-' || c
        == '_'
}

impl Config {
    /// The descriptor is acceptable: the name is non-empty and uses only name
    /// characters, and the image is non-empty.
    pub open spec fn is_valid(&self) -> bool {
        valid_name(self.name@) && self.image@.len() > 0
    }

    /// Checks the descriptor, reporting the first rule it breaks: an empty
    /// name, then a name with a character outside the accepted set, then an
    /// empty image.
    pub fn validate(&self) -> (r: Result<(), ValidationError>)
        ensures
            r is Ok <==> self.is_valid(),
            self.name@.len() == 0 ==> r == Result::<(), ValidationError>::Err(
                ValidationError::EmptyName,
            ),
            self.name@.len() > 0 && !valid_name(self.name@) ==> r == Result::<
                (),
                ValidationError,
            >::Err(ValidationError::InvalidNameCharacter),
            valid_name(self.name@) && self.image@.len() == 0 ==> r == Result::<
                (),
                ValidationError,
            >::Err(ValidationError::EmptyImage),
    {
        if self.name.as_str().is_empty() {
            return Err(ValidationError::EmptyName);
        }
        let n = self.name.as_str().unicode_len();
        let mut i: usize = 0;
        while i < n
            invariant
                n == self.name@.len(),
                0 <= i <= n,
                forall|j: int| 0 <= j < i ==> is_name_char(#[trigger] self.name@[j]),
            decreases n - i,
        {
            if !name_char_ok(self.name.as_str().get_char(i)) {
                return Err(ValidationError::InvalidNameCharacter);
            }
            i = i + 1;
        }
        if self.image.as_str().is_empty() {
            return Err(ValidationError::EmptyImage);
        }
        Ok(())
    }
}

/// The sample descriptor text that the scaffolding subcommand writes out for
/// a new project.
pub fn get_sample_config() -> (r: &'static str)
    ensures
        r@ == "name = \"myproject\"\nimage = \"docker.io/library/alpine:latest\"\nshell = zsh\ngui = true\n\ninit = \"\"\"\napk add --no-cache zsh git\n\"\"\"\n"@,
{
    "name = \"myproject\"\nimage = \"docker.io/library/alpine:latest\"\nshell = zsh\ngui = true\n\ninit = \"\"\"\napk add --no-cache zsh git\n\"\"\"\n"
}

} // verus!
