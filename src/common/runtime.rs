use std::path::PathBuf;
use vstd::prelude::*;

verus! {

#[verifier::external_type_specification]
#[verifier::external_body]
pub struct ExPathBuf(PathBuf);

/// Relies on `PathBuf::clone`, which copies a path; nothing is claimed of the copy.
pub assume_specification[ <PathBuf as Clone>::clone ](p: &PathBuf) -> PathBuf;

/// Where a program's standard input comes from.
#[derive(Debug, Clone)]
pub enum InputData {
    /// Stdin is streamed from the file at this path.
    File(PathBuf),
    /// Stdin is this text.
    String(String),
    /// Stdin is connected to nothing.
    Ignore,
}

/// What a runtime writes to a program's standard input.
#[derive(Debug)]
pub enum StdinFeed {
    /// Nothing is written; stdin is a null device or an empty pipe.
    Nothing,
    /// These characters, encoded as UTF-8.
    Text(String),
    /// The contents of the file at this path.
    File(PathBuf),
}

/// The feed for `input`, where a text is followed by `suffix`.
pub open spec fn feed_of(input: InputData, suffix: Seq<char>, feed: StdinFeed) -> bool {
    match input {
        InputData::Ignore => feed is Nothing,
        InputData::String(s) => feed matches StdinFeed::Text(t) && t@ == s@ + suffix,
        InputData::File(p) => feed == StdinFeed::File(p),
    }
}

impl InputData {
    /// Stdin needs a pipe: there is something to write to it.
    pub open spec fn spec_is_piped(&self) -> bool {
        !(self is Ignore)
    }

    /// Whether stdin is a pipe that is written to, rather than a null device.
    #[verifier::when_used_as_spec(spec_is_piped)]
    pub fn is_piped(&self) -> (r: bool)
        ensures
            r == self.spec_is_piped(),
    {
        match self {
            InputData::Ignore => false,
            _ => true,
        }
    }

    /// The feed that writes this input as it stands.
    pub fn verbatim_feed(self) -> (r: StdinFeed)
        ensures
            feed_of(self, Seq::empty(), r),
    {
        match self {
            InputData::Ignore => StdinFeed::Nothing,
            InputData::String(s) => {
                assert(s@ == s@ + Seq::<char>::empty());
                StdinFeed::Text(s)
            },
            InputData::File(p) => StdinFeed::File(p),
        }
    }

    /// The feed that writes this input with a newline after a text.
    pub fn line_feed(self) -> (r: StdinFeed)
        ensures
            feed_of(self, "\n"@, r),
    {
        match self {
            InputData::Ignore => StdinFeed::Nothing,
            InputData::String(s) => StdinFeed::Text(s.concat("\n")),
            InputData::File(p) => StdinFeed::File(p),
        }
    }
}

/// A linear memory as a module declares it, in pages of 64 KiB.
#[derive(Debug, Clone, Copy, PartialEq, Eq, Structural)]
pub struct MemoryDeclaration {
    /// Pages the memory starts with.
    pub minimum: u32,
    /// Pages it may grow to, if bounded.
    pub maximum: Option<u32>,
}

/// Why a memory declaration exceeds a page cap.
#[derive(Debug, Clone, Copy, PartialEq, Eq, Structural)]
pub enum MemoryLimitError {
    /// The declared minimum is above the cap.
    MinimumExceedsLimit,
    /// The declared maximum is above the cap.
    MaximumExceedsLimit,
    /// No maximum is declared.
    MaximumUnspecified,
}

/// The sentence that reports `e`.
pub open spec fn message_of(e: MemoryLimitError) -> Seq<char> {
    match e {
        MemoryLimitError::MinimumExceedsLimit => "Minimum memory exceeds the limit"@,
        MemoryLimitError::MaximumExceedsLimit => "Maximum memory exceeds the limit"@,
        MemoryLimitError::MaximumUnspecified => "Maximum memory is not specified"@,
    }
}

impl MemoryLimitError {
    /// A sentence that says what went wrong.
    pub fn message(&self) -> (r: String)
        ensures
            r@ == message_of(*self),
    {
        match self {
            MemoryLimitError::MinimumExceedsLimit => String::from_str("Minimum memory exceeds the limit"),
            MemoryLimitError::MaximumExceedsLimit => String::from_str("Maximum memory exceeds the limit"),
            MemoryLimitError::MaximumUnspecified => String::from_str("Maximum memory is not specified"),
        }
    }
}

/// A cap on the linear memory of a module, in pages of 64 KiB.
#[derive(Debug, Clone, Copy, PartialEq, Eq, Structural)]
pub struct MemoryLimit {
    pub limit: u32,
}

/// The declaration as it is created under a cap of `limit` pages: a missing
/// maximum becomes the cap.
pub open spec fn adjusted(limit: u32, requested: MemoryDeclaration) -> MemoryDeclaration {
    MemoryDeclaration {
        minimum: requested.minimum,
        maximum: match requested.maximum {
            Some(m) => Some(m),
            None => Some(limit),
        },
    }
}

/// What the check of `memory` against a cap of `limit` pages answers.
pub open spec fn validation(limit: u32, memory: MemoryDeclaration) -> Result<(), MemoryLimitError> {
    if memory.minimum > limit {
        Err(MemoryLimitError::MinimumExceedsLimit)
    } else {
        match memory.maximum {
            Some(m) => if m > limit {
                Err(MemoryLimitError::MaximumExceedsLimit)
            } else {
                Ok(())
            },
            None => Err(MemoryLimitError::MaximumUnspecified),
        }
    }
}

impl MemoryLimit {
    /// A cap of `limit` pages.
    pub fn new(limit: u32) -> (r: Self)
        ensures
            r.limit == limit,
    {
        MemoryLimit { limit }
    }

    /// Bounds a memory that declares no maximum by the cap.
    pub fn adjust_memory(&self, requested: &MemoryDeclaration) -> (r: MemoryDeclaration)
        ensures
            r == adjusted(self.limit, *requested),
    {
        let maximum = match requested.maximum {
            Some(m) => Some(m),
            None => Some(self.limit),
        };
        MemoryDeclaration { minimum: requested.minimum, maximum }
    }

    /// Checks that `memory` stays within the cap.
    pub fn validate_memory(&self, memory: &MemoryDeclaration) -> (r: Result<(), MemoryLimitError>)
        ensures
            r == validation(self.limit, *memory),
    {
        if memory.minimum > self.limit {
            return Err(MemoryLimitError::MinimumExceedsLimit);
        }
        match memory.maximum {
            Some(m) => if m > self.limit {
                Err(MemoryLimitError::MaximumExceedsLimit)
            } else {
                Ok(())
            },
            None => Err(MemoryLimitError::MaximumUnspecified),
        }
    }

    /// The declaration with which a requested memory is created under the
    /// cap, or why it is refused: it is refused exactly when its minimum, or
    /// its declared maximum, exceeds the cap.
    pub fn apply(&self, requested: &MemoryDeclaration) -> (r: Result<MemoryDeclaration, MemoryLimitError>)
        ensures
            r is Ok <==> (requested.minimum <= self.limit && match requested.maximum {
                Some(m) => m <= self.limit,
                None => true,
            }),
            r is Ok ==> r->Ok_0 == adjusted(self.limit, *requested),
            r is Ok ==> r->Ok_0.maximum.unwrap() <= self.limit,
    {
        let adjusted = self.adjust_memory(requested);
        match self.validate_memory(&adjusted) {
            Ok(()) => Ok(adjusted),
            Err(e) => Err(e),
        }
    }
}

/// Every memory created under a cap of `limit` pages starts and stays
/// within the cap: a memory declared with more is refused, and one declared
/// without a maximum is bounded by the cap.
pub proof fn lemma_admitted_memory_within_cap(limit: u32, requested: MemoryDeclaration)
    ensures
        validation(limit, adjusted(limit, requested)) is Ok ==> {
            &&& adjusted(limit, requested).minimum <= limit
            &&& adjusted(limit, requested).maximum matches Some(m) && m <= limit
        },
        requested.minimum > limit ==> validation(limit, adjusted(limit, requested)) is Err,
{
}

} // verus!
