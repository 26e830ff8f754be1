use vstd::prelude::*;

use crate::text::push_str;
use crate::timeofday::TimeOfDay;

verus! {

/// The spec-level content of an optional description.
pub open spec fn option_str_view(s: Option<String>) -> Option<Seq<char>> {
    match s {
        Some(x) => Some(x@),
        None => None,
    }
}

/// A named, validated time interval within a single day.
///
/// Every block reachable through this API is well formed: its start time is
/// strictly before its end time and its name is non-empty.
#[derive(Debug, Clone, PartialEq, Eq)]
pub struct Block {
    start_time: TimeOfDay,
    end_time: TimeOfDay,
    name: String,
    description: Option<String>,
    is_fixed: bool,
}

impl Block {
    /// The start of the interval.
    pub closed spec fn spec_start_time(self) -> TimeOfDay {
        self.start_time
    }

    /// The end of the interval.
    pub closed spec fn spec_end_time(self) -> TimeOfDay {
        self.end_time
    }

    /// The name, as a character sequence.
    pub closed spec fn spec_name(self) -> Seq<char> {
        self.name@
    }

    /// The optional description, as a character sequence.
    pub closed spec fn spec_description(self) -> Option<Seq<char>> {
        option_str_view(self.description)
    }

    /// Whether the time range is locked against modification.
    pub closed spec fn spec_is_fixed(self) -> bool {
        self.is_fixed
    }

    /// The invariant every constructed or mutated block satisfies: a strictly
    /// increasing time range and a non-empty name.
    pub closed spec fn wf(self) -> bool {
        &&& self.start_time@ < self.end_time@
        &&& self.name@.len() > 0
    }

    /// Starts a fresh, fully unset builder.
    pub fn builder() -> (r: BlockBuilder)
        ensures
            r.spec_start_time() is None,
            r.spec_end_time() is None,
            r.spec_name() is None,
            r.spec_description() is None,
            r.spec_is_fixed() is None,
    {
        BlockBuilder::new()
    }

    /// Reads the start time.
    pub fn start_time(&self) -> (r: TimeOfDay)
        ensures
            r == self.spec_start_time(),
    {
        self.start_time
    }

    /// Reads the end time.
    pub fn end_time(&self) -> (r: TimeOfDay)
        ensures
            r == self.spec_end_time(),
    {
        self.end_time
    }

    /// Reads the name.
    pub fn name(&self) -> (r: &str)
        ensures
            r@ == self.spec_name(),
    {
        self.name.as_str()
    }

    /// Reads the description, absent or present.
    pub fn description(&self) -> (r: Option<&str>)
        ensures
            r is Some <==> self.spec_description() is Some,
            r matches Some(d) ==> d@ == self.spec_description()->0,
    {
        match &self.description {
            Some(d) => Some(d.as_str()),
            None => None,
        }
    }

    /// Reads the fixed flag.
    pub fn is_fixed(&self) -> (r: bool)
        ensures
            r == self.spec_is_fixed(),
    {
        self.is_fixed
    }

    /// Atomically replaces both ends of the time range; either both change or
    /// neither does. A reversed or zero-length range is rejected, and a fixed
    /// block rejects every change.
    pub fn set_time(&mut self, start_time: TimeOfDay, end_time: TimeOfDay) -> (r: Result<
        (),
        BlockError,
    >)
        requires
            old(self).wf(),
        ensures
            final(self).wf(),
            r is Ok <==> (start_time@ < end_time@ && !old(self).spec_is_fixed()),
            r is Ok ==> {
                &&& final(self).spec_start_time() == start_time
                &&& final(self).spec_end_time() == end_time
                &&& final(self).spec_name() == old(self).spec_name()
                &&& final(self).spec_description() == old(self).spec_description()
                &&& final(self).spec_is_fixed() == old(self).spec_is_fixed()
            },
            r is Err ==> *final(self) == *old(self),
            start_time@ >= end_time@ ==> (r matches Err(BlockError::InvalidTime { start: s, end: e })
                && s == start_time && e == end_time),
            start_time@ < end_time@ && old(self).spec_is_fixed() ==> r matches Err(
                BlockError::FixedBlockTimeChange,
            ),
    {
        if start_time.to_minutes() >= end_time.to_minutes() {
            return Err(BlockError::InvalidTime { start: start_time, end: end_time });
        }
        if self.is_fixed {
            return Err(BlockError::FixedBlockTimeChange);
        }
        self.start_time = start_time;
        self.end_time = end_time;
        Ok(())
    }

    /// Replaces the name; an empty name is rejected and the prior name kept.
    pub fn set_name(&mut self, name: String) -> (r: Result<(), BlockError>)
        requires
            old(self).wf(),
        ensures
            final(self).wf(),
            r is Ok <==> name@.len() > 0,
            r is Ok ==> {
                &&& final(self).spec_name() == name@
                &&& final(self).spec_start_time() == old(self).spec_start_time()
                &&& final(self).spec_end_time() == old(self).spec_end_time()
                &&& final(self).spec_description() == old(self).spec_description()
                &&& final(self).spec_is_fixed() == old(self).spec_is_fixed()
            },
            r is Err ==> (r matches Err(BlockError::EmptyName) && *final(self) == *old(self)),
    {
        if name.as_str().is_empty() {
            return Err(BlockError::EmptyName);
        }
        self.name = name;
        Ok(())
    }

    /// Unconditionally replaces the description, including clearing it.
    pub fn set_description(&mut self, description: Option<String>)
        requires
            old(self).wf(),
        ensures
            final(self).wf(),
            final(self).spec_description() == option_str_view(description),
            final(self).spec_start_time() == old(self).spec_start_time(),
            final(self).spec_end_time() == old(self).spec_end_time(),
            final(self).spec_name() == old(self).spec_name(),
            final(self).spec_is_fixed() == old(self).spec_is_fixed(),
    {
        self.description = description;
    }

    /// Unconditionally replaces the fixed flag.
    pub fn set_is_fixed(&mut self, is_fixed: bool)
        requires
            old(self).wf(),
        ensures
            final(self).wf(),
            final(self).spec_is_fixed() == is_fixed,
            final(self).spec_start_time() == old(self).spec_start_time(),
            final(self).spec_end_time() == old(self).spec_end_time(),
            final(self).spec_name() == old(self).spec_name(),
            final(self).spec_description() == old(self).spec_description(),
    {
        self.is_fixed = is_fixed;
    }
}

/// Every well-formed block's start time is strictly before its end time;
/// since construction and every mutation preserve well-formedness, no
/// sequence of valid operations can produce a block without this.
pub proof fn lemma_range_invariant(b: Block)
    requires
        b.wf(),
    ensures
        b.spec_start_time()@ < b.spec_end_time()@,
{
}

/// Every well-formed block's name is non-empty.
pub proof fn lemma_name_invariant(b: Block)
    requires
        b.wf(),
    ensures
        b.spec_name().len() > 0,
{
}

/// A staged-configuration builder that defers all invariant checks to
/// `build`.
pub struct BlockBuilder {
    start_time: Option<TimeOfDay>,
    end_time: Option<TimeOfDay>,
    name: Option<String>,
    description: Option<Option<String>>,
    is_fixed: Option<bool>,
}

impl BlockBuilder {
    /// The configured start time, if any.
    pub closed spec fn spec_start_time(self) -> Option<TimeOfDay> {
        self.start_time
    }

    /// The configured end time, if any.
    pub closed spec fn spec_end_time(self) -> Option<TimeOfDay> {
        self.end_time
    }

    /// The configured name, if any.
    pub closed spec fn spec_name(self) -> Option<Seq<char>> {
        match self.name {
            Some(n) => Some(n@),
            None => None,
        }
    }

    /// The configured description, if any; the outer level distinguishes
    /// "never set" from "explicitly absent".
    pub closed spec fn spec_description(self) -> Option<Option<Seq<char>>> {
        match self.description {
            Some(d) => Some(option_str_view(d)),
            None => None,
        }
    }

    /// The configured fixed flag, if any.
    pub closed spec fn spec_is_fixed(self) -> Option<bool> {
        self.is_fixed
    }

    /// Creates a builder with every field unset.
    pub fn new() -> (r: BlockBuilder)
        ensures
            r.spec_start_time() is None,
            r.spec_end_time() is None,
            r.spec_name() is None,
            r.spec_description() is None,
            r.spec_is_fixed() is None,
    {
        BlockBuilder {
            start_time: None,
            end_time: None,
            name: None,
            description: None,
            is_fixed: None,
        }
    }

    /// Configures the start time.
    pub fn start_time(self, start_time: TimeOfDay) -> (r: BlockBuilder)
        ensures
            r.spec_start_time() == Some(start_time),
            r.spec_end_time() == self.spec_end_time(),
            r.spec_name() == self.spec_name(),
            r.spec_description() == self.spec_description(),
            r.spec_is_fixed() == self.spec_is_fixed(),
    {
        let mut b = self;
        b.start_time = Some(start_time);
        b
    }

    /// Configures the end time.
    pub fn end_time(self, end_time: TimeOfDay) -> (r: BlockBuilder)
        ensures
            r.spec_end_time() == Some(end_time),
            r.spec_start_time() == self.spec_start_time(),
            r.spec_name() == self.spec_name(),
            r.spec_description() == self.spec_description(),
            r.spec_is_fixed() == self.spec_is_fixed(),
    {
        let mut b = self;
        b.end_time = Some(end_time);
        b
    }

    /// Configures the name.
    pub fn name(self, name: String) -> (r: BlockBuilder)
        ensures
            r.spec_name() == Some(name@),
            r.spec_start_time() == self.spec_start_time(),
            r.spec_end_time() == self.spec_end_time(),
            r.spec_description() == self.spec_description(),
            r.spec_is_fixed() == self.spec_is_fixed(),
    {
        let mut b = self;
        b.name = Some(name);
        b
    }

    /// Configures the description, present or explicitly absent.
    pub fn description(self, description: Option<String>) -> (r: BlockBuilder)
        ensures
            r.spec_description() == Some(option_str_view(description)),
            r.spec_start_time() == self.spec_start_time(),
            r.spec_end_time() == self.spec_end_time(),
            r.spec_name() == self.spec_name(),
            r.spec_is_fixed() == self.spec_is_fixed(),
    {
        let mut b = self;
        b.description = Some(description);
        b
    }

    /// Configures the fixed flag.
    pub fn is_fixed(self, is_fixed: bool) -> (r: BlockBuilder)
        ensures
            r.spec_is_fixed() == Some(is_fixed),
            r.spec_start_time() == self.spec_start_time(),
            r.spec_end_time() == self.spec_end_time(),
            r.spec_name() == self.spec_name(),
            r.spec_description() == self.spec_description(),
    {
        let mut b = self;
        b.is_fixed = Some(is_fixed);
        b
    }

    /// Validates all invariants atomically and produces the block.
    ///
    /// Required fields are checked first, in the fixed order start, end,
    /// name, so the first missing field is reported deterministically; then
    /// the name must be non-empty, and the range strictly increasing.
    /// The description defaults to absent and the fixed flag to false.
    pub fn build(self) -> (r: Result<Block, BlockError>)
        ensures
            r is Ok <==> {
                &&& self.spec_start_time() is Some
                &&& self.spec_end_time() is Some
                &&& self.spec_name() is Some
                &&& self.spec_name()->0.len() > 0
                &&& self.spec_start_time()->0@ < self.spec_end_time()->0@
            },
            r matches Ok(b) ==> {
                &&& b.wf()
                &&& b.spec_start_time() == self.spec_start_time()->0
                &&& b.spec_end_time() == self.spec_end_time()->0
                &&& b.spec_name() == self.spec_name()->0
                &&& b.spec_description() == (match self.spec_description() {
                    Some(d) => d,
                    None => None::<Seq<char>>,
                })
                &&& b.spec_is_fixed() == (match self.spec_is_fixed() {
                    Some(f) => f,
                    None => false,
                })
            },
            self.spec_start_time() is None ==> (r matches Err(BlockError::MissingRequiredField(f))
                && f@ == "start_time"@),
            self.spec_start_time() is Some && self.spec_end_time() is None ==> (r matches Err(
                BlockError::MissingRequiredField(f),
            ) && f@ == "end_time"@),
            self.spec_start_time() is Some && self.spec_end_time() is Some && self.spec_name()
                is None ==> (r matches Err(BlockError::MissingRequiredField(f)) && f@ == "name"@),
            self.spec_start_time() is Some && self.spec_end_time() is Some && self.spec_name()
                is Some && self.spec_name()->0.len() == 0 ==> r matches Err(BlockError::EmptyName),
            self.spec_start_time() is Some && self.spec_end_time() is Some && self.spec_name()
                is Some && self.spec_name()->0.len() > 0 && self.spec_start_time()->0@
                >= self.spec_end_time()->0@ ==> (r matches Err(
                BlockError::InvalidTime { start: rs, end: re },
            ) && rs == self.spec_start_time()->0 && re == self.spec_end_time()->0),
    {
        let start_time = match self.start_time {
            Some(t) => t,
            None => {
                return Err(BlockError::MissingRequiredField("start_time"));
            },
        };
        let end_time = match self.end_time {
            Some(t) => t,
            None => {
                return Err(BlockError::MissingRequiredField("end_time"));
            },
        };
        let name = match self.name {
            Some(n) => n,
            None => {
                return Err(BlockError::MissingRequiredField("name"));
            },
        };
        if name.as_str().is_empty() {
            return Err(BlockError::EmptyName);
        }
        let description = match self.description {
            Some(d) => d,
            None => None,
        };
        let is_fixed = match self.is_fixed {
            Some(f) => f,
            None => false,
        };
        if start_time.to_minutes() >= end_time.to_minutes() {
            return Err(BlockError::InvalidTime { start: start_time, end: end_time });
        }
        Ok(Block { start_time, end_time, name, description, is_fixed })
    }
}

/// The recoverable failures of block construction and mutation.
#[derive(Debug)]
pub enum BlockError {
    /// A proposed or supplied range has start at or after end.
    InvalidTime { start: TimeOfDay, end: TimeOfDay },
    /// The builder was invoked without a mandatory field.
    MissingRequiredField(&'static str),
    /// A range mutation was attempted on a fixed block.
    FixedBlockTimeChange,
    /// An empty name was supplied.
    EmptyName,
}

impl BlockError {
    /// The human-readable text of the error, with the offending values in
    /// their rendered textual form.
    pub open spec fn spec_message(self) -> Seq<char> {
        match self {
            BlockError::InvalidTime { start, end } => "invalid time range: end "@
                + end.spec_render() + " must be after start "@ + start.spec_render(),
            BlockError::MissingRequiredField(f) => "missing required field: "@ + f@,
            BlockError::FixedBlockTimeChange => "the time range of a fixed block cannot change"@,
            BlockError::EmptyName => "the name must not be empty"@,
        }
    }

    /// Renders the error as human-readable text.
    pub fn message(&self) -> (r: String)
        ensures
            r@ == self.spec_message(),
    {
        let mut s = String::new();
        match self {
            BlockError::InvalidTime { start, end } => {
                push_str(&mut s, "invalid time range: end ");
                let e = end.render();
                push_str(&mut s, e.as_str());
                push_str(&mut s, " must be after start ");
                let st = start.render();
                push_str(&mut s, st.as_str());
            },
            BlockError::MissingRequiredField(f) => {
                push_str(&mut s, "missing required field: ");
                push_str(&mut s, f);
            },
            BlockError::FixedBlockTimeChange => {
                push_str(&mut s, "the time range of a fixed block cannot change");
            },
            BlockError::EmptyName => {
                push_str(&mut s, "the name must not be empty");
            },
        }
        proof {
            assert(s@ =~= self.spec_message());
        }
        s
    }
}

} // verus!
