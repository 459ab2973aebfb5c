//! Value objects: post content, display count, display name.

use vstd::prelude::*;

verus! {

use vstd::string::StrSliceExecFns;
use crate::errors::ValidationError;

/// Greatest number of characters a post body may hold.
pub const MAX_CONTENT_CHARS: usize = 1000;

/// View count at which `DisplayCount::is_expired` reports expiry.
pub const DISPLAY_COUNT_LIMIT: i32 = 100;

/// How many times a post has been shown; monotonically non-decreasing.
#[derive(Debug, Clone, Copy, PartialEq, Eq, Structural)]
pub struct DisplayCount {
    value: i32,
}

impl DisplayCount {
    pub closed spec fn spec_value(&self) -> int {
        self.value as int
    }

    /// A fresh counter, starting at zero.
    pub fn new() -> (r: DisplayCount)
        ensures
            r.spec_value() == 0,
    {
        DisplayCount { value: 0 }
    }

    pub fn from_value(value: i32) -> (r: DisplayCount)
        ensures
            r.spec_value() == value as int,
    {
        DisplayCount { value }
    }

    pub fn increment(&mut self)
        requires
            old(self).spec_value() < i32::MAX,
        ensures
            final(self).spec_value() == old(self).spec_value() + 1,
    {
        self.value = self.value + 1;
    }

    pub fn value(&self) -> (r: i32)
        ensures
            r as int == self.spec_value(),
    {
        self.value
    }

    /// True iff the counter has reached `DISPLAY_COUNT_LIMIT`.
    pub fn is_expired(&self) -> (r: bool)
        ensures
            r == (self.spec_value() >= DISPLAY_COUNT_LIMIT),
    {
        self.value >= DISPLAY_COUNT_LIMIT
    }
}

impl Default for DisplayCount {
    fn default() -> (r: DisplayCount)
        ensures
            r.spec_value() == 0,
    {
        DisplayCount::new()
    }
}

/// A user's display name.
#[derive(Debug)]
pub struct DisplayName {
    name: String,
}

impl Clone for DisplayName {
    fn clone(&self) -> (r: Self)
        ensures
            r == *self,
    {
        DisplayName { name: self.name.clone() }
    }
}

impl View for DisplayName {
    type V = Seq<char>;

    closed spec fn view(&self) -> Seq<char> {
        self.name@
    }
}

impl DisplayName {
    pub fn new(name: String) -> (r: DisplayName)
        ensures
            r@ == name@,
    {
        DisplayName { name }
    }

    pub fn value(&self) -> (r: &str)
        ensures
            r@ == self@,
    {
        self.name.as_str()
    }
}

/// A post body: 1 to `MAX_CONTENT_CHARS` characters, fixed at construction.
#[derive(Debug)]
pub struct PostContent {
    content: String,
}

impl Clone for PostContent {
    fn clone(&self) -> (r: Self)
        ensures
            r == *self,
    {
        PostContent { content: self.content.clone() }
    }
}

impl View for PostContent {
    type V = Seq<char>;

    closed spec fn view(&self) -> Seq<char> {
        self.content@
    }
}

impl PostContent {
    /// Well-formedness: the length invariant every constructed value has.
    pub open spec fn wf(&self) -> bool {
        1 <= self@.len() <= MAX_CONTENT_CHARS
    }

    /// Accepts exactly the bodies of 1 to `MAX_CONTENT_CHARS` characters;
    /// rejects the empty body and over-long bodies with distinct errors.
    pub fn new(content: String) -> (r: Result<PostContent, ValidationError>)
        ensures
            content@.len() == 0 ==> r == Err::<PostContent, ValidationError>(
                ValidationError::EmptyContent,
            ),
            content@.len() > MAX_CONTENT_CHARS ==> (r matches Err(e)
                && e matches ValidationError::ContentTooLong { max, actual }
                && max == MAX_CONTENT_CHARS && actual as nat == content@.len()),
            1 <= content@.len() <= MAX_CONTENT_CHARS ==> (r matches Ok(pc) && pc@ == content@),
            r matches Ok(pc) ==> pc.wf() && pc@ == content@,
    {
        let n = content.as_str().unicode_len();
        if n == 0 {
            Err(ValidationError::EmptyContent)
        } else if n > MAX_CONTENT_CHARS {
            Err(ValidationError::ContentTooLong { max: MAX_CONTENT_CHARS, actual: n })
        } else {
            Ok(PostContent { content })
        }
    }

    pub fn value(&self) -> (r: &str)
        ensures
            r@ == self@,
    {
        self.content.as_str()
    }
}

} // verus!
