//! Random UUID-backed id generation for real application runs.
use vstd::prelude::*;

use crate::application::ports::IdGenerator;
use crate::domain::task_list::TaskListId;

verus! {

/// A lowercase hexadecimal digit.
pub open spec fn is_lower_hex(c: char) -> bool {
    ('0' <= c && c <= '9') || ('a' <= c && c <= 'f')
}

/// The hyphenated form of a UUID: 36 characters, hyphens at positions 8,
/// 13, 18 and 23, lowercase hexadecimal digits elsewhere.
pub open spec fn is_hyphenated_uuid(s: Seq<char>) -> bool {
    &&& s.len() == 36
    &&& forall|i: int|
        0 <= i < 36 ==> if i == 8 || i == 13 || i == 18 || i == 23 {
            s[i] == '-'
        } else {
            is_lower_hex(#[trigger] s[i])
        }
}

/// The marks of a random (version 4, RFC 4122 variant) UUID in hyphenated
/// form: the version digit `4` at position 14, and at position 19 a digit
/// whose two high bits are `10`.
pub open spec fn has_v4_marks(s: Seq<char>) -> bool {
    &&& s[14] == '4'
    &&& (s[19] == '8' || s[19] == '9' || s[19] == 'a' || s[19] == 'b')
}

/// `Uuid::new_v4().to_string()`: a fresh random version-4 UUID in its
/// hyphenated lowercase form. Which UUID comes out is left open, as it rests
/// on chance; its shape and its version and variant marks are stated.
#[verifier::external_body]
fn random_uuid_text() -> (r: String)
    ensures
        is_hyphenated_uuid(r@),
        has_v4_marks(r@),
{
    uuid::Uuid::new_v4().to_string()
}

/// Random UUID-backed id generator.
pub struct UuidIdGenerator;

impl UuidIdGenerator {
    pub fn new() -> (r: Self) {
        UuidIdGenerator
    }
}

impl Default for UuidIdGenerator {
    fn default() -> (r: Self) {
        UuidIdGenerator
    }
}

impl IdGenerator for UuidIdGenerator {
    /// A new random id: a hyphenated lowercase UUID, never empty.
    fn new_id(&self) -> (r: TaskListId)
        ensures
            is_hyphenated_uuid(r@),
            has_v4_marks(r@),
            r@.len() > 0,
    {
        TaskListId(random_uuid_text())
    }
}

} // verus!
