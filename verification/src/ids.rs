//! Process identities.
//!
//! Each process generates one identity at construction and keeps it for its
//! lifetime.  The identity is a time-ordered UUID in its canonical text
//! form; message provenance is validated against it and it is never reused
//! across restarts.

use crate::rawstring::spec_is_raw_id;
use vstd::prelude::*;

verus! {

/// The shape of a process identity: the canonical hyphenated UUID text,
/// 36 characters of lowercase hexadecimal digits and hyphens.
pub open spec fn spec_is_process_id(s: Seq<char>) -> bool {
    &&& s.len() == 36
    &&& forall|i: int|
        0 <= i < s.len() ==> (s[i] == '-' || ('0' as u32 <= #[trigger] s[i] as u32 && s[i] as u32
            <= '9' as u32) || ('a' as u32 <= s[i] as u32 && s[i] as u32 <= 'f' as u32))
}

/// A process identity is always usable as a delimited-message id: it is
/// non-empty and cannot contain the `|` delimiter.
pub proof fn lemma_process_id_is_raw_id(s: Seq<char>)
    requires
        spec_is_process_id(s),
    ensures
        spec_is_raw_id(s),
{
    assert forall|i: int| 0 <= i < s.len() implies s[i] != '|' by {
        assert(s[i] == '-' || ('0' as u32 <= s[i] as u32 && s[i] as u32 <= '9' as u32) || (
        'a' as u32 <= s[i] as u32 && s[i] as u32 <= 'f' as u32));
    }
}

/// Generate a fresh process identity.
///
/// Relies on `uuid::Uuid::now_v7` for a time-ordered, globally unique
/// value, and on `uuid`'s `Display`, which renders every UUID as the
/// 36-character hyphenated lowercase hexadecimal form.  Nothing relates two
/// calls: each may return a different value.
#[verifier::external_body]
pub fn fresh_process_id() -> (r: String)
    ensures
        spec_is_process_id(r@),
{
    uuid::Uuid::now_v7().to_string()
}

} // verus!
