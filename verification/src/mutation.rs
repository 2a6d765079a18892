//! Decoding of procedure mutation metadata.
//!
//! A procedure prototype or call block carries, in its mutation map, two
//! parallel JSON-encoded string arrays: argument identifiers and argument
//! display names, in corresponding order. The JSON decoding itself is done by
//! an outside crate behind a trusted wrapper; the positional binding of the
//! two arrays is verified here.

use vstd::prelude::*;

use crate::error::CompileError;
use crate::error::ErrorV;
use crate::error::rv;

verus! {

/// What `serde_json::from_str::<Vec<String>>` returns on the given text: the
/// members of the JSON array of strings that the text encodes, or nothing
/// where the text does not encode one.
pub uninterp spec fn json_string_array_of(s: Seq<char>) -> Option<Seq<Seq<char>>>;

/// Relies on `serde_json::from_str::<Vec<String>>`: decodes a JSON array of
/// strings, failing on any other input; the result depends on the text alone.
#[verifier::external_body]
pub(crate) fn parse_string_array(s: &str) -> (r: Option<Vec<String>>)
    ensures
        match r {
            Some(v) => json_string_array_of(s@) == Some(v.deep_view()),
            None => json_string_array_of(s@) is None,
        },
{
    serde_json::from_str::<Vec<String>>(s).ok()
}

/// The positional binding of parallel argument identifier and name arrays:
/// entry `i` binds the identifier at position `i` to the display name at
/// position `i`. Arrays of unequal length are malformed input.
pub open spec fn spec_bind_parameters(ids: Seq<Seq<char>>, names: Seq<Seq<char>>) -> Result<
    Seq<(Seq<char>, Seq<char>)>,
    ErrorV,
> {
    if ids.len() != names.len() {
        Err(ErrorV::Malformed("argument arrays"@))
    } else {
        Ok(Seq::new(ids.len(), |i: int| (ids[i], names[i])))
    }
}

/// Pairs the parallel argument identifier and name arrays positionally.
pub fn bind_parameters(ids: &Vec<String>, names: &Vec<String>) -> (r: Result<
    Vec<(String, String)>,
    CompileError,
>)
    ensures
        rv(r) == spec_bind_parameters(ids.deep_view(), names.deep_view()),
{
    if ids.len() != names.len() {
        return Err(CompileError::Malformed("argument arrays".to_owned()));
    }
    let mut out: Vec<(String, String)> = Vec::new();
    let mut i: usize = 0;
    while i < ids.len()
        invariant
            ids@.len() == names@.len(),
            i <= ids@.len(),
            out.deep_view() == Seq::new(i as nat, |j: int| (ids.deep_view()[j], names.deep_view()[j])),
        decreases ids@.len() - i,
    {
        let a = ids[i].clone();
        let b = names[i].clone();
        proof {
            assert(out.deep_view().len() == i as int);
            assert(out@.len() == i as int);
        }
        let ghost pre = out.deep_view();
        let ghost prev = out@;
        out.push((a, b));
        proof {
            assert forall|j: int| 0 <= j <= i implies out.deep_view()[j] == (
                ids.deep_view()[j],
                names.deep_view()[j],
            ) by {
                if j < i {
                    assert(out@[j] == prev[j]);
                    assert(prev[j].deep_view() == pre[j]);
                } else {
                    assert(out@[j] == (a, b));
                }
            }
            assert(out.deep_view() =~= Seq::new(
                (i + 1) as nat,
                |j: int| (ids.deep_view()[j], names.deep_view()[j]),
            ));
        }
        i += 1;
    }
    Ok(out)
}

} // verus!
