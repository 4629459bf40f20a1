use vstd::prelude::*;
use vstd::string::StrSliceExecFns;
use vstd::string::StringExecFns;
use crate::error::IpcError;

verus! {

/// A name the operating system accepts for a queue or segment: not empty,
/// and without an embedded NUL.
pub open spec fn valid_name(s: Seq<char>) -> bool {
    &&& s.len() > 0
    &&& forall|i: int| 0 <= i < s.len() ==> s[i] != '\0'
}

/// The queue name paired with segment name `s`: `s` behind a slash.
pub open spec fn spec_queue_name(s: Seq<char>) -> Seq<char> {
    seq!['/'] + s
}

/// Checks that `name` can name a queue or segment.
pub fn validate_name(name: &str) -> (r: Result<(), IpcError>)
    ensures
        r is Ok <==> valid_name(name@),
        r is Err ==> r == Err::<(), IpcError>(IpcError::NameError),
{
    let n: usize = name.unicode_len();
    if n == 0 {
        return Err(IpcError::NameError);
    }
    let mut i: usize = 0;
    while i < n
        invariant
            n == name@.len(),
            i <= n,
            forall|j: int| 0 <= j < i ==> name@[j] != '\0',
        decreases n - i,
    {
        if name.get_char(i) == '\0' {
            return Err(IpcError::NameError);
        }
        i = i + 1;
    }
    Ok(())
}

/// The name of the queue that belongs to the segment named `segment_name`.
pub fn queue_name_for(segment_name: &str) -> (r: String)
    ensures
        r@ == spec_queue_name(segment_name@),
{
    let mut q = String::from_str("/");
    proof {
        reveal_strlit("/");
    }
    q.append(segment_name);
    q
}

} // verus!
