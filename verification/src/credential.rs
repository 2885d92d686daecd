//! Finding the API key among the caller's environment variables.

use vstd::prelude::*;
use vstd::string::StringExecFns;
use crate::error::Error;

verus! {

/// The name of the environment variable that holds the API key.
pub open spec fn api_key_name_spec() -> Seq<char> {
    "FIRECRAWL_API_KEY"@
}

/// Whether the entry at `i` is the first one named exactly like the API key.
pub open spec fn is_first_key(env: Seq<(String, String)>, i: int) -> bool {
    &&& 0 <= i < env.len()
    &&& env[i].0@ == api_key_name_spec()
    &&& forall|j: int| 0 <= j < i ==> (#[trigger] env[j]).0@ != api_key_name_spec()
}

/// Whether no entry is named exactly like the API key.
pub open spec fn lacks_key(env: Seq<(String, String)>) -> bool {
    forall|j: int| 0 <= j < env.len() ==> (#[trigger] env[j]).0@ != api_key_name_spec()
}

/// Looks the API key up in the environment.
///
/// Returns the value of the first entry whose name is exactly
/// `FIRECRAWL_API_KEY`: no other spelling, case or padding matches. Without
/// such an entry the result is `MissingCredential`, whatever else the
/// environment holds.
pub fn resolve(env: &Vec<(String, String)>) -> (r: Result<String, Error>)
    ensures
        match r {
            Ok(value) => exists|i: int| is_first_key(env@, i) && value@ == env@[i].1@,
            Err(e) => e == Error::MissingCredential && lacks_key(env@),
        },
{
    let wanted = String::from_str("FIRECRAWL_API_KEY");
    let mut i: usize = 0;
    while i < env.len()
        invariant
            i <= env.len(),
            wanted@ == api_key_name_spec(),
            forall|j: int| 0 <= j < i ==> (#[trigger] env@[j]).0@ != api_key_name_spec(),
        decreases env.len() - i,
    {
        if env[i].0 == wanted {
            let value = env[i].1.clone();
            assert(is_first_key(env@, i as int));
            return Ok(value);
        }
        i += 1;
    }
    Err(Error::MissingCredential)
}

} // verus!
