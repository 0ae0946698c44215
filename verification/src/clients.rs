//! Addresses of calls between the services.
use vstd::prelude::*;
use vstd::string::StrSliceExecFns;

verus! {

/// `s` without its trailing slashes, as `str::trim_end_matches('/')` gives it.
pub open spec fn trim_slashes(s: Seq<char>) -> Seq<char>
    decreases s.len(),
{
    if s.len() > 0 && s.last() == '/' {
        trim_slashes(s.drop_last())
    } else {
        s
    }
}

/// The URL of `path` on a service at `base`; `None` where the service's
/// address is not configured.
pub fn service_url(base: Option<&str>, path: &str) -> (r: Option<String>)
    ensures
        match base {
            Some(b) => r matches Some(u) && u@ == trim_slashes(b@) + path@,
            None => r is None,
        },
{
    let b = match base {
        Some(b) => b,
        None => {
            return None;
        },
    };
    let mut n = b.unicode_len();
    proof {
        assert(b@.take(n as int) =~= b@);
    }
    while n > 0 && b.get_char(n - 1) == '/'
        invariant
            n <= b@.len(),
            trim_slashes(b@.take(n as int)) == trim_slashes(b@),
        decreases n,
    {
        proof {
            assert(b@.take(n as int).drop_last() =~= b@.take(n - 1));
        }
        n = n - 1;
    }
    proof {
        let t = b@.take(n as int);
        assert(n == 0 || t.last() != '/');
        assert(trim_slashes(t) == t);
    }
    let head = b.substring_char(0, n);
    proof {
        assert(head@ =~= b@.take(n as int));
    }
    Some(String::from_str(head).concat(path))
}

} // verus!
