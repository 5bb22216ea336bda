//! HTTP methods and the allow-list test that gates every request.

use vstd::prelude::*;

verus! {

/// The eight HTTP methods the client can be asked to execute.
#[derive(Clone, Copy, PartialEq, Eq, Structural, Debug)]
pub enum HttpMethod {
    Get,
    Head,
    Options,
    Post,
    Put,
    Patch,
    Delete,
    Trace,
}

/// Canonical request-line spelling of a method.
pub open spec fn method_name(m: HttpMethod) -> Seq<char> {
    match m {
        HttpMethod::Get => "GET"@,
        HttpMethod::Head => "HEAD"@,
        HttpMethod::Options => "OPTIONS"@,
        HttpMethod::Post => "POST"@,
        HttpMethod::Put => "PUT"@,
        HttpMethod::Patch => "PATCH"@,
        HttpMethod::Delete => "DELETE"@,
        HttpMethod::Trace => "TRACE"@,
    }
}

impl HttpMethod {
    /// The method's canonical request-line spelling.
    pub fn as_str(&self) -> (r: &'static str)
        ensures
            r@ == method_name(*self),
    {
        match self {
            HttpMethod::Get => "GET",
            HttpMethod::Head => "HEAD",
            HttpMethod::Options => "OPTIONS",
            HttpMethod::Post => "POST",
            HttpMethod::Put => "PUT",
            HttpMethod::Patch => "PATCH",
            HttpMethod::Delete => "DELETE",
            HttpMethod::Trace => "TRACE",
        }
    }
}

/// True when `m` occurs in `methods`.
pub fn contains_method(methods: &Vec<HttpMethod>, m: HttpMethod) -> (r: bool)
    ensures
        r == methods@.contains(m),
{
    let mut i: usize = 0;
    while i < methods.len()
        invariant
            0 <= i <= methods@.len(),
            forall|k: int| 0 <= k < i ==> methods@[k] != m,
        decreases methods@.len() - i,
    {
        if methods[i] == m {
            assert(methods@.contains(m));
            return true;
        }
        i += 1;
    }
    false
}

} // verus!
