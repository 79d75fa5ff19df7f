//! Requests of the `xmlrpc` crate, built from the calls of the client.
use vstd::prelude::*;
use crate::client::{texts, Call};

verus! {

#[verifier::external_type_specification]
#[verifier::external_body]
pub struct ExRequest<'a>(xmlrpc::Request<'a>);

/// The name of the method that a request calls.
pub uninterp spec fn request_method(r: xmlrpc::Request) -> Seq<char>;

/// The arguments of a request, read as the strings that were passed in.
pub uninterp spec fn request_args(r: xmlrpc::Request) -> Seq<Seq<char>>;

/// Relies on xmlrpc::Request::new: a request to call `name`, with no
/// arguments yet.
#[verifier::external_body]
fn new_request<'a>(name: &'a str) -> (r: xmlrpc::Request<'a>)
    ensures
        request_method(r) == name@,
        request_args(r) == Seq::<Seq<char>>::empty(),
{
    xmlrpc::Request::new(name)
}

/// Relies on xmlrpc::Request::arg: appends `s` as a string argument and
/// keeps the method.
#[verifier::external_body]
fn push_arg<'a>(r: xmlrpc::Request<'a>, s: String) -> (res: xmlrpc::Request<'a>)
    ensures
        request_method(res) == request_method(r),
        request_args(res) == request_args(r).push(s@),
{
    r.arg(s)
}

impl Call {
    /// The request that performs this call: same method, same arguments in
    /// the same order.
    pub fn request(&self) -> (r: xmlrpc::Request<'_>)
        ensures
            request_method(r) == self.method@,
            request_args(r) == texts(self.args@),
    {
        let mut r = new_request(self.method.as_str());
        let mut i: usize = 0;
        while i < self.args.len()
            invariant
                i <= self.args@.len(),
                request_method(r) == self.method@,
                request_args(r) == texts(self.args@.subrange(0, i as int)),
            decreases self.args@.len() - i,
        {
            assert(texts(self.args@.subrange(0, i + 1)) =~= texts(
                self.args@.subrange(0, i as int),
            ).push(self.args@[i as int]@));
            r = push_arg(r, self.args[i].clone());
            i = i + 1;
        }
        assert(self.args@.subrange(0, i as int) =~= self.args@);
        r
    }
}

} // verus!
