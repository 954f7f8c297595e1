//! The authorization aggregator: an ordered, append-only bundle of requests
//! covering one top-level call and any nested calls it triggers.

use vstd::prelude::*;
use crate::field::FieldElem;
use crate::keys::PrivKey;
use crate::program::Ident;
use crate::program::ProgId;
use crate::program::Value;
use crate::program::ValueType;
use crate::program::views_of_types;
use crate::program::views_of_values;
use crate::request::Request;
use crate::request::RequestView;
use crate::request::SignError;
use crate::request::spec_derivable;
use crate::request::spec_request;
use crate::request::spec_sign_ok;

verus! {

/// An ordered sequence of requests: one top-level call followed by the
/// nested calls it triggers, in call order. Append-only while it is built,
/// read-only once returned.
pub struct Authorization {
    requests: Vec<Request>,
}

impl View for Authorization {
    type V = Seq<RequestView>;

    closed spec fn view(&self) -> Seq<RequestView> {
        self.requests@.map_values(|r: Request| r@)
    }
}

impl Authorization {
    /// An authorization holding exactly the given top-level request.
    pub fn new(request: Request) -> (r: Authorization)
        ensures
            r@ =~= seq![request@],
    {
        let mut requests: Vec<Request> = Vec::new();
        requests.push(request);
        let out = Authorization { requests };
        proof {
            assert(out@ =~= seq![request@]);
        }
        out
    }

    /// Appends the request of one nested call, after all requests already
    /// collected.
    pub fn push(&mut self, request: Request)
        ensures
            final(self)@ =~= old(self)@.push(request@),
    {
        self.requests.push(request);
        proof {
            assert(self@ =~= old(self)@.push(request@));
        }
    }

    /// The number of requests collected so far.
    pub fn len(&self) -> (r: usize)
        ensures
            r == self@.len(),
    {
        self.requests.len()
    }

    /// Signs the request of one nested call and appends it, in call order.
    /// Nothing is appended when signing fails: an authorization is extended
    /// whole or not at all, so no partial authorization can be observed.
    /// Appending succeeds exactly when the call passes the signing policy
    /// and every consumed derivation is delivered.
    pub fn authorize_nested(
        &mut self,
        private_key: &PrivKey,
        program_id: &ProgId,
        function_name: &Ident,
        inputs: &Vec<Value>,
        input_types: &Vec<ValueType>,
        nonce: &FieldElem,
    ) -> (result: Result<(), SignError>)
        ensures
            (result is Ok) <==> (spec_sign_ok(
                private_key@,
                views_of_values(inputs@),
                views_of_types(input_types@),
            ) && spec_derivable(
                private_key@,
                program_id@,
                function_name@,
                nonce@,
                views_of_types(input_types@),
                views_of_values(inputs@),
            )),
            (result matches Err(SignError::ArityMismatch { .. })) <==> inputs@.len()
                != input_types@.len(),
            result matches Ok(_) ==> final(self)@ =~= old(self)@.push(
                spec_request(
                    private_key@,
                    program_id@,
                    function_name@,
                    views_of_values(inputs@),
                    views_of_types(input_types@),
                    nonce@,
                ),
            ),
            result matches Err(_) ==> final(self)@ == old(self)@,
    {
        match Request::sign(private_key, program_id, function_name, inputs, input_types, nonce) {
            Ok(request) => {
                self.push(request);
                Ok(())
            },
            Err(e) => Err(e),
        }
    }

    /// The request at the given position, in call order.
    pub fn request_at(&self, i: usize) -> (r: &Request)
        requires
            i < self@.len(),
        ensures
            r@ == self@[i as int],
    {
        proof {
            assert(self@[i as int] == self.requests@[i as int]@);
        }
        &self.requests[i]
    }
}

/// Authorizes a call: signs one request for the function and wraps it as a
/// single-element authorization, succeeding exactly when the call passes
/// the signing policy and every consumed derivation is delivered. The
/// second component reports whether the function body transitively calls
/// other program functions — given by the program's static call count — in
/// which case the execution engine must drive the nested calls and append
/// their requests in call order.
pub fn authorize(
    private_key: &PrivKey,
    program_id: &ProgId,
    function_name: &Ident,
    inputs: &Vec<Value>,
    input_types: &Vec<ValueType>,
    nonce: &FieldElem,
    number_of_calls: usize,
) -> (result: Result<(Authorization, bool), SignError>)
    ensures
        (result is Ok) <==> (spec_sign_ok(
            private_key@,
            views_of_values(inputs@),
            views_of_types(input_types@),
        ) && spec_derivable(
            private_key@,
            program_id@,
            function_name@,
            nonce@,
            views_of_types(input_types@),
            views_of_values(inputs@),
        )),
        result matches Ok(out) ==> {
            &&& out.0@ =~= seq![
                spec_request(
                    private_key@,
                    program_id@,
                    function_name@,
                    views_of_values(inputs@),
                    views_of_types(input_types@),
                    nonce@,
                ),
            ]
            &&& out.1 == (number_of_calls > 1)
            &&& spec_sign_ok(
                private_key@,
                views_of_values(inputs@),
                views_of_types(input_types@),
            )
        },
        result matches Err(e) ==> e !is ArityMismatch ==> inputs@.len() == input_types@.len(),
        (result matches Err(SignError::ArityMismatch { .. })) <==> inputs@.len()
            != input_types@.len(),
{
    let request = match Request::sign(private_key, program_id, function_name, inputs, input_types, nonce) {
        Ok(r) => r,
        Err(e) => {
            return Err(e);
        },
    };
    let authorization = Authorization::new(request);
    Ok((authorization, number_of_calls > 1))
}

} // verus!
