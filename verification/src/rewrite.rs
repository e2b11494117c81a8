//! Rewriting of the `Host` header on the way to the upstream and back.

use vstd::prelude::*;
use crate::domain::Domain;
use crate::message::{
    is_field_value, lemma_with_field, value_of, with_field, without, Field, Request, Response,
};
use crate::text::{bytes_of, same_name};

verus! {

/// The name of the header that carries the authority.
pub open spec fn host_name() -> Seq<u8> {
    bytes_of("host"@)
}

/// The header fields of a message sent on towards `authority`.
pub open spec fn towards(fields: Seq<Field>, authority: Seq<char>) -> Seq<Field> {
    with_field(fields, host_name(), bytes_of(authority))
}

/// The header fields of a message handed back to a client that knows the
/// gateway as `authority`: a `Host` field is rewritten, none is added.
pub open spec fn back_to(fields: Seq<Field>, authority: Seq<char>) -> Seq<Field> {
    if value_of(fields, host_name()) is Some {
        towards(fields, authority)
    } else {
        fields
    }
}

/// A message sent on carries the authority it is sent to as its `Host`;
/// every field of another name is there as before, with its value and in
/// its place among the others.
pub proof fn lemma_towards(fields: Seq<Field>, authority: Seq<char>, other: Seq<u8>)
    ensures
        value_of(towards(fields, authority), host_name()) == Some(bytes_of(authority)),
        without(towards(fields, authority), host_name()) == without(fields, host_name()),
        !same_name(host_name(), other) ==> value_of(towards(fields, authority), other) == value_of(
            fields,
            other,
        ),
{
    lemma_with_field(fields, host_name(), bytes_of(authority), other);
}

/// Sending a message on twice towards the same authority changes nothing
/// that sending it on once has not changed.
pub proof fn lemma_towards_twice(fields: Seq<Field>, authority: Seq<char>)
    ensures
        towards(towards(fields, authority), authority) == towards(fields, authority),
        back_to(towards(fields, authority), authority) == towards(fields, authority),
{
    lemma_towards(fields, authority, host_name());
}

/// A message handed back carries a `Host` exactly when it carried one
/// before, and then it is the authority the client knows; every field of
/// another name is there as before.
pub proof fn lemma_back_to(fields: Seq<Field>, authority: Seq<char>, other: Seq<u8>)
    ensures
        value_of(back_to(fields, authority), host_name()) == (if value_of(fields, host_name())
            is Some {
            Some(bytes_of(authority))
        } else {
            None
        }),
        without(back_to(fields, authority), host_name()) == without(fields, host_name()),
        !same_name(host_name(), other) ==> value_of(back_to(fields, authority), other) == value_of(
            fields,
            other,
        ),
{
    lemma_towards(fields, authority, other);
}

/// A message without `Host` is handed back as it came: with the same fields
/// in the same order.
pub proof fn lemma_back_without_host(fields: Seq<Field>, authority: Seq<char>)
    requires
        value_of(fields, host_name()) is None,
    ensures
        back_to(fields, authority) == fields,
{
}

/// The rewriting of `Host` headers.
pub struct Rewrite;

impl Rewrite {
    /// Sets the `Host` of a request to the authority of the upstream it is
    /// forwarded to. Start line and other fields stay as they are.
    pub fn rewrite_request(request: &mut Request, remote: &Domain)
        ensures
            final(request).headers@ == towards(old(request).headers@, remote@.authority()),
            value_of(final(request).headers@, host_name()) == Some(bytes_of(remote@.authority())),
            is_field_value(bytes_of(remote@.authority())),
            final(request).method == old(request).method,
            final(request).path == old(request).path,
            final(request).query == old(request).query,
    {
        let authority = remote.authority();
        proof {
            lemma_towards(request.headers@, remote@.authority(), host_name());
        }
        request.headers.set("host".as_bytes(), authority.as_str().as_bytes());
    }

    /// Sets the `Host` of a response to `authority`, the text under which
    /// the client knows the gateway, where the response carries a `Host` at
    /// all. A response without `Host` stays as it is: none is added. Status
    /// and other fields stay as they are.
    pub fn rewrite_response_to(response: &mut Response, authority: &str)
        ensures
            final(response).headers@ == back_to(old(response).headers@, authority@),
            value_of(old(response).headers@, host_name()) is None ==> final(response).headers@
                == old(response).headers@,
            value_of(old(response).headers@, host_name()) is Some ==> value_of(
                final(response).headers@,
                host_name(),
            ) == Some(bytes_of(authority@)),
            final(response).status == old(response).status,
    {
        proof {
            lemma_back_to(response.headers@, authority@, host_name());
        }
        if response.headers.contains("host".as_bytes()) {
            response.headers.set("host".as_bytes(), authority.as_bytes());
        }
    }

    /// Sets the `Host` of a response to the authority of `local`, the
    /// address under which the client knows the gateway, where the response
    /// carries a `Host` at all. Status and other fields stay as they are.
    pub fn rewrite_response(response: &mut Response, local: &Domain)
        ensures
            final(response).headers@ == back_to(old(response).headers@, local@.authority()),
            final(response).status == old(response).status,
    {
        let authority = local.authority();
        Self::rewrite_response_to(response, authority.as_str());
    }
}

} // verus!
