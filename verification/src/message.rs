//! The head of an HTTP/1.1 message as the gateway reads and rewrites it:
//! start line and header fields. Bodies never pass through here.

use vstd::prelude::*;
use vstd::slice::slice_to_vec;
use crate::text::{bytes_of, same_ignoring_case, same_name};

verus! {

/// A header field in a contract: its name and its value.
pub type Field = (Seq<u8>, Seq<u8>);

/// The value of the first field called `name`, whatever the case of its
/// letters.
pub open spec fn value_of(fields: Seq<Field>, name: Seq<u8>) -> Option<Seq<u8>>
    decreases fields.len(),
{
    if fields.len() == 0 {
        None
    } else if same_name(fields[0].0, name) {
        Some(fields[0].1)
    } else {
        value_of(fields.drop_first(), name)
    }
}

/// The fields that are not called `name`, in their order.
pub open spec fn without(fields: Seq<Field>, name: Seq<u8>) -> Seq<Field>
    decreases fields.len(),
{
    if fields.len() == 0 {
        fields
    } else if same_name(fields.last().0, name) {
        without(fields.drop_last(), name)
    } else {
        without(fields.drop_last(), name).push(fields.last())
    }
}

/// The fields after `name` has been set to `value`: every earlier field of
/// that name is gone, and the new one stands at the end.
pub open spec fn with_field(fields: Seq<Field>, name: Seq<u8>, value: Seq<u8>) -> Seq<Field> {
    without(fields, name).push((name, value))
}

/// No field of `without(fields, name)` is called `name`, and it holds every
/// other field of `fields`.
pub proof fn lemma_without(fields: Seq<Field>, name: Seq<u8>)
    ensures
        value_of(without(fields, name), name) is None,
        forall|i: int|
            0 <= i < without(fields, name).len() ==> !same_name(
                #[trigger] without(fields, name)[i].0,
                name,
            ),
        without(fields, name).len() <= fields.len(),
        without(without(fields, name), name) == without(fields, name),
    decreases fields.len(),
{
    if fields.len() > 0 {
        lemma_without(fields.drop_last(), name);
        let rest = without(fields.drop_last(), name);
        if !same_name(fields.last().0, name) {
            lemma_value_of_push(rest, fields.last(), name);
            assert(rest.push(fields.last()).drop_last() =~= rest);
        }
    } else {
        assert(without(fields, name) =~= fields);
    }
}

/// Appending a field changes the value found under `name` only where no
/// earlier field has that name.
pub proof fn lemma_value_of_push(fields: Seq<Field>, field: Field, name: Seq<u8>)
    ensures
        value_of(fields.push(field), name) == if value_of(fields, name) is Some {
            value_of(fields, name)
        } else if same_name(field.0, name) {
            Some(field.1)
        } else {
            None
        },
    decreases fields.len(),
{
    if fields.len() == 0 {
        assert(fields.push(field).drop_first() =~= fields);
        assert(value_of(fields.push(field).drop_first(), name) is None);
    } else {
        assert(fields.push(field).drop_first() =~= fields.drop_first().push(field));
        lemma_value_of_push(fields.drop_first(), field, name);
    }
}

/// Taking away the fields called `gone` leaves the value of every field of
/// another name as it was.
pub proof fn lemma_without_keeps_value(fields: Seq<Field>, gone: Seq<u8>, name: Seq<u8>)
    requires
        !same_name(gone, name),
    ensures
        value_of(without(fields, gone), name) == value_of(fields, name),
    decreases fields.len(),
{
    if fields.len() > 0 {
        let last = fields.last();
        let front = fields.drop_last();
        lemma_without_keeps_value(front, gone, name);
        assert(front.push(last) =~= fields);
        lemma_value_of_push(front, last, name);
        if !same_name(last.0, gone) {
            lemma_value_of_push(without(front, gone), last, name);
        } else {
            assert(!same_name(last.0, name));
        }
    }
}

/// After `name` has been set to `value`, `name` has that value and stands
/// exactly once, as the last field; the fields of other names are the ones
/// that were there, in their order, and are found with the values they had.
pub proof fn lemma_with_field(fields: Seq<Field>, name: Seq<u8>, value: Seq<u8>, other: Seq<u8>)
    ensures
        value_of(with_field(fields, name, value), name) == Some(value),
        with_field(fields, name, value).last() == (name, value),
        forall|i: int|
            0 <= i < with_field(fields, name, value).len() - 1 ==> !same_name(
                #[trigger] with_field(fields, name, value)[i].0,
                name,
            ),
        without(with_field(fields, name, value), name) == without(fields, name),
        !same_name(name, other) ==> value_of(with_field(fields, name, value), other) == value_of(
            fields,
            other,
        ),
{
    lemma_without(fields, name);
    let kept = without(fields, name);
    assert forall|i: int| 0 <= i < with_field(fields, name, value).len() - 1 implies !same_name(
        #[trigger] with_field(fields, name, value)[i].0,
        name,
    ) by {
        assert(with_field(fields, name, value)[i] == kept[i]);
    }
    lemma_value_of_push(kept, (name, value), name);
    assert(kept.push((name, value)).drop_last() =~= kept);
    if !same_name(name, other) {
        lemma_without_keeps_value(fields, name, other);
        lemma_value_of_push(kept, (name, value), other);
    }
}

/// Bytes that may stand in the value of a header field: everything but the
/// control characters, and the tab.
pub open spec fn is_field_value(bytes: Seq<u8>) -> bool {
    forall|i: int|
        0 <= i < bytes.len() ==> ((#[trigger] bytes[i]) >= 32 && bytes[i] != 127) || bytes[i] == 9
}

/// Whether the bytes may stand in the value of a header field.
pub fn field_value_ok(bytes: &[u8]) -> (yes: bool)
    ensures
        yes == is_field_value(bytes@),
{
    let mut i: usize = 0;
    while i < bytes.len()
        invariant
            i <= bytes.len(),
            forall|k: int|
                0 <= k < i ==> ((#[trigger] bytes@[k]) >= 32 && bytes@[k] != 127) || bytes@[k]
                    == 9,
        decreases bytes.len() - i,
    {
        let b = bytes[i];
        if !((b >= 32 && b != 127) || b == 9) {
            return false;
        }
        i += 1;
    }
    true
}

/// One header field.
#[derive(Debug, PartialEq, Eq)]
pub struct Header {
    pub name: Vec<u8>,
    pub value: Vec<u8>,
}

impl View for Header {
    type V = Field;

    open spec fn view(&self) -> Field {
        (self.name@, self.value@)
    }
}

impl Header {
    /// A field from two texts.
    pub fn new(name: &str, value: &str) -> (field: Self)
        ensures
            field@ == (bytes_of(name@), bytes_of(value@)),
    {
        Header { name: name.as_bytes_vec(), value: value.as_bytes_vec() }
    }

    /// A second field with the same name and value.
    pub fn duplicate(&self) -> (field: Self)
        ensures
            field@ == self@,
    {
        Header { name: self.name.clone(), value: self.value.clone() }
    }
}

/// The header fields of one message, in the order they were received.
#[derive(Debug, PartialEq, Eq)]
pub struct Headers {
    pub fields: Vec<Header>,
}

impl View for Headers {
    type V = Seq<Field>;

    open spec fn view(&self) -> Seq<Field> {
        self.fields@.map_values(|h: Header| h@)
    }
}

impl Headers {
    /// No fields.
    pub fn new() -> (headers: Self)
        ensures
            headers@ == Seq::<Field>::empty(),
    {
        let headers = Headers { fields: Vec::new() };
        assert(headers@ =~= Seq::<Field>::empty());
        headers
    }

    /// The number of fields.
    pub fn len(&self) -> (n: usize)
        ensures
            n == self@.len(),
    {
        self.fields.len()
    }

    /// Adds one field behind the others.
    pub fn append(&mut self, name: &[u8], value: &[u8])
        ensures
            final(self)@ == old(self)@.push((name@, value@)),
    {
        self.fields.push(Header { name: slice_to_vec(name), value: slice_to_vec(value) });
        assert(self@ =~= old(self)@.push((name@, value@)));
    }

    /// The value of the first field called `name`, whatever the case of its
    /// letters.
    pub fn get(&self, name: &[u8]) -> (value: Option<&Vec<u8>>)
        ensures
            match value {
                Some(v) => value_of(self@, name@) == Some(v@),
                None => value_of(self@, name@) is None,
            },
    {
        let mut i: usize = 0;
        assert(self@.skip(0) =~= self@);
        while i < self.fields.len()
            invariant
                i <= self.fields.len(),
                value_of(self@, name@) == value_of(self@.skip(i as int), name@),
            decreases self.fields.len() - i,
        {
            assert(self@.skip(i as int)[0] == self.fields[i as int]@);
            assert(self@.skip(i as int).drop_first() =~= self@.skip(i + 1));
            if same_ignoring_case(self.fields[i].name.as_slice(), name) {
                return Some(&self.fields[i].value);
            }
            i += 1;
        }
        None
    }

    /// Whether a field called `name` is there.
    pub fn contains(&self, name: &[u8]) -> (yes: bool)
        ensures
            yes == value_of(self@, name@) is Some,
    {
        self.get(name).is_some()
    }

    /// Gives `name` the one value `value`: the fields that had this name
    /// are taken away, the others stay as they are and in their order, and
    /// the new field is put behind them.
    pub fn set(&mut self, name: &[u8], value: &[u8])
        ensures
            final(self)@ == with_field(old(self)@, name@, value@),
    {
        let mut kept: Vec<Header> = Vec::new();
        let mut i: usize = 0;
        assert(self@.subrange(0, 0) =~= Seq::<Field>::empty());
        while i < self.fields.len()
            invariant
                i <= self.fields.len(),
                kept@.map_values(|h: Header| h@) == without(self@.subrange(0, i as int), name@),
            decreases self.fields.len() - i,
        {
            let ghost upto = self@.subrange(0, i + 1);
            assert(upto.drop_last() =~= self@.subrange(0, i as int));
            assert(upto.last() == self.fields[i as int]@);
            if !same_ignoring_case(self.fields[i].name.as_slice(), name) {
                let ghost before = kept@.map_values(|h: Header| h@);
                kept.push(self.fields[i].duplicate());
                assert(kept@.map_values(|h: Header| h@) =~= before.push(self.fields[i as int]@));
            }
            i += 1;
        }
        assert(self@.subrange(0, i as int) =~= self@);
        let ghost before = kept@.map_values(|h: Header| h@);
        kept.push(Header { name: slice_to_vec(name), value: slice_to_vec(value) });
        assert(kept@.map_values(|h: Header| h@) =~= before.push((name@, value@)));
        self.fields = kept;
    }
}

/// The head of a request: method, path, query and header fields.
#[derive(Debug, PartialEq, Eq)]
pub struct Request {
    pub method: String,
    pub path: String,
    pub query: Option<String>,
    pub headers: Headers,
}

/// The head of a response: status and header fields.
#[derive(Debug, PartialEq, Eq)]
pub struct Response {
    pub status: u16,
    pub headers: Headers,
}

/// The request could not be understood.
pub const BAD_REQUEST: u16 = 400;

/// The request names no host.
pub const FORBIDDEN: u16 = 403;

/// No virtual host, rule or file answers the request.
pub const NOT_FOUND: u16 = 404;

/// The gateway itself failed.
pub const INTERNAL_SERVER_ERROR: u16 = 500;

/// The upstream could not be reached.
pub const BAD_GATEWAY: u16 = 502;

/// The upstream did not answer in time.
pub const GATEWAY_TIMEOUT: u16 = 504;

/// The request was served.
pub const OK: u16 = 200;

impl Request {
    /// A request head without header fields or query.
    pub fn new(method: &str, path: &str) -> (request: Self)
        ensures
            request.method@ == method@,
            request.path@ == path@,
            request.query is None,
            request.headers@ == Seq::<Field>::empty(),
    {
        Request {
            method: method.to_owned(),
            path: path.to_owned(),
            query: None,
            headers: Headers::new(),
        }
    }
}

/// A response that the gateway answers with itself: the status, no header
/// fields and no body.
pub fn generate_response(status_code: u16) -> (response: Response)
    ensures
        response.status == status_code,
        response.headers@ == Seq::<Field>::empty(),
{
    Response { status: status_code, headers: Headers::new() }
}

} // verus!
