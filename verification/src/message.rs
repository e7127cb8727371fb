//! The messages of the service and their codec.
//!
//! A message is written as the fields of its schema, one after the other,
//! and read by going through the fields that are there: a field of the
//! schema is taken, the last one where it comes twice, and any other field
//! is passed over.

use crate::wire::{
    error_in_field, error_text, key_at, lemma_key_at_bounds, lemma_string_at_bounds,
    lemma_string_field_read, put_string_field, skip_value, skipped_len, string_at, string_field,
    take_key, take_string, varint,
};
use crate::method::Method;
use crate::status::{Code, Status, StatusView};
use vstd::prelude::*;
use vstd::slice::slice_to_vec;
use vstd::utf8::*;

verus! {

/// The bytes that came in are not a message of the schema that was expected.
#[derive(Clone, Debug, PartialEq, Eq)]
pub struct DecodeFailure {
    /// What the reader found wrong, for a human reader.
    pub message: String,
}

impl DecodeFailure {
    /// Makes the status that a call ends with when its message cannot be
    /// read: `Internal`, with what the reader found wrong.
    pub fn into_status(self) -> (status: Status)
        ensures
            status@ == (StatusView { code: Code::Internal, message: self.message@ }),
    {
        Status::new(Code::Internal, self.message)
    }
}

/// The request of `ValidateOptions`: one required string, field 1.
#[derive(Debug, PartialEq, Eq)]
pub struct Options {
    pub options: String,
}

/// The response of both methods: a message without fields.
#[derive(Clone, Copy, Debug, PartialEq, Eq, Structural)]
pub struct Empty {}

/// The request of `UpsertView`: a view definition in its encoded form. Its
/// fields belong to the catalog's schema and are not read here; what is held
/// is known to be a sequence of fields.
#[derive(Debug, PartialEq, Eq)]
pub struct MaterializedView {
    encoded: Vec<u8>,
}

/// What reading the fields of `bytes` as an `Options` message gives, `text`
/// being what field 1 was read as so far: the text of the last field 1, or
/// `None` where a key or a value cannot be read.
pub open spec fn options_parse(bytes: Seq<u8>, text: Seq<char>) -> Option<Seq<char>>
    decreases bytes.len(),
{
    if bytes.len() == 0 {
        Some(text)
    } else {
        match key_at(bytes) {
            Some((tag, kind, n)) => {
                let body = bytes.skip(n as int);
                proof {
                    lemma_key_at_bounds(bytes);
                    lemma_string_at_bounds(kind, body);
                }
                if tag == 1 {
                    match string_at(kind, body) {
                        Some((found, m)) => options_parse(body.skip(m as int), found),
                        None => None,
                    }
                } else {
                    match skipped_len(kind.number(), tag, body) {
                        Some(m) => if m <= body.len() {
                            options_parse(body.skip(m as int), text)
                        } else {
                            None
                        },
                        None => None,
                    }
                }
            },
            None => None,
        }
    }
}

/// Tells whether `bytes` are a sequence of fields: whether a reader that
/// knows none of them can pass over each in turn and end where they end.
pub open spec fn fields_well_formed(bytes: Seq<u8>) -> bool
    decreases bytes.len(),
{
    if bytes.len() == 0 {
        true
    } else {
        match key_at(bytes) {
            Some((tag, kind, n)) => {
                let body = bytes.skip(n as int);
                proof {
                    lemma_key_at_bounds(bytes);
                }
                match skipped_len(kind.number(), tag, body) {
                    Some(m) => m <= body.len() && fields_well_formed(body.skip(m as int)),
                    None => false,
                }
            },
            None => false,
        }
    }
}

/// Passes over every field of `bytes`, and fails at the first key or value
/// that cannot be read.
fn skip_fields(bytes: &[u8]) -> (r: Result<(), DecodeFailure>)
    ensures
        r is Ok <==> fields_well_formed(bytes@),
{
    let mut rest: &[u8] = bytes;
    while rest.len() > 0
        invariant
            fields_well_formed(bytes@) == fields_well_formed(rest@),
        decreases rest@.len(),
    {
        proof {
            lemma_key_at_bounds(rest@);
        }
        match take_key(rest) {
            Ok((tag, kind, body)) => {
                match skip_value(kind, tag, body) {
                    Ok(after) => {
                        rest = after;
                    },
                    Err(e) => {
                        return Err(DecodeFailure { message: error_text(&e) });
                    },
                }
            },
            Err(e) => {
                return Err(DecodeFailure { message: error_text(&e) });
            },
        }
    }
    Ok(())
}

impl View for Options {
    type V = Seq<char>;

    /// The text of the one field.
    open spec fn view(&self) -> Seq<char> {
        self.options@
    }
}

impl Clone for Options {
    fn clone(&self) -> (copy: Options)
        ensures
            copy@ == self@,
    {
        Options { options: self.options.clone() }
    }
}

impl Default for Options {
    fn default() -> (m: Options)
        ensures
            m@ == Seq::<char>::empty(),
    {
        Options { options: String::new() }
    }
}

impl Options {
    /// The bytes that stand for the message: field 1, written also where the
    /// text is empty.
    pub open spec fn wire(self) -> Seq<u8> {
        string_field(1, self@)
    }

    /// Writes the message.
    pub fn encode(&self) -> (out: Vec<u8>)
        ensures
            out@ == self.wire(),
    {
        let mut out: Vec<u8> = Vec::new();
        put_string_field(1, &self.options, &mut out);
        assert(out@ =~= self.wire());
        out
    }

    /// Reads a message. A message without field 1 is read with the empty
    /// text.
    pub fn decode(bytes: &[u8]) -> (r: Result<Options, DecodeFailure>)
        ensures
            match options_parse(bytes@, Seq::empty()) {
                Some(text) => r matches Ok(m) && m@ == text,
                None => r is Err,
            },
    {
        let mut rest: &[u8] = bytes;
        let mut options = String::new();
        while rest.len() > 0
            invariant
                options_parse(bytes@, Seq::empty()) == options_parse(rest@, options@),
            decreases rest@.len(),
        {
            proof {
                lemma_key_at_bounds(rest@);
            }
            match take_key(rest) {
                Ok((tag, kind, body)) => {
                    if tag == 1 {
                        proof {
                            lemma_string_at_bounds(kind, body@);
                        }
                        match take_string(kind, body) {
                            Ok((found, after)) => {
                                options = found;
                                rest = after;
                            },
                            Err(e) => {
                                let located = error_in_field(e, "Options", "options");
                                return Err(DecodeFailure { message: error_text(&located) });
                            },
                        }
                    } else {
                        match skip_value(kind, tag, body) {
                            Ok(after) => {
                                rest = after;
                            },
                            Err(e) => {
                                return Err(DecodeFailure { message: error_text(&e) });
                            },
                        }
                    }
                },
                Err(e) => {
                    return Err(DecodeFailure { message: error_text(&e) });
                },
            }
        }
        Ok(Options { options })
    }
}

impl Empty {
    /// The bytes that stand for the message: none.
    pub open spec fn wire(self) -> Seq<u8> {
        Seq::empty()
    }

    /// Writes the message.
    pub fn encode(&self) -> (out: Vec<u8>)
        ensures
            out@ == self.wire(),
    {
        Vec::new()
    }

    /// Reads a message: any sequence of fields, each of which is passed
    /// over.
    pub fn decode(bytes: &[u8]) -> (r: Result<Empty, DecodeFailure>)
        ensures
            r is Ok <==> fields_well_formed(bytes@),
    {
        match skip_fields(bytes) {
            Ok(()) => Ok(Empty {  }),
            Err(e) => Err(e),
        }
    }
}

impl View for MaterializedView {
    type V = Seq<u8>;

    /// The encoded form.
    closed spec fn view(&self) -> Seq<u8> {
        self.encoded@
    }
}

impl Clone for MaterializedView {
    fn clone(&self) -> (copy: MaterializedView)
        ensures
            copy@ == self@,
    {
        proof {
            use_type_invariant(self);
        }
        MaterializedView { encoded: self.encoded.clone() }
    }
}

impl MaterializedView {
    #[verifier::type_invariant]
    spec fn well_formed(self) -> bool {
        fields_well_formed(self.encoded@)
    }

    /// The bytes that stand for the message: the encoded form itself.
    pub open spec fn wire(self) -> Seq<u8> {
        self@
    }

    /// Returns the encoded form, which is a sequence of fields.
    pub fn encoded(&self) -> (bytes: &[u8])
        ensures
            bytes@ == self@,
            fields_well_formed(bytes@),
    {
        proof {
            use_type_invariant(self);
        }
        self.encoded.as_slice()
    }

    /// Writes the message.
    pub fn encode(&self) -> (out: Vec<u8>)
        ensures
            out@ == self.wire(),
            fields_well_formed(out@),
    {
        proof {
            use_type_invariant(self);
        }
        self.encoded.clone()
    }

    /// Reads a message: takes `bytes` as they are where they are a sequence
    /// of fields, and fails where they are not.
    pub fn decode(bytes: &[u8]) -> (r: Result<MaterializedView, DecodeFailure>)
        ensures
            match r {
                Ok(m) => fields_well_formed(bytes@) && m@ == bytes@,
                Err(_) => !fields_well_formed(bytes@),
            },
    {
        match skip_fields(bytes) {
            Ok(()) => Ok(MaterializedView { encoded: slice_to_vec(bytes) }),
            Err(e) => Err(e),
        }
    }
}

/// A request of the service, with the method that it is for.
#[derive(Debug, PartialEq, Eq)]
pub enum Request {
    ValidateOptions(Options),
    UpsertView(MaterializedView),
}

/// A request as a mathematical value.
pub enum RequestView {
    ValidateOptions(Seq<char>),
    UpsertView(Seq<u8>),
}

impl RequestView {
    /// The method that the request is for.
    pub open spec fn method(self) -> Method {
        match self {
            RequestView::ValidateOptions(_) => Method::ValidateOptions,
            RequestView::UpsertView(_) => Method::UpsertView,
        }
    }

    /// The bytes that stand for the request, by the schema of its method.
    pub open spec fn wire(self) -> Seq<u8> {
        match self {
            RequestView::ValidateOptions(text) => string_field(1, text),
            RequestView::UpsertView(encoded) => encoded,
        }
    }
}

/// What reading `bytes` as the request of `method` gives, by the schema of
/// that method, or `None` where they are no such message.
pub open spec fn request_parse(method: Method, bytes: Seq<u8>) -> Option<RequestView> {
    match method {
        Method::ValidateOptions => match options_parse(bytes, Seq::empty()) {
            Some(text) => Some(RequestView::ValidateOptions(text)),
            None => None,
        },
        Method::UpsertView => if fields_well_formed(bytes) {
            Some(RequestView::UpsertView(bytes))
        } else {
            None
        },
    }
}

impl View for Request {
    type V = RequestView;

    open spec fn view(&self) -> RequestView {
        match self {
            Request::ValidateOptions(m) => RequestView::ValidateOptions(m@),
            Request::UpsertView(m) => RequestView::UpsertView(m@),
        }
    }
}

impl Request {
    /// Returns the method that the request is for.
    pub fn method(&self) -> (method: Method)
        ensures
            method == self@.method(),
    {
        match self {
            Request::ValidateOptions(_) => Method::ValidateOptions,
            Request::UpsertView(_) => Method::UpsertView,
        }
    }

    /// Writes the request with the codec of its method.
    pub fn encode(&self) -> (out: Vec<u8>)
        ensures
            out@ == self@.wire(),
    {
        match self {
            Request::ValidateOptions(m) => m.encode(),
            Request::UpsertView(m) => m.encode(),
        }
    }

    /// Reads the request of `method` with the codec of that method.
    pub fn decode(method: Method, bytes: &[u8]) -> (r: Result<Request, DecodeFailure>)
        ensures
            match request_parse(method, bytes@) {
                Some(request) => r matches Ok(read) && read@ == request,
                None => r is Err,
            },
    {
        match method {
            Method::ValidateOptions => match Options::decode(bytes) {
                Ok(m) => Ok(Request::ValidateOptions(m)),
                Err(e) => Err(e),
            },
            Method::UpsertView => match MaterializedView::decode(bytes) {
                Ok(m) => Ok(Request::UpsertView(m)),
                Err(e) => Err(e),
            },
        }
    }
}

/// The codec's round trip for `Options`: what was written for a text is
/// read back as that text, whatever it is, the empty text included.
pub proof fn lemma_options_round_trip(text: Seq<char>)
    requires
        encode_utf8(text).len() <= u64::MAX,
    ensures
        options_parse(string_field(1, text), Seq::empty()) == Some(text),
{
    let field = string_field(1, text);
    let key = varint(10);
    lemma_string_field_read(1, text, Seq::empty());
    assert(field + Seq::<u8>::empty() =~= field);
    lemma_key_at_bounds(field);
    let body = field.skip(key.len() as int);
    let after = body.skip(field.len() - key.len());
    assert(after.len() == 0);
    assert(options_parse(after, text) == Some(text));
}

/// The codec's round trip for `Empty`: what was written is read back as a
/// message.
pub proof fn lemma_empty_round_trip(m: Empty)
    ensures
        fields_well_formed(m.wire()),
{
}

/// The codec's round trip for the requests of every method: a request that
/// was written is read back, by the codec of its method, as the same
/// request.
pub proof fn lemma_request_round_trip(request: RequestView)
    requires
        request matches RequestView::ValidateOptions(text) ==> encode_utf8(text).len() <= u64::MAX,
        request matches RequestView::UpsertView(encoded) ==> fields_well_formed(encoded),
    ensures
        request_parse(request.method(), request.wire()) == Some(request),
{
    match request {
        RequestView::ValidateOptions(text) => {
            lemma_options_round_trip(text);
        },
        RequestView::UpsertView(_) => {},
    }
}

} // verus!
