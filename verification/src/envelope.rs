//! Envelope decoder: from the text body of a queue message to the change
//! records it carries.

use aws_lambda_events::event::s3::S3Event;
use vstd::prelude::*;

verus! {

/// The parse failure of `serde_json`, carried along unread.
#[verifier::external_type_specification]
#[verifier::external_body]
pub struct ExJsonError(serde_json::Error);

/// One artifact placement. Every field may be missing on the wire.
#[derive(Clone, Debug, PartialEq, Eq)]
pub struct ChangeRecord {
    pub region: Option<String>,
    pub storage_location: Option<String>,
    pub object_key: Option<String>,
    pub object_version: Option<String>,
}

/// Mathematical content of a [`ChangeRecord`].
pub struct ChangeRecordView {
    pub region: Option<Seq<char>>,
    pub storage_location: Option<Seq<char>>,
    pub object_key: Option<Seq<char>>,
    pub object_version: Option<Seq<char>>,
}

impl ChangeRecord {
    /// A record with the same four fields.
    pub fn duplicate(&self) -> (copy: Self)
        ensures
            copy == *self,
    {
        ChangeRecord {
            region: duplicate_text(&self.region),
            storage_location: duplicate_text(&self.storage_location),
            object_key: duplicate_text(&self.object_key),
            object_version: duplicate_text(&self.object_version),
        }
    }
}

fn duplicate_text(text: &Option<String>) -> (copy: Option<String>)
    ensures
        copy == *text,
{
    match text {
        Some(text) => Some(text.clone()),
        None => None,
    }
}

impl DeepView for ChangeRecord {
    type V = ChangeRecordView;

    open spec fn deep_view(&self) -> ChangeRecordView {
        ChangeRecordView {
            region: self.region.deep_view(),
            storage_location: self.storage_location.deep_view(),
            object_key: self.object_key.deep_view(),
            object_version: self.object_version.deep_view(),
        }
    }
}

/// What a message body decodes to: the change records of the storage event it
/// holds, in order, or the parse failure where the body is no such event.
pub uninterp spec fn decoded_records(body: Seq<char>) -> Result<
    Seq<ChangeRecordView>,
    serde_json::Error,
>;

/// Calls `serde_json::from_str` for an `S3Event` of `aws_lambda_events` and
/// keeps, of every record, the region, the bucket name, the object key and the
/// object version. The contract claims that the outcome is a function of the
/// body alone: those fields, or the parser's error, as `decoded_records` gives
/// them.
#[verifier::external_body]
fn parse_envelope(body: &str) -> (parsed: Result<Vec<ChangeRecord>, serde_json::Error>)
    ensures
        match parsed {
            Ok(records) => decoded_records(body@) == Ok::<
                Seq<ChangeRecordView>,
                serde_json::Error,
            >(records.deep_view()),
            Err(cause) => decoded_records(body@) == Err::<
                Seq<ChangeRecordView>,
                serde_json::Error,
            >(cause),
        },
{
    let event: S3Event = serde_json::from_str(body)?;
    Ok(event.records.into_iter().map(|r| ChangeRecord {
        region: r.aws_region,
        storage_location: r.s3.bucket.name,
        object_key: r.s3.object.key,
        object_version: r.s3.object.version_id,
    }).collect())
}

/// One message of a batch, as the queue delivered it. Its content is the
/// body, if it has one.
#[derive(Clone, Debug, PartialEq, Eq)]
pub struct OuterEnvelope {
    pub body: Option<String>,
}

impl DeepView for OuterEnvelope {
    type V = Option<Seq<char>>;

    open spec fn deep_view(&self) -> Option<Seq<char>> {
        self.body.deep_view()
    }
}

/// The storage event that a message body carries. Its content is the
/// sequence of its change records.
#[derive(Clone, Debug, PartialEq, Eq)]
pub struct InnerEnvelope {
    pub records: Vec<ChangeRecord>,
}

impl DeepView for InnerEnvelope {
    type V = Seq<ChangeRecordView>;

    open spec fn deep_view(&self) -> Seq<ChangeRecordView> {
        self.records.deep_view()
    }
}

/// A body that is no well-formed storage event.
#[derive(Debug)]
pub struct DecodeError {
    /// The offending body.
    pub body: String,
    /// The parse failure.
    pub cause: serde_json::Error,
}

/// Whether `decoded` is what decoding `body` gives: the records of the storage
/// event that the body holds, in order, or else the body itself and the parse
/// failure.
pub open spec fn is_decoding_of(decoded: Result<InnerEnvelope, DecodeError>, body: Seq<char>) -> bool {
    match decoded {
        Ok(envelope) => decoded_records(body) == Ok::<Seq<ChangeRecordView>, serde_json::Error>(
            envelope.deep_view(),
        ),
        Err(e) => decoded_records(body) == Err::<Seq<ChangeRecordView>, serde_json::Error>(
            e.cause,
        ) && e.body@ == body,
    }
}

/// Decodes one message body.
///
/// Succeeds exactly on the bodies that hold a storage event, with its records
/// in order. Every other body comes back inside the error, beside the parse
/// failure.
pub fn decode_body(body: &str) -> (decoded: Result<InnerEnvelope, DecodeError>)
    ensures
        is_decoding_of(decoded, body@),
{
    match parse_envelope(body) {
        Ok(records) => Ok(InnerEnvelope { records }),
        Err(cause) => Err(DecodeError { body: body.to_owned(), cause }),
    }
}

impl OuterEnvelope {
    /// Decodes the body of the message, if it has one. A message without a
    /// body is no error and is not decoded at all: the answer is `None`.
    pub fn decode(&self) -> (attempt: Option<Result<InnerEnvelope, DecodeError>>)
        ensures
            match attempt {
                Some(decoded) => self.body is Some && is_decoding_of(decoded, self.body->0@),
                None => self.body is None,
            },
    {
        match &self.body {
            Some(body) => Some(decode_body(body.as_str())),
            None => None,
        }
    }
}

} // verus!
