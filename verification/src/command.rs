//! Command extractor: from one change record to the update command it asks
//! for, or to the reason why it asks for none.

use crate::envelope::{ChangeRecord, ChangeRecordView};
use rusoto_core::region::ParseRegionError;
use rusoto_core::Region;
use vstd::prelude::*;

verus! {

/// A region of the remote API, as `rusoto_core` knows it. Carried along unread.
#[verifier::external_type_specification]
#[verifier::external_body]
pub struct ExRegion(Region);

/// The refusal of `rusoto_core` to read a text as a region.
#[verifier::external_type_specification]
#[verifier::external_body]
pub struct ExParseRegionError(ParseRegionError);

/// The region that a text names, or `None` where it names none.
pub uninterp spec fn parsed_region(name: Seq<char>) -> Option<Region>;

/// Calls `Region::from_str` of `rusoto_core` (`str::parse`). The contract
/// claims that the outcome is a function of the text alone: the region that
/// `parsed_region` gives, and an error exactly where it gives none.
#[verifier::external_body]
fn parse_region(name: &str) -> (parsed: Result<Region, ParseRegionError>)
    ensures
        match parsed {
            Ok(region) => parsed_region(name@) == Some(region),
            Err(_) => parsed_region(name@) is None,
        },
{
    name.parse::<Region>()
}

/// A field of a change record that a command cannot do without.
#[derive(Clone, Copy, Debug, PartialEq, Eq, Structural)]
pub enum Field {
    Bucket,
    Key,
    Version,
}

impl Field {
    /// The name under which the field is reported.
    pub open spec fn label(self) -> Seq<char> {
        match self {
            Field::Bucket => "bucket"@,
            Field::Key => "key"@,
            Field::Version => "version"@,
        }
    }

    /// The name under which the field is reported.
    pub fn name(&self) -> (name: &'static str)
        ensures
            name@ == self.label(),
    {
        match self {
            Field::Bucket => "bucket",
            Field::Key => "key",
            Field::Version => "version",
        }
    }
}

/// Why a change record yields no command.
#[derive(Clone, Copy, Debug, PartialEq, Eq, Structural)]
pub enum ExtractError {
    /// The region is missing or names no known region.
    InvalidRegion,
    /// The region is fine and this field is the first one missing.
    MissingField(Field),
}

/// The instruction to replace the code of the function `target_name` by the
/// stored object `object_key`, version `object_version`, of `storage_location`.
#[derive(Debug, PartialEq, Eq)]
pub struct UpdateCommand {
    pub target_name: String,
    pub region: Region,
    pub storage_location: String,
    pub object_key: String,
    pub object_version: String,
}

/// Mathematical content of an [`UpdateCommand`].
pub struct UpdateCommandView {
    pub target_name: Seq<char>,
    pub region: Region,
    pub storage_location: Seq<char>,
    pub object_key: Seq<char>,
    pub object_version: Seq<char>,
}

impl DeepView for UpdateCommand {
    type V = UpdateCommandView;

    open spec fn deep_view(&self) -> UpdateCommandView {
        UpdateCommandView {
            target_name: self.target_name@,
            region: self.region,
            storage_location: self.storage_location@,
            object_key: self.object_key@,
            object_version: self.object_version@,
        }
    }
}

/// The command of a record whose region text has been read as `region`
/// (`None`: missing or unknown). The checks run in a fixed order (region,
/// bucket, key, version) and the first one that fails decides the error.
pub open spec fn assembled(region: Option<Region>, record: ChangeRecordView) -> Result<
    UpdateCommandView,
    ExtractError,
> {
    if region is None {
        Err(ExtractError::InvalidRegion)
    } else if record.storage_location is None {
        Err(ExtractError::MissingField(Field::Bucket))
    } else if record.object_key is None {
        Err(ExtractError::MissingField(Field::Key))
    } else if record.object_version is None {
        Err(ExtractError::MissingField(Field::Version))
    } else {
        Ok(
            UpdateCommandView {
                target_name: record.object_key->0,
                region: region->0,
                storage_location: record.storage_location->0,
                object_key: record.object_key->0,
                object_version: record.object_version->0,
            },
        )
    }
}

/// The region that the region text of a record names.
pub open spec fn recognized(region: Option<Seq<char>>) -> Option<Region> {
    match region {
        Some(name) => parsed_region(name),
        None => None,
    }
}

/// The command that a change record asks for.
pub open spec fn extracted(record: ChangeRecordView) -> Result<UpdateCommandView, ExtractError> {
    assembled(recognized(record.region), record)
}

/// Relates the outcome of an extraction to the one a spec function gives.
pub open spec fn is_outcome(
    got: Result<UpdateCommand, ExtractError>,
    expected: Result<UpdateCommandView, ExtractError>,
) -> bool {
    match got {
        Ok(command) => expected == Ok::<UpdateCommandView, ExtractError>(command.deep_view()),
        Err(error) => expected == Err::<UpdateCommandView, ExtractError>(error),
    }
}

/// Builds the command of `record`, given the region that its region text was
/// read as (`None`: the text is missing or names no region).
pub fn assemble_command(region: Option<Region>, record: &ChangeRecord) -> (outcome: Result<
    UpdateCommand,
    ExtractError,
>)
    ensures
        is_outcome(outcome, assembled(region, record.deep_view())),
{
    let region = match region {
        Some(region) => region,
        None => return Err(ExtractError::InvalidRegion),
    };
    let storage_location = match &record.storage_location {
        Some(name) => name.clone(),
        None => return Err(ExtractError::MissingField(Field::Bucket)),
    };
    let object_key = match &record.object_key {
        Some(key) => key.clone(),
        None => return Err(ExtractError::MissingField(Field::Key)),
    };
    let object_version = match &record.object_version {
        Some(version) => version.clone(),
        None => return Err(ExtractError::MissingField(Field::Version)),
    };
    Ok(
        UpdateCommand {
            target_name: object_key.clone(),
            region,
            storage_location,
            object_key,
            object_version,
        },
    )
}

/// Derives the update command of one change record.
///
/// Succeeds exactly when the region names a known region and bucket, key and
/// version are present; the function to update is named by the object key.
/// Otherwise the first failing check, in the order region, bucket, key,
/// version, decides the error.
pub fn extract_command(record: &ChangeRecord) -> (outcome: Result<UpdateCommand, ExtractError>)
    ensures
        is_outcome(outcome, extracted(record.deep_view())),
{
    let region = match &record.region {
        Some(name) => match parse_region(name.as_str()) {
            Ok(region) => Some(region),
            Err(_) => None,
        },
        None => None,
    };
    assemble_command(region, record)
}

} // verus!
