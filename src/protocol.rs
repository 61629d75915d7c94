//! Whether a table's writer protocol allows generated columns to be honored.
use vstd::prelude::*;

verus! {

/// A capability that a writer protocol may advertise.
#[derive(Clone, Copy, Debug, PartialEq, Eq, Structural)]
pub enum WriterFeature {
    AppendOnly,
    Invariants,
    CheckConstraints,
    ChangeDataFeed,
    GeneratedColumns,
    ColumnMapping,
    IdentityColumns,
    DeletionVectors,
    RowTracking,
    TimestampWithoutTimezone,
    DomainMetadata,
    V2Checkpoint,
    IcebergCompatV1,
    IcebergCompatV2,
    VacuumProtocolCheck,
    /// A feature name this library does not know.
    Unknown(u32),
}

/// The writer side of a table's protocol, as one snapshot of a transaction.
#[derive(Clone, Debug)]
pub struct Protocol {
    pub min_writer_version: i32,
    /// `None` for a legacy protocol that negotiates no features.
    pub writer_features: Option<Vec<WriterFeature>>,
}

/// Whether the advertised features hold `GeneratedColumns`.
pub open spec fn has_generated_columns(features: Seq<WriterFeature>) -> bool {
    exists|i: int| 0 <= i < features.len() && features[i] == WriterFeature::GeneratedColumns
}

/// Whether generated columns may be written: always when no features are listed; with
/// features needs writer version 4 or more, and at version 7 the feature itself.
pub open spec fn spec_able_to_gc(min_writer_version: int, features: Option<Seq<WriterFeature>>) -> bool {
    match features {
        None => true,
        Some(fs) => min_writer_version >= 4 && (min_writer_version == 7 ==> has_generated_columns(fs)),
    }
}

/// The features of a protocol as a mathematical sequence.
pub open spec fn features_of(p: &Protocol) -> Option<Seq<WriterFeature>> {
    match p.writer_features {
        None => None,
        Some(v) => Some(v@),
    }
}

/// Whether `features` holds `GeneratedColumns`.
fn contains_generated_columns(features: &Vec<WriterFeature>) -> (r: bool)
    ensures
        r == has_generated_columns(features@),
{
    let mut i: usize = 0;
    while i < features.len()
        invariant
            i <= features@.len(),
            forall|j: int| 0 <= j < i ==> features@[j] != WriterFeature::GeneratedColumns,
        decreases features@.len() - i,
    {
        if features[i] == WriterFeature::GeneratedColumns {
            return true;
        }
        i += 1;
    }
    false
}

/// Checks whether the writer protocol is able to write generated columns.
pub fn able_to_gc(protocol: &Protocol) -> (r: bool)
    ensures
        r == spec_able_to_gc(protocol.min_writer_version as int, features_of(protocol)),
{
    match &protocol.writer_features {
        None => true,
        Some(features) => {
            if protocol.min_writer_version < 4 {
                false
            } else if protocol.min_writer_version == 7 && !contains_generated_columns(features) {
                false
            } else {
                true
            }
        },
    }
}

/// A legacy protocol, which negotiates no features, allows generated columns
/// whatever its writer version.
pub proof fn lemma_legacy_protocol_allows(min_writer_version: int)
    ensures
        spec_able_to_gc(min_writer_version, None),
{
}

/// Below writer version 4 a protocol with features never allows generated columns.
pub proof fn lemma_old_writer_denies(min_writer_version: int, features: Seq<WriterFeature>)
    requires
        min_writer_version < 4,
    ensures
        !spec_able_to_gc(min_writer_version, Some(features)),
{
}

/// At writer versions 4 to 6 a protocol with features allows generated
/// columns, whichever features it lists.
pub proof fn lemma_middle_writer_allows(min_writer_version: int, features: Seq<WriterFeature>)
    requires
        4 <= min_writer_version <= 6,
    ensures
        spec_able_to_gc(min_writer_version, Some(features)),
{
}

/// At writer version 7 generated columns are allowed exactly when the
/// protocol lists the `GeneratedColumns` feature.
pub proof fn lemma_table_features_writer(features: Seq<WriterFeature>)
    ensures
        spec_able_to_gc(7, Some(features)) == has_generated_columns(features),
{
}

} // verus!
