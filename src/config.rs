use vstd::prelude::*;

verus! {

/// How the values of one column are laid out in its pages.
#[derive(Debug, Clone, Copy, PartialEq, Eq, Structural)]
pub enum Encoding {
    Plain,
}

/// The compression applied to every page.
#[derive(Debug, Clone, Copy, PartialEq, Eq, Structural)]
pub enum Compression {
    /// Zstandard at its default level.
    ZstdDefault,
}

/// The version of the page format.
#[derive(Debug, Clone, Copy, PartialEq, Eq, Structural)]
pub enum FormatVersion {
    V2,
}

/// The encoding and compression settings used for every row group.
#[derive(Debug, Clone, PartialEq, Eq)]
pub struct WriteConfig {
    pub write_statistics: bool,
    pub compression: Compression,
    pub version: FormatVersion,
    /// The page size limit; `None` leaves it to the codec's default.
    pub data_pagesize_limit: Option<usize>,
    /// One list of encodings per field of the schema.
    pub encodings: Vec<Vec<Encoding>>,
}

/// What a configuration says, as plain values.
pub struct ConfigView {
    pub write_statistics: bool,
    pub compression: Compression,
    pub version: FormatVersion,
    pub data_pagesize_limit: Option<usize>,
    pub encodings: Seq<Seq<Encoding>>,
}

impl View for WriteConfig {
    type V = ConfigView;

    open spec fn view(&self) -> ConfigView {
        ConfigView {
            write_statistics: self.write_statistics,
            compression: self.compression,
            version: self.version,
            data_pagesize_limit: self.data_pagesize_limit,
            encodings: self.encodings@.map_values(|e: Vec<Encoding>| e@),
        }
    }
}

/// The configuration derived for a schema of `n` fields: statistics on,
/// default Zstandard, format version 2, the default page size, and plain
/// encoding for every field.
pub open spec fn config_of(n: nat) -> ConfigView {
    ConfigView {
        write_statistics: true,
        compression: Compression::ZstdDefault,
        version: FormatVersion::V2,
        data_pagesize_limit: None,
        encodings: Seq::new(n, |i: int| seq![Encoding::Plain]),
    }
}

/// Derives the configuration for a schema with `n_fields` fields.
pub fn derive_config(n_fields: usize) -> (r: WriteConfig)
    ensures
        r@ == config_of(n_fields as nat),
{
    let mut encodings: Vec<Vec<Encoding>> = Vec::new();
    let mut i: usize = 0;
    while i < n_fields
        invariant
            i <= n_fields,
            encodings@.len() == i,
            forall|j: int| 0 <= j < i ==> (#[trigger] encodings@[j])@ == seq![Encoding::Plain],
        decreases n_fields - i,
    {
        encodings.push(vec![Encoding::Plain]);
        i = i + 1;
    }
    let r = WriteConfig {
        write_statistics: true,
        compression: Compression::ZstdDefault,
        version: FormatVersion::V2,
        data_pagesize_limit: None,
        encodings,
    };
    assert(r@.encodings =~= config_of(n_fields as nat).encodings);
    r
}

} // verus!
