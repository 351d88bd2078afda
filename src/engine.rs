use crate::batch::Batch;
use crate::config::{config_of, derive_config, ConfigView, WriteConfig};
use crate::error::EngineError;
use crate::schema::{translate, Schema};
use crate::strategy::Strategy;
use parquet2::metadata::SchemaDescriptor;
use vstd::prelude::*;

verus! {

/// What the file at the engine's path holds.
#[derive(Debug, Clone, Copy, PartialEq, Eq, Structural)]
pub enum Disk {
    /// A container still being written: its header and this many row groups,
    /// without a footer (for `memory_merge`, an empty file).
    Unsealed(usize),
    /// A complete container of this many row groups.
    Sealed(usize),
}

/// The file at the path, as the contracts speak of it.
pub enum DiskView {
    Unsealed(nat),
    Sealed(nat),
}

impl Disk {
    pub open spec fn view(self) -> DiskView {
        match self {
            Disk::Unsealed(n) => DiskView::Unsealed(n as nat),
            Disk::Sealed(n) => DiskView::Sealed(n as nat),
        }
    }
}

/// The writer of the current container.
#[derive(Debug, Clone, Copy, PartialEq, Eq, Structural)]
pub struct Container {
    /// The row groups written to this container so far.
    pub row_groups: usize,
    /// Whether this container has already created (truncated) the file at the
    /// path. A container started by a rotation leaves the previous, sealed
    /// container in place until it first needs the file.
    pub owns_file: bool,
}

/// An engine either holds an open writer or has just sealed it.
#[derive(Debug, Clone, Copy, PartialEq, Eq, Structural)]
pub enum WriterState {
    Open(Container),
    Sealed,
}

/// Where the pages of a row group go.
#[derive(Debug, Clone, Copy, PartialEq, Eq, Structural)]
pub enum Sink {
    File,
    Memory,
}

/// What the caller performs to write one accepted batch.
#[derive(Debug, Clone, Copy, PartialEq, Eq, Structural)]
pub struct WritePlan {
    /// Where the encoded row group goes.
    pub sink: Sink,
    /// Create (truncate) the file at the path and start a container in it first.
    pub create_file: bool,
    /// The position of the row group in its container.
    pub ordinal: usize,
    /// The number of rows of the row group.
    pub rows: usize,
}

/// What the caller performs to seal the current container.
#[derive(Debug, Clone, Copy, PartialEq, Eq, Structural)]
pub struct SealPlan {
    /// Create (truncate) the file at the path before anything is written to it.
    pub create_file: bool,
    /// Append the footer to the memory buffer and copy the whole buffer into
    /// the file; otherwise the footer goes straight to the file.
    pub bulk_copy: bool,
    /// The row groups of the sealed container.
    pub row_groups: usize,
}

/// The abstract state of an engine.
pub struct EngineView {
    pub path: Seq<char>,
    pub schema: Schema,
    pub config: ConfigView,
    pub strategy: Strategy,
    /// Whether a writer is open.
    pub open: bool,
    /// The row groups of the open container.
    pub row_groups: nat,
    /// Whether the open container has created the file at the path.
    pub owns_file: bool,
    pub disk: DiskView,
}

impl EngineView {
    /// The invariant of an engine.
    pub open spec fn wf(self) -> bool {
        &&& self.schema.translatable()
        &&& self.config == config_of(self.schema.fields@.len())
        &&& self.open && self.owns_file && self.strategy == Strategy::File ==> self.disk
            == DiskView::Unsealed(self.row_groups)
        &&& self.open && self.owns_file && self.strategy == Strategy::MemoryMerge ==> self.disk
            == DiskView::Unsealed(0)
        &&& self.open && !self.owns_file ==> self.disk is Sealed
        &&& !self.open ==> self.disk is Sealed && self.row_groups == 0 && !self.owns_file
    }

    /// The state of a freshly opened engine: an open writer whose container
    /// has just created the file.
    pub open spec fn opened(path: Seq<char>, schema: Schema, strategy: Strategy) -> EngineView {
        EngineView {
            path,
            schema,
            config: config_of(schema.fields@.len()),
            strategy,
            open: true,
            row_groups: 0,
            owns_file: true,
            disk: DiskView::Unsealed(0),
        }
    }

    /// One accepted batch: one more row group. The direct strategy streams it
    /// into the file; the buffered one leaves the file as it is.
    pub open spec fn write_step(self) -> EngineView {
        EngineView {
            row_groups: self.row_groups + 1,
            owns_file: self.owns_file || self.strategy == Strategy::File,
            disk: if self.strategy == Strategy::File {
                DiskView::Unsealed(self.row_groups + 1)
            } else {
                self.disk
            },
            ..self
        }
    }

    /// Sealing: the file becomes a complete container holding the row groups
    /// of this one, whatever it held before.
    pub open spec fn seal_step(self) -> EngineView {
        EngineView {
            open: false,
            row_groups: 0,
            owns_file: false,
            disk: DiskView::Sealed(self.row_groups),
            ..self
        }
    }

    /// Rotation: a fresh, empty writer for the same path and schema.
    pub open spec fn rotate_step(self) -> EngineView {
        EngineView { open: true, ..self }
    }

    /// A flush: seal, then rotate.
    pub open spec fn flush_step(self) -> EngineView {
        self.seal_step().rotate_step()
    }

    /// The state after `n` accepted batches.
    pub open spec fn writes(self, n: nat) -> EngineView
        decreases n,
    {
        if n == 0 {
            self
        } else {
            self.writes((n - 1) as nat).write_step()
        }
    }
}

/// A sequence of `n` accepted batches on a fresh container makes exactly `n`
/// row groups. The buffered strategy leaves the file as it was until the
/// seal; the direct strategy has streamed all `n` into it. Sealing then
/// leaves a container of `n` row groups at the path.
pub proof fn law_row_group_cadence(v: EngineView, n: nat)
    requires
        v.wf(),
        v.open,
        v.row_groups == 0,
    ensures
        v.writes(n).wf(),
        v.writes(n).open,
        v.writes(n).strategy == v.strategy,
        v.writes(n).row_groups == n,
        v.strategy == Strategy::MemoryMerge ==> v.writes(n).disk == v.disk,
        v.strategy == Strategy::File && n > 0 ==> v.writes(n).disk == DiskView::Unsealed(n),
        v.writes(n).seal_step().disk == DiskView::Sealed(n),
        v.writes(n).seal_step().wf(),
    decreases n,
{
    if n > 0 {
        law_row_group_cadence(v, (n - 1) as nat);
    }
}

/// Two flushes with no write between them leave a sealed container of no
/// row groups at the path, whatever the file held before: a flush overwrites
/// the file, it never appends to it. The engine is open again afterwards.
pub proof fn law_rotation_truncation(v: EngineView)
    requires
        v.wf(),
        v.open,
    ensures
        v.flush_step().wf(),
        v.flush_step().flush_step().wf(),
        v.flush_step().flush_step().open,
        v.flush_step().flush_step().row_groups == 0,
        v.flush_step().flush_step().disk == DiskView::Sealed(0),
{
}

/// The configuration is derived once from the schema and is the same after
/// any writes and any two rotations.
pub proof fn law_config_stable(v: EngineView, k: nat, m: nat)
    requires
        v.wf(),
        v.open,
        v.row_groups == 0,
    ensures
        v.config == config_of(v.schema.fields@.len()),
        v.writes(k).flush_step().config == v.config,
        v.writes(k).flush_step().writes(m).flush_step().config == v.config,
{
    law_row_group_cadence(v, k);
    lemma_writes_keep(v, k);
    let w = v.writes(k).flush_step();
    law_row_group_cadence(w, m);
    lemma_writes_keep(w, m);
}

/// Writes keep the path, the schema and the configuration.
proof fn lemma_writes_keep(v: EngineView, n: nat)
    ensures
        v.writes(n).path == v.path,
        v.writes(n).schema == v.schema,
        v.writes(n).config == v.config,
    decreases n,
{
    if n > 0 {
        lemma_writes_keep(v, (n - 1) as nat);
    }
}

/// The storage engine: it owns one writer at a time for one path and schema,
/// decides how each batch and each seal reaches the file, and rotates to a
/// fresh container after every flush.
pub struct Engine {
    path: String,
    schema: Schema,
    parquet_schema: SchemaDescriptor,
    config: WriteConfig,
    strategy: Strategy,
    state: WriterState,
    disk: Disk,
}

impl View for Engine {
    type V = EngineView;

    closed spec fn view(&self) -> EngineView {
        EngineView {
            path: self.path@,
            schema: self.schema,
            config: self.config@,
            strategy: self.strategy,
            open: self.state is Open,
            row_groups: match self.state {
                WriterState::Open(c) => c.row_groups as nat,
                WriterState::Sealed => 0,
            },
            owns_file: match self.state {
                WriterState::Open(c) => c.owns_file,
                WriterState::Sealed => false,
            },
            disk: self.disk.view(),
        }
    }
}

impl Engine {
    /// Opens an engine on `path` for `schema` with the given strategy. Fails
    /// when the schema cannot be translated to a physical descriptor. The
    /// caller creates the file at the path.
    pub fn open(path: &str, schema: Schema, strategy: Strategy) -> (r: Result<Engine, EngineError>)
        ensures
            r is Ok <==> schema.translatable(),
            r is Err ==> r->Err_0 == EngineError::SchemaTranslation,
            r is Ok ==> r->Ok_0@ == EngineView::opened(path@, schema, strategy),
            r is Ok ==> r->Ok_0@.wf(),
    {
        let parquet_schema = match translate(&schema) {
            Ok(d) => d,
            Err(e) => return Err(e),
        };
        let config = derive_config(schema.fields.len());
        let e = Engine {
            path: path.to_owned(),
            schema,
            parquet_schema,
            config,
            strategy,
            state: WriterState::Open(Container { row_groups: 0, owns_file: true }),
            disk: Disk::Unsealed(0),
        };
        Ok(e)
    }

    /// Accepts one batch as one row group. A batch that does not conform to
    /// the schema is refused with an encoding error and changes nothing.
    pub fn write(&mut self, batch: &Batch) -> (r: Result<WritePlan, EngineError>)
        requires
            old(self)@.wf(),
            old(self)@.open,
            old(self)@.row_groups < usize::MAX,
        ensures
            final(self)@.wf(),
            r is Ok <==> batch.conforms(&old(self)@.schema),
            r is Ok ==> final(self)@ == old(self)@.write_step(),
            r is Ok ==> r->Ok_0 == (WritePlan {
                sink: if old(self)@.strategy == Strategy::File {
                    Sink::File
                } else {
                    Sink::Memory
                },
                create_file: old(self)@.strategy == Strategy::File && !old(self)@.owns_file,
                ordinal: old(self)@.row_groups as usize,
                rows: batch.rows() as usize,
            }),
            r is Err ==> final(self)@ == old(self)@,
            r is Err ==> r->Err_0.is_encoding(),
            r is Err ==> batch.refused_with(&old(self)@.schema, r->Err_0),
    {
        let rows = match batch.check(&self.schema) {
            Ok(n) => n,
            Err(e) => return Err(e),
        };
        let c = match self.state {
            WriterState::Open(c) => c,
            WriterState::Sealed => Container { row_groups: 0, owns_file: false },
        };
        let to_file = match self.strategy {
            Strategy::File => true,
            Strategy::MemoryMerge => false,
        };
        let plan = WritePlan {
            sink: if to_file { Sink::File } else { Sink::Memory },
            create_file: to_file && !c.owns_file,
            ordinal: c.row_groups,
            rows,
        };
        let n = c.row_groups + 1;
        self.state = WriterState::Open(Container { row_groups: n, owns_file: c.owns_file || to_file });
        if to_file {
            self.disk = Disk::Unsealed(n);
        }
        Ok(plan)
    }

    /// Seals the open container. The writer is consumed: the engine holds no
    /// open writer until `rotate`.
    pub fn seal(&mut self) -> (r: SealPlan)
        requires
            old(self)@.wf(),
            old(self)@.open,
        ensures
            final(self)@.wf(),
            final(self)@ == old(self)@.seal_step(),
            r == (SealPlan {
                create_file: old(self)@.strategy == Strategy::MemoryMerge || !old(self)@.owns_file,
                bulk_copy: old(self)@.strategy == Strategy::MemoryMerge,
                row_groups: old(self)@.row_groups as usize,
            }),
    {
        let c = match self.state {
            WriterState::Open(c) => c,
            WriterState::Sealed => Container { row_groups: 0, owns_file: false },
        };
        let buffered = match self.strategy {
            Strategy::File => false,
            Strategy::MemoryMerge => true,
        };
        self.state = WriterState::Sealed;
        self.disk = Disk::Sealed(c.row_groups);
        SealPlan { create_file: buffered || !c.owns_file, bulk_copy: buffered, row_groups: c.row_groups }
    }

    /// Starts a fresh container for the same path, schema and configuration.
    pub fn rotate(&mut self)
        requires
            old(self)@.wf(),
            !old(self)@.open,
        ensures
            final(self)@.wf(),
            final(self)@ == old(self)@.rotate_step(),
    {
        self.state = WriterState::Open(Container { row_groups: 0, owns_file: false });
    }

    pub fn path(&self) -> (r: &str)
        ensures
            r@ == self@.path,
    {
        self.path.as_str()
    }

    pub fn schema(&self) -> (r: &Schema)
        ensures
            *r == self@.schema,
    {
        &self.schema
    }

    pub fn config(&self) -> (r: &WriteConfig)
        ensures
            r@ == self@.config,
    {
        &self.config
    }

    /// The physical descriptor that the schema translated to.
    pub fn parquet_schema(&self) -> &SchemaDescriptor {
        &self.parquet_schema
    }

    pub fn strategy(&self) -> (r: Strategy)
        ensures
            r == self@.strategy,
    {
        self.strategy
    }

    pub fn is_open(&self) -> (r: bool)
        ensures
            r == self@.open,
    {
        match self.state {
            WriterState::Open(_) => true,
            WriterState::Sealed => false,
        }
    }

    /// The row groups of the open container.
    pub fn row_groups(&self) -> (r: usize)
        ensures
            r == self@.row_groups,
    {
        match self.state {
            WriterState::Open(c) => c.row_groups,
            WriterState::Sealed => 0,
        }
    }

    pub fn disk(&self) -> (r: Disk)
        ensures
            r.view() == self@.disk,
    {
        self.disk
    }
}

} // verus!
