//! Configuration of the columnar writers and the rotation policy of a
//! streaming writer: when a target is opened, when it is due to be closed,
//! and whether a closed target is emitted.

use vstd::prelude::*;

verus! {

/// The general-purpose compressor applied to column chunks.
#[derive(Debug, Clone, Copy, PartialEq, Eq, Structural)]
pub enum OutputCompression {
    Uncompressed,
    Snappy,
}

/// Encoder options of the columnar output.
#[derive(Debug, Clone, Copy, PartialEq, Eq, Structural)]
pub struct WriterOptions {
    pub compression: OutputCompression,
}

/// The default encoder options: Snappy-compressed column chunks.
pub fn create_writer_options() -> (r: WriterOptions)
    ensures
        r.compression == OutputCompression::Snappy,
{
    WriterOptions { compression: OutputCompression::Snappy }
}

/// 128 MiB, the default bound on the size of one output file.
pub const DEFAULT_MAX_FILE_SIZE: usize = 134217728;

/// 8 MiB, the default size of an output buffer.
pub const DEFAULT_BUFFER_SIZE: usize = 8388608;

/// Configuration of a writer that spreads its rows over several files.
#[derive(Debug, Clone, Copy, PartialEq, Eq, Structural)]
pub struct WriterConfig {
    pub max_row_group_size: Option<usize>,
    pub max_rows_per_file: Option<usize>,
    pub max_file_size_bytes: Option<usize>,
    pub buffer_size: usize,
}

impl WriterConfig {
    /// Files of at most 128 MiB, no row bound, 8 MiB buffers.
    pub fn new() -> (r: Self)
        ensures
            r.max_row_group_size is None,
            r.max_rows_per_file is None,
            r.max_file_size_bytes == Some(DEFAULT_MAX_FILE_SIZE),
            r.buffer_size == DEFAULT_BUFFER_SIZE,
    {
        WriterConfig {
            max_row_group_size: None,
            max_rows_per_file: None,
            max_file_size_bytes: Some(DEFAULT_MAX_FILE_SIZE),
            buffer_size: DEFAULT_BUFFER_SIZE,
        }
    }
}

/// Rows written per element kind.
#[derive(Debug, Clone, Copy, Default, PartialEq, Eq, Structural)]
pub struct WriteStatistics {
    pub nodes: usize,
    pub ways: usize,
    pub relations: usize,
}

impl WriteStatistics {
    pub fn total(&self) -> (r: usize)
        requires
            self.nodes + self.ways + self.relations <= usize::MAX,
        ensures
            r == self.nodes + self.ways + self.relations,
    {
        self.nodes + self.ways + self.relations
    }
}

/// The rotation thresholds of a streaming writer. Either bound may be
/// absent; with neither, one target takes the whole run.
#[derive(Debug, Clone, Copy, PartialEq, Eq, Structural)]
pub struct ParquetFileConfig {
    pub max_rows_per_file: Option<usize>,
    pub max_file_size_bytes: Option<usize>,
}

impl ParquetFileConfig {
    /// Targets of at most 128 MiB, no row bound.
    pub fn new() -> (r: Self)
        ensures
            r.max_rows_per_file is None,
            r.max_file_size_bytes == Some(DEFAULT_MAX_FILE_SIZE),
    {
        ParquetFileConfig { max_rows_per_file: None, max_file_size_bytes: Some(DEFAULT_MAX_FILE_SIZE) }
    }
}

/// A threshold is exceeded: `value` lies beyond a bound that is set.
pub open spec fn exceeds(value: int, bound: Option<usize>) -> bool {
    bound matches Some(m) && value > m
}

/// The rotation state of one streaming writer: whether a target is open
/// and how many rows it holds.
#[derive(Debug, Clone, Copy, PartialEq, Eq, Structural)]
pub struct StreamWriterState {
    pub config: ParquetFileConfig,
    pub open: bool,
    pub num_rows: usize,
}

impl StreamWriterState {
    /// A writer with no open target.
    pub fn new(config: ParquetFileConfig) -> (r: Self)
        ensures
            r.config == config,
            !r.open,
            r.num_rows == 0,
    {
        StreamWriterState { config, open: false, num_rows: 0 }
    }

    /// Records a write of `rows` rows. Returns whether a new target must
    /// be opened for it first: exactly when none is open.
    pub fn record_write(&mut self, rows: usize) -> (opens: bool)
        requires
            old(self).num_rows + rows <= usize::MAX,
        ensures
            opens == !old(self).open,
            final(self).open,
            final(self).num_rows == old(self).num_rows + rows,
            final(self).config == old(self).config,
    {
        let opens = !self.open;
        self.open = true;
        self.num_rows = self.num_rows + rows;
        opens
    }

    /// Whether the open target is due to be rotated, given the bytes it has
    /// written and holds in flight: a target is open and its size or its
    /// row count exceeds its bound.
    pub fn should_flush(&self, bytes_in_flight: usize) -> (r: bool)
        ensures
            r == (self.open && (exceeds(bytes_in_flight as int, self.config.max_file_size_bytes)
                || exceeds(self.num_rows as int, self.config.max_rows_per_file))),
    {
        if !self.open {
            return false;
        }
        if let Some(max_file_size) = self.config.max_file_size_bytes {
            if bytes_in_flight > max_file_size {
                return true;
            }
        }
        if let Some(max_rows) = self.config.max_rows_per_file {
            if self.num_rows > max_rows {
                return true;
            }
        }
        false
    }

    /// Whether the target is to be finished now: always where `force` is
    /// set, else as `should_flush` says.
    pub fn flush_due(&self, force: bool, bytes_in_flight: usize) -> (r: bool)
        ensures
            r == (force || (self.open && (exceeds(
                bytes_in_flight as int,
                self.config.max_file_size_bytes,
            ) || exceeds(self.num_rows as int, self.config.max_rows_per_file)))),
    {
        force || self.should_flush(bytes_in_flight)
    }

    /// Closes the open target. Returns whether its bytes are emitted:
    /// exactly when a target was open and holds rows, so that no empty
    /// file is ever produced.
    pub fn record_flush(&mut self) -> (emits: bool)
        ensures
            emits == (old(self).open && old(self).num_rows > 0),
            !final(self).open,
            final(self).num_rows == 0,
            final(self).config == old(self).config,
    {
        let emits = self.open && self.num_rows > 0;
        self.open = false;
        self.num_rows = 0;
        emits
    }
}

} // verus!
