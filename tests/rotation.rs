use osm_to_parquet::writer::{
    create_writer_options, OutputCompression, ParquetFileConfig, StreamWriterState, WriteStatistics,
    WriterConfig,
};

/// Writes batches of the given sizes, rotating when a bound is exceeded,
/// and returns the row counts of the files emitted.
fn run(config: ParquetFileConfig, batches: &[usize]) -> Vec<usize> {
    let mut state = StreamWriterState::new(config);
    let mut files = Vec::new();
    for &rows in batches {
        state.record_write(rows);
        if state.flush_due(false, 0) {
            let rows = state.num_rows;
            if state.record_flush() {
                files.push(rows);
            }
        }
    }
    let rows = state.num_rows;
    if state.flush_due(true, 0) && state.record_flush() {
        files.push(rows);
    }
    files
}

#[test]
fn rotation_by_rows() {
    let config = ParquetFileConfig { max_rows_per_file: Some(100), max_file_size_bytes: None };
    let files = run(config, &[40, 40, 40, 40, 40, 40, 10]);
    assert_eq!(files.len(), 3);
    assert_eq!(files.iter().sum::<usize>(), 250);
    assert_eq!(files, vec![120, 120, 10]);
}

#[test]
fn zero_rows_zero_files() {
    let config = ParquetFileConfig { max_rows_per_file: Some(100), max_file_size_bytes: None };
    assert!(run(config, &[]).is_empty());
    let mut state = StreamWriterState::new(config);
    assert!(!state.record_flush());
}

#[test]
fn no_bounds_single_file() {
    let config = ParquetFileConfig { max_rows_per_file: None, max_file_size_bytes: None };
    assert_eq!(run(config, &[1000, 1000, 1000]), vec![3000]);
}

#[test]
fn rotation_by_size() {
    let mut state = StreamWriterState::new(ParquetFileConfig::new());
    assert!(!state.should_flush(1 << 40));
    assert!(state.record_write(5));
    assert!(!state.record_write(5));
    assert!(!state.should_flush(128 * 1024 * 1024));
    assert!(state.should_flush(128 * 1024 * 1024 + 1));
    assert!(state.record_flush());
    assert_eq!(state.num_rows, 0);
    assert!(!state.open);
}

#[test]
fn default_configs() {
    let c = WriterConfig::new();
    assert_eq!(c.max_file_size_bytes, Some(128 * 1024 * 1024));
    assert_eq!(c.buffer_size, 8 * 1024 * 1024);
    assert_eq!(c.max_rows_per_file, None);
    assert_eq!(c.max_row_group_size, None);
    let f = ParquetFileConfig::new();
    assert_eq!(f.max_file_size_bytes, Some(128 * 1024 * 1024));
    assert_eq!(f.max_rows_per_file, None);
    assert_eq!(create_writer_options().compression, OutputCompression::Snappy);
}

#[test]
fn write_statistics_total() {
    let s = WriteStatistics { nodes: 1, ways: 2, relations: 3 };
    assert_eq!(s.total(), 6);
}
