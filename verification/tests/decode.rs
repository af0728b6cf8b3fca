//! End-to-end decode tests over synthetic regions.

use iracing::catalog::{CatalogCache, VariableCatalog};
use iracing::connection::{latest_sample, live_session_info, region_is_connected};
use iracing::disk::DiskConnection;
use iracing::errors::DecodeError;
use iracing::header::Header;
use iracing::region::MemoryRegion;
use iracing::sample::SampleValue;
use iracing::selector::BufferSelector;
use iracing::wait::{classify_wait, outcome_error, TelemetryError, WaitGate, WaitOutcome};

const REGION_LEN: usize = 1800;
const VAR_TABLE_OFF: usize = 200;
const SESSION_OFF: usize = 1360;
const BUF_A_OFF: usize = 1600; // tick 5
const BUF_B_OFF: usize = 1700; // tick 7 (freshest)
const BUF_LEN: usize = 64;

const GOOD_YAML: &[u8] = b"TrackName: caf\xE9\nTrackId: 42\n";

fn put_u32(b: &mut [u8], off: usize, v: u32) {
    b[off..off + 4].copy_from_slice(&v.to_le_bytes());
}

fn put_bytes(b: &mut [u8], off: usize, s: &[u8]) {
    b[off..off + s.len()].copy_from_slice(s);
}

struct VarSpec {
    name: &'static str,
    tag: u32,
    offset: u32,
    count: u32,
}

fn standard_vars() -> Vec<VarSpec> {
    vec![
        VarSpec { name: "Brake", tag: 4, offset: 0, count: 1 },
        VarSpec { name: "Gear", tag: 2, offset: 4, count: 1 },
        VarSpec { name: "SessionFlags", tag: 3, offset: 8, count: 1 },
        VarSpec { name: "IsOnTrack", tag: 1, offset: 12, count: 1 },
        VarSpec { name: "DriverName", tag: 0, offset: 13, count: 8 },
        VarSpec { name: "LapTimes", tag: 5, offset: 24, count: 2 },
        VarSpec { name: "Temps", tag: 2, offset: 40, count: 3 },
        VarSpec { name: "SessionTime", tag: 5, offset: 52, count: 1 },
    ]
}

fn write_var_table(b: &mut [u8], vars: &[VarSpec]) {
    for (i, v) in vars.iter().enumerate() {
        let base = VAR_TABLE_OFF + 144 * i;
        put_u32(b, base, v.tag);
        put_u32(b, base + 4, v.offset);
        put_u32(b, base + 8, v.count);
        put_bytes(b, base + 16, v.name.as_bytes());
        put_bytes(b, base + 48, b"u");
        put_bytes(b, base + 80, b"test variable");
    }
}

fn write_sample_payload(b: &mut [u8], base: usize) {
    put_u32(b, base, 0.25f32.to_bits());
    put_u32(b, base + 4, (-1i32) as u32);
    put_u32(b, base + 8, 0xA5A5_0001);
    b[base + 12] = 1;
    put_bytes(b, base + 13, b"MAX\0\0\0\0\0");
    b[base + 24..base + 32].copy_from_slice(&1.5f64.to_bits().to_le_bytes());
    b[base + 32..base + 40].copy_from_slice(&(-2.25f64).to_bits().to_le_bytes());
    put_u32(b, base + 40, 10i32 as u32);
    put_u32(b, base + 44, (-20i32) as u32);
    put_u32(b, base + 48, 30i32 as u32);
    b[base + 52..base + 60].copy_from_slice(&3.75f64.to_bits().to_le_bytes());
}

fn write_header(b: &mut [u8], vars: &[VarSpec], yaml: &[u8], ticks: (u32, u32)) {
    put_u32(b, 0, 2); // version
    put_u32(b, 4, 1); // status: connected
    put_u32(b, 8, 60); // tick rate
    put_u32(b, 12, 1); // session info update count
    put_u32(b, 16, yaml.len() as u32);
    put_u32(b, 20, SESSION_OFF as u32);
    put_u32(b, 24, vars.len() as u32);
    put_u32(b, 28, VAR_TABLE_OFF as u32);
    put_u32(b, 32, 2); // buffer count
    put_u32(b, 36, BUF_LEN as u32);
    put_u32(b, 40, ticks.0);
    put_u32(b, 44, BUF_A_OFF as u32);
    put_u32(b, 48, ticks.1);
    put_u32(b, 52, BUF_B_OFF as u32);
}

fn live_region_bytes() -> Vec<u8> {
    let mut b = vec![0u8; REGION_LEN];
    let vars = standard_vars();
    write_header(&mut b, &vars, GOOD_YAML, (5, 7));
    write_var_table(&mut b, &vars);
    put_bytes(&mut b, SESSION_OFF, GOOD_YAML);
    // Stale buffer holds different values so selection is observable.
    put_u32(&mut b, BUF_A_OFF, 0.75f32.to_bits());
    write_sample_payload(&mut b, BUF_B_OFF);
    b
}

#[test]
fn header_parse_fields() {
    let region = MemoryRegion::from_bytes(live_region_bytes());
    let h = Header::parse(&region).unwrap();
    assert_eq!(h.version, 2);
    assert_eq!(h.status, 1);
    assert!(h.is_connected());
    assert_eq!(h.tick_rate, 60);
    assert_eq!(h.variable_count, 8);
    assert_eq!(h.variable_header_offset, VAR_TABLE_OFF as u32);
    assert_eq!(h.buffer_count, 2);
    assert_eq!(h.buffer_length, BUF_LEN as u32);
    assert_eq!(h.buffers.len(), 4);
    assert_eq!(h.buffers[0].tick, 5);
    assert_eq!(h.buffers[1].tick, 7);
    assert_eq!(h.buffers[1].buffer_offset, BUF_B_OFF as u32);
    assert_eq!(region_is_connected(&region), Ok(true));
}

#[test]
fn picks_freshest_buffer() {
    let region = MemoryRegion::from_bytes(live_region_bytes());
    let sample = latest_sample(&region).unwrap();
    assert_eq!(sample.tick, 7);
    assert!(!sample.possibly_stale);
    // Values come from the tick-7 buffer, not the stale tick-5 one.
    assert_eq!(sample.get_float32_bits("Brake"), Ok(0.25f32.to_bits()));
}

#[test]
fn round_trip_all_types() {
    let region = MemoryRegion::from_bytes(live_region_bytes());
    let sample = latest_sample(&region).unwrap();
    assert_eq!(sample.get("Brake"), Ok(SampleValue::Float32Bits(0.25f32.to_bits())));
    assert_eq!(sample.get("Gear"), Ok(SampleValue::Int32(-1)));
    assert_eq!(sample.get("SessionFlags"), Ok(SampleValue::Bitfield(0xA5A5_0001)));
    assert_eq!(sample.get("IsOnTrack"), Ok(SampleValue::Bool(true)));
    assert_eq!(sample.get("DriverName"), Ok(SampleValue::Text("MAX".to_string())));
    assert_eq!(
        sample.get("LapTimes"),
        Ok(SampleValue::Float64BitsArray(vec![1.5f64.to_bits(), (-2.25f64).to_bits()]))
    );
    assert_eq!(sample.get("Temps"), Ok(SampleValue::Int32Array(vec![10, -20, 30])));
    assert_eq!(sample.get("SessionTime"), Ok(SampleValue::Float64Bits(3.75f64.to_bits())));
    assert_eq!(f32::from_bits(0.25f32.to_bits()), 0.25f32);
    assert_eq!(f64::from_bits(3.75f64.to_bits()), 3.75f64);
}

#[test]
fn typed_getters_and_mismatches() {
    let region = MemoryRegion::from_bytes(live_region_bytes());
    let sample = latest_sample(&region).unwrap();
    assert_eq!(sample.get_int32("Gear"), Ok(-1));
    assert_eq!(sample.get_bool("IsOnTrack"), Ok(true));
    assert_eq!(sample.get_bitfield("SessionFlags"), Ok(0xA5A5_0001));
    assert_eq!(sample.get_float64_bits("SessionTime"), Ok(3.75f64.to_bits()));
    assert_eq!(sample.get_text("DriverName"), Ok("MAX".to_string()));
    assert_eq!(sample.get_int32("Brake"), Err(DecodeError::TypeMismatch));
    assert_eq!(sample.get_float64_bits("LapTimes"), Err(DecodeError::TypeMismatch));
    assert_eq!(sample.get_bool("Nope"), Err(DecodeError::NotFound));
    assert_eq!(sample.get("Nope"), Err(DecodeError::NotFound));
}

#[test]
fn selector_confirms_unchanged_tick() {
    let region = MemoryRegion::from_bytes(live_region_bytes());
    let header = Header::parse(&region).unwrap();
    let mut selector = BufferSelector::new();
    assert!(selector.step(&region, &header).unwrap().is_none());
    let selected = selector.step(&region, &header).unwrap().unwrap();
    assert_eq!(selected.tick, 7);
    assert!(!selected.possibly_stale);
}

#[test]
fn selector_retries_then_marks_stale() {
    // Each read observes a newer tick in the freshest slot, as if the
    // producer kept overwriting it mid-copy.
    let reads: Vec<Vec<u8>> = [10u32, 20, 30, 40]
        .iter()
        .map(|t| {
            let mut b = live_region_bytes();
            put_u32(&mut b, 48, *t);
            b
        })
        .collect();
    let regions: Vec<MemoryRegion> =
        reads.into_iter().map(MemoryRegion::from_bytes).collect();
    let mut selector = BufferSelector::new();
    let h0 = Header::parse(&regions[0]).unwrap();
    assert!(selector.step(&regions[0], &h0).unwrap().is_none());
    let h1 = Header::parse(&regions[1]).unwrap();
    assert!(selector.step(&regions[1], &h1).unwrap().is_none());
    let h2 = Header::parse(&regions[2]).unwrap();
    assert!(selector.step(&regions[2], &h2).unwrap().is_none());
    let h3 = Header::parse(&regions[3]).unwrap();
    let selected = selector.step(&regions[3], &h3).unwrap().unwrap();
    assert!(selected.possibly_stale);
    assert_eq!(selected.tick, 30); // the last copy taken before giving up
}

#[test]
fn session_document_keeps_high_bit_byte() {
    let region = MemoryRegion::from_bytes(live_region_bytes());
    let document = live_session_info(&region).unwrap();
    let track = document.get("TrackName").unwrap().as_str().unwrap();
    assert_eq!(track, "caf\u{e9}");
    assert_eq!(document.get("TrackId").unwrap().as_u64(), Some(42));
}

#[test]
fn session_document_parse_failure_is_reported() {
    let bad_yaml = b"{unclosed: [";
    let mut b = vec![0u8; REGION_LEN];
    let vars = standard_vars();
    write_header(&mut b, &vars, bad_yaml, (5, 7));
    write_var_table(&mut b, &vars);
    put_bytes(&mut b, SESSION_OFF, bad_yaml);
    let region = MemoryRegion::from_bytes(b);
    match live_session_info(&region) {
        Err(DecodeError::InvalidSessionDocument(msg)) => assert!(!msg.is_empty()),
        other => panic!("expected InvalidSessionDocument, got {:?}", other),
    }
}

#[test]
fn closed_region_refuses_every_operation() {
    let mut region = MemoryRegion::from_bytes(live_region_bytes());
    region.close();
    assert!(matches!(Header::parse(&region), Err(DecodeError::ClosedRegion)));
    assert!(matches!(latest_sample(&region), Err(DecodeError::ClosedRegion)));
    assert!(matches!(live_session_info(&region), Err(DecodeError::ClosedRegion)));
    assert!(matches!(DiskConnection::open(&region), Err(DecodeError::ClosedRegion)));
}

#[test]
fn short_region_is_malformed() {
    let region = MemoryRegion::from_bytes(vec![0u8; 10]);
    assert!(matches!(Header::parse(&region), Err(DecodeError::MalformedRegion)));
    assert!(matches!(latest_sample(&region), Err(DecodeError::MalformedRegion)));
}

#[test]
fn catalog_rejects_inconsistent_tables() {
    // Table past the end of the region.
    let mut b = live_region_bytes();
    put_u32(&mut b, 28, (REGION_LEN - 10) as u32);
    let region = MemoryRegion::from_bytes(b);
    let h = Header::parse(&region).unwrap();
    assert!(matches!(
        VariableCatalog::build(&region, &h),
        Err(DecodeError::MalformedRegion)
    ));

    // Unknown type tag.
    let mut b = live_region_bytes();
    put_u32(&mut b, VAR_TABLE_OFF, 9);
    let region = MemoryRegion::from_bytes(b);
    let h = Header::parse(&region).unwrap();
    assert!(matches!(
        VariableCatalog::build(&region, &h),
        Err(DecodeError::MalformedRegion)
    ));

    // Zero element count.
    let mut b = live_region_bytes();
    put_u32(&mut b, VAR_TABLE_OFF + 8, 0);
    let region = MemoryRegion::from_bytes(b);
    let h = Header::parse(&region).unwrap();
    assert!(matches!(
        VariableCatalog::build(&region, &h),
        Err(DecodeError::MalformedRegion)
    ));

    // Descriptor range past the declared buffer length.
    let mut b = live_region_bytes();
    put_u32(&mut b, VAR_TABLE_OFF + 4, 60); // a float32 at 60 ends at 64; make it f64
    put_u32(&mut b, VAR_TABLE_OFF, 5);
    let region = MemoryRegion::from_bytes(b);
    let h = Header::parse(&region).unwrap();
    assert!(matches!(
        VariableCatalog::build(&region, &h),
        Err(DecodeError::MalformedRegion)
    ));
}

#[test]
fn catalog_descriptors_lie_inside_buffer() {
    let region = MemoryRegion::from_bytes(live_region_bytes());
    let h = Header::parse(&region).unwrap();
    let catalog = VariableCatalog::build(&region, &h).unwrap();
    assert_eq!(catalog.vars.len(), 8);
    for d in &catalog.vars {
        let width: u64 = match d.var_type {
            iracing::catalog::VariableType::Char => 1,
            iracing::catalog::VariableType::Bool => 1,
            iracing::catalog::VariableType::Int32 => 4,
            iracing::catalog::VariableType::Bitfield32 => 4,
            iracing::catalog::VariableType::Float32 => 4,
            iracing::catalog::VariableType::Float64 => 8,
        };
        assert!(d.offset as u64 + width * d.count as u64 <= h.buffer_length as u64);
    }
    let d = catalog.lookup("DriverName").unwrap();
    assert_eq!(d.count, 8);
    assert_eq!(d.unit, "u");
    assert_eq!(d.description, "test variable");
    assert!(catalog.lookup("drivername").is_none()); // case-sensitive
}

#[test]
fn catalog_cache_rebuilds_on_schema_change() {
    let region_a = MemoryRegion::from_bytes(live_region_bytes());
    let header_a = Header::parse(&region_a).unwrap();

    // Same table, one variable fewer: a different (offset, count) pair.
    let mut b = vec![0u8; REGION_LEN];
    let mut vars = standard_vars();
    vars.pop();
    write_header(&mut b, &vars, GOOD_YAML, (5, 7));
    write_var_table(&mut b, &vars);
    put_bytes(&mut b, SESSION_OFF, GOOD_YAML);
    let region_b = MemoryRegion::from_bytes(b);
    let header_b = Header::parse(&region_b).unwrap();

    let mut cache = CatalogCache::new();
    let (catalog, rebuilt) = cache.catalog_for(&region_a, &header_a).unwrap();
    assert!(rebuilt);
    assert_eq!(catalog.vars.len(), 8);

    let (catalog, rebuilt) = cache.catalog_for(&region_a, &header_a).unwrap();
    assert!(!rebuilt);
    assert_eq!(catalog.vars.len(), 8);

    let (catalog, rebuilt) = cache.catalog_for(&region_b, &header_b).unwrap();
    assert!(rebuilt);
    assert_eq!(catalog.vars.len(), 7);
}

fn disk_region_bytes(sample_count: u32) -> Vec<u8> {
    let mut b = vec![0u8; REGION_LEN];
    let vars = standard_vars();
    write_header(&mut b, &vars, GOOD_YAML, (0, 0));
    put_u32(&mut b, 32, 1); // one buffer, unused for disk decoding
    // Sub-header.
    put_u32(&mut b, 72, SESSION_OFF as u32);
    put_u32(&mut b, 76, GOOD_YAML.len() as u32);
    put_u32(&mut b, 80, sample_count);
    put_u32(&mut b, 84, BUF_A_OFF as u32);
    put_u32(&mut b, 88, BUF_LEN as u32);
    write_var_table(&mut b, &vars);
    put_bytes(&mut b, SESSION_OFF, GOOD_YAML);
    // Three sequential sample records; the last one carries the payload.
    put_u32(&mut b, BUF_A_OFF, 0.1f32.to_bits());
    put_u32(&mut b, BUF_A_OFF + BUF_LEN, 0.2f32.to_bits());
    write_sample_payload(&mut b, BUF_A_OFF + 2 * BUF_LEN);
    b
}

#[test]
fn disk_reader_decodes_samples_by_index() {
    let region = MemoryRegion::from_bytes(disk_region_bytes(3));
    let connection = DiskConnection::open(&region).unwrap();
    assert_eq!(connection.sub.sample_count, 3);
    assert_eq!(connection.sub.sample_stride, BUF_LEN as u32);

    assert!(matches!(
        connection.sample_at(&region, 3),
        Err(DecodeError::IndexOutOfRange)
    ));

    let sample = connection.sample_at(&region, 2).unwrap();
    assert_eq!(sample.tick, 2);
    assert!(!sample.possibly_stale);
    assert_eq!(sample.get_int32("Gear"), Ok(-1));
    assert_eq!(sample.get_text("DriverName"), Ok("MAX".to_string()));

    let first = connection.sample_at(&region, 0).unwrap();
    assert_eq!(first.get_float32_bits("Brake"), Ok(0.1f32.to_bits()));

    let document = connection.session_info(&region).unwrap();
    assert_eq!(
        document.get("TrackName").unwrap().as_str(),
        Some("caf\u{e9}")
    );
}

#[test]
fn disk_reader_reports_truncated_file() {
    // The sub-header declares four samples but the region holds three.
    let region = MemoryRegion::from_bytes(disk_region_bytes(4));
    let connection = DiskConnection::open(&region).unwrap();
    assert!(matches!(
        connection.sample_at(&region, 3),
        Err(DecodeError::TruncatedFile)
    ));
    assert!(connection.sample_at(&region, 2).is_ok());
}

#[test]
fn wait_codes_classify_into_closed_outcome_set() {
    assert_eq!(classify_wait(0x102, 50, 0), WaitOutcome::TimedOut(50));
    assert_eq!(classify_wait(0, 50, 0), WaitOutcome::Signaled);
    assert_eq!(classify_wait(0x80, 50, 0), WaitOutcome::Abandoned);
    assert_eq!(classify_wait(0xFFFF_FFFF, 50, 6), WaitOutcome::PlatformError(6));
    assert_eq!(classify_wait(0x42, 50, 0), WaitOutcome::PlatformError(0x42));

    assert_eq!(outcome_error(WaitOutcome::Signaled), None);
    assert_eq!(
        outcome_error(WaitOutcome::TimedOut(50)),
        Some(TelemetryError::TIMEOUT(50))
    );
    assert_eq!(
        outcome_error(WaitOutcome::Abandoned),
        Some(TelemetryError::ABANDONED)
    );
    assert_eq!(
        outcome_error(WaitOutcome::PlatformError(9)),
        Some(TelemetryError::UNKNOWN(9))
    );
}

#[test]
fn telemetry_errors_describe_themselves() {
    assert_eq!(TelemetryError::ABANDONED.describe(), "Abandoned");
    assert_eq!(TelemetryError::TIMEOUT(50).describe(), "Timeout after 50ms");
    assert_eq!(TelemetryError::UNKNOWN(0x2A).describe(), "Unknown error code = 2a");
}

#[test]
fn wait_gate_resets_on_signal_and_sticks_on_abandonment() {
    let mut gate = WaitGate::new();
    assert!(gate.can_wait());
    let (outcome, reset) = gate.on_wait_result(0, 16, 0);
    assert_eq!(outcome, WaitOutcome::Signaled);
    assert!(reset);
    let (outcome, reset) = gate.on_wait_result(0x102, 16, 0);
    assert_eq!(outcome, WaitOutcome::TimedOut(16));
    assert!(!reset);
    assert!(gate.can_wait());
    let (outcome, reset) = gate.on_wait_result(0x80, 16, 0);
    assert_eq!(outcome, WaitOutcome::Abandoned);
    assert!(!reset);
    assert!(!gate.can_wait());
}
