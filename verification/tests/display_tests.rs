use dot_matrix::display::{BusError, BusEvent, Matrix, MatrixBus, RecordingBus};

/// A bus that fails a fixed number of operations before recovering.
struct FlakyBus {
    failures_left: usize,
    log: Vec<BusEvent>,
}

impl MatrixBus for FlakyBus {
    fn events(&self) -> vstd::seq::Seq<BusEvent> {
        unreachable!()
    }

    fn select(&mut self) -> Result<(), BusError> {
        if self.failures_left > 0 {
            self.failures_left -= 1;
            return Err(BusError);
        }
        self.log.push(BusEvent::Select);
        Ok(())
    }

    fn write_command(&mut self, address: u8, value: u8) -> Result<(), BusError> {
        if self.failures_left > 0 {
            self.failures_left -= 1;
            return Err(BusError);
        }
        self.log.push(BusEvent::Command(address, value));
        Ok(())
    }

    fn deselect(&mut self) -> Result<(), BusError> {
        if self.failures_left > 0 {
            self.failures_left -= 1;
            return Err(BusError);
        }
        self.log.push(BusEvent::Deselect);
        Ok(())
    }
}

#[test]
fn new_rejects_mismatched_buffer_size() {
    assert!(Matrix::new(RecordingBus::new(), 100, 2).is_err());
    assert!(Matrix::new(RecordingBus::new(), 128, 1).is_err());
    assert!(Matrix::new(RecordingBus::new(), 128, 2).is_ok());
    assert!(Matrix::new(RecordingBus::new(), 64, 1).is_ok());
    assert!(Matrix::new(RecordingBus::new(), 0, 0).is_ok());
}

#[test]
fn flush_is_idempotent() {
    let mut matrix = Matrix::new(RecordingBus::new(), 64, 1).unwrap();
    matrix.set(0, 1);
    matrix.set(13, 1);
    matrix.set(63, 1);
    matrix.flush().unwrap();
    let events_after_first = matrix.bus().recorded().len();
    matrix.flush().unwrap();
    let events_after_second = matrix.bus().recorded().len();
    assert_eq!(events_after_first, events_after_second);
}

#[test]
fn set_out_of_range_is_ignored() {
    let mut matrix = Matrix::new(RecordingBus::new(), 64, 1).unwrap();
    matrix.set(0, 1);
    matrix.set(64, 9);
    matrix.set(100000, 3);
    matrix.flush().unwrap();
    let events = matrix.bus().recorded();
    // Row 0 carries the single lit pixel (column 0 -> bit 7); no frame may
    // carry the out-of-range values 9 or 3.
    assert_eq!(events[0], BusEvent::Select);
    assert_eq!(events[1], BusEvent::Command(1, 0b1000_0000));
    assert_eq!(events[2], BusEvent::Deselect);
    for event in events.iter() {
        if let BusEvent::Command(_, value) = event {
            assert!(*value == 0 || *value == 0b1000_0000);
        }
    }
}

#[test]
fn out_of_range_set_alone_keeps_buffer_clean() {
    let mut matrix = Matrix::new(RecordingBus::new(), 64, 1).unwrap();
    assert!(!matrix.is_dirty());
    matrix.set(64, 1);
    assert!(!matrix.is_dirty());
    matrix.flush().unwrap();
    assert_eq!(matrix.bus().recorded().len(), 0);
}

#[test]
fn initialize_emits_bring_up_then_blank_frame() {
    let mut matrix = Matrix::new(RecordingBus::new(), 64, 1).unwrap();
    matrix.initialize().unwrap();
    let events = matrix.bus().recorded();
    let mut expected: Vec<BusEvent> = Vec::new();
    for (address, value) in [(0xC, 1), (0x9, 0), (0xB, 7), (0xA, 0xF)] {
        expected.push(BusEvent::Select);
        expected.push(BusEvent::Command(address, value));
        expected.push(BusEvent::Deselect);
    }
    for row in 0..8u8 {
        expected.push(BusEvent::Select);
        expected.push(BusEvent::Command(row + 1, 0));
        expected.push(BusEvent::Deselect);
    }
    assert_eq!(events, &expected);
    assert!(!matrix.is_dirty());
}

#[test]
fn border_pattern_on_two_panels() {
    let mut matrix = Matrix::new(RecordingBus::new(), 128, 2).unwrap();
    for index in 0..8 {
        matrix.set(index, 1);
    }
    for index in 120..128 {
        matrix.set(index, 1);
    }
    matrix.flush().unwrap();
    let events = matrix.bus().recorded();
    // Indices 0..8 light column 0 of panel 0 and 120..128 column 7 of
    // panel 1, so every row frame carries (0x80, 0x01) across the chain.
    assert_eq!(events.len(), 8 * 4);
    for row in 0..8usize {
        let frame = &events[row * 4..row * 4 + 4];
        assert_eq!(frame[0], BusEvent::Select);
        assert_eq!(frame[1], BusEvent::Command(row as u8 + 1, 0b1000_0000));
        assert_eq!(frame[2], BusEvent::Command(row as u8 + 1, 0b0000_0001));
        assert_eq!(frame[3], BusEvent::Deselect);
    }
}

#[test]
fn clear_blanks_and_flushes() {
    let mut matrix = Matrix::new(RecordingBus::new(), 64, 1).unwrap();
    matrix.fill(5);
    matrix.clear().unwrap();
    assert!(!matrix.is_dirty());
    let events = matrix.bus().recorded();
    // The fill never reached the bus; the clear writes one blank frame.
    assert_eq!(events.len(), 8 * 3);
    for event in events.iter() {
        if let BusEvent::Command(_, value) = event {
            assert_eq!(*value, 0);
        }
    }
}

#[test]
fn failed_flush_keeps_dirty_and_retries_whole_frame() {
    let bus = FlakyBus { failures_left: 1, log: Vec::new() };
    let mut matrix = Matrix::new(bus, 64, 1).unwrap();
    matrix.set(0, 1);
    assert!(matrix.flush().is_err());
    assert!(matrix.is_dirty());
    // The retry repaints the complete frame: all 8 rows.
    matrix.flush().unwrap();
    assert!(!matrix.is_dirty());
    let selects = matrix
        .bus()
        .log
        .iter()
        .filter(|event| matches!(event, BusEvent::Select))
        .count();
    assert_eq!(selects, 8);
}

/// A bus that succeeds a fixed number of operations, then fails exactly
/// one, then recovers.
struct MidFailBus {
    ok_left: usize,
    failed_once: bool,
    log: Vec<BusEvent>,
}

impl MatrixBus for MidFailBus {
    fn events(&self) -> vstd::seq::Seq<BusEvent> {
        unreachable!()
    }

    fn select(&mut self) -> Result<(), BusError> {
        if self.ok_left == 0 && !self.failed_once {
            self.failed_once = true;
            return Err(BusError);
        }
        self.ok_left = self.ok_left.saturating_sub(1);
        self.log.push(BusEvent::Select);
        Ok(())
    }

    fn write_command(&mut self, address: u8, value: u8) -> Result<(), BusError> {
        if self.ok_left == 0 && !self.failed_once {
            self.failed_once = true;
            return Err(BusError);
        }
        self.ok_left = self.ok_left.saturating_sub(1);
        self.log.push(BusEvent::Command(address, value));
        Ok(())
    }

    fn deselect(&mut self) -> Result<(), BusError> {
        if self.ok_left == 0 && !self.failed_once {
            self.failed_once = true;
            return Err(BusError);
        }
        self.ok_left = self.ok_left.saturating_sub(1);
        self.log.push(BusEvent::Deselect);
        Ok(())
    }
}

#[test]
fn mid_frame_failure_stops_the_frame() {
    // The failure hits the fifth operation: mid-way through row 1's frame.
    let bus = MidFailBus { ok_left: 4, failed_once: false, log: Vec::new() };
    let mut matrix = Matrix::new(bus, 64, 1).unwrap();
    matrix.set(0, 1);
    assert!(matrix.flush().is_err());
    assert!(matrix.is_dirty());
    // Exactly the four successful operations made it out: a prefix of the
    // intended frame traffic, nothing after the failing operation.
    let mut full_frame: Vec<BusEvent> = Vec::new();
    for row in 0..8u8 {
        full_frame.push(BusEvent::Select);
        full_frame.push(BusEvent::Command(row + 1, if row == 0 { 0x80 } else { 0 }));
        full_frame.push(BusEvent::Deselect);
    }
    assert_eq!(matrix.bus().log.len(), 4);
    assert_eq!(matrix.bus().log, full_frame[..4].to_vec());
    // The retry repaints the complete frame after the prefix.
    matrix.flush().unwrap();
    assert!(!matrix.is_dirty());
    assert_eq!(matrix.bus().log[4..].to_vec(), full_frame);
}

#[test]
fn buffer_length_matches_configuration() {
    let matrix = Matrix::new(RecordingBus::new(), 128, 2).unwrap();
    assert_eq!(matrix.buffer_length(), 128);
}
