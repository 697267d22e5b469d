//! The display cache and protocol driver for a chain of 8x8 LED-matrix
//! panels.
//!
//! [`Matrix`] owns the logical pixel buffer and a dirty flag, and talks to
//! the panels through a [`MatrixBus`]: the bus-write and chain-select
//! capability the host supplies. Every byte the driver puts on the bus is
//! specified exactly as a sequence of [`BusEvent`]s, so that the wire
//! traffic of `initialize` and `flush` is pinned down by their contracts.
//!
//! A flush walks the 8 physical rows; for each row it selects the chain,
//! writes one two-byte `(row address, row data)` command per panel in chain
//! order (panel 0 first), and deselects, which latches the pending bytes.
//! The dirty flag is cleared only when every write succeeded; after a
//! failure it stays set, so the next flush repaints the complete frame.

use vstd::prelude::*;

use crate::geometry;
use crate::registers::{DecodeMode, Intensity, Mode, RegisterAddressMap, ScanLimit};

verus! {

/// A failure of the underlying bus transport or select line.
#[derive(Clone, Copy, Debug, PartialEq, Eq, Structural)]
pub struct BusError;

/// A buffer-size / panel-count mismatch, rejected at construction.
#[derive(Clone, Copy, Debug, PartialEq, Eq, Structural)]
pub struct ConfigError;

/// One observable step of bus traffic: the chain-select line falling, a
/// two-byte `(register address, value)` command, or the select line rising
/// again, which commits the pending bytes across the chain.
#[derive(Clone, Copy, Debug, PartialEq, Eq, Structural)]
pub enum BusEvent {
    Select,
    Command(u8, u8),
    Deselect,
}

/// The bus transport and chain-select capability the host hands to the
/// driver. `events` is the model of all traffic issued so far: a
/// successful operation appends exactly its own event, and a failed one
/// appends at most its own event — the transaction either never reached
/// the wire or went out as stated — so an aborted command sequence leaves
/// a prefix of the intended traffic and nothing else.
pub trait MatrixBus: Sized {
    /// All traffic issued through this bus so far.
    spec fn events(&self) -> Seq<BusEvent>;

    /// Pulls the chain-select/latch line low, opening a command sequence.
    fn select(&mut self) -> (r: Result<(), BusError>)
        ensures
            r is Ok ==> final(self).events() == old(self).events().push(BusEvent::Select),
            r is Err ==> final(self).events() == old(self).events() || final(self).events()
                == old(self).events().push(BusEvent::Select),
    ;

    /// Writes one two-byte command for the currently selected chain.
    fn write_command(&mut self, address: u8, value: u8) -> (r: Result<(), BusError>)
        ensures
            r is Ok ==> final(self).events() == old(self).events().push(
                BusEvent::Command(address, value),
            ),
            r is Err ==> final(self).events() == old(self).events() || final(self).events()
                == old(self).events().push(BusEvent::Command(address, value)),
    ;

    /// Releases the chain-select/latch line, committing the pending bytes.
    fn deselect(&mut self) -> (r: Result<(), BusError>)
        ensures
            r is Ok ==> final(self).events() == old(self).events().push(BusEvent::Deselect),
            r is Err ==> final(self).events() == old(self).events() || final(self).events()
                == old(self).events().push(BusEvent::Deselect),
    ;
}

/// An in-memory bus that records every event and always succeeds. It backs
/// tests and host-side simulation of the display chain.
pub struct RecordingBus {
    log: Vec<BusEvent>,
}

impl RecordingBus {
    /// A bus with no traffic yet.
    pub fn new() -> (r: RecordingBus)
        ensures
            r.events() == Seq::<BusEvent>::empty(),
    {
        RecordingBus { log: Vec::new() }
    }

    /// The traffic recorded so far.
    pub fn recorded(&self) -> (r: &Vec<BusEvent>)
        ensures
            r@ == self.events(),
    {
        &self.log
    }
}

impl MatrixBus for RecordingBus {
    closed spec fn events(&self) -> Seq<BusEvent> {
        self.log@
    }

    fn select(&mut self) -> (r: Result<(), BusError>)
        ensures
            r is Ok,
            final(self).events() == old(self).events().push(BusEvent::Select),
    {
        self.log.push(BusEvent::Select);
        Ok(())
    }

    fn write_command(&mut self, address: u8, value: u8) -> (r: Result<(), BusError>)
        ensures
            r is Ok,
            final(self).events() == old(self).events().push(BusEvent::Command(address, value)),
    {
        self.log.push(BusEvent::Command(address, value));
        Ok(())
    }

    fn deselect(&mut self) -> (r: Result<(), BusError>)
        ensures
            r is Ok,
            final(self).events() == old(self).events().push(BusEvent::Deselect),
    {
        self.log.push(BusEvent::Deselect);
        Ok(())
    }
}

/// The traffic of one broadcast: the same command written once per panel,
/// bracketed by select and deselect.
pub open spec fn command_broadcast(address: u8, value: u8, panels: int) -> Seq<BusEvent> {
    seq![BusEvent::Select] + Seq::new(panels as nat, |p: int| BusEvent::Command(address, value))
        + seq![BusEvent::Deselect]
}

/// The traffic of one physical row of a flush: the row's byte for each
/// panel in chain order, bracketed by select and deselect. Row `row` is
/// addressed as digit register `row + 1`.
pub open spec fn row_commands(buffer: Seq<u8>, panels: int, row: int) -> Seq<BusEvent> {
    seq![BusEvent::Select] + Seq::new(
        panels as nat,
        |p: int| BusEvent::Command((row + 1) as u8, geometry::row_byte(buffer, p, row)),
    ) + seq![BusEvent::Deselect]
}

/// The traffic of a flush restricted to the first `rows` physical rows.
pub open spec fn flush_traffic_prefix(buffer: Seq<u8>, panels: int, rows: int) -> Seq<BusEvent>
    decreases rows,
{
    if rows <= 0 {
        Seq::empty()
    } else {
        flush_traffic_prefix(buffer, panels, rows - 1) + row_commands(buffer, panels, rows - 1)
    }
}

/// The complete traffic of one flush of `buffer` to `panels` chained
/// panels: all 8 physical rows in order.
pub open spec fn flush_traffic(buffer: Seq<u8>, panels: int) -> Seq<BusEvent> {
    flush_traffic_prefix(buffer, panels, 8)
}

/// The one-time bring-up traffic: leave shutdown, disable decoding, scan
/// all 8 digits, and set full intensity, each broadcast to every panel.
pub open spec fn init_traffic(panels: int) -> Seq<BusEvent> {
    command_broadcast(
        RegisterAddressMap::Shutdown.byte(),
        Mode::NormalOperation.byte(),
        panels,
    ) + command_broadcast(
        RegisterAddressMap::DecodeMode.byte(),
        DecodeMode::NoDecode.byte(),
        panels,
    ) + command_broadcast(
        RegisterAddressMap::ScanLimit.byte(),
        ScanLimit::DisplayDigit0To7.byte(),
        panels,
    ) + command_broadcast(
        RegisterAddressMap::Intensity.byte(),
        Intensity::ThirtyOneThirtyTwo.byte(),
        panels,
    )
}

/// The bus grew from `pre` to `post` by some prefix of `tail`: what an
/// aborted command sequence leaves behind — everything up to and
/// including the first failing operation, and nothing after it.
pub open spec fn aborted_traffic(pre: Seq<BusEvent>, post: Seq<BusEvent>, tail: Seq<BusEvent>) -> bool {
    exists|n: int| 0 <= n <= tail.len() && post == pre + #[trigger] tail.subrange(0, n)
}

/// An abort inside one stretch of a longer intended sequence is an abort
/// of the whole: if the traffic already holds `done` and then grows by a
/// prefix of `part`, it grew by a prefix of `done + part + rest`.
proof fn lemma_aborted_extends(
    pre: Seq<BusEvent>,
    done: Seq<BusEvent>,
    post: Seq<BusEvent>,
    part: Seq<BusEvent>,
    rest: Seq<BusEvent>,
)
    requires
        aborted_traffic(pre + done, post, part),
    ensures
        aborted_traffic(pre, post, done + part + rest),
{
    let n = choose|n: int|
        0 <= n <= part.len() && post == (pre + done) + #[trigger] part.subrange(0, n);
    assert(post =~= pre + (done + part + rest).subrange(0, done.len() + n));
}

/// Each flush prefix is a literal prefix of the complete flush traffic.
proof fn lemma_flush_prefix_prefix(buffer: Seq<u8>, panels: int, rows: int)
    requires
        0 <= rows <= 8,
    ensures
        flush_traffic_prefix(buffer, panels, rows).len() <= flush_traffic(buffer, panels).len(),
        flush_traffic(buffer, panels).subrange(
            0,
            flush_traffic_prefix(buffer, panels, rows).len() as int,
        ) == flush_traffic_prefix(buffer, panels, rows),
    decreases 8 - rows,
{
    let full = flush_traffic(buffer, panels);
    if rows == 8 {
        assert(full.subrange(0, full.len() as int) =~= full);
    } else {
        lemma_flush_prefix_prefix(buffer, panels, rows + 1);
        let shorter = flush_traffic_prefix(buffer, panels, rows);
        let longer = flush_traffic_prefix(buffer, panels, rows + 1);
        assert(longer == shorter + row_commands(buffer, panels, rows));
        assert(full.subrange(0, shorter.len() as int) =~= shorter);
    }
}

/// Everything one `flush` call promises, as a relation between the driver
/// before the call, the driver after it, and the result: the buffer and
/// panel count never change; a clean buffer flushes successfully without
/// any bus traffic; a successful flush of a dirty buffer puts exactly
/// [`flush_traffic`] on the bus and clears the flag; and a failed flush
/// leaves the flag as it was and stops at the first failing operation, so
/// the bus holds a prefix of the frame and the next flush repaints it in
/// full.
pub open spec fn flush_behavior<B: MatrixBus>(
    pre: Matrix<B>,
    post: Matrix<B>,
    r: Result<(), BusError>,
) -> bool {
    &&& post.wf()
    &&& post.panels() == pre.panels()
    &&& post.pixels() == pre.pixels()
    &&& (!pre.dirty() ==> r is Ok && post.bus_events() == pre.bus_events() && !post.dirty())
    &&& (r is Ok ==> !post.dirty())
    &&& (r is Ok && pre.dirty() ==> post.bus_events() == pre.bus_events() + flush_traffic(
        pre.pixels(),
        pre.panels(),
    ))
    &&& (r is Err ==> post.dirty() == pre.dirty() && aborted_traffic(
        pre.bus_events(),
        post.bus_events(),
        flush_traffic(pre.pixels(), pre.panels()),
    ))
}

/// Law: a flush is idempotent. However the buffer was mutated before the
/// first flush, once it succeeds a second flush with no mutation in
/// between also succeeds and issues zero bus events.
pub proof fn lemma_flush_idempotent<B: MatrixBus>(
    before: Matrix<B>,
    between: Matrix<B>,
    after: Matrix<B>,
    first: Result<(), BusError>,
    second: Result<(), BusError>,
)
    requires
        flush_behavior(before, between, first),
        first is Ok,
        flush_behavior(between, after, second),
    ensures
        second is Ok,
        after.bus_events() == between.bus_events(),
{
}

/// The display cache and protocol driver: a logical pixel buffer of
/// `64 * panel_count` bytes, a dirty flag, and the bus it flushes to.
pub struct Matrix<B: MatrixBus> {
    bus: B,
    cache: Vec<u8>,
    panel_count: usize,
    is_dirty: bool,
}

impl<B: MatrixBus> Matrix<B> {
    /// The number of chained panels.
    pub closed spec fn panels(&self) -> int {
        self.panel_count as int
    }

    /// The logical pixel buffer, one byte per pixel.
    pub closed spec fn pixels(&self) -> Seq<u8> {
        self.cache@
    }

    /// Whether the buffer holds mutations not yet flushed.
    pub closed spec fn dirty(&self) -> bool {
        self.is_dirty
    }

    /// The traffic issued on the underlying bus so far.
    pub closed spec fn bus_events(&self) -> Seq<BusEvent> {
        self.bus.events()
    }

    /// The buffer always holds exactly 64 pixels per panel.
    pub open spec fn wf(&self) -> bool {
        self.pixels().len() == self.panels() * 64
    }

    /// Builds a driver for `panel_count` chained panels, rejecting any
    /// buffer size other than `8 * 8 * panel_count`.
    pub fn new(bus: B, buffer_size: usize, panel_count: usize) -> (r: Result<Matrix<B>, ConfigError>)
        ensures
            r is Ok <==> buffer_size as int == panel_count as int * 64,
            r matches Ok(m) ==> {
                &&& m.wf()
                &&& m.panels() == panel_count as int
                &&& m.pixels() == Seq::new(buffer_size as nat, |i: int| 0u8)
                &&& !m.dirty()
                &&& m.bus_events() == bus.events()
            },
    {
        if panel_count > usize::MAX / 64 {
            assert(panel_count as int * 64 > usize::MAX) by (nonlinear_arith)
                requires
                    panel_count > usize::MAX / 64,
            ;
            return Err(ConfigError);
        }
        assert(panel_count as int * 64 <= usize::MAX as int) by (nonlinear_arith)
            requires
                panel_count <= usize::MAX / 64,
        ;
        let expected: usize = panel_count * 64;
        if buffer_size != expected {
            return Err(ConfigError);
        }
        let mut cache: Vec<u8> = Vec::new();
        let mut i: usize = 0;
        while i < buffer_size
            invariant
                i <= buffer_size,
                cache@ == Seq::new(i as nat, |j: int| 0u8),
            decreases buffer_size - i,
        {
            cache.push(0);
            assert(cache@ =~= Seq::new((i + 1) as nat, |j: int| 0u8));
            i = i + 1;
        }
        Ok(Matrix { bus, cache, panel_count, is_dirty: false })
    }

    /// Read access to the bus, for hosts that need to inspect it.
    pub fn bus(&self) -> (r: &B)
        ensures
            r.events() == self.bus_events(),
    {
        &self.bus
    }

    /// Whether the buffer holds mutations not yet flushed.
    pub fn is_dirty(&self) -> (d: bool)
        ensures
            d == self.dirty(),
    {
        self.is_dirty
    }

    /// The length of the logical pixel buffer.
    pub fn buffer_length(&self) -> (n: usize)
        ensures
            n as int == self.pixels().len(),
    {
        self.cache.len()
    }

    /// Writes `value` at `index` if it is in range and marks the buffer
    /// dirty; an out-of-range index changes nothing and never faults.
    pub fn set(&mut self, index: usize, value: u8)
        ensures
            final(self).panels() == old(self).panels(),
            final(self).bus_events() == old(self).bus_events(),
            index < old(self).pixels().len() ==> {
                &&& final(self).pixels() == old(self).pixels().update(index as int, value)
                &&& final(self).dirty()
            },
            index >= old(self).pixels().len() ==> {
                &&& final(self).pixels() == old(self).pixels()
                &&& final(self).dirty() == old(self).dirty()
            },
    {
        if index < self.cache.len() {
            self.cache.set(index, value);
            self.is_dirty = true;
        }
    }

    /// Sets every pixel to `value` and marks the buffer dirty.
    pub fn fill(&mut self, value: u8)
        ensures
            final(self).panels() == old(self).panels(),
            final(self).bus_events() == old(self).bus_events(),
            final(self).pixels() == Seq::new(old(self).pixels().len(), |i: int| value),
            final(self).dirty(),
    {
        let mut i: usize = 0;
        let n = self.cache.len();
        while i < n
            invariant
                i <= n,
                n == self.cache.len(),
                self.panel_count == old(self).panel_count,
                self.bus.events() == old(self).bus.events(),
                forall|j: int| 0 <= j < i ==> self.cache@[j] == value,
                forall|j: int| i <= j < n ==> self.cache@[j] == old(self).cache@[j],
            decreases n - i,
        {
            self.cache.set(i, value);
            i = i + 1;
        }
        assert(self.cache@ =~= Seq::new(old(self).cache@.len(), |i: int| value));
        self.is_dirty = true;
    }

    /// Broadcasts one `(address, value)` command to every panel in the
    /// chain, bracketed by select and deselect.
    fn write_register(&mut self, address: u8, value: u8) -> (r: Result<(), BusError>)
        ensures
            final(self).panels() == old(self).panels(),
            final(self).pixels() == old(self).pixels(),
            final(self).dirty() == old(self).dirty(),
            r is Ok ==> final(self).bus_events() == old(self).bus_events() + command_broadcast(
                address,
                value,
                old(self).panels(),
            ),
            r is Err ==> aborted_traffic(
                old(self).bus_events(),
                final(self).bus_events(),
                command_broadcast(address, value, old(self).panels()),
            ),
    {
        match self.bus.select() {
            Ok(()) => {},
            Err(e) => {
                proof {
                    let pre = old(self).bus.events();
                    let cb = command_broadcast(address, value, old(self).panel_count as int);
                    let n = self.bus.events().len() - pre.len();
                    assert(self.bus.events() =~= pre + cb.subrange(0, n as int));
                }
                return Err(e);
            },
        }
        let ghost start = self.bus.events();
        let mut panel: usize = 0;
        while panel < self.panel_count
            invariant
                panel <= self.panel_count,
                self.panel_count == old(self).panel_count,
                self.cache@ == old(self).cache@,
                self.is_dirty == old(self).is_dirty,
                start == old(self).bus.events().push(BusEvent::Select),
                self.bus.events() == start + Seq::new(
                    panel as nat,
                    |p: int| BusEvent::Command(address, value),
                ),
            decreases self.panel_count - panel,
        {
            match self.bus.write_command(address, value) {
                Ok(()) => {},
                Err(e) => {
                    proof {
                        let pre = old(self).bus.events();
                        let cb = command_broadcast(address, value, old(self).panel_count as int);
                        let n = self.bus.events().len() - pre.len();
                        assert(self.bus.events() =~= pre + cb.subrange(0, n as int));
                    }
                    return Err(e);
                },
            }
            assert(self.bus.events() =~= start + Seq::new(
                (panel + 1) as nat,
                |p: int| BusEvent::Command(address, value),
            ));
            panel = panel + 1;
        }
        match self.bus.deselect() {
            Ok(()) => {},
            Err(e) => {
                proof {
                    let pre = old(self).bus.events();
                    let cb = command_broadcast(address, value, old(self).panel_count as int);
                    let n = self.bus.events().len() - pre.len();
                    assert(self.bus.events() =~= pre + cb.subrange(0, n as int));
                }
                return Err(e);
            },
        }
        assert(self.bus.events() =~= old(self).bus.events() + command_broadcast(
            address,
            value,
            old(self).panel_count as int,
        ));
        Ok(())
    }

    /// Brings the chain up: leaves shutdown, disables decoding, scans all
    /// 8 digits, sets full intensity, and clears the display. Any bus
    /// failure aborts and is returned; nothing is retried here.
    pub fn initialize(&mut self) -> (r: Result<(), BusError>)
        requires
            old(self).wf(),
        ensures
            final(self).wf(),
            final(self).panels() == old(self).panels(),
            r is Ok ==> {
                &&& final(self).pixels() == Seq::new(old(self).pixels().len(), |i: int| 0u8)
                &&& !final(self).dirty()
                &&& final(self).bus_events() == old(self).bus_events() + init_traffic(
                    old(self).panels(),
                ) + flush_traffic(final(self).pixels(), old(self).panels())
            },
            r is Err ==> {
                ||| {
                    &&& final(self).pixels() == old(self).pixels()
                    &&& final(self).dirty() == old(self).dirty()
                }
                ||| {
                    &&& final(self).pixels() == Seq::new(old(self).pixels().len(), |i: int| 0u8)
                    &&& final(self).dirty()
                }
            },
            r is Err ==> aborted_traffic(
                old(self).bus_events(),
                final(self).bus_events(),
                init_traffic(old(self).panels()) + flush_traffic(
                    Seq::new(old(self).pixels().len(), |i: int| 0u8),
                    old(self).panels(),
                ),
            ),
    {
        let ghost pre = old(self).bus_events();
        let ghost chain = old(self).panels();
        let ghost zero = Seq::new(old(self).pixels().len(), |i: int| 0u8);
        let ghost b1 = command_broadcast(
            RegisterAddressMap::Shutdown.byte(),
            Mode::NormalOperation.byte(),
            chain,
        );
        let ghost b2 = command_broadcast(
            RegisterAddressMap::DecodeMode.byte(),
            DecodeMode::NoDecode.byte(),
            chain,
        );
        let ghost b3 = command_broadcast(
            RegisterAddressMap::ScanLimit.byte(),
            ScanLimit::DisplayDigit0To7.byte(),
            chain,
        );
        let ghost b4 = command_broadcast(
            RegisterAddressMap::Intensity.byte(),
            Intensity::ThirtyOneThirtyTwo.byte(),
            chain,
        );
        let ghost t_full = init_traffic(chain) + flush_traffic(zero, chain);
        match self.write_register(RegisterAddressMap::Shutdown.byte(), Mode::NormalOperation.byte()) {
            Ok(()) => {},
            Err(e) => {
                proof {
                    let done = Seq::<BusEvent>::empty();
                    let rest = b2 + b3 + b4 + flush_traffic(zero, chain);
                    assert(pre + done =~= pre);
                    assert(aborted_traffic(pre + done, self.bus_events(), b1));
                    lemma_aborted_extends(pre, done, self.bus_events(), b1, rest);
                    assert(t_full =~= done + b1 + rest);
                }
                return Err(e);
            },
        }
        match self.write_register(RegisterAddressMap::DecodeMode.byte(), DecodeMode::NoDecode.byte()) {
            Ok(()) => {},
            Err(e) => {
                proof {
                    let done = b1;
                    let rest = b3 + b4 + flush_traffic(zero, chain);
                    assert(aborted_traffic(pre + done, self.bus_events(), b2));
                    lemma_aborted_extends(pre, done, self.bus_events(), b2, rest);
                    assert(t_full =~= done + b2 + rest);
                }
                return Err(e);
            },
        }
        match self.write_register(
            RegisterAddressMap::ScanLimit.byte(),
            ScanLimit::DisplayDigit0To7.byte(),
        ) {
            Ok(()) => {},
            Err(e) => {
                proof {
                    let done = b1 + b2;
                    let rest = b4 + flush_traffic(zero, chain);
                    assert(pre + done =~= pre + b1 + b2);
                    assert(aborted_traffic(pre + done, self.bus_events(), b3));
                    lemma_aborted_extends(pre, done, self.bus_events(), b3, rest);
                    assert(t_full =~= done + b3 + rest);
                }
                return Err(e);
            },
        }
        match self.write_register(
            RegisterAddressMap::Intensity.byte(),
            Intensity::ThirtyOneThirtyTwo.byte(),
        ) {
            Ok(()) => {},
            Err(e) => {
                proof {
                    let done = b1 + b2 + b3;
                    let rest = flush_traffic(zero, chain);
                    assert(pre + done =~= pre + b1 + b2 + b3);
                    assert(aborted_traffic(pre + done, self.bus_events(), b4));
                    lemma_aborted_extends(pre, done, self.bus_events(), b4, rest);
                    assert(t_full =~= done + b4 + rest);
                }
                return Err(e);
            },
        }
        let r = self.clear();
        proof {
            if r is Err {
                let done = b1 + b2 + b3 + b4;
                let rest = Seq::<BusEvent>::empty();
                assert(pre + done =~= pre + b1 + b2 + b3 + b4);
                assert(self.pixels() =~= zero);
                assert(aborted_traffic(pre + done, self.bus_events(), flush_traffic(zero, chain)));
                lemma_aborted_extends(
                    pre,
                    done,
                    self.bus_events(),
                    flush_traffic(zero, chain),
                    rest,
                );
                assert(t_full =~= done + flush_traffic(zero, chain) + rest);
            }
        }
        r
    }

    /// Serializes the buffer to the chain if it is dirty; a clean buffer
    /// issues no bus traffic at all. The dirty flag is cleared only when
    /// the whole frame went out, so a failed flush is retried in full by
    /// the next call.
    pub fn flush(&mut self) -> (r: Result<(), BusError>)
        requires
            old(self).wf(),
        ensures
            flush_behavior(*old(self), *final(self), r),
    {
        if !self.is_dirty {
            return Ok(());
        }
        let mut row: usize = 0;
        while row < 8
            invariant
                row <= 8,
                self.wf(),
                self.panel_count == old(self).panel_count,
                self.cache@ == old(self).cache@,
                self.is_dirty == old(self).is_dirty,
                old(self).is_dirty,
                self.bus.events() == old(self).bus.events() + flush_traffic_prefix(
                    self.cache@,
                    self.panel_count as int,
                    row as int,
                ),
            decreases 8 - row,
        {
            let bytes = geometry::row_bytes(&self.cache, self.panel_count, row);
            match self.bus.select() {
                Ok(()) => {},
                Err(e) => {
                    proof {
                        let pre = old(self).bus.events();
                        let buffer = self.cache@;
                        let panels = self.panel_count as int;
                        let done = flush_traffic_prefix(buffer, panels, row as int);
                        let part = row_commands(buffer, panels, row as int);
                        let n = self.bus.events().len() - (pre + done).len();
                        assert(self.bus.events() =~= (pre + done) + part.subrange(0, n as int));
                        lemma_flush_prefix_prefix(buffer, panels, row as int + 1);
                        assert(flush_traffic_prefix(buffer, panels, row as int + 1) == done
                            + part);
                        let full = flush_traffic(buffer, panels);
                        let rest = full.subrange((done.len() + part.len()) as int, full.len() as int);
                        assert(full =~= done + part + rest);
                        lemma_aborted_extends(pre, done, self.bus.events(), part, rest);
                    }
                    return Err(e);
                },
            }
            let ghost frame_start = self.bus.events();
            let address: u8 = (row + 1) as u8;
            let mut panel: usize = 0;
            while panel < self.panel_count
                invariant
                    panel <= self.panel_count,
                    row < 8,
                    self.wf(),
                    self.panel_count == old(self).panel_count,
                    self.cache@ == old(self).cache@,
                    self.is_dirty == old(self).is_dirty,
                    old(self).is_dirty,
                    address == (row + 1) as u8,
                    frame_start == (old(self).bus.events() + flush_traffic_prefix(
                        self.cache@,
                        self.panel_count as int,
                        row as int,
                    )).push(BusEvent::Select),
                    bytes.len() == self.panel_count,
                    forall|p: int|
                        0 <= p < self.panel_count ==> bytes[p] == geometry::row_byte(
                            self.cache@,
                            p,
                            row as int,
                        ),
                    self.bus.events() == frame_start + Seq::new(
                        panel as nat,
                        |p: int| BusEvent::Command(
                            (row + 1) as u8,
                            geometry::row_byte(self.cache@, p, row as int),
                        ),
                    ),
                decreases self.panel_count - panel,
            {
                match self.bus.write_command(address, bytes[panel]) {
                    Ok(()) => {},
                    Err(e) => {
                        proof {
                            let pre = old(self).bus.events();
                            let buffer = self.cache@;
                            let panels = self.panel_count as int;
                            let done = flush_traffic_prefix(buffer, panels, row as int);
                            let part = row_commands(buffer, panels, row as int);
                            let n = self.bus.events().len() - (pre + done).len();
                            assert(self.bus.events() =~= (pre + done) + part.subrange(0, n as int));
                            lemma_flush_prefix_prefix(buffer, panels, row as int + 1);
                            assert(flush_traffic_prefix(buffer, panels, row as int + 1) == done
                                + part);
                            let full = flush_traffic(buffer, panels);
                            let rest = full.subrange((done.len() + part.len()) as int, full.len() as int);
                            assert(full =~= done + part + rest);
                            lemma_aborted_extends(pre, done, self.bus.events(), part, rest);
                    }
                        return Err(e);
                    },
                }
                assert(self.bus.events() =~= frame_start + Seq::new(
                    (panel + 1) as nat,
                    |p: int| BusEvent::Command(
                        (row + 1) as u8,
                        geometry::row_byte(self.cache@, p, row as int),
                    ),
                ));
                panel = panel + 1;
            }
            match self.bus.deselect() {
                Ok(()) => {},
                Err(e) => {
                    proof {
                        let pre = old(self).bus.events();
                        let buffer = self.cache@;
                        let panels = self.panel_count as int;
                        let done = flush_traffic_prefix(buffer, panels, row as int);
                        let part = row_commands(buffer, panels, row as int);
                        let n = self.bus.events().len() - (pre + done).len();
                        assert(self.bus.events() =~= (pre + done) + part.subrange(0, n as int));
                        lemma_flush_prefix_prefix(buffer, panels, row as int + 1);
                        assert(flush_traffic_prefix(buffer, panels, row as int + 1) == done
                            + part);
                        let full = flush_traffic(buffer, panels);
                        let rest = full.subrange((done.len() + part.len()) as int, full.len() as int);
                        assert(full =~= done + part + rest);
                        lemma_aborted_extends(pre, done, self.bus.events(), part, rest);
                    }
                    return Err(e);
                },
            }
            assert(self.bus.events() =~= old(self).bus.events() + flush_traffic_prefix(
                self.cache@,
                self.panel_count as int,
                row as int + 1,
            ));
            row = row + 1;
        }
        self.is_dirty = false;
        Ok(())
    }

    /// Blanks the display: fills the buffer with zero and flushes it.
    pub fn clear(&mut self) -> (r: Result<(), BusError>)
        requires
            old(self).wf(),
        ensures
            final(self).wf(),
            final(self).panels() == old(self).panels(),
            final(self).pixels() == Seq::new(old(self).pixels().len(), |i: int| 0u8),
            r is Ok ==> {
                &&& !final(self).dirty()
                &&& final(self).bus_events() == old(self).bus_events() + flush_traffic(
                    final(self).pixels(),
                    old(self).panels(),
                )
            },
            r is Err ==> final(self).dirty() && aborted_traffic(
                old(self).bus_events(),
                final(self).bus_events(),
                flush_traffic(final(self).pixels(), old(self).panels()),
            ),
    {
        self.fill(0);
        self.flush()
    }
}

} // verus!
