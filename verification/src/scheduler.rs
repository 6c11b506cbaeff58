//! Event scheduler.
//!
//! Time is counted in base ticks of a 7.68 GHz clock, a common multiple of
//! every hardware clock, so that clock conversions are integer divisions. Each
//! event has a timestamp; bit 63 set marks it inactive.
use vstd::prelude::*;
use crate::bits::{le_u64, read_le_u64, put_le_u64, get_le_u64};

verus! {

/// Base clock rate: 7.68 GHz.
pub const SCHED_BASE_CLOCK_RATE: u64 = 7_680_000_000;

/// 32 kHz ticks per second.
pub const TICKS_PER_SECOND: u64 = 32_768;

/// Bit 63 of a timestamp: the event is inactive.
pub const INACTIVE_FLAG: u64 = 0x8000_0000_0000_0000;

/// Timestamp bits without the inactive flag.
pub const TIMESTAMP_MASK: u64 = 0x7FFF_FFFF_FFFF_FFFF;

/// Clock domains of the hardware.
#[derive(Debug, Clone, Copy, PartialEq, Eq, Structural)]
pub enum ClockId {
    /// CPU clock (6/12/24/48 MHz).
    Cpu,
    /// LCD panel refresh (10 MHz).
    Panel,
    /// Run rate (1 MHz).
    Run,
    Clock48M,
    /// SPI clock.
    Clock24M,
    Clock12M,
    Clock6M,
    Clock3M,
    Clock1M,
    /// RTC crystal.
    Clock32K,
}

/// Scheduled events.
#[derive(Debug, Clone, Copy, PartialEq, Eq, Hash, Structural)]
pub enum EventId {
    /// RTC load.
    Rtc,
    /// SPI transfer completion.
    Spi,
    /// Timer interrupt delay pipeline.
    TimerDelay,
    Timer0,
    Timer1,
    Timer2,
    OsTimer,
    /// LCD refresh.
    Lcd,
    /// LCD DMA.
    LcdDma,
    /// The number of events (not an event).
    Count,
}

/// The clock rate in Hz (the CPU's depends on the speed setting).
pub open spec fn clock_rate(c: ClockId, cpu_speed: u8) -> u64 {
    match c {
        ClockId::Cpu => if cpu_speed == 0 {
            6_000_000
        } else if cpu_speed == 1 {
            12_000_000
        } else if cpu_speed == 2 {
            24_000_000
        } else {
            48_000_000
        },
        ClockId::Panel => 10_000_000,
        ClockId::Run => 1_000_000,
        ClockId::Clock48M => 48_000_000,
        ClockId::Clock24M => 24_000_000,
        ClockId::Clock12M => 12_000_000,
        ClockId::Clock6M => 6_000_000,
        ClockId::Clock3M => 3_000_000,
        ClockId::Clock1M => 1_000_000,
        ClockId::Clock32K => 32_768,
    }
}

/// Base ticks per tick of a clock.
pub open spec fn ticks_per(c: ClockId, cpu_speed: u8) -> u64 {
    (SCHED_BASE_CLOCK_RATE / clock_rate(c, cpu_speed)) as u64
}

/// The slot of an event.
pub open spec fn event_index(e: EventId) -> int {
    match e {
        EventId::Rtc => 0,
        EventId::Spi => 1,
        EventId::TimerDelay => 2,
        EventId::Timer0 => 3,
        EventId::Timer1 => 4,
        EventId::Timer2 => 5,
        EventId::OsTimer => 6,
        EventId::Lcd => 7,
        EventId::LcdDma => 8,
        EventId::Count => 9,
    }
}

/// The event in a slot.
pub open spec fn event_at(i: int) -> EventId {
    if i == 0 {
        EventId::Rtc
    } else if i == 1 {
        EventId::Spi
    } else if i == 2 {
        EventId::TimerDelay
    } else if i == 3 {
        EventId::Timer0
    } else if i == 4 {
        EventId::Timer1
    } else if i == 5 {
        EventId::Timer2
    } else if i == 6 {
        EventId::OsTimer
    } else if i == 7 {
        EventId::Lcd
    } else if i == 8 {
        EventId::LcdDma
    } else {
        EventId::Count
    }
}

/// The clock each event slot runs on.
pub open spec fn slot_clock(i: int) -> ClockId {
    if i == 0 || i == 6 {
        ClockId::Clock32K
    } else if i == 1 || i == 7 {
        ClockId::Clock24M
    } else if i == 8 {
        ClockId::Clock48M
    } else {
        ClockId::Cpu
    }
}

/// A timestamp is active when bit 63 is clear.
pub open spec fn active(ts: u64) -> bool {
    ts & INACTIVE_FLAG == 0
}

/// A timestamp without its inactive flag.
pub open spec fn stamp(ts: u64) -> u64 {
    ts & TIMESTAMP_MASK
}

/// An active timestamp is its own stamp; a stamp is below 2^63; setting the
/// inactive flag makes a timestamp inactive and keeps its stamp.
pub proof fn lemma_stamp(ts: u64)
    ensures
        active(ts) ==> stamp(ts) == ts,
        stamp(ts) < INACTIVE_FLAG,
        !active(ts | INACTIVE_FLAG),
        stamp(ts | INACTIVE_FLAG) == stamp(ts),
        active(ts) <==> ts < INACTIVE_FLAG,
{
    assert((ts & 0x8000_0000_0000_0000 == 0 ==> ts & 0x7FFF_FFFF_FFFF_FFFF == ts) && ts
        & 0x7FFF_FFFF_FFFF_FFFF < 0x8000_0000_0000_0000 && (ts | 0x8000_0000_0000_0000)
        & 0x8000_0000_0000_0000 != 0 && (ts | 0x8000_0000_0000_0000) & 0x7FFF_FFFF_FFFF_FFFF == ts
        & 0x7FFF_FFFF_FFFF_FFFF && (ts & 0x8000_0000_0000_0000 == 0 <==> ts
        < 0x8000_0000_0000_0000)) by (bit_vector);
}

/// A scheduled event.
#[derive(Debug, Clone, Copy)]
pub struct SchedItem {
    /// Timestamp in base ticks (bit 63 set: inactive).
    pub timestamp: u64,
    /// Clock the event is timed on.
    pub clock: ClockId,
    pub event: EventId,
}

/// The earliest stamp among the active items of `items` (from slot `n` on),
/// or `u64::MAX` when none is active.
pub open spec fn earliest_from(items: Seq<SchedItem>, n: int) -> u64
    decreases items.len() - n,
{
    if n >= items.len() || n < 0 {
        u64::MAX
    } else {
        let rest = earliest_from(items, n + 1);
        let ts = items[n].timestamp;
        if active(ts) && stamp(ts) < rest {
            stamp(ts)
        } else {
            rest
        }
    }
}

/// Slot `i` holds an active event due at or before `now`.
pub open spec fn fired(items: Seq<SchedItem>, i: int, now: u64) -> bool {
    active(items[i].timestamp) && stamp(items[i].timestamp) <= now
}

/// Fired slot `i` comes before fired slot `j`: earlier stamp, or the same
/// stamp and a lower slot.
pub open spec fn before(items: Seq<SchedItem>, i: int, j: int) -> bool {
    stamp(items[i].timestamp) < stamp(items[j].timestamp) || (stamp(items[i].timestamp) == stamp(
        items[j].timestamp,
    ) && i < j)
}

/// The event scheduler.
#[derive(Debug, Clone)]
pub struct Scheduler {
    /// One item per event (slot order of `EventId`).
    pub items: [SchedItem; 9],
    /// Current time in base ticks.
    pub base_ticks: u64,
    /// CPU speed setting.
    pub cpu_speed: u8,
    /// Base ticks per CPU cycle at the current speed.
    pub cached_cpu_base_ticks: u64,
    /// A lower bound of the earliest active stamp (exact after a rescan).
    pub next_event_ticks: u64,
}

impl Scheduler {
    /// The slots hold their events and clocks, the CPU tick cache matches the
    /// speed, and the cached earliest stamp is at most every active stamp.
    pub open spec fn wf(self) -> bool {
        &&& forall|i: int|
            0 <= i < 9 ==> (#[trigger] self.items[i]).event == event_at(i) && self.items[i].clock
                == slot_clock(i)
        &&& self.cached_cpu_base_ticks == ticks_per(ClockId::Cpu, self.cpu_speed)
        &&& forall|i: int|
            0 <= i < 9 && active(#[trigger] self.items[i].timestamp) ==> self.next_event_ticks
                <= stamp(self.items[i].timestamp)
    }

    /// CPU cycles until the earliest active event is due: the base ticks to
    /// its stamp divided by the base ticks per CPU cycle, rounded up; 0 when
    /// none is active or it is already due.
    pub open spec fn wait_cycles(self) -> u64 {
        let e = earliest_from(self.items@, 0);
        if e != u64::MAX && e > self.base_ticks {
            ((e - self.base_ticks + self.cached_cpu_base_ticks - 1) / (
            self.cached_cpu_base_ticks as int)) as u64
        } else {
            0
        }
    }

    /// Ticks of slot `i`'s clock left until it fires (rounded down); 0 when
    /// inactive or due.
    pub open spec fn remaining(self, i: int) -> u64 {
        let ts = stamp(self.items[i].timestamp);
        if !active(self.items[i].timestamp) || ts <= self.base_ticks {
            0
        } else {
            ((ts - self.base_ticks) / (self.slot_ticks(i) as int)) as u64
        }
    }

    /// Base ticks per tick of slot `i`'s clock at the current speed.
    pub open spec fn slot_ticks(self, i: int) -> u64 {
        ticks_per(self.items[i].clock, self.cpu_speed)
    }
}

impl ClockId {
    /// The clock rate in Hz (the CPU's depends on the speed setting).
    pub fn rate(&self, cpu_speed: u8) -> (r: u64)
        ensures
            r == clock_rate(*self, cpu_speed),
    {
        match self {
            ClockId::Cpu => if cpu_speed == 0 {
                6_000_000
            } else if cpu_speed == 1 {
                12_000_000
            } else if cpu_speed == 2 {
                24_000_000
            } else {
                48_000_000
            },
            ClockId::Panel => 10_000_000,
            ClockId::Run => 1_000_000,
            ClockId::Clock48M => 48_000_000,
            ClockId::Clock24M => 24_000_000,
            ClockId::Clock12M => 12_000_000,
            ClockId::Clock6M => 6_000_000,
            ClockId::Clock3M => 3_000_000,
            ClockId::Clock1M => 1_000_000,
            ClockId::Clock32K => 32_768,
        }
    }

    /// Base ticks per tick of this clock.
    pub fn base_ticks_per_tick(&self, cpu_speed: u8) -> (r: u64)
        ensures
            r == ticks_per(*self, cpu_speed),
            160 <= r <= 7_680_000,
    {
        SCHED_BASE_CLOCK_RATE / self.rate(cpu_speed)
    }
}

impl EventId {
    /// The event's slot.
    pub fn index(&self) -> (r: usize)
        ensures
            r == event_index(*self),
    {
        match self {
            EventId::Rtc => 0,
            EventId::Spi => 1,
            EventId::TimerDelay => 2,
            EventId::Timer0 => 3,
            EventId::Timer1 => 4,
            EventId::Timer2 => 5,
            EventId::OsTimer => 6,
            EventId::Lcd => 7,
            EventId::LcdDma => 8,
            EventId::Count => 9,
        }
    }

    /// The event of a slot.
    pub fn from_index(i: usize) -> (r: EventId)
        ensures
            r == event_at(i as int),
    {
        if i == 0 {
            EventId::Rtc
        } else if i == 1 {
            EventId::Spi
        } else if i == 2 {
            EventId::TimerDelay
        } else if i == 3 {
            EventId::Timer0
        } else if i == 4 {
            EventId::Timer1
        } else if i == 5 {
            EventId::Timer2
        } else if i == 6 {
            EventId::OsTimer
        } else if i == 7 {
            EventId::Lcd
        } else if i == 8 {
            EventId::LcdDma
        } else {
            EventId::Count
        }
    }
}

impl SchedItem {
    /// An inactive event.
    pub fn new(event: EventId, clock: ClockId) -> (r: Self)
        ensures
            r == (SchedItem { timestamp: INACTIVE_FLAG, clock, event }),
            !active(r.timestamp),
    {
        proof {
            lemma_stamp(INACTIVE_FLAG);
        }
        SchedItem { timestamp: INACTIVE_FLAG, clock, event }
    }

    /// The event is scheduled.
    pub fn is_active(&self) -> (r: bool)
        ensures
            r == active(self.timestamp),
    {
        self.timestamp & INACTIVE_FLAG == 0
    }

    /// Unschedule the event, keeping its stamp.
    pub fn deactivate(&mut self)
        ensures
            *final(self) == (SchedItem { timestamp: old(self).timestamp | INACTIVE_FLAG, ..*old(self) }),
            !active(final(self).timestamp),
            stamp(final(self).timestamp) == stamp(old(self).timestamp),
    {
        proof {
            lemma_stamp(self.timestamp);
        }
        self.timestamp = self.timestamp | INACTIVE_FLAG;
    }
}

impl Scheduler {
    /// The items of a fresh scheduler: every event inactive on its clock.
    pub open spec fn initial_items() -> Seq<SchedItem> {
        Seq::new(
            9,
            |i: int| SchedItem { timestamp: INACTIVE_FLAG, clock: slot_clock(i), event: event_at(i) },
        )
    }

    /// No event scheduled, time 0, CPU at 6 MHz.
    pub fn new() -> (r: Self)
        ensures
            r.wf(),
            r.items@ == Self::initial_items(),
            r.base_ticks == 0,
            r.cpu_speed == 0,
            r.next_event_ticks == u64::MAX,
    {
        let r = Scheduler {
            items: [
                SchedItem::new(EventId::Rtc, ClockId::Clock32K),
                SchedItem::new(EventId::Spi, ClockId::Clock24M),
                SchedItem::new(EventId::TimerDelay, ClockId::Cpu),
                SchedItem::new(EventId::Timer0, ClockId::Cpu),
                SchedItem::new(EventId::Timer1, ClockId::Cpu),
                SchedItem::new(EventId::Timer2, ClockId::Cpu),
                SchedItem::new(EventId::OsTimer, ClockId::Clock32K),
                SchedItem::new(EventId::Lcd, ClockId::Clock24M),
                SchedItem::new(EventId::LcdDma, ClockId::Clock48M),
            ],
            base_ticks: 0,
            cpu_speed: 0,
            cached_cpu_base_ticks: ClockId::Cpu.base_ticks_per_tick(0),
            next_event_ticks: u64::MAX,
        };
        assert(r.items@ =~= Self::initial_items());
        r
    }

    /// The event items.
    pub fn items(&self) -> (r: &[SchedItem; 9])
        ensures
            *r == self.items,
    {
        &self.items
    }

    /// Unschedule every event and go back to time 0 at 6 MHz.
    pub fn reset(&mut self)
        requires
            old(self).wf(),
        ensures
            final(self).wf(),
            final(self).items@ == Self::initial_items(),
            final(self).base_ticks == 0,
            final(self).cpu_speed == 0,
            final(self).next_event_ticks == u64::MAX,
    {
        let mut i: usize = 0;
        while i < 9
            invariant
                i <= 9,
                forall|j: int|
                    0 <= j < 9 ==> (#[trigger] self.items[j]).event == event_at(j) && self.items[j].clock
                        == slot_clock(j),
                forall|j: int| 0 <= j < i ==> (#[trigger] self.items[j]).timestamp == INACTIVE_FLAG,
            decreases 9 - i,
        {
            self.items[i].timestamp = INACTIVE_FLAG;
            i = i + 1;
        }
        self.base_ticks = 0;
        self.cpu_speed = 0;
        self.cached_cpu_base_ticks = ClockId::Cpu.base_ticks_per_tick(0);
        self.next_event_ticks = u64::MAX;
        proof {
            lemma_stamp(INACTIVE_FLAG);
        }
        assert(self.items@ =~= Self::initial_items());
    }

    /// Set the CPU speed setting.
    pub fn set_cpu_speed(&mut self, speed: u8)
        requires
            old(self).wf(),
        ensures
            final(self).wf(),
            *final(self) == (Scheduler {
                cpu_speed: speed,
                cached_cpu_base_ticks: ticks_per(ClockId::Cpu, speed),
                ..*old(self)
            }),
    {
        self.cpu_speed = speed;
        self.cached_cpu_base_ticks = ClockId::Cpu.base_ticks_per_tick(speed);
    }

    /// The CPU speed setting.
    pub fn cpu_speed(&self) -> (r: u8)
        ensures
            r == self.cpu_speed,
    {
        self.cpu_speed
    }

    /// Rescan the items for the earliest active stamp.
    fn recalc_next_event(&mut self)
        ensures
            *final(self) == (Scheduler {
                next_event_ticks: earliest_from(old(self).items@, 0),
                ..*old(self)
            }),
    {
        let mut next = u64::MAX;
        let mut i: usize = 9;
        while i > 0
            invariant
                i <= 9,
                next == earliest_from(self.items@, i as int),
            decreases i,
        {
            i = i - 1;
            let item = &self.items[i];
            if item.is_active() {
                let ts = item.timestamp & TIMESTAMP_MASK;
                if ts < next {
                    next = ts;
                }
            }
        }
        self.next_event_ticks = next;
    }

    /// Some event may be due: the cached earliest stamp has been reached.
    /// When this is false no event has fired.
    pub fn has_pending_events(&self) -> (r: bool)
        requires
            self.wf(),
        ensures
            r == (self.next_event_ticks <= self.base_ticks),
            !r ==> forall|i: int| 0 <= i < 9 ==> !fired(self.items@, i, self.base_ticks),
    {
        self.next_event_ticks <= self.base_ticks
    }

    /// Schedule `event` to fire `ticks` ticks of its clock from now.
    pub fn set(&mut self, event: EventId, ticks: u64)
        requires
            old(self).wf(),
            event_index(event) < 9,
            old(self).base_ticks + ticks * old(self).slot_ticks(event_index(event)) <= u64::MAX,
        ensures
            final(self).wf(),
            ({
                let i = event_index(event);
                let ts = (old(self).base_ticks + ticks * old(self).slot_ticks(i)) as u64;
                &&& final(self).items@ == old(self).items@.update(
                    i,
                    SchedItem { timestamp: ts, ..old(self).items[i] },
                )
                &&& final(self).next_event_ticks == (if ts < old(self).next_event_ticks {
                    ts
                } else {
                    old(self).next_event_ticks
                })
                &&& final(self).base_ticks == old(self).base_ticks
                &&& final(self).cpu_speed == old(self).cpu_speed
                &&& final(self).cached_cpu_base_ticks == old(self).cached_cpu_base_ticks
            }),
    {
        let i = event.index();
        let base_ticks_per_tick = self.items[i].clock.base_ticks_per_tick(self.cpu_speed);
        let ts = self.base_ticks + ticks * base_ticks_per_tick;
        self.items[i].timestamp = ts;
        if ts < self.next_event_ticks {
            self.next_event_ticks = ts;
        }
        proof {
            lemma_stamp(ts);
        }
        assert(self.items@ =~= old(self).items@.update(
            i as int,
            SchedItem { timestamp: ts, ..old(self).items[i as int] },
        ));
    }

    /// Reschedule `event` `ticks` ticks of its clock after its previous stamp.
    pub fn repeat(&mut self, event: EventId, ticks: u64)
        requires
            old(self).wf(),
            event_index(event) < 9,
            stamp(old(self).items[event_index(event)].timestamp) + ticks * old(self).slot_ticks(
                event_index(event),
            ) <= u64::MAX,
        ensures
            final(self).wf(),
            ({
                let i = event_index(event);
                let ts = (stamp(old(self).items[i].timestamp) + ticks * old(self).slot_ticks(
                    i,
                )) as u64;
                &&& final(self).items@ == old(self).items@.update(
                    i,
                    SchedItem { timestamp: ts, ..old(self).items[i] },
                )
                &&& final(self).next_event_ticks == (if ts < old(self).next_event_ticks {
                    ts
                } else {
                    old(self).next_event_ticks
                })
                &&& final(self).base_ticks == old(self).base_ticks
                &&& final(self).cpu_speed == old(self).cpu_speed
                &&& final(self).cached_cpu_base_ticks == old(self).cached_cpu_base_ticks
            }),
    {
        let i = event.index();
        let base_ticks_per_tick = self.items[i].clock.base_ticks_per_tick(self.cpu_speed);
        let current = self.items[i].timestamp & TIMESTAMP_MASK;
        let ts = current + ticks * base_ticks_per_tick;
        self.items[i].timestamp = ts;
        if ts < self.next_event_ticks {
            self.next_event_ticks = ts;
        }
        proof {
            lemma_stamp(ts);
        }
        assert(self.items@ =~= old(self).items@.update(
            i as int,
            SchedItem { timestamp: ts, ..old(self).items[i as int] },
        ));
    }

    /// Schedule `event` relative to another event's stamp: `offset` ticks of
    /// the reference's clock, then `ticks` ticks of the event's own clock.
    pub fn repeat_relative(&mut self, event: EventId, reference: EventId, offset: u64, ticks: u64)
        requires
            old(self).wf(),
            event_index(event) < 9,
            event_index(reference) < 9,
            stamp(old(self).items[event_index(reference)].timestamp) + offset * old(self).slot_ticks(
                event_index(reference),
            ) + ticks * old(self).slot_ticks(event_index(event)) <= u64::MAX,
        ensures
            final(self).wf(),
            ({
                let i = event_index(event);
                let j = event_index(reference);
                let ts = (stamp(old(self).items[j].timestamp) + offset * old(self).slot_ticks(j)
                    + ticks * old(self).slot_ticks(i)) as u64;
                &&& final(self).items@ == old(self).items@.update(
                    i,
                    SchedItem { timestamp: ts, ..old(self).items[i] },
                )
                &&& final(self).next_event_ticks == (if ts < old(self).next_event_ticks {
                    ts
                } else {
                    old(self).next_event_ticks
                })
                &&& final(self).base_ticks == old(self).base_ticks
                &&& final(self).cpu_speed == old(self).cpu_speed
                &&& final(self).cached_cpu_base_ticks == old(self).cached_cpu_base_ticks
            }),
    {
        let i = event.index();
        let j = reference.index();
        let ref_ts = self.items[j].timestamp & TIMESTAMP_MASK;
        let ref_base_ticks = self.items[j].clock.base_ticks_per_tick(self.cpu_speed);
        let event_base_ticks = self.items[i].clock.base_ticks_per_tick(self.cpu_speed);
        assert(offset * ref_base_ticks <= u64::MAX && ticks * event_base_ticks <= u64::MAX) by (nonlinear_arith)
            requires
                ref_ts + offset * ref_base_ticks + ticks * event_base_ticks <= u64::MAX,
        ;
        let ts = ref_ts + offset * ref_base_ticks + ticks * event_base_ticks;
        self.items[i].timestamp = ts;
        if ts < self.next_event_ticks {
            self.next_event_ticks = ts;
        }
        proof {
            lemma_stamp(ts);
        }
        assert(self.items@ =~= old(self).items@.update(
            i as int,
            SchedItem { timestamp: ts, ..old(self).items[i as int] },
        ));
    }

    /// Unschedule `event`.
    pub fn clear(&mut self, event: EventId)
        requires
            old(self).wf(),
            event_index(event) < 9,
        ensures
            final(self).wf(),
            ({
                let i = event_index(event);
                let items = old(self).items@.update(
                    i,
                    SchedItem {
                        timestamp: old(self).items[i].timestamp | INACTIVE_FLAG,
                        ..old(self).items[i]
                    },
                );
                &&& final(self).items@ == items
                &&& final(self).next_event_ticks == earliest_from(items, 0)
                &&& final(self).base_ticks == old(self).base_ticks
                &&& final(self).cpu_speed == old(self).cpu_speed
                &&& final(self).cached_cpu_base_ticks == old(self).cached_cpu_base_ticks
            }),
    {
        let i = event.index();
        self.items[i].deactivate();
        assert(self.items@ =~= old(self).items@.update(
            i as int,
            SchedItem {
                timestamp: old(self).items[i as int].timestamp | INACTIVE_FLAG,
                ..old(self).items[i as int]
            },
        ));
        self.recalc_next_event();
        proof {
            lemma_earliest_bound(self.items@, 0);
        }
    }

    /// `event` is scheduled.
    pub fn is_active(&self, event: EventId) -> (r: bool)
        requires
            event_index(event) < 9,
        ensures
            r == active(self.items[event_index(event)].timestamp),
    {
        self.items[event.index()].is_active()
    }

    /// Ticks of the event's clock left until it fires (rounded down); 0 when
    /// it is inactive or due.
    pub fn ticks_remaining(&self, event: EventId) -> (r: u64)
        requires
            self.wf(),
            event_index(event) < 9,
        ensures
            r == self.remaining(event_index(event)),
    {
        let item = &self.items[event.index()];
        if !item.is_active() {
            return 0;
        }
        let timestamp = item.timestamp & TIMESTAMP_MASK;
        if timestamp <= self.base_ticks {
            return 0;
        }
        let base_ticks_remaining = timestamp - self.base_ticks;
        let base_ticks_per_tick = item.clock.base_ticks_per_tick(self.cpu_speed);
        base_ticks_remaining / base_ticks_per_tick
    }

    /// `event` is scheduled and its stamp has been reached.
    pub fn has_fired(&self, event: EventId) -> (r: bool)
        requires
            event_index(event) < 9,
        ensures
            r == fired(self.items@, event_index(event), self.base_ticks),
    {
        let item = &self.items[event.index()];
        item.is_active() && (item.timestamp & TIMESTAMP_MASK) <= self.base_ticks
    }
}

/// The earliest active stamp from slot `n` on is at most each of those
/// stamps, and is one of them unless none is active.
pub proof fn lemma_earliest_bound(items: Seq<SchedItem>, n: int)
    requires
        0 <= n <= items.len(),
    ensures
        forall|i: int|
            n <= i < items.len() && active(#[trigger] items[i].timestamp) ==> earliest_from(items, n)
                <= stamp(items[i].timestamp),
        earliest_from(items, n) == u64::MAX || exists|i: int|
            n <= i < items.len() && active(items[i].timestamp) && earliest_from(items, n) == stamp(
                #[trigger] items[i].timestamp,
            ),
    decreases items.len() - n,
{
    if n < items.len() {
        lemma_earliest_bound(items, n + 1);
    }
}

/// An item after the CPU clock changes: an active CPU event still in the
/// future keeps its remaining time, counted in whole old CPU cycles and
/// re-expressed in new ones.
pub open spec fn converted(item: SchedItem, base: u64, old_per: u64, new_per: u64) -> SchedItem {
    let ts = stamp(item.timestamp);
    if active(item.timestamp) && item.clock == ClockId::Cpu && ts > base {
        SchedItem { timestamp: (base + ((ts - base) / (old_per as int)) * new_per) as u64, ..item }
    } else {
        item
    }
}

/// An active CPU-clocked event still to come after `base`: a change of the
/// CPU rate re-expresses its remaining time.
pub open spec fn needs_conversion(item: SchedItem, base: u64) -> bool {
    active(item.timestamp) && item.clock == ClockId::Cpu && stamp(item.timestamp) > base
}

/// The conversion of `item` fits in 64 bits.
pub open spec fn convertible(item: SchedItem, base: u64, old_per: u64, new_per: u64) -> bool {
    let ts = stamp(item.timestamp);
    active(item.timestamp) && item.clock == ClockId::Cpu && ts > base ==> base + ((ts - base) / (
    old_per as int)) * new_per <= u64::MAX
}

/// An item when one second passes: an active stamp moves back one second
/// (not below 0).
pub open spec fn second_elapsed(item: SchedItem) -> SchedItem {
    if active(item.timestamp) {
        SchedItem {
            timestamp: if item.timestamp >= SCHED_BASE_CLOCK_RATE {
                (item.timestamp - SCHED_BASE_CLOCK_RATE) as u64
            } else {
                0
            },
            ..item
        }
    } else {
        item
    }
}

/// Base ticks per CPU cycle for a CPU rate given in MHz.
pub open spec fn mhz_ticks(mhz: u32) -> u64 {
    (SCHED_BASE_CLOCK_RATE as int / (mhz * 1_000_000)) as u64
}

impl Scheduler {
    /// Re-express the CPU-clocked events' remaining time after the CPU rate
    /// changes from `old_rate_mhz` to `new_rate_mhz` (nothing happens when the
    /// old rate is 0 or the rates are equal), then rescan the earliest stamp.
    pub fn convert_cpu_events(&mut self, new_rate_mhz: u32, old_rate_mhz: u32)
        requires
            old(self).wf(),
            old_rate_mhz != 0 && new_rate_mhz != old_rate_mhz ==> new_rate_mhz != 0 && (
            old_rate_mhz > 7680 ==> forall|i: int|
                0 <= i < 9 ==> !needs_conversion(#[trigger] old(self).items[i], old(self).base_ticks))
                && forall|
                i: int,
            |
                0 <= i < 9 ==> convertible(
                    #[trigger] old(self).items[i],
                    old(self).base_ticks,
                    mhz_ticks(old_rate_mhz),
                    mhz_ticks(new_rate_mhz),
                ),
        ensures
            final(self).wf(),
            old_rate_mhz == 0 || new_rate_mhz == old_rate_mhz ==> *final(self) == *old(self),
            old_rate_mhz != 0 && new_rate_mhz != old_rate_mhz ==> {
                let items = Seq::new(
                    9,
                    |i: int|
                        converted(
                            old(self).items[i],
                            old(self).base_ticks,
                            mhz_ticks(old_rate_mhz),
                            mhz_ticks(new_rate_mhz),
                        ),
                );
                &&& final(self).items@ == items
                &&& final(self).next_event_ticks == earliest_from(items, 0)
                &&& final(self).base_ticks == old(self).base_ticks
                &&& final(self).cpu_speed == old(self).cpu_speed
                &&& final(self).cached_cpu_base_ticks == old(self).cached_cpu_base_ticks
            },
    {
        if old_rate_mhz == 0 || new_rate_mhz == old_rate_mhz {
            return;
        }
        let old_ticks_per = SCHED_BASE_CLOCK_RATE / (old_rate_mhz as u64 * 1_000_000);
        let new_ticks_per = SCHED_BASE_CLOCK_RATE / (new_rate_mhz as u64 * 1_000_000);
        if old_rate_mhz <= 7680 {
            assert(old_ticks_per >= 1) by (nonlinear_arith)
                requires
                    old_ticks_per as int == 7_680_000_000int / (old_rate_mhz * 1_000_000int),
                    1 <= old_rate_mhz <= 7680,
            ;
        }
        let ghost items = Seq::new(
            9,
            |i: int|
                converted(self.items[i], self.base_ticks, old_ticks_per, new_ticks_per),
        );
        let ghost orig = *self;
        let mut i: usize = 0;
        while i < 9
            invariant
                i <= 9,
                old_ticks_per >= 1 || forall|k: int|
                    0 <= k < 9 ==> !needs_conversion(#[trigger] orig.items[k], orig.base_ticks),
                old_ticks_per == mhz_ticks(old_rate_mhz),
                new_ticks_per == mhz_ticks(new_rate_mhz),
                self.base_ticks == orig.base_ticks,
                self.cpu_speed == orig.cpu_speed,
                self.cached_cpu_base_ticks == orig.cached_cpu_base_ticks,
                self.next_event_ticks == orig.next_event_ticks,
                items == Seq::new(
                    9,
                    |k: int|
                        converted(orig.items[k], orig.base_ticks, old_ticks_per, new_ticks_per),
                ),
                forall|k: int| 0 <= k < 9 ==> convertible(#[trigger] orig.items[k], orig.base_ticks, old_ticks_per, new_ticks_per),
                forall|k: int| 0 <= k < i ==> #[trigger] self.items[k] == items[k],
                forall|k: int| i <= k < 9 ==> #[trigger] self.items[k] == orig.items[k],
            decreases 9 - i,
        {
            let item = self.items[i];
            if item.is_active() && item.clock == ClockId::Cpu {
                let timestamp = item.timestamp & TIMESTAMP_MASK;
                if timestamp > self.base_ticks {
                    let remaining_base = timestamp - self.base_ticks;
                    let remaining_old_ticks = remaining_base / old_ticks_per;
                    assert(remaining_old_ticks * new_ticks_per <= u64::MAX) by (nonlinear_arith)
                        requires
                            self.base_ticks + remaining_old_ticks * new_ticks_per <= u64::MAX,
                    ;
                    self.items[i].timestamp = self.base_ticks + remaining_old_ticks * new_ticks_per;
                }
            }
            i = i + 1;
        }
        assert(self.items@ =~= items);
        self.recalc_next_event();
        proof {
            lemma_earliest_bound(self.items@, 0);
        }
    }

    /// Advance time by `delta_cpu_cycles` CPU cycles. When a whole second of
    /// base ticks has passed, one second is taken off the time and off every
    /// active stamp (keeping them in range), and the earliest stamp rescanned.
    pub fn advance(&mut self, delta_cpu_cycles: u64)
        requires
            old(self).wf(),
            old(self).base_ticks + delta_cpu_cycles * old(self).cached_cpu_base_ticks <= u64::MAX,
        ensures
            final(self).wf(),
            ({
                let b = old(self).base_ticks + delta_cpu_cycles * old(self).cached_cpu_base_ticks;
                if b >= SCHED_BASE_CLOCK_RATE {
                    let items = Seq::new(9, |i: int| second_elapsed(old(self).items[i]));
                    &&& final(self).base_ticks == b - SCHED_BASE_CLOCK_RATE
                    &&& final(self).items@ == items
                    &&& final(self).next_event_ticks == earliest_from(items, 0)
                } else {
                    &&& final(self).base_ticks == b
                    &&& final(self).items == old(self).items
                    &&& final(self).next_event_ticks == old(self).next_event_ticks
                }
            }),
            final(self).cpu_speed == old(self).cpu_speed,
            final(self).cached_cpu_base_ticks == old(self).cached_cpu_base_ticks,
    {
        self.base_ticks = self.base_ticks + delta_cpu_cycles * self.cached_cpu_base_ticks;
        if self.base_ticks >= SCHED_BASE_CLOCK_RATE {
            self.process_second();
        }
    }

    /// Take one second off the time and off every active stamp.
    fn process_second(&mut self)
        requires
            old(self).wf(),
            old(self).base_ticks >= SCHED_BASE_CLOCK_RATE,
        ensures
            final(self).wf(),
            ({
                let items = Seq::new(9, |i: int| second_elapsed(old(self).items[i]));
                &&& final(self).base_ticks == old(self).base_ticks - SCHED_BASE_CLOCK_RATE
                &&& final(self).items@ == items
                &&& final(self).next_event_ticks == earliest_from(items, 0)
            }),
            final(self).cpu_speed == old(self).cpu_speed,
            final(self).cached_cpu_base_ticks == old(self).cached_cpu_base_ticks,
    {
        self.base_ticks = self.base_ticks - SCHED_BASE_CLOCK_RATE;
        let ghost orig = *self;
        let mut i: usize = 0;
        while i < 9
            invariant
                i <= 9,
                self.base_ticks == orig.base_ticks,
                self.cpu_speed == orig.cpu_speed,
                self.cached_cpu_base_ticks == orig.cached_cpu_base_ticks,
                forall|k: int| 0 <= k < i ==> #[trigger] self.items[k] == second_elapsed(orig.items[k]),
                forall|k: int| i <= k < 9 ==> #[trigger] self.items[k] == orig.items[k],
            decreases 9 - i,
        {
            if self.items[i].is_active() {
                self.items[i].timestamp = self.items[i].timestamp.saturating_sub(
                    SCHED_BASE_CLOCK_RATE,
                );
            }
            i = i + 1;
        }
        assert(self.items@ =~= Seq::new(9, |k: int| second_elapsed(orig.items[k])));
        self.recalc_next_event();
        proof {
            lemma_earliest_bound(self.items@, 0);
        }
    }

    /// The earliest event that has fired (stamp reached), the lowest slot
    /// among equal stamps; `None` when no event has fired.
    pub fn next_pending_event(&mut self) -> (r: Option<EventId>)
        requires
            old(self).wf(),
        ensures
            *final(self) == *old(self),
            r is None <==> forall|i: int| 0 <= i < 9 ==> !fired(old(self).items@, i, old(self).base_ticks),
            r matches Some(e) ==> {
                let k = event_index(e);
                &&& 0 <= k < 9
                &&& fired(old(self).items@, k, old(self).base_ticks)
                &&& forall|j: int|
                    0 <= j < 9 && j != k && fired(old(self).items@, j, old(self).base_ticks)
                        ==> before(old(self).items@, k, j)
            },
    {
        if self.next_event_ticks > self.base_ticks {
            return None;
        }
        let mut found = false;
        let mut best: usize = 0;
        let mut best_ts: u64 = 0;
        let mut idx: usize = 0;
        while idx < 9
            invariant
                idx <= 9,
                best < 9,
                found ==> fired(self.items@, best as int, self.base_ticks) && best < idx && best_ts
                    == stamp(self.items[best as int].timestamp),
                found ==> forall|j: int|
                    0 <= j < idx && j != best && fired(self.items@, j, self.base_ticks) ==> before(
                        self.items@,
                        best as int,
                        j,
                    ),
                !found ==> forall|j: int| 0 <= j < idx ==> !fired(self.items@, j, self.base_ticks),
            decreases 9 - idx,
        {
            let item = &self.items[idx];
            if item.is_active() {
                let timestamp = item.timestamp & TIMESTAMP_MASK;
                if timestamp <= self.base_ticks {
                    if !found || timestamp < best_ts {
                        let ghost prev = best;
                        let ghost was_found = found;
                        found = true;
                        best = idx;
                        best_ts = timestamp;
                        assert forall|j: int|
                            0 <= j < idx + 1 && j != best && fired(
                                self.items@,
                                j,
                                self.base_ticks,
                            ) implies before(self.items@, best as int, j) by {
                            if was_found && j != prev {
                                assert(before(self.items@, prev as int, j));
                            }
                        }
                    }
                }
            }
            idx = idx + 1;
        }
        if found {
            Some(EventId::from_index(best))
        } else {
            None
        }
    }

    /// Every fired event, earliest stamp first (lower slot first among equal
    /// stamps).
    pub fn pending_events(&self) -> (r: Vec<EventId>)
        ensures
            forall|a: int|
                0 <= a < r@.len() ==> 0 <= event_index(#[trigger] r@[a]) < 9 && fired(
                    self.items@,
                    event_index(r@[a]),
                    self.base_ticks,
                ),
            forall|i: int|
                0 <= i < 9 && fired(self.items@, i, self.base_ticks) ==> r@.contains(event_at(i)),
            forall|a: int, b: int|
                0 <= a < b < r@.len() ==> before(
                    self.items@,
                    event_index(#[trigger] r@[a]),
                    event_index(#[trigger] r@[b]),
                ),
    {
        let mut order: Vec<usize> = Vec::new();
        let mut idx: usize = 0;
        while idx < 9
            invariant
                idx <= 9,
                forall|a: int|
                    0 <= a < order@.len() ==> #[trigger] order@[a] < idx && fired(
                        self.items@,
                        order@[a] as int,
                        self.base_ticks,
                    ),
                forall|j: int|
                    0 <= j < idx && fired(self.items@, j, self.base_ticks) ==> order@.contains(
                        j as usize,
                    ),
                forall|a: int, b: int|
                    0 <= a < b < order@.len() ==> before(
                        self.items@,
                        #[trigger] order@[a] as int,
                        #[trigger] order@[b] as int,
                    ),
            decreases 9 - idx,
        {
            let item = &self.items[idx];
            if item.is_active() {
                let timestamp = item.timestamp & TIMESTAMP_MASK;
                if timestamp <= self.base_ticks {
                    let mut p: usize = 0;
                    while p < order.len() && (self.items[order[p]].timestamp & TIMESTAMP_MASK)
                        <= timestamp
                        invariant
                            p <= order@.len(),
                            idx < 9,
                            timestamp == stamp(self.items[idx as int].timestamp),
                            forall|a: int| 0 <= a < order@.len() ==> #[trigger] order@[a] < idx,
                            forall|a: int|
                                0 <= a < p ==> stamp(self.items[#[trigger] order@[a] as int].timestamp)
                                    <= timestamp,
                        decreases order@.len() - p,
                    {
                        p = p + 1;
                    }
                    let ghost before_insert = order@;
                    order.insert(p, idx);
                    assert forall|a: int, b: int|
                        0 <= a < b < order@.len() implies before(
                            self.items@,
                            #[trigger] order@[a] as int,
                            #[trigger] order@[b] as int,
                        ) by {
                        if b < p {
                            assert(order@[a] == before_insert[a] && order@[b] == before_insert[b]);
                        } else if b == p {
                            assert(order@[a] == before_insert[a]);
                        } else if a == p {
                            assert(order@[b] == before_insert[b - 1]);
                            assert(before(self.items@, before_insert[p as int] as int, before_insert[b - 1] as int) || p == b - 1);
                        } else if a < p {
                            assert(order@[a] == before_insert[a] && order@[b] == before_insert[b - 1]);
                        } else {
                            assert(order@[a] == before_insert[a - 1] && order@[b] == before_insert[b - 1]);
                        }
                    }
                    assert forall|j: int|
                        0 <= j < idx + 1 && fired(self.items@, j, self.base_ticks) implies order@.contains(
                            j as usize,
                        ) by {
                        if j < idx {
                            assert(before_insert.contains(j as usize));
                            let a = choose|a: int| 0 <= a < before_insert.len() && before_insert[a] == j as usize;
                            if a < p {
                                assert(order@[a] == j as usize);
                            } else {
                                assert(order@[a + 1] == j as usize);
                            }
                        } else {
                            assert(order@[p as int] == idx);
                        }
                    }
                }
            }
            idx = idx + 1;
        }
        let mut out: Vec<EventId> = Vec::new();
        let mut k: usize = 0;
        while k < order.len()
            invariant
                k <= order@.len(),
                out@.len() == k,
                forall|a: int| 0 <= a < k ==> #[trigger] out@[a] == event_at(order@[a] as int),
                forall|a: int| 0 <= a < order@.len() ==> #[trigger] order@[a] < 9,
            decreases order@.len() - k,
        {
            out.push(EventId::from_index(order[k]));
            k = k + 1;
        }
        assert forall|a: int| 0 <= a < out@.len() implies event_index(#[trigger] out@[a]) == order@[a] as int by {}
        assert forall|i: int|
            0 <= i < 9 && fired(self.items@, i, self.base_ticks) implies out@.contains(event_at(i)) by {
            assert(order@.contains(i as usize));
            let a = choose|a: int| 0 <= a < order@.len() && order@[a] == i as usize;
            assert(out@[a] == event_at(i));
        }
        out
    }

    /// CPU cycles until the earliest active event fires (rounded up); 0 when
    /// an event is already due or none is active.
    pub fn cycles_until_next_event(&self) -> (r: u64)
        requires
            self.wf(),
        ensures
            r == self.wait_cycles(),
    {
        let mut earliest = u64::MAX;
        let mut i: usize = 9;
        while i > 0
            invariant
                i <= 9,
                earliest == earliest_from(self.items@, i as int),
            decreases i,
        {
            i = i - 1;
            let item = &self.items[i];
            if item.is_active() {
                let ts = item.timestamp & TIMESTAMP_MASK;
                if ts < earliest {
                    earliest = ts;
                }
            }
        }
        proof {
            lemma_earliest_bound(self.items@, 0);
            if earliest != u64::MAX {
                let k = choose|k: int|
                    0 <= k < 9 && active(self.items@[k].timestamp) && earliest == stamp(
                        #[trigger] self.items@[k].timestamp,
                    );
                lemma_stamp(self.items@[k].timestamp);
            }
        }
        proof {
            lemma_ticks_per(ClockId::Cpu, self.cpu_speed);
        }
        if earliest != u64::MAX && earliest > self.base_ticks {
            let base_ticks_remaining = earliest - self.base_ticks;
            (base_ticks_remaining + self.cached_cpu_base_ticks - 1) / self.cached_cpu_base_ticks
        } else {
            0
        }
    }

    /// 32 kHz ticks until the next RTC latch point (`latch_offset` ticks into
    /// each second of the 32 kHz count).
    pub fn ticks_until_next_latch(&self, latch_offset: u64) -> (r: u64)
        requires
            latch_offset <= u64::MAX - TICKS_PER_SECOND,
        ensures
            ({
                let pos = (self.base_ticks / 234_375) % 32_768;
                r == (if pos < latch_offset {
                    latch_offset - pos
                } else {
                    TICKS_PER_SECOND - pos + latch_offset
                })
            }),
    {
        let base_ticks_per_32k = ClockId::Clock32K.base_ticks_per_tick(self.cpu_speed);
        proof {
            lemma_ticks_per(ClockId::Clock32K, self.cpu_speed);
        }
        let current_32k_tick = self.base_ticks / base_ticks_per_32k;
        let position_in_second = current_32k_tick % TICKS_PER_SECOND;
        if position_in_second < latch_offset {
            latch_offset - position_in_second
        } else {
            TICKS_PER_SECOND - position_in_second + latch_offset
        }
    }

    /// Bytes in a scheduler snapshot.
    pub const SNAPSHOT_SIZE: usize = 88;

    /// Save the time, CPU speed and event timestamps as snapshot bytes: time
    /// at 0, speed at 8, the nine timestamps from 9 (little-endian), zeros to
    /// the end.
    pub fn to_bytes(&self) -> (r: [u8; 88])
        ensures
            read_le_u64(r@, 0) == self.base_ticks,
            r@[8] == self.cpu_speed,
            forall|k: int| 0 <= k < 9 ==> #[trigger] read_le_u64(r@, 9 + 8 * k) == self.items[k].timestamp,
            forall|i: int| 81 <= i < 88 ==> #[trigger] r@[i] == 0,
    {
        let mut buf = [0u8; 88];
        put_le_u64(&mut buf, 0, self.base_ticks);
        buf[8] = self.cpu_speed;
        let mut k: usize = 0;
        while k < 9
            invariant
                k <= 9,
                read_le_u64(buf@, 0) == self.base_ticks,
                buf@[8] == self.cpu_speed,
                forall|j: int| 0 <= j < k ==> #[trigger] read_le_u64(buf@, 9 + 8 * j) == self.items[j].timestamp,
                forall|i: int| 9 + 8 * k <= i < 88 ==> #[trigger] buf@[i] == 0,
            decreases 9 - k,
        {
            let ghost prev = buf@;
            put_le_u64(&mut buf, 9 + 8 * k, self.items[k].timestamp);
            assert forall|j: int| 0 <= j < k + 1 implies #[trigger] read_le_u64(buf@, 9 + 8 * j)
                == self.items[j].timestamp by {
                if j < k {
                    assert(read_le_u64(prev, 9 + 8 * j) == read_le_u64(buf@, 9 + 8 * j));
                }
            }
            k = k + 1;
        }
        buf
    }

    /// Restore time, CPU speed and timestamps from snapshot bytes, then rescan
    /// the earliest stamp. Fails with -105, changing nothing, when fewer than
    /// 88 bytes are given.
    pub fn from_bytes(&mut self, buf: &[u8]) -> (r: Result<(), i32>)
        requires
            old(self).wf(),
        ensures
            final(self).wf(),
            buf@.len() < 88 ==> r == Err::<(), i32>(-105i32) && *final(self) == *old(self),
            buf@.len() >= 88 ==> {
                &&& r == Ok::<(), i32>(())
                &&& final(self).base_ticks == read_le_u64(buf@, 0)
                &&& final(self).cpu_speed == buf@[8]
                &&& final(self).cached_cpu_base_ticks == ticks_per(ClockId::Cpu, buf@[8])
                &&& forall|k: int|
                    0 <= k < 9 ==> (#[trigger] final(self).items[k]) == (SchedItem {
                        timestamp: read_le_u64(buf@, 9 + 8 * k),
                        ..old(self).items[k]
                    })
                &&& final(self).next_event_ticks == earliest_from(final(self).items@, 0)
            },
    {
        if buf.len() < 88 {
            return Err(-105);
        }
        self.base_ticks = get_le_u64(buf, 0);
        self.cpu_speed = buf[8];
        self.cached_cpu_base_ticks = ClockId::Cpu.base_ticks_per_tick(self.cpu_speed);
        let ghost orig = *old(self);
        let ghost mid = *self;
        let mut k: usize = 0;
        while k < 9
            invariant
                k <= 9,
                buf@.len() >= 88,
                self.base_ticks == mid.base_ticks,
                self.cpu_speed == mid.cpu_speed,
                self.cached_cpu_base_ticks == mid.cached_cpu_base_ticks,
                mid.base_ticks == read_le_u64(buf@, 0),
                mid.cpu_speed == buf@[8],
                mid.cached_cpu_base_ticks == ticks_per(ClockId::Cpu, buf@[8]),
                forall|j: int|
                    0 <= j < k ==> (#[trigger] self.items[j]) == (SchedItem {
                        timestamp: read_le_u64(buf@, 9 + 8 * j),
                        ..orig.items[j]
                    }),
                forall|j: int| k <= j < 9 ==> #[trigger] self.items[j] == orig.items[j],
            decreases 9 - k,
        {
            self.items[k].timestamp = get_le_u64(buf, 9 + 8 * k);
            k = k + 1;
        }
        self.recalc_next_event();
        proof {
            lemma_earliest_bound(self.items@, 0);
        }
        Ok(())
    }
}

impl Default for Scheduler {
    fn default() -> (r: Self)
        ensures
            r.wf(),
            r.items@ == Self::initial_items(),
            r.base_ticks == 0,
            r.cpu_speed == 0,
            r.next_event_ticks == u64::MAX,
    {
        Self::new()
    }
}

/// Base ticks per tick of each clock: 160 at 48 MHz up to 7,680 at 1 MHz, and
/// 234,375 per 32 kHz tick; never 0.
pub proof fn lemma_ticks_per(c: ClockId, cpu_speed: u8)
    ensures
        160 <= ticks_per(c, cpu_speed) <= 7_680_000,
        c == ClockId::Clock32K ==> ticks_per(c, cpu_speed) == 234_375,
        c == ClockId::Clock48M ==> ticks_per(c, cpu_speed) == 160,
        c == ClockId::Clock24M ==> ticks_per(c, cpu_speed) == 320,
        c == ClockId::Cpu ==> ticks_per(c, cpu_speed) == (if cpu_speed == 0 {
            1280u64
        } else if cpu_speed == 1 {
            640u64
        } else if cpu_speed == 2 {
            320u64
        } else {
            160u64
        }),
{
    vstd::arithmetic::div_mod::lemma_fundamental_div_mod_converse(7_680_000_000, 32_768, 234_375, 0);
    vstd::arithmetic::div_mod::lemma_fundamental_div_mod_converse(7_680_000_000, 48_000_000, 160, 0);
    vstd::arithmetic::div_mod::lemma_fundamental_div_mod_converse(7_680_000_000, 24_000_000, 320, 0);
    vstd::arithmetic::div_mod::lemma_fundamental_div_mod_converse(7_680_000_000, 12_000_000, 640, 0);
    vstd::arithmetic::div_mod::lemma_fundamental_div_mod_converse(7_680_000_000, 6_000_000, 1280, 0);
    vstd::arithmetic::div_mod::lemma_fundamental_div_mod_converse(7_680_000_000, 3_000_000, 2560, 0);
    vstd::arithmetic::div_mod::lemma_fundamental_div_mod_converse(7_680_000_000, 1_000_000, 7680, 0);
    vstd::arithmetic::div_mod::lemma_fundamental_div_mod_converse(7_680_000_000, 10_000_000, 768, 0);
}

/// An event set to fire in `ticks` ticks (at least one) of its clock has that
/// many ticks remaining and has not fired yet.
pub proof fn lemma_set_then_remaining(s: Scheduler, s2: Scheduler, event: EventId, ticks: u64)
    requires
        s.wf(),
        0 <= event_index(event) < 9,
        ticks >= 1,
        s.base_ticks + ticks * s.slot_ticks(event_index(event)) < INACTIVE_FLAG,
        s2.items@ == s.items@.update(
            event_index(event),
            SchedItem {
                timestamp: (s.base_ticks + ticks * s.slot_ticks(event_index(event))) as u64,
                ..s.items[event_index(event)]
            },
        ),
        s2.base_ticks == s.base_ticks,
        s2.cpu_speed == s.cpu_speed,
    ensures
        s2.remaining(event_index(event)) == ticks,
        !fired(s2.items@, event_index(event), s2.base_ticks),
{
    let i = event_index(event);
    let b = s.slot_ticks(i);
    let ts = (s.base_ticks + ticks * b) as u64;
    lemma_stamp(ts);
    lemma_ticks_per(s.items[i].clock, s.cpu_speed);
    assert(s2.items[i] == s2.items@[i]);
    assert(s2.slot_ticks(i) == b);
    assert(ticks * b >= b) by (nonlinear_arith)
        requires
            ticks >= 1,
            b >= 1,
    ;
    vstd::arithmetic::div_mod::lemma_fundamental_div_mod_converse(
        (ts - s.base_ticks) as int,
        b as int,
        ticks as int,
        0,
    );
}

/// Advancing time up to or past an active event's stamp (within the second)
/// makes it fire.
pub proof fn lemma_advance_fires(s: Scheduler, i: int, delta: u64)
    requires
        s.wf(),
        0 <= i < 9,
        active(s.items[i].timestamp),
        stamp(s.items[i].timestamp) <= s.base_ticks + delta * s.cached_cpu_base_ticks
            < SCHED_BASE_CLOCK_RATE,
    ensures
        fired(s.items@, i, (s.base_ticks + delta * s.cached_cpu_base_ticks) as u64),
{
}

/// Taking a second off the clock keeps the time left until each active event
/// whose stamp is at least one second.
pub proof fn lemma_second_keeps_remaining(item: SchedItem, base: u64)
    requires
        active(item.timestamp),
        item.timestamp >= SCHED_BASE_CLOCK_RATE,
        base >= SCHED_BASE_CLOCK_RATE,
    ensures
        active(second_elapsed(item).timestamp),
        stamp(second_elapsed(item).timestamp) - (base - SCHED_BASE_CLOCK_RATE) == stamp(
            item.timestamp,
        ) - base,
{
    lemma_stamp(item.timestamp);
    lemma_stamp(second_elapsed(item).timestamp);
}

/// The event `next_pending_event` picks is the first of `pending_events`: both
/// order the fired events by stamp, then slot.
pub proof fn lemma_next_is_first_pending(
    items: Seq<SchedItem>,
    now: u64,
    pending: Seq<EventId>,
    k: int,
)
    requires
        items.len() == 9,
        0 <= k < 9,
        fired(items, k, now),
        forall|j: int| 0 <= j < 9 && j != k && fired(items, j, now) ==> before(items, k, j),
        forall|a: int|
            0 <= a < pending.len() ==> 0 <= event_index(#[trigger] pending[a]) < 9 && fired(
                items,
                event_index(pending[a]),
                now,
            ),
        forall|i: int| 0 <= i < 9 && fired(items, i, now) ==> pending.contains(event_at(i)),
        forall|a: int, b: int|
            0 <= a < b < pending.len() ==> before(
                items,
                event_index(#[trigger] pending[a]),
                event_index(#[trigger] pending[b]),
            ),
    ensures
        pending.len() > 0,
        pending[0] == event_at(k),
{
    assert(pending.contains(event_at(k)));
    let a = choose|a: int| 0 <= a < pending.len() && pending[a] == event_at(k);
    assert(event_index(event_at(k)) == k);
    if a > 0 {
        let j = event_index(pending[0]);
        assert(before(items, j, k));
        if j != k {
            assert(before(items, k, j));
        }
    }
}

/// Restoring a scheduler snapshot gives back the time, CPU speed and every
/// event timestamp, with the earliest stamp rescanned.
pub proof fn lemma_snapshot_round_trip(s: Scheduler, t: Scheduler, b: Seq<u8>, u: Scheduler)
    requires
        s.wf(),
        t.wf(),
        read_le_u64(b, 0) == s.base_ticks,
        b[8] == s.cpu_speed,
        forall|k: int| 0 <= k < 9 ==> #[trigger] read_le_u64(b, 9 + 8 * k) == s.items[k].timestamp,
        u.base_ticks == read_le_u64(b, 0),
        u.cpu_speed == b[8],
        u.cached_cpu_base_ticks == ticks_per(ClockId::Cpu, b[8]),
        forall|k: int|
            0 <= k < 9 ==> (#[trigger] u.items[k]) == (SchedItem {
                timestamp: read_le_u64(b, 9 + 8 * k),
                ..t.items[k]
            }),
        u.next_event_ticks == earliest_from(u.items@, 0),
    ensures
        u.items == s.items,
        u.base_ticks == s.base_ticks,
        u.cpu_speed == s.cpu_speed,
        u.cached_cpu_base_ticks == s.cached_cpu_base_ticks,
        u.next_event_ticks == earliest_from(s.items@, 0),
{
    assert forall|k: int| 0 <= k < 9 implies u.items[k] == s.items[k] by {
        assert(read_le_u64(b, 9 + 8 * k) == s.items[k].timestamp);
    }
    assert(u.items =~= s.items);
}

/// What the 88 snapshot bytes `b` hold for the scheduler `s`: the time, the
/// CPU speed, the nine timestamps, and zeros after them.
pub open spec fn snapshot_holds(b: Seq<u8>, s: Scheduler) -> bool {
    &&& b.len() == 88
    &&& read_le_u64(b, 0) == s.base_ticks
    &&& b[8] == s.cpu_speed
    &&& forall|k: int| 0 <= k < 9 ==> #[trigger] read_le_u64(b, 9 + 8 * k) == s.items[k].timestamp
    &&& forall|i: int| 81 <= i < 88 ==> #[trigger] b[i] == 0
}

/// Two scheduler snapshots that hold the same time, speed and timestamps
/// are the same bytes.
pub proof fn lemma_snapshot_bytes_unique(a: Seq<u8>, b: Seq<u8>, s: Scheduler)
    requires
        snapshot_holds(a, s),
        snapshot_holds(b, s),
    ensures
        a == b,
{
    crate::bits::lemma_le_u64_bytes(a, b, 0);
    assert forall|i: int| 0 <= i < 88 implies #[trigger] a[i] == b[i] by {
        if i == 8 {
        } else if 9 <= i < 81 {
            let k = (i - 9) / 8;
            assert(read_le_u64(a, 9 + 8 * k) == s.items[k].timestamp);
            assert(read_le_u64(b, 9 + 8 * k) == s.items[k].timestamp);
            crate::bits::lemma_le_u64_bytes(a, b, 9 + 8 * k);
        }
    }
    assert(a =~= b);
}

/// Loading a saved scheduler snapshot reproduces it: the restored scheduler
/// saves the same bytes again, and has every event active, fired and
/// remaining exactly as the saved one, whatever scheduler it was loaded
/// into.
pub proof fn lemma_snapshot_reproduced(s: Scheduler, t: Scheduler, b: Seq<u8>, u: Scheduler, b2: Seq<u8>)
    requires
        s.wf(),
        t.wf(),
        snapshot_holds(b, s),
        u.base_ticks == read_le_u64(b, 0),
        u.cpu_speed == b[8],
        u.cached_cpu_base_ticks == ticks_per(ClockId::Cpu, b[8]),
        forall|k: int|
            0 <= k < 9 ==> (#[trigger] u.items[k]) == (SchedItem {
                timestamp: read_le_u64(b, 9 + 8 * k),
                ..t.items[k]
            }),
        u.next_event_ticks == earliest_from(u.items@, 0),
        snapshot_holds(b2, u),
    ensures
        b2 == b,
        forall|i: int|
            0 <= i < 9 ==> #[trigger] u.remaining(i) == s.remaining(i) && active(
                u.items[i].timestamp,
            ) == active(s.items[i].timestamp) && fired(u.items@, i, u.base_ticks) == fired(
                s.items@,
                i,
                s.base_ticks,
            ),
{
    lemma_snapshot_round_trip(s, t, b, u);
    assert(u.items@ == s.items@);
    assert(snapshot_holds(b, u));
    lemma_snapshot_bytes_unique(b, b2, u);
}

/// The wait reported by `cycles_until_next_event` is the least number of CPU
/// cycles after which the earliest active event (the smallest active stamp,
/// `lemma_earliest_bound`) is due: 0 when none is active or one is already
/// due, and otherwise the `n` with (n - 1) * c < stamp - time <= n * c, `c`
/// being the base ticks per CPU cycle at the current speed.
pub proof fn lemma_wait_cycles_least(s: Scheduler)
    requires
        s.wf(),
    ensures
        ({
            let e = earliest_from(s.items@, 0);
            let c = ticks_per(ClockId::Cpu, s.cpu_speed) as int;
            let n = s.wait_cycles() as int;
            &&& e == u64::MAX || e <= s.base_ticks ==> n == 0
            &&& e != u64::MAX && e > s.base_ticks ==> n >= 1 && (n - 1) * c < e - s.base_ticks
                <= n * c
        }),
{
    let e = earliest_from(s.items@, 0);
    lemma_ticks_per(ClockId::Cpu, s.cpu_speed);
    let c = s.cached_cpu_base_ticks as int;
    if e != u64::MAX && e > s.base_ticks {
        let d = e - s.base_ticks;
        let n = (d + c - 1) / c;
        assert(n >= 1 && (n - 1) * c < d <= n * c) by (nonlinear_arith)
            requires
                c >= 1,
                d >= 1,
                n == (d + c - 1) / c,
        ;
        assert(n <= u64::MAX) by (nonlinear_arith)
            requires
                c >= 1,
                1 <= d <= u64::MAX,
                n == (d + c - 1) / c,
        ;
    }
}

/// An event that has fired makes the scheduler report pending events: the
/// cached earliest stamp never lies after an active event's stamp. Every
/// operation keeps this (each ensures `wf`), so it holds of every scheduler
/// reached from `new`.
pub proof fn lemma_fired_means_pending(s: Scheduler, i: int)
    requires
        s.wf(),
        0 <= i < 9,
        fired(s.items@, i, s.base_ticks),
    ensures
        s.next_event_ticks <= s.base_ticks,
{
    assert(active(s.items[i].timestamp));
}

/// A change of CPU rate, event by event: an event that is inactive, not on
/// the CPU clock or not after the current time keeps its timestamp; any
/// other gets the current time plus its remaining base ticks, counted in
/// whole old-rate CPU cycles, at the new rate.
pub proof fn lemma_convert_each(item: SchedItem, base: u64, old_mhz: u32, new_mhz: u32)
    ensures
        !needs_conversion(item, base) ==> converted(item, base, mhz_ticks(old_mhz), mhz_ticks(
            new_mhz,
        )) == item,
        needs_conversion(item, base) ==> converted(item, base, mhz_ticks(old_mhz), mhz_ticks(
            new_mhz,
        )) == (SchedItem {
            timestamp: (base + ((stamp(item.timestamp) - base) / (mhz_ticks(old_mhz) as int))
                * mhz_ticks(new_mhz)) as u64,
            ..item
        }),
        mhz_ticks(old_mhz) == (7_680_000_000int / (old_mhz * 1_000_000int)) as u64,
{
}

} // verus!
