//! Configuration and plan of a traffic run. All spans of time are whole
//! nanoseconds.

use vstd::prelude::*;
use vstd::arithmetic::div_mod::lemma_fundamental_div_mod;
use vstd::arithmetic::mul::lemma_mul_is_associative;
use vstd::arithmetic::mul::lemma_mul_is_commutative;
use crate::client::host::host_cpus;

verus! {

/// Nanoseconds in a second.
pub const NANOS_PER_SEC: u64 = 1_000_000_000;

/// The socket address that the run connects to, as plain numbers.
#[derive(Debug, Copy, Clone)]
pub enum Target {
    V4 { octets: [u8; 4], port: u16 },
    V6 { segments: [u16; 8], port: u16, flowinfo: u32, scope_id: u32 },
}

/// What a run is asked to do.
#[derive(Debug, Copy, Clone)]
pub struct Config {
    /// Requests per second that the run stays under; `None` is unthrottled.
    pub rate: Option<u32>,
    pub target: Target,
    /// How long the run lasts, in nanoseconds; `None` is without end.
    pub duration: Option<u64>,
    /// Threads to spread the connections over; zero takes the host's cores.
    pub num_threads: u32,
    /// Milliseconds that a connect may take.
    pub connect_timeout: u32,
    /// Milliseconds that reading a response may take.
    pub read_timeout: u32,
    /// Connection slots over all threads.
    pub connections: u32,
}

impl Config {
    /// A modest unthrottled run against `target`: ten connections on one
    /// thread, without end, with timeouts of a quarter of a second.
    pub fn new(target: Target) -> (config: Config)
        ensures
            config == (Config {
                target,
                rate: None,
                duration: None,
                num_threads: 1,
                connect_timeout: 250,
                read_timeout: 250,
                connections: 10,
            }),
    {
        Config {
            target,
            rate: None,
            duration: None,
            num_threads: 1,
            connect_timeout: 250,
            read_timeout: 250,
            connections: 10,
        }
    }

    /// A rate, where one is set, is not zero: no interval realises zero
    /// requests per second.
    pub open spec fn valid(self) -> bool {
        self.rate != Some(0u32)
    }

    /// Whether a plan can be made for this configuration.
    pub fn is_valid(&self) -> (valid: bool)
        ensures
            valid == self.valid(),
    {
        match self.rate {
            Some(rate) => rate != 0,
            None => true,
        }
    }
}

/// The thread count of a run: the requested one, or for zero the host's core
/// count as far as it fits 32 bits.
pub open spec fn spec_threads(requested: u32, cpus: usize) -> int {
    if requested != 0 {
        requested as int
    } else {
        cpus as int % 0x1_0000_0000
    }
}

/// Slots per thread: the connections shared out evenly, and at least one.
pub open spec fn spec_conns_per_thread(connections: u32, threads: int) -> int {
    if connections as int / threads == 0 {
        1
    } else {
        connections as int / threads
    }
}

/// The interval between two requests of the whole run at `rate` per second.
pub open spec fn spec_tick(rate: u32) -> int {
    NANOS_PER_SEC as int / rate as int
}

/// How a run is laid out: so many threads with so many slots each, and the
/// interval that paces them.
#[derive(Debug, Copy, Clone)]
pub struct Plan {
    pub num_threads: u32,
    pub conns_per_thread: u32,
    /// Nanoseconds between two requests of the whole run; `None` without a
    /// rate.
    pub tick: Option<u64>,
    /// The run's length in nanoseconds: once more time than this has passed
    /// since the start, slots begin no new request.
    pub deadline: Option<u64>,
}

/// The plan of a configuration on a host with `cpus` cores.
pub open spec fn spec_plan(config: Config, cpus: usize) -> Plan {
    let threads = spec_threads(config.num_threads, cpus);
    Plan {
        num_threads: threads as u32,
        conns_per_thread: spec_conns_per_thread(config.connections, threads) as u32,
        tick: match config.rate {
            Some(rate) => Some(spec_tick(rate) as u64),
            None => None,
        },
        deadline: config.duration,
    }
}

/// The thread count for a request of `requested` threads on a host with
/// `cpus` cores.
pub fn threads(requested: u32, cpus: usize) -> (n: u32)
    ensures
        n == spec_threads(requested, cpus),
{
    if requested != 0 {
        requested
    } else {
        ((cpus as u64) % 0x1_0000_0000u64) as u32
    }
}

/// The slots that each of `threads` threads gets of `connections`. With fewer
/// connections than threads every thread still gets one.
pub fn conns_per_thread(connections: u32, threads: u32) -> (n: u32)
    requires
        threads != 0,
    ensures
        n == spec_conns_per_thread(connections, threads as int),
        n >= 1,
        threads * n <= u32::MAX,
{
    let share = connections / threads;
    proof {
        lemma_fundamental_div_mod(connections as int, threads as int);
    }
    if share == 0 {
        1
    } else {
        share
    }
}

/// The nanoseconds between two requests at `rate` requests per second.
pub fn tick(rate: u32) -> (nanos: u64)
    requires
        rate != 0,
    ensures
        nanos == spec_tick(rate),
        nanos <= NANOS_PER_SEC,
{
    NANOS_PER_SEC / (rate as u64)
}

impl Plan {
    /// There is a thread, each thread has a slot, the slots can be counted in
    /// 32 bits, and the interval is at most a second.
    pub open spec fn wf(self) -> bool {
        &&& self.num_threads >= 1
        &&& self.conns_per_thread >= 1
        &&& self.num_threads * self.conns_per_thread <= u32::MAX
        &&& self.tick matches Some(tick) ==> tick <= NANOS_PER_SEC
    }

    /// A rate is set, so the slots are paced.
    pub open spec fn paced(self) -> bool {
        self.tick is Some
    }

    /// All slots of the run.
    pub open spec fn spec_slots(self) -> int {
        self.num_threads * self.conns_per_thread
    }

    /// How long the launch of each thread is held back after the one before:
    /// one tick, and nothing without a rate.
    pub open spec fn spec_thread_gap(self) -> int {
        match self.tick {
            Some(tick) => tick as int,
            None => 0,
        }
    }

    /// How long slot `slot` of a thread waits before its first request.
    pub open spec fn spec_stagger(self, slot: u32) -> int {
        self.spec_thread_gap() * self.num_threads * slot
    }

    /// The time that one slot leaves between the starts of two of its
    /// requests, so that all slots together keep the rate.
    pub open spec fn spec_pacing_delay(self) -> int {
        self.spec_thread_gap() * self.conns_per_thread * self.num_threads
    }

    /// When slot `slot` of thread `thread` is due to begin, counted from the
    /// launch of the first thread.
    pub open spec fn spec_start_offset(self, thread: u32, slot: u32) -> int {
        self.spec_thread_gap() * thread + self.spec_stagger(slot)
    }

    /// The plan for a configuration on a host with `cpus` cores.
    pub fn resolve(config: &Config, cpus: usize) -> (plan: Plan)
        requires
            config.valid(),
            spec_threads(config.num_threads, cpus) != 0,
        ensures
            plan == spec_plan(*config, cpus),
            plan.wf(),
    {
        let num_threads = threads(config.num_threads, cpus);
        let conns_per_thread = conns_per_thread(config.connections, num_threads);
        let tick = match config.rate {
            Some(rate) => Some(tick(rate)),
            None => None,
        };
        Plan { num_threads, conns_per_thread, tick, deadline: config.duration }
    }

    /// The plan for a configuration on this host. There is none for a rate of
    /// zero, nor where the thread count is left to a host that reports a core
    /// count of zero in its low 32 bits.
    pub fn for_host(config: &Config) -> (plan: Option<Plan>)
        ensures
            !config.valid() ==> plan is None,
            config.valid() && config.num_threads != 0 ==> plan == Some(spec_plan(*config, 0)),
            plan matches Some(p) ==> p.wf() && exists|cpus: usize|
                spec_threads(config.num_threads, cpus) != 0 && p == #[trigger] spec_plan(
                    *config,
                    cpus,
                ),
    {
        if !config.is_valid() {
            return None;
        }
        let cpus = host_cpus();
        if threads(config.num_threads, cpus) == 0 {
            return None;
        }
        Some(Plan::resolve(config, cpus))
    }

    /// The number of slots over all threads.
    pub fn slots(&self) -> (n: u32)
        requires
            self.wf(),
        ensures
            n == self.spec_slots(),
    {
        self.num_threads * self.conns_per_thread
    }

    /// The wait of slot `slot` before its first request; none without a
    /// rate.
    pub fn stagger(&self, slot: u32) -> (delay: Option<u64>)
        requires
            self.wf(),
            slot < self.conns_per_thread,
        ensures
            self.spec_stagger(slot) <= u64::MAX,
            delay == (if self.paced() {
                Some(self.spec_stagger(slot) as u64)
            } else {
                None
            }),
    {
        proof {
            assert(self.num_threads * slot <= self.num_threads * self.conns_per_thread)
                by (nonlinear_arith)
                requires
                    slot < self.conns_per_thread,
            ;
            lemma_span_fits(self.spec_thread_gap(), self.num_threads as int, slot as int);
        }
        match self.tick {
            Some(tick) => Some(tick * (self.num_threads as u64) * (slot as u64)),
            None => None,
        }
    }

    /// The time between the starts of two requests of one slot; none without
    /// a rate.
    pub fn pacing_delay(&self) -> (delay: Option<u64>)
        requires
            self.wf(),
        ensures
            self.spec_pacing_delay() <= u64::MAX,
            delay == (if self.paced() {
                Some(self.spec_pacing_delay() as u64)
            } else {
                None
            }),
    {
        proof {
            lemma_mul_is_commutative(self.conns_per_thread as int, self.num_threads as int);
            lemma_span_fits(
                self.spec_thread_gap(),
                self.conns_per_thread as int,
                self.num_threads as int,
            );
        }
        match self.tick {
            Some(tick) => Some(tick * (self.conns_per_thread as u64) * (self.num_threads as u64)),
            None => None,
        }
    }

    /// The wait between the launches of two threads.
    pub fn thread_gap(&self) -> (gap: u64)
        ensures
            gap == self.spec_thread_gap(),
    {
        match self.tick {
            Some(tick) => tick,
            None => 0,
        }
    }
}

/// A tick times two counts whose product fits 32 bits fits 64 bits, and so
/// does the tick times the first count alone.
pub proof fn lemma_span_fits(tick: int, a: int, b: int)
    requires
        0 <= tick <= NANOS_PER_SEC,
        0 <= a <= u32::MAX,
        0 <= b,
        a * b <= u32::MAX,
    ensures
        0 <= tick * a <= u64::MAX,
        0 <= tick * a * b <= u64::MAX,
{
    assert(0 <= tick * a <= NANOS_PER_SEC * 0xffff_ffff) by (nonlinear_arith)
        requires
            0 <= tick <= NANOS_PER_SEC,
            0 <= a <= 0xffff_ffff,
    ;
    lemma_mul_is_associative(tick, a, b);
    assert(0 <= tick * (a * b) <= NANOS_PER_SEC * 0xffff_ffff) by (nonlinear_arith)
        requires
            0 <= tick <= NANOS_PER_SEC,
            0 <= a * b <= 0xffff_ffff,
    ;
}

} // verus!
